use wavedecode::audio_file::AudioFile;
use wavedecode::player::PlaybackCursor;
use wavedecode::samples::{ieee_float_to_samples, pcm_to_samples, Sample};
use wavedecode::wave_file::DecodeError;
use wavedecode::WaveFormatType;

fn put(buf: &mut Vec<u8>, off: usize, bytes: &[u8]) {
    if buf.len() < off + bytes.len() {
        buf.resize(off + bytes.len(), 0);
    }
    buf[off..off + bytes.len()].copy_from_slice(bytes);
}

/// A canonical header with the given format tag, one channel at 44100 Hz, and
/// the data chunk's size field at the offset that the format uses.
fn wav(tag: u16, bits: i16, data_size: i32, data: &[u8]) -> Vec<u8> {
    let mut b: Vec<u8> = Vec::new();
    put(&mut b, 0, b"RIFF");
    put(&mut b, 8, b"WAVE");
    put(&mut b, 12, b"fmt ");
    put(&mut b, 0x14, &tag.to_le_bytes());
    put(&mut b, 0x16, &1i16.to_le_bytes());
    put(&mut b, 0x18, &44100i32.to_le_bytes());
    put(&mut b, 0x22, &bits.to_le_bytes());
    let size_pos = if tag == 3 { 0x4C } else { 0x28 };
    put(&mut b, size_pos - 4, b"data");
    put(&mut b, size_pos, &data_size.to_le_bytes());
    put(&mut b, size_pos + 4, data);
    b
}

fn value(s: &Sample) -> f32 {
    match *s {
        Sample::Fixed { numerator, denominator } => numerator as f32 / denominator as f32,
        Sample::Float32 { bits } => f32::from_bits(bits),
        Sample::Float64 { bits64 } => f64::from_bits(bits64) as f32,
    }
}

#[test]
fn pcm16_minimal_file_decodes() {
    let b = wav(1, 16, 2, &[0x00, 0x80]);
    let a = AudioFile::load_wav_file(&b).unwrap();
    assert_eq!(a.channels, 1);
    assert_eq!(a.sample_rate, 44100);
    assert_eq!(a.bits_per_sample, 16);
    assert_eq!(a.data, vec![Sample::Fixed { numerator: -32768, denominator: 32768 }]);
    assert_eq!(value(&a.data[0]), -1.0);
}

#[test]
fn float32_minimal_file_decodes() {
    let b = wav(3, 32, 4, &0.5f32.to_le_bytes());
    let a = AudioFile::load_wav_file(&b).unwrap();
    assert_eq!(a.channels, 1);
    assert_eq!(a.sample_rate, 44100);
    assert_eq!(a.data.len(), 1);
    assert_eq!(value(&a.data[0]), 0.5);
}

#[test]
fn float32_keeps_bit_pattern() {
    for x in [0.5f32, -0.25, 1.0e-3, -0.0, f32::MIN_POSITIVE] {
        let s = ieee_float_to_samples(32, &x.to_le_bytes());
        assert_eq!(s, vec![Sample::Float32 { bits: x.to_bits() }]);
    }
}

#[test]
fn float64_samples_decode() {
    let mut d: Vec<u8> = Vec::new();
    d.extend_from_slice(&0.25f64.to_le_bytes());
    d.extend_from_slice(&(-0.75f64).to_le_bytes());
    d.push(7);
    let s = ieee_float_to_samples(64, &d);
    assert_eq!(s.len(), 2);
    assert_eq!(value(&s[0]), 0.25);
    assert_eq!(value(&s[1]), -0.75);
}

#[test]
fn pcm8_extremes_decode() {
    let s = pcm_to_samples(8, &[0, 128, 255]);
    assert_eq!(s[0], Sample::Fixed { numerator: -128, denominator: 128 });
    assert_eq!(value(&s[0]), -1.0);
    assert_eq!(value(&s[1]), 0.0);
    assert_eq!(value(&s[2]), 127.0 / 128.0);
}

#[test]
fn pcm16_extremes_decode() {
    let mut d: Vec<u8> = Vec::new();
    d.extend_from_slice(&i16::MIN.to_le_bytes());
    d.extend_from_slice(&i16::MAX.to_le_bytes());
    let s = pcm_to_samples(16, &d);
    assert_eq!(value(&s[0]), -1.0);
    let top = value(&s[1]);
    assert!(top > 0.999 && top < 1.0);
}

#[test]
fn pcm32_minimum_decodes() {
    let mut d: Vec<u8> = Vec::new();
    d.extend_from_slice(&i32::MIN.to_le_bytes());
    d.extend_from_slice(&(1i32 << 30).to_le_bytes());
    let s = pcm_to_samples(32, &d);
    assert_eq!(s[0], Sample::Fixed { numerator: -2147483648, denominator: 2147483648 });
    assert_eq!(value(&s[0]), -1.0);
    assert_eq!(value(&s[1]), 0.5);
}

#[test]
fn trailing_partial_stride_is_dropped() {
    assert_eq!(pcm_to_samples(16, &[1, 0, 2]).len(), 1);
    assert_eq!(pcm_to_samples(32, &[1, 0, 0, 0, 9, 9, 9]).len(), 1);
    assert_eq!(ieee_float_to_samples(32, &[0, 0, 0]).len(), 0);
}

#[test]
fn missing_signature_fails() {
    let mut b = wav(1, 16, 2, &[0x00, 0x80]);
    b[0] = b'X';
    assert_eq!(AudioFile::load_wav_file(&b).unwrap_err(), DecodeError::InvalidFormat);
    assert_eq!(AudioFile::load_wav_file(b"RIF").unwrap_err(), DecodeError::InvalidFormat);
    assert_eq!(AudioFile::load_wav_file(&[]).unwrap_err(), DecodeError::InvalidFormat);
}

#[test]
fn negative_data_size_fails() {
    let b = wav(1, 16, -1, &[]);
    assert_eq!(AudioFile::load_wav_file(&b).unwrap_err(), DecodeError::InvalidData);
    let b = wav(3, 32, i32::MIN, &[]);
    assert_eq!(AudioFile::load_wav_file(&b).unwrap_err(), DecodeError::InvalidData);
}

#[test]
fn truncated_data_fails() {
    let b = wav(1, 16, 8, &[1, 2, 3]);
    assert_eq!(AudioFile::load_wav_file(&b).unwrap_err(), DecodeError::IoError);
}

#[test]
fn unsupported_depth_gives_no_samples() {
    let b = wav(1, 24, 6, &[1, 2, 3, 4, 5, 6]);
    let a = AudioFile::load_wav_file(&b).unwrap();
    assert!(a.data.is_empty());
    assert_eq!(a.channels, 1);
    assert_eq!(a.sample_rate, 44100);
    assert_eq!(a.bits_per_sample, 24);
}

#[test]
fn other_formats_give_no_samples() {
    let b = wav(6, 8, 2, &[1, 2]);
    let a = AudioFile::load_wav_file(&b).unwrap();
    assert!(a.data.is_empty());
    assert_eq!(a.sample_rate, 44100);
}

#[test]
fn short_header_fields_read_as_zero() {
    let a = AudioFile::load_wav_file(b"RIFF\x00\x00").unwrap();
    assert_eq!(a.channels, 0);
    assert_eq!(a.sample_rate, 0);
    assert_eq!(a.bits_per_sample, 0);
    assert!(a.data.is_empty());
}

#[test]
fn duration_is_count_over_rate() {
    let d: Vec<u8> = vec![0; 8];
    let b = wav(1, 16, 8, &d);
    let a = AudioFile::load_wav_file(&b).unwrap();
    assert_eq!(a.duration(), (4, 44100));
    let f = AudioFile::new(2, 8000, 8, vec![Sample::Float32 { bits: 0 }; 16000]);
    assert_eq!(f.duration(), (16000, 8000));
}

#[test]
fn format_tags_map() {
    assert_eq!(WaveFormatType::from_tag(1), WaveFormatType::PCM);
    assert_eq!(WaveFormatType::from_tag(3), WaveFormatType::IEEEFloat);
    assert_eq!(WaveFormatType::from_tag(6), WaveFormatType::ALAW);
    assert_eq!(WaveFormatType::from_tag(7), WaveFormatType::MULAW);
    assert_eq!(WaveFormatType::from_tag(0xFFFE), WaveFormatType::EXTENSIBLE);
    assert_eq!(WaveFormatType::from_tag(2), WaveFormatType::Unknown);
}

#[test]
fn cursor_walks_all_samples() {
    let mut c = PlaybackCursor::new(2);
    assert_eq!(c.current_frame_len(), 2);
    assert_eq!(c.next_index(), Some(0));
    assert_eq!(c.next_index(), Some(1));
    assert_eq!(c.current_frame_len(), 0);
    assert_eq!(c.next_index(), None);
    assert_eq!(c.current_index, 2);
}
