use vstd::prelude::*;

use crate::audio_file::AudioFile;
use crate::le::{le_i16, le_i32, le_u16, read_i16_le, read_i32_le, read_u16_le};
use crate::samples::{Sample, float_samples, ieee_float_to_samples, pcm_samples, pcm_to_samples};
use crate::WaveFormatType;

verus! {

/// Why a RIFF/WAVE byte stream could not be decoded.
#[derive(Debug, Clone, Copy, PartialEq, Eq, Structural)]
pub enum DecodeError {
    /// The data chunk holds fewer bytes than its size field declares.
    IoError,
    /// The stream does not start with the signature "RIFF".
    InvalidFormat,
    /// The data chunk's size field is negative.
    InvalidData,
}

/// Byte offsets of the fixed header fields.
pub const FORMAT_OFFSET: usize = 0x14;
pub const CHANNELS_OFFSET: usize = 0x16;
pub const SAMPLE_RATE_OFFSET: usize = 0x18;
pub const BITS_OFFSET: usize = 0x22;
/// Offset of the data chunk's size field in a PCM file.
pub const PCM_DATA_SIZE_OFFSET: usize = 0x28;
/// Offset of the data chunk's size field in an IEEE-float file, whose `fmt`
/// chunk carries an extension.
pub const FLOAT_DATA_SIZE_OFFSET: usize = 0x4C;

pub open spec fn format_of_tag(tag: int) -> WaveFormatType {
    if tag == 1 {
        WaveFormatType::PCM
    } else if tag == 3 {
        WaveFormatType::IEEEFloat
    } else if tag == 6 {
        WaveFormatType::ALAW
    } else if tag == 7 {
        WaveFormatType::MULAW
    } else if tag == 0xFFFE {
        WaveFormatType::EXTENSIBLE
    } else {
        WaveFormatType::Unknown
    }
}

impl WaveFormatType {
    /// Maps a format tag to its variant; unmapped tags are `Unknown`.
    pub fn from_tag(tag: u16) -> (r: WaveFormatType)
        ensures
            r == format_of_tag(tag as int),
    {
        if tag == 1 {
            WaveFormatType::PCM
        } else if tag == 3 {
            WaveFormatType::IEEEFloat
        } else if tag == 6 {
            WaveFormatType::ALAW
        } else if tag == 7 {
            WaveFormatType::MULAW
        } else if tag == 0xFFFE {
            WaveFormatType::EXTENSIBLE
        } else {
            WaveFormatType::Unknown
        }
    }
}

/// A 16-bit unsigned header field; one that lies past the end reads as 0.
pub open spec fn field_u16(b: Seq<u8>, off: int) -> int {
    if off + 2 <= b.len() {
        le_u16(b, off)
    } else {
        0
    }
}

/// A 16-bit signed header field; one that lies past the end reads as 0.
pub open spec fn field_i16(b: Seq<u8>, off: int) -> int {
    if off + 2 <= b.len() {
        le_i16(b, off)
    } else {
        0
    }
}

/// A 32-bit signed header field; one that lies past the end reads as 0.
pub open spec fn field_i32(b: Seq<u8>, off: int) -> int {
    if off + 4 <= b.len() {
        le_i32(b, off)
    } else {
        0
    }
}

/// The stream starts with the four bytes "RIFF".
pub open spec fn has_riff_signature(b: Seq<u8>) -> bool {
    b.len() >= 4 && b[0] == 0x52u8 && b[1] == 0x49u8 && b[2] == 0x46u8 && b[3] == 0x46u8
}

pub open spec fn header_format(b: Seq<u8>) -> WaveFormatType {
    format_of_tag(field_u16(b, FORMAT_OFFSET as int))
}

/// Where the data chunk's size field lies for a format; 0 for formats whose
/// data is not decoded.
pub open spec fn data_size_offset(f: WaveFormatType) -> int {
    match f {
        WaveFormatType::PCM => PCM_DATA_SIZE_OFFSET as int,
        WaveFormatType::IEEEFloat => FLOAT_DATA_SIZE_OFFSET as int,
        _ => 0,
    }
}

/// The data chunk's declared size.
pub open spec fn declared_data_size(b: Seq<u8>) -> int {
    field_i32(b, data_size_offset(header_format(b)))
}

/// Samples of the raw data bytes for a format and bit depth.
pub open spec fn convert_samples(f: WaveFormatType, bits: int, data: Seq<u8>) -> Seq<Sample> {
    match f {
        WaveFormatType::PCM => pcm_samples(bits, data),
        WaveFormatType::IEEEFloat => float_samples(bits, data),
        _ => Seq::empty(),
    }
}

/// What decoding `b` yields: its samples, or the error.
pub open spec fn decode_outcome(b: Seq<u8>) -> Result<Seq<Sample>, DecodeError> {
    let f = header_format(b);
    let start = data_size_offset(f) + 4;
    let size = declared_data_size(b);
    let bits = field_i16(b, BITS_OFFSET as int);
    if !has_riff_signature(b) {
        Err(DecodeError::InvalidFormat)
    } else if f != WaveFormatType::PCM && f != WaveFormatType::IEEEFloat {
        Ok(Seq::empty())
    } else if size < 0 {
        Err(DecodeError::InvalidData)
    } else if size == 0 {
        Ok(convert_samples(f, bits, Seq::empty()))
    } else if start + size > b.len() {
        Err(DecodeError::IoError)
    } else {
        Ok(convert_samples(f, bits, b.subrange(start, start + size)))
    }
}

/// A stream that does not start with "RIFF" fails with `InvalidFormat`, and
/// nothing past its first four bytes bears on the outcome.
pub proof fn missing_signature_is_invalid_format(b: Seq<u8>, other: Seq<u8>)
    requires
        !has_riff_signature(b),
        b.len() >= 4 ==> other.len() >= 4 && other.subrange(0, 4) == b.subrange(0, 4),
        b.len() < 4 ==> other == b,
    ensures
        decode_outcome(b) == Err::<Seq<Sample>, DecodeError>(DecodeError::InvalidFormat),
        decode_outcome(other) == decode_outcome(b),
{
    if b.len() >= 4 {
        assert(other[0] == other.subrange(0, 4)[0]);
        assert(other[1] == other.subrange(0, 4)[1]);
        assert(other[2] == other.subrange(0, 4)[2]);
        assert(other[3] == other.subrange(0, 4)[3]);
        assert(b[0] == b.subrange(0, 4)[0]);
        assert(b[1] == b.subrange(0, 4)[1]);
        assert(b[2] == b.subrange(0, 4)[2]);
        assert(b[3] == b.subrange(0, 4)[3]);
    }
}

/// A PCM or IEEE-float stream whose data chunk size field is negative fails
/// with `InvalidData`.
pub proof fn negative_data_size_is_invalid_data(b: Seq<u8>)
    requires
        has_riff_signature(b),
        header_format(b) == WaveFormatType::PCM || header_format(b) == WaveFormatType::IEEEFloat,
        declared_data_size(b) < 0,
    ensures
        decode_outcome(b) == Err::<Seq<Sample>, DecodeError>(DecodeError::InvalidData),
{
}

/// A PCM stream at a bit depth other than 8, 16 or 32 whose data chunk is
/// present decodes without error to no samples.
pub proof fn unsupported_depth_is_empty(b: Seq<u8>)
    requires
        has_riff_signature(b),
        header_format(b) == WaveFormatType::PCM,
        ({
            let bits = field_i16(b, BITS_OFFSET as int);
            bits != 8 && bits != 16 && bits != 32
        }),
        declared_data_size(b) >= 0,
        declared_data_size(b) == 0 || PCM_DATA_SIZE_OFFSET + 4 + declared_data_size(b) <= b.len(),
    ensures
        decode_outcome(b) == Ok::<Seq<Sample>, DecodeError>(Seq::empty()),
{
}

/// The duration of decoded audio is its sample count over its sample rate.
pub proof fn duration_is_samples_over_rate(a: AudioFile)
    ensures
        a.duration_spec() == (a.data@.len() as int, a.sample_rate as int),
{
}

fn read_field_u16(b: &[u8], off: usize) -> (r: u16)
    requires
        off <= 0x100,
    ensures
        r == field_u16(b@, off as int),
{
    if off + 2 <= b.len() {
        read_u16_le(b, off)
    } else {
        0
    }
}

fn read_field_i16(b: &[u8], off: usize) -> (r: i16)
    requires
        off <= 0x100,
    ensures
        r == field_i16(b@, off as int),
{
    if off + 2 <= b.len() {
        read_i16_le(b, off)
    } else {
        0
    }
}

fn read_field_i32(b: &[u8], off: usize) -> (r: i32)
    requires
        off <= 0x100,
    ensures
        r == field_i32(b@, off as int),
{
    if off + 4 <= b.len() {
        read_i32_le(b, off)
    } else {
        0
    }
}

impl AudioFile {
    /// Decodes the bytes of a RIFF/WAVE file.
    pub fn load_wav_file(contents: &[u8]) -> (r: Result<AudioFile, DecodeError>)
        ensures
            match r {
                Ok(a) => decode_outcome(contents@) == Ok::<Seq<Sample>, DecodeError>(a.data@)
                    && a.channels == field_i16(contents@, CHANNELS_OFFSET as int)
                    && a.sample_rate == field_i32(contents@, SAMPLE_RATE_OFFSET as int)
                    && a.bits_per_sample == field_i16(contents@, BITS_OFFSET as int),
                Err(e) => decode_outcome(contents@) == Err::<Seq<Sample>, DecodeError>(e),
            },
    {
        let n = contents.len();
        if n < 4 || contents[0] != 0x52u8 || contents[1] != 0x49u8 || contents[2] != 0x46u8
            || contents[3] != 0x46u8 {
            return Err(DecodeError::InvalidFormat);
        }
        let format = WaveFormatType::from_tag(read_field_u16(contents, FORMAT_OFFSET));
        let channels = read_field_i16(contents, CHANNELS_OFFSET);
        let sample_rate = read_field_i32(contents, SAMPLE_RATE_OFFSET);
        let bits_per_sample = read_field_i16(contents, BITS_OFFSET);
        let size_pos: usize = if format == WaveFormatType::PCM {
            PCM_DATA_SIZE_OFFSET
        } else if format == WaveFormatType::IEEEFloat {
            FLOAT_DATA_SIZE_OFFSET
        } else {
            return Ok(AudioFile::new(channels, sample_rate, bits_per_sample, Vec::new()));
        };
        let data_size = read_field_i32(contents, size_pos);
        if data_size < 0 {
            return Err(DecodeError::InvalidData);
        }
        let start = size_pos + 4;
        let data: &[u8] = if data_size == 0 {
            vstd::slice::slice_subrange(contents, 0, 0)
        } else if data_size as usize > n || start > n - data_size as usize {
            return Err(DecodeError::IoError);
        } else {
            vstd::slice::slice_subrange(contents, start, start + data_size as usize)
        };
        proof {
            if data_size == 0 {
                assert(data@ =~= Seq::<u8>::empty());
            }
        }
        let samples = if format == WaveFormatType::PCM {
            pcm_to_samples(bits_per_sample, data)
        } else {
            ieee_float_to_samples(bits_per_sample, data)
        };
        Ok(AudioFile::new(channels, sample_rate, bits_per_sample, samples))
    }
}

} // verus!
