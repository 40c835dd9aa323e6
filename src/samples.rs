use vstd::prelude::*;

use crate::le::{le_i16, le_i32, le_u32, le_u64, read_i16_le, read_i32_le, read_u32_le, read_u64_le};

verus! {

/// One decoded sample, kept exactly as the source encodes it.
///
/// `Fixed` is the rational value `numerator / denominator`, which lies in
/// [-1, 1); `Float32` and `Float64` hold the IEEE-754 bit pattern (`bits`,
/// `bits64`) of the source sample.
#[derive(Debug, Clone, Copy, PartialEq, Eq, Structural)]
pub enum Sample {
    Fixed { numerator: i64, denominator: i64 },
    Float32 { bits: u32 },
    Float64 { bits64: u64 },
}

/// Bytes taken by one PCM sample at `bits` bits, or 0 where that depth is not decoded.
pub open spec fn pcm_stride(bits: int) -> int {
    if bits == 8 {
        1
    } else if bits == 16 {
        2
    } else if bits == 32 {
        4
    } else {
        0
    }
}

/// Bytes taken by one IEEE-float sample at `bits` bits, or 0 where that depth is not decoded.
pub open spec fn float_stride(bits: int) -> int {
    if bits == 32 {
        4
    } else if bits == 64 {
        8
    } else {
        0
    }
}

/// The `i`-th PCM sample of `data` at `bits` bits: unsigned bytes centred on 128
/// for 8 bits, signed little-endian integers for 16 and 32, each scaled by the
/// half range of its depth.
pub open spec fn pcm_sample_at(bits: int, data: Seq<u8>, i: int) -> Sample {
    if bits == 8 {
        Sample::Fixed { numerator: (data[i] as int - 128) as i64, denominator: 128 }
    } else if bits == 16 {
        Sample::Fixed { numerator: le_i16(data, 2 * i) as i64, denominator: 0x8000 }
    } else {
        Sample::Fixed { numerator: le_i32(data, 4 * i) as i64, denominator: 0x8000_0000 }
    }
}

/// The `i`-th IEEE-float sample of `data` at `bits` bits.
pub open spec fn float_sample_at(bits: int, data: Seq<u8>, i: int) -> Sample {
    if bits == 32 {
        Sample::Float32 { bits: le_u32(data, 4 * i) as u32 }
    } else {
        Sample::Float64 { bits64: le_u64(data, 8 * i) as u64 }
    }
}

/// All PCM samples of `data`; a trailing partial stride is dropped, and an
/// unsupported depth gives none.
pub open spec fn pcm_samples(bits: int, data: Seq<u8>) -> Seq<Sample> {
    if pcm_stride(bits) == 0 {
        Seq::empty()
    } else {
        Seq::new((data.len() as int / pcm_stride(bits)) as nat, |i: int| pcm_sample_at(bits, data, i))
    }
}

/// All IEEE-float samples of `data`; a trailing partial stride is dropped, and an
/// unsupported depth gives none.
pub open spec fn float_samples(bits: int, data: Seq<u8>) -> Seq<Sample> {
    if float_stride(bits) == 0 {
        Seq::empty()
    } else {
        Seq::new((data.len() as int / float_stride(bits)) as nat, |i: int| float_sample_at(bits, data, i))
    }
}

/// The exact value of a fixed-point sample, as a numerator over a denominator.
pub open spec fn fixed_value(s: Sample) -> (int, int) {
    match s {
        Sample::Fixed { numerator, denominator } => (numerator as int, denominator as int),
        _ => (0, 1),
    }
}

/// An 8-bit PCM byte of 0 decodes to exactly -1, and a byte of 255 to exactly
/// 127/128, one quantization step below +1; every 8-bit sample lies in [-1, 1).
pub proof fn pcm8_extremes(data: Seq<u8>, i: int)
    requires
        0 <= i < data.len(),
    ensures
        pcm_samples(8, data).len() == data.len(),
        ({
            let (n, d) = fixed_value(pcm_samples(8, data)[i]);
            &&& d == 128
            &&& -d <= n < d
            &&& data[i] == 0 ==> n == -d
            &&& data[i] == 255 ==> 128 * n == 127 * d
        }),
{
}

/// A 16-bit PCM sample of `i16::MIN` decodes to exactly -1, and one of
/// `i16::MAX` to a value strictly between 0.999 and 1.
pub proof fn pcm16_extremes(data: Seq<u8>, i: int)
    requires
        0 <= i < data.len() / 2,
    ensures
        pcm_samples(16, data).len() == data.len() / 2,
        ({
            let (n, d) = fixed_value(pcm_samples(16, data)[i]);
            &&& d == 0x8000
            &&& -d <= n < d
            &&& le_i16(data, 2 * i) == -0x8000 ==> n == -d
            &&& le_i16(data, 2 * i) == 0x7FFF ==> 999 * d < 1000 * n && n < d
        }),
{
}

/// A 32-bit PCM sample of `i32::MIN` decodes to exactly -1.
pub proof fn pcm32_minimum(data: Seq<u8>, i: int)
    requires
        0 <= i < data.len() / 4,
    ensures
        pcm_samples(32, data).len() == data.len() / 4,
        ({
            let (n, d) = fixed_value(pcm_samples(32, data)[i]);
            &&& d == 0x8000_0000
            &&& -d <= n < d
            &&& le_i32(data, 4 * i) == -0x8000_0000 ==> n == -d
        }),
{
}

/// The little-endian bytes of a 32-bit pattern.
pub open spec fn le_bytes_u32(x: u32) -> Seq<u8> {
    seq![(x & 0xff) as u8, ((x >> 8) & 0xff) as u8, ((x >> 16) & 0xff) as u8, ((x >> 24) & 0xff) as u8]
}

/// An IEEE-float 32-bit sample decodes to the very bit pattern it was written
/// from.
pub proof fn float32_round_trip(x: u32)
    ensures
        float_samples(32, le_bytes_u32(x)) == seq![Sample::Float32 { bits: x }],
{
    let b = le_bytes_u32(x);
    assert(x == (x & 0xff) + 256 * ((x >> 8) & 0xff) + 65536 * ((x >> 16) & 0xff) + 16777216 * ((x
        >> 24) & 0xff)) by (bit_vector);
    assert((x & 0xff) < 256 && ((x >> 8) & 0xff) < 256 && ((x >> 16) & 0xff) < 256 && ((x >> 24)
        & 0xff) < 256) by (bit_vector);
    assert(b[0] as int == (x & 0xff) as int);
    assert(b[1] as int == ((x >> 8) & 0xff) as int);
    assert(b[2] as int == ((x >> 16) & 0xff) as int);
    assert(b[3] as int == ((x >> 24) & 0xff) as int);
    assert(le_u32(b, 0) == x as int);
    assert(float_samples(32, b) =~= seq![Sample::Float32 { bits: x }]);
}

/// Converts PCM bytes to samples at the given bit depth.
pub fn pcm_to_samples(bits_per_sample: i16, data: &[u8]) -> (r: Vec<Sample>)
    ensures
        r@ == pcm_samples(bits_per_sample as int, data@),
{
    let mut samples: Vec<Sample> = Vec::new();
    let n = data.len();
    if bits_per_sample == 8 {
        let mut i: usize = 0;
        while i < n
            invariant
                n == data@.len(),
                i <= n,
                samples@.len() == i,
                forall|k: int| 0 <= k < i ==> samples@[k] == pcm_sample_at(8, data@, k),
            decreases n - i,
        {
            samples.push(Sample::Fixed { numerator: data[i] as i64 - 128, denominator: 128 });
            i += 1;
        }
    } else if bits_per_sample == 16 {
        let count = n / 2;
        let mut i: usize = 0;
        while i < count
            invariant
                n == data@.len(),
                count == n / 2,
                i <= count,
                samples@.len() == i,
                forall|k: int| 0 <= k < i ==> samples@[k] == pcm_sample_at(16, data@, k),
            decreases count - i,
        {
            let v = read_i16_le(data, i * 2);
            samples.push(Sample::Fixed { numerator: v as i64, denominator: 0x8000 });
            i += 1;
        }
    } else if bits_per_sample == 32 {
        let count = n / 4;
        let mut i: usize = 0;
        while i < count
            invariant
                n == data@.len(),
                count == n / 4,
                i <= count,
                samples@.len() == i,
                forall|k: int| 0 <= k < i ==> samples@[k] == pcm_sample_at(32, data@, k),
            decreases count - i,
        {
            let v = read_i32_le(data, i * 4);
            samples.push(Sample::Fixed { numerator: v as i64, denominator: 0x8000_0000 });
            i += 1;
        }
    }
    assert(samples@ =~= pcm_samples(bits_per_sample as int, data@));
    samples
}

/// Converts IEEE-float bytes to samples at the given bit depth.
pub fn ieee_float_to_samples(bits_per_sample: i16, data: &[u8]) -> (r: Vec<Sample>)
    ensures
        r@ == float_samples(bits_per_sample as int, data@),
{
    let mut samples: Vec<Sample> = Vec::new();
    let n = data.len();
    if bits_per_sample == 32 {
        let count = n / 4;
        let mut i: usize = 0;
        while i < count
            invariant
                n == data@.len(),
                count == n / 4,
                i <= count,
                samples@.len() == i,
                forall|k: int| 0 <= k < i ==> samples@[k] == float_sample_at(32, data@, k),
            decreases count - i,
        {
            let v = read_u32_le(data, i * 4);
            samples.push(Sample::Float32 { bits: v });
            i += 1;
        }
    } else if bits_per_sample == 64 {
        let count = n / 8;
        let mut i: usize = 0;
        while i < count
            invariant
                n == data@.len(),
                count == n / 8,
                i <= count,
                samples@.len() == i,
                forall|k: int| 0 <= k < i ==> samples@[k] == float_sample_at(64, data@, k),
            decreases count - i,
        {
            let v = read_u64_le(data, i * 8);
            samples.push(Sample::Float64 { bits64: v });
            i += 1;
        }
    }
    assert(samples@ =~= float_samples(bits_per_sample as int, data@));
    samples
}

} // verus!
