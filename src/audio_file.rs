use vstd::prelude::*;

use crate::samples::Sample;

verus! {

/// Decoded audio: the header fields of the source and its samples, interleaved
/// by channel.
#[derive(Debug)]
pub struct AudioFile {
    pub channels: i16,
    pub sample_rate: i32,
    pub bits_per_sample: i16,
    pub data: Vec<Sample>,
}

impl AudioFile {
    pub fn new(channels: i16, sample_rate: i32, bits_per_sample: i16, data: Vec<Sample>) -> (r:
        AudioFile)
        ensures
            r.channels == channels,
            r.sample_rate == sample_rate,
            r.bits_per_sample == bits_per_sample,
            r.data@ == data@,
    {
        AudioFile { channels, sample_rate, bits_per_sample, data }
    }

    /// The length in seconds of the interleaved sample sequence, as the exact
    /// fraction `len(samples) / sample_rate`, returned as (numerator, denominator).
    pub open spec fn duration_spec(&self) -> (int, int) {
        (self.data@.len() as int, self.sample_rate as int)
    }

    pub fn duration(&self) -> (r: (usize, i32))
        ensures
            (r.0 as int, r.1 as int) == self.duration_spec(),
    {
        (self.data.len(), self.sample_rate)
    }
}

} // verus!
