use vstd::prelude::*;

pub mod audio_file;
pub mod le;
pub mod player;
pub mod samples;
pub mod wave_file;

verus! {

/// Format tags that a RIFF/WAVE `fmt` chunk may carry.
#[derive(Debug, Clone, Copy, PartialEq, Eq, Structural)]
pub enum WaveFormatType {
    Unknown,
    PCM,
    IEEEFloat,
    ALAW,
    MULAW,
    EXTENSIBLE,
}

} // verus!
