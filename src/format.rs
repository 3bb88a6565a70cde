//! Audio formats: what a capture device delivers and what recognition takes.
use vstd::prelude::*;

verus! {

/// The rate, in Hz, of the audio handed to the recognition engine.
pub const RECOGNITION_RATE: u32 = 16000;

/// How one sample is stored.
#[derive(Clone, Copy, Debug, PartialEq, Eq, Structural)]
pub enum SampleRepr {
    Float32,
    Int16,
}

/// The native format of a stream: its rate, its channel count, and how its
/// samples are stored. Samples of a multi-channel stream are interleaved.
#[derive(Clone, Copy, Debug, PartialEq, Eq, Structural)]
pub struct AudioFormat {
    pub sample_rate: u32,
    pub channels: u16,
    pub repr: SampleRepr,
}

impl AudioFormat {
    /// A format can carry audio only with a positive rate and at least one
    /// channel.
    pub open spec fn usable(self) -> bool {
        self.sample_rate > 0 && self.channels > 0
    }

    pub fn is_usable(&self) -> (r: bool)
        ensures
            r == self.usable(),
    {
        self.sample_rate > 0 && self.channels > 0
    }

    /// The format the recognition engine takes: mono 32-bit float at 16 kHz.
    pub fn recognition() -> (r: AudioFormat)
        ensures
            r == (AudioFormat { sample_rate: RECOGNITION_RATE, channels: 1, repr: SampleRepr::Float32 }),
            r.usable(),
    {
        AudioFormat { sample_rate: RECOGNITION_RATE, channels: 1, repr: SampleRepr::Float32 }
    }
}

} // verus!
