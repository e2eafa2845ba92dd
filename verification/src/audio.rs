//! The format of the WAV files the tool writes.
use vstd::prelude::*;

verus! {

/// The layout of a PCM WAV file.
#[derive(Clone, Copy, Debug, PartialEq, Eq, Structural)]
pub struct WavFormat {
    /// Interleaved channels per frame.
    pub channels: u16,
    /// Frames per second.
    pub sample_rate: u32,
    /// Bits in one sample.
    pub bits_per_sample: u16,
    /// Samples are integers (rather than IEEE floats).
    pub integer_samples: bool,
}

/// Writes synthesized speech to WAV files.
pub struct AudioWriter;

impl AudioWriter {
    /// The layout of the files written: mono, 16-bit integer PCM at `sample_rate`.
    pub fn output_format(sample_rate: u32) -> (f: WavFormat)
        ensures
            f == (WavFormat {
                channels: 1,
                sample_rate,
                bits_per_sample: 16,
                integer_samples: true,
            }),
    {
        WavFormat { channels: 1, sample_rate, bits_per_sample: 16, integer_samples: true }
    }
}

} // verus!
