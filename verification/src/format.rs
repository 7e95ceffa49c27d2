use vstd::prelude::*;

verus! {

/// Format metadata of a WAV container: channel count, sample rate, bit
/// depth, and whether samples are integer-encoded (as opposed to float).
#[derive(Clone, Copy, PartialEq, Eq, Structural, Debug)]
pub struct AudioFormat {
    pub channels: u16,
    pub sample_rate: u32,
    pub bits_per_sample: u16,
    pub is_integer: bool,
}

/// The only profile the pipeline accepts: mono, 16 kHz, 16-bit integer PCM.
/// Anything else is rejected outright, never silently coerced.
pub open spec fn format_supported(f: AudioFormat) -> bool {
    f.channels == 1 && f.sample_rate == 16000 && f.bits_per_sample == 16 && f.is_integer
}

impl AudioFormat {
    /// Decides whether this format is the supported profile.
    pub fn is_supported(&self) -> (r: bool)
        ensures
            r == format_supported(*self),
    {
        self.channels == 1 && self.sample_rate == 16000 && self.bits_per_sample == 16
            && self.is_integer
    }
}

} // verus!
