//! Tones and the signals that are built from them.

use crate::double::Double;
use vstd::prelude::*;

verus! {

/// How a tone is to be synthesised.
#[derive(Debug, PartialEq, Eq, Structural, Clone, Copy)]
pub struct ToneConfiguration {
    /// Frequency in Hertz
    pub frequency: Double,
    /// Sample rate in Hertz
    pub sample_rate: Double,
    /// Length in seconds
    pub length: Double,
    pub overtones: usize,
    pub channels: usize,
}

/// What a bar sounds like as a whole.
///
/// It has no pitch of its own, and it lasts `samples` divided by `sample_rate` seconds.
#[derive(Debug, PartialEq, Eq, Structural, Clone, Copy)]
pub struct BarTone {
    /// Frequency in Hertz
    pub frequency: Double,
    /// Sample rate in Hertz
    pub sample_rate: u32,
    /// Length in samples
    pub samples: usize,
    pub overtones: usize,
    pub channels: usize,
}

/// A bar of samples and the position from which it is played on.
#[derive(Debug)]
pub struct AudioSignal<T> {
    pub signal: Vec<T>,
    pub index: usize,
    pub tone: BarTone,
}

} // verus!
