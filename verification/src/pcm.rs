//! Decoded PCM audio.
//!
//! Samples are carried as the bit patterns of 32-bit floating point numbers;
//! nothing in this crate computes with them. The pattern `0` is silence.

use crate::time::Duration;
use vstd::prelude::*;

verus! {

/// The bit pattern of a silent sample.
pub const SILENCE: u32 = 0;

#[derive(Debug, Clone, Copy, PartialEq, Eq, Structural)]
pub enum PcmSampleFormat {
    F32Interleaved,
}

#[derive(Debug, Clone, Copy, PartialEq, Eq, Structural)]
pub struct PcmFormat {
    pub sample_rate: u32,
    pub channels: u32,
    pub sample_format: PcmSampleFormat,
}

/// One decoded frame batch: interleaved samples with the media time of the
/// first of them.
#[derive(Debug)]
pub struct PcmAudioFrame {
    pub format: PcmFormat,
    pub pts: Option<Duration>,
    pub frames: usize,
    pub samples: Vec<u32>,
}

} // verus!
