//! Audio queueing, clocks and device-loss recovery.

use crate::pcm::PcmFormat;
use crate::time::Duration;
use vstd::prelude::*;

pub mod buffered;
pub mod feed;
pub mod laws;
pub mod output;
pub mod rate;
pub mod recovery;
pub mod ring;
pub mod tempo;
pub mod timeline;
pub mod volume;

verus! {

/// How much decoded audio an output may hold before it applies backpressure,
/// in milliseconds.
pub const AUDIO_OUTPUT_QUEUE_HIGH_WATER_MILLIS: u64 = 250;

#[derive(Debug, Clone, PartialEq, Eq)]
pub enum AudioError {
    FormatChanged { expected: PcmFormat, actual: PcmFormat },
    FormatNotConfigured,
    InvalidChannelCount,
    Backend(String),
}

#[derive(Debug, Clone, Copy, PartialEq, Eq, Structural)]
pub enum AudioOutputState {
    Stopped,
    Playing,
    Paused,
}

#[derive(Debug, Clone, Copy, PartialEq, Eq, Structural)]
pub struct AudioRingBufferConfig {
    pub capacity_frames: usize,
    pub drop_oldest_on_overflow: bool,
}

impl Default for AudioRingBufferConfig {
    fn default() -> (config: Self)
        ensures
            config.capacity_frames == 192_000,
            config.drop_oldest_on_overflow,
    {
        AudioRingBufferConfig { capacity_frames: 192_000, drop_oldest_on_overflow: true }
    }
}

#[derive(Debug, Clone, Copy, PartialEq, Eq, Structural)]
pub struct AudioRingBufferStats {
    pub queued_frames: usize,
    pub queued_samples: usize,
    pub written_frames: u64,
    pub read_frames: u64,
    pub dropped_frames: u64,
    pub underflow_frames: u64,
}

impl Default for AudioRingBufferStats {
    fn default() -> (stats: Self)
        ensures
            stats.queued_frames == 0,
            stats.queued_samples == 0,
            stats.written_frames == 0,
            stats.read_frames == 0,
            stats.dropped_frames == 0,
            stats.underflow_frames == 0,
    {
        AudioRingBufferStats {
            queued_frames: 0,
            queued_samples: 0,
            written_frames: 0,
            read_frames: 0,
            dropped_frames: 0,
            underflow_frames: 0,
        }
    }
}

#[derive(Debug, Clone, Copy, PartialEq, Eq, Structural)]
pub struct AudioPushResult {
    pub accepted_frames: usize,
    pub dropped_frames: usize,
}

#[derive(Debug, Clone, Copy, PartialEq, Eq, Structural)]
pub struct AudioReadResult {
    pub frames: usize,
    pub samples: usize,
    pub underflow_frames: usize,
}

#[derive(Debug, Clone, Copy, PartialEq, Eq, Structural)]
pub struct AudioClockSnapshot {
    pub media_time: Option<Duration>,
    pub queued_duration: Option<Duration>,
    pub queued_frames: usize,
    pub read_frames: u64,
    pub written_frames: u64,
    pub underflow_frames: u64,
}

/// The queue length at which an output stops accepting frames: a quarter of a
/// second of audio, and one frame at least.
pub open spec fn high_water_frames(sample_rate: u32) -> nat {
    let frames = (sample_rate * AUDIO_OUTPUT_QUEUE_HIGH_WATER_MILLIS / 1_000) as nat;
    if frames < 1 {
        1
    } else {
        frames
    }
}

/// Whether another decoded frame may enter an output queue without exceeding
/// the bounded latency budget used for playback-rate transitions.
pub fn audio_output_queue_has_capacity(queued_frames: usize, sample_rate: u32) -> (has_capacity:
    bool)
    ensures
        has_capacity <==> sample_rate == 0 || queued_frames < high_water_frames(sample_rate),
{
    if sample_rate == 0 {
        return true;
    }
    let frames: u64 = sample_rate as u64 * AUDIO_OUTPUT_QUEUE_HIGH_WATER_MILLIS / 1_000;
    let high_water: u64 = if frames < 1 {
        1
    } else {
        frames
    };
    (queued_frames as u64) < high_water
}

/// Shrinking the queue never takes away the capacity for another frame.
pub proof fn lemma_capacity_is_monotone(fewer: usize, more: usize, sample_rate: u32)
    requires
        fewer <= more,
        sample_rate == 0 || more < high_water_frames(sample_rate),
    ensures
        sample_rate == 0 || fewer < high_water_frames(sample_rate),
{
}

/// An output that has a sample rate accepts a frame while its queue is empty.
pub proof fn lemma_empty_queue_has_capacity(sample_rate: u32)
    ensures
        0 < high_water_frames(sample_rate),
{
}

/// A queue is full at a quarter of a second: the frames that it holds then, and no
/// fewer, last as long, to within a frame.
pub proof fn lemma_queue_is_full_at_a_quarter_second(sample_rate: u32)
    ensures
        sample_rate >= 4 ==> 4 * high_water_frames(sample_rate) <= sample_rate < 4
            * high_water_frames(sample_rate) + 4,
        sample_rate < 4 ==> high_water_frames(sample_rate) == 1,
{
}

} // verus!
