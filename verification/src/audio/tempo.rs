//! The clock of a tempo processor.
//!
//! A tempo processor stretches audio without changing its pitch. It delays
//! its output, so the media time of what it gives back is tracked here. The
//! stretching itself is handed in as `transform`.

use crate::audio::rate::{
    distance_of, is_distance, normalize_playback_rate, normalized_rate, RATE_TOLERANCE,
};
use crate::audio::timeline::{is_media_offset, offset_pts_scaled, optional_offset};
use crate::pcm::{PcmAudioFrame, PcmFormat};
use crate::time::Duration;
use vstd::prelude::*;

verus! {

/// Samples ready for the queue, with the media time of the first of them and
/// the media frames that each output frame stands for.
#[derive(Debug)]
pub struct PreparedAudio {
    pub samples: Vec<u32>,
    pub start: Option<Duration>,
    pub media_frames_per_output_frame: u64,
}

/// A tempo processor's format, rate and clock.
#[derive(Debug, Clone, Copy, PartialEq, Eq, Structural)]
pub struct AudioTempoProcessor {
    pub format: PcmFormat,
    pub playback_rate: u64,
    /// The media time of the next frame to come out.
    pub pending_pts: Option<Duration>,
    /// Whether the stretching has begun; before that it starts afresh.
    pub started: bool,
}

/// How a stretching engine is set up.
#[derive(Debug, Clone, Copy, PartialEq, Eq, Structural)]
pub struct TempoSettings {
    pub sample_rate: u32,
    pub channels: u32,
    pub tempo: u64,
    pub quick_seek: bool,
    pub sequence_ms: i32,
    pub seek_window_ms: i32,
    pub overlap_ms: i32,
}

/// The lowest sample rate that a stretching engine is set up for.
pub const MIN_TEMPO_SAMPLE_RATE: u32 = 8_000;

/// The windows of the stretching, in milliseconds.
pub const TEMPO_SEQUENCE_MS: i32 = 25;

pub const TEMPO_SEEK_WINDOW_MS: i32 = 12;

pub const TEMPO_OVERLAP_MS: i32 = 6;

/// Whether a processor at the rate `current` serves a queue at the rate
/// `wanted`.
pub open spec fn serves_rate<D: Fn(u64, u64) -> u64>(
    distance: D,
    current: u64,
    wanted: u64,
) -> bool {
    distance_of(distance, current, normalized_rate(wanted)) < RATE_TOLERANCE
}

/// The channel count, counting a stream without channels as mono.
pub open spec fn channels_or_mono(format: PcmFormat) -> nat {
    if format.channels == 0 {
        1
    } else {
        format.channels as nat
    }
}

/// The media time of the next frame to come out once input with `pts` has
/// gone in.
pub open spec fn pending_with_input(
    pending: Option<Duration>,
    pts: Option<Duration>,
) -> Option<Duration> {
    if pending is Some {
        pending
    } else {
        pts
    }
}

/// `after` and `prepared` are what `before` makes of `frame`. Input without a
/// whole frame comes out empty and changes nothing. Otherwise the samples are
/// what `transform` gave back, they start where the clock stood, and the
/// clock moves on by as many frames as came out.
pub open spec fn processes<
    T: FnOnce(bool, Vec<u32>, usize) -> Vec<u32>,
    F: Fn(Duration, usize, u32, u64) -> Duration,
>(
    before: AudioTempoProcessor,
    frame: PcmAudioFrame,
    transform: T,
    offset: F,
    after: AudioTempoProcessor,
    prepared: PreparedAudio,
) -> bool {
    let channels = channels_or_mono(before.format);
    let input_frames = frame.samples@.len() / channels;
    let output_frames = prepared.samples@.len() / channels;
    &&& after.format == before.format
    &&& after.playback_rate == before.playback_rate
    &&& prepared.media_frames_per_output_frame == before.playback_rate
    &&& if input_frames == 0 {
        &&& prepared.samples@.len() == 0
        &&& prepared.start == frame.pts
        &&& after == before
    } else {
        &&& transform.ensures(
            (!before.started, frame.samples, input_frames as usize),
            prepared.samples,
        )
        &&& after.started
        &&& prepared.start == pending_with_input(before.pending_pts, frame.pts)
        &&& after.pending_pts == if output_frames > 0 {
            optional_offset(
                offset,
                prepared.start,
                output_frames as usize,
                before.format.sample_rate,
                before.playback_rate,
            )
        } else {
            prepared.start
        }
    }
}

impl AudioTempoProcessor {
    pub fn new(format: PcmFormat, playback_rate: u64) -> (processor: Self)
        ensures
            processor == (AudioTempoProcessor {
                format,
                playback_rate: normalized_rate(playback_rate),
                pending_pts: None,
                started: false,
            }),
    {
        AudioTempoProcessor {
            format,
            playback_rate: normalize_playback_rate(playback_rate),
            pending_pts: None,
            started: false,
        }
    }

    /// How the stretching engine of this processor is set up.
    pub fn settings(&self) -> (settings: TempoSettings)
        ensures
            settings == (TempoSettings {
                sample_rate: if self.format.sample_rate < MIN_TEMPO_SAMPLE_RATE {
                    MIN_TEMPO_SAMPLE_RATE
                } else {
                    self.format.sample_rate
                },
                channels: channels_or_mono(self.format) as u32,
                tempo: self.playback_rate,
                quick_seek: true,
                sequence_ms: TEMPO_SEQUENCE_MS,
                seek_window_ms: TEMPO_SEEK_WINDOW_MS,
                overlap_ms: TEMPO_OVERLAP_MS,
            }),
            settings.sample_rate >= 8_000,
            self.format.sample_rate >= 8_000 ==> settings.sample_rate == self.format.sample_rate,
            self.format.channels > 0 ==> settings.channels == self.format.channels,
            settings.sequence_ms == 25,
            settings.seek_window_ms == 12,
            settings.overlap_ms == 6,
    {
        TempoSettings {
            sample_rate: if self.format.sample_rate < MIN_TEMPO_SAMPLE_RATE {
                MIN_TEMPO_SAMPLE_RATE
            } else {
                self.format.sample_rate
            },
            channels: if self.format.channels == 0 {
                1
            } else {
                self.format.channels as u32
            },
            tempo: self.playback_rate,
            quick_seek: true,
            sequence_ms: TEMPO_SEQUENCE_MS,
            seek_window_ms: TEMPO_SEEK_WINDOW_MS,
            overlap_ms: TEMPO_OVERLAP_MS,
        }
    }

    /// Whether the processor still fits the stream and the wanted rate.
    pub fn matches<D: Fn(u64, u64) -> u64>(
        &self,
        format: PcmFormat,
        playback_rate: u64,
        distance: &D,
    ) -> (fits: bool)
        requires
            is_distance(*distance),
        ensures
            fits <==> self.format == format && serves_rate(
                *distance,
                self.playback_rate,
                playback_rate,
            ),
    {
        self.format == format && distance(self.playback_rate, normalize_playback_rate(playback_rate))
            < RATE_TOLERANCE
    }

    /// Stretches one frame. `transform` is told whether to start afresh, the
    /// samples and how many frames they are, and gives back what has come out
    /// of the stretching so far.
    pub fn process<
        T: FnOnce(bool, Vec<u32>, usize) -> Vec<u32>,
        F: Fn(Duration, usize, u32, u64) -> Duration,
    >(&mut self, frame: PcmAudioFrame, transform: T, offset: &F) -> (prepared: PreparedAudio)
        requires
            is_media_offset(*offset),
            forall|fresh: bool, samples: Vec<u32>, frames: usize| #[trigger]
                transform.requires((fresh, samples, frames)),
        ensures
            processes(*old(self), frame, transform, *offset, *final(self), prepared),
    {
        let channels: usize = if self.format.channels == 0 {
            1
        } else {
            self.format.channels as usize
        };
        let input_frames: usize = frame.samples.len() / channels;
        if input_frames == 0 {
            return PreparedAudio {
                samples: Vec::new(),
                start: frame.pts,
                media_frames_per_output_frame: self.playback_rate,
            };
        }
        if self.pending_pts.is_none() {
            self.pending_pts = frame.pts;
        }
        let fresh: bool = !self.started;
        self.started = true;
        let samples: Vec<u32> = transform(fresh, frame.samples, input_frames);
        let start: Option<Duration> = self.pending_pts;
        let output_frames: usize = samples.len() / channels;
        if output_frames > 0 {
            if let Some(first) = start {
                self.pending_pts = Some(
                    offset_pts_scaled(
                        first,
                        output_frames,
                        self.format.sample_rate,
                        self.playback_rate,
                        offset,
                    ),
                );
            }
        }
        PreparedAudio { samples, start, media_frames_per_output_frame: self.playback_rate }
    }
}

} // verus!
