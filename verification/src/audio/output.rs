//! Control of a platform output stream: its clock and its recovery.
//!
//! The platform calls themselves are made by the caller. Each method here is
//! one decision: it takes what the platform reported, moves the control state
//! on, and says what is to be done next. A device may report its loss at any
//! time between two of them.

use crate::audio::rate::{normalize_playback_rate, normalized_rate, UNIT_RATE};
use crate::audio::recovery::{
    cleared, disconnected, failed, recovered, recovering, AudioOutputRuntimeStats,
    AudioRecoveryState, RecoverySignals,
};
use crate::audio::timeline::{is_media_offset, media_offset, offset_pts_scaled, optional_offset};
use crate::audio::volume::{normalize_volume, normalized, FULL_VOLUME};
use crate::audio::{
    audio_output_queue_has_capacity, high_water_frames, AudioClockSnapshot, AudioOutputState,
    AudioPushResult, AudioRingBufferStats,
};
use crate::pcm::PcmFormat;
use crate::time::{capped, lemma_span_is_its_nanos, lemma_spanning_is_that_long, Duration};
use std::collections::VecDeque;
use vstd::prelude::*;

verus! {

/// The result code of a platform call that succeeded.
pub const RESULT_OK: i32 = 0;

/// How long to wait after a failed recovery before the next one, in
/// milliseconds.
pub const RECOVERY_RETRY_DELAY_MILLIS: u64 = 250;

pub const STATE_STOPPED: u8 = 0;

pub const STATE_PLAYING: u8 = 1;

pub const STATE_PAUSED: u8 = 2;

/// The state a published code stands for; an unknown code is stopped.
pub open spec fn decoded_state(state: u8) -> AudioOutputState {
    if state == STATE_PLAYING {
        AudioOutputState::Playing
    } else if state == STATE_PAUSED {
        AudioOutputState::Paused
    } else {
        AudioOutputState::Stopped
    }
}

pub fn decode_state(state: u8) -> (decoded: AudioOutputState)
    ensures
        decoded == decoded_state(state),
{
    if state == STATE_PLAYING {
        AudioOutputState::Playing
    } else if state == STATE_PAUSED {
        AudioOutputState::Paused
    } else {
        AudioOutputState::Stopped
    }
}

/// The volume and the recovery progress that a control thread and a device
/// callback share.
#[derive(Debug)]
pub struct OutputSignals {
    volume: u32,
    recovery: RecoverySignals,
}

impl OutputSignals {
    pub closed spec fn gain(&self) -> u32 {
        self.volume
    }

    pub closed spec fn progress(&self) -> AudioOutputRuntimeStats {
        self.recovery@
    }

    pub fn new() -> (signals: Self)
        ensures
            signals.gain() == FULL_VOLUME,
            signals.progress() == AudioOutputRuntimeStats::initial(),
    {
        OutputSignals { volume: FULL_VOLUME, recovery: RecoverySignals::default() }
    }

    pub fn volume(&self) -> (volume: u32)
        ensures
            volume == self.gain(),
    {
        self.volume
    }

    pub fn set_volume(&mut self, volume: u32)
        ensures
            final(self).gain() == normalized(volume),
            final(self).progress() == old(self).progress(),
    {
        self.volume = normalize_volume(volume);
    }

    /// Records a device loss that the platform reported on its own thread.
    pub fn set_disconnected_from_callback(&mut self, error: i32)
        ensures
            final(self).gain() == old(self).gain(),
            final(self).progress() == disconnected(old(self).progress(), error),
    {
        let _ = self.recovery.mark_disconnected(error);
    }

    pub fn begin_recovery(&mut self) -> (stats: AudioOutputRuntimeStats)
        ensures
            final(self).gain() == old(self).gain(),
            final(self).progress() == recovering(old(self).progress()),
            stats == final(self).progress(),
    {
        self.recovery.begin_recovery()
    }

    pub fn recovery_succeeded(&mut self) -> (stats: Option<AudioOutputRuntimeStats>)
        ensures
            final(self).gain() == old(self).gain(),
            stats == recovered(old(self).progress()),
            final(self).progress() == (match recovered(old(self).progress()) {
                Some(after) => after,
                None => old(self).progress(),
            }),
    {
        self.recovery.recovery_succeeded()
    }

    pub fn recovery_failed(&mut self, error_code: i32) -> (stats: AudioOutputRuntimeStats)
        ensures
            final(self).gain() == old(self).gain(),
            final(self).progress() == failed(old(self).progress(), error_code),
            stats == final(self).progress(),
    {
        self.recovery.recovery_failed(error_code)
    }

    pub fn mark_disconnected(&mut self, error_code: i32) -> (stats: AudioOutputRuntimeStats)
        ensures
            final(self).gain() == old(self).gain(),
            final(self).progress() == disconnected(old(self).progress(), error_code),
            stats == final(self).progress(),
    {
        self.recovery.mark_disconnected(error_code)
    }

    pub fn reset_current_error(&mut self)
        ensures
            final(self).gain() == old(self).gain(),
            final(self).progress() == cleared(old(self).progress()),
    {
        self.recovery.reset();
    }

    pub fn snapshot(&self) -> (stats: AudioOutputRuntimeStats)
        ensures
            stats == self.progress(),
    {
        self.recovery.snapshot()
    }
}

/// What the device queue made of pushed samples.
#[derive(Debug, Clone, Copy, PartialEq, Eq, Structural)]
pub struct PcmSpscPushResult {
    pub accepted_frames: usize,
    pub dropped_frames: usize,
    /// How many leading frames of the input were left out.
    pub input_offset_frames: usize,
    /// The queue position of the first accepted frame.
    pub start_position: u64,
}

impl PcmSpscPushResult {
    pub fn into_push_result(self) -> (result: AudioPushResult)
        ensures
            result.accepted_frames == self.accepted_frames,
            result.dropped_frames == self.dropped_frames,
    {
        AudioPushResult {
            accepted_frames: self.accepted_frames,
            dropped_frames: self.dropped_frames,
        }
    }
}

/// What a device queue reports of itself.
#[derive(Debug, Clone, Copy, PartialEq, Eq, Structural)]
pub struct DeviceQueue {
    /// The queue position up to which the device has read.
    pub read_position: u64,
    pub stats: AudioRingBufferStats,
}

/// A run of frames in a device queue, by position, that share a media clock.
#[derive(Debug, Clone, Copy, PartialEq, Eq, Structural)]
pub struct OutputTimelineSegment {
    pub start_position: u64,
    pub end_position: u64,
    pub media_time: Option<Duration>,
    pub media_frames_per_output_frame: u64,
}

impl OutputTimelineSegment {
    /// The frames from the segment's start up to `position`.
    pub open spec fn frames_to(self, position: u64) -> usize {
        if position >= self.start_position {
            (position - self.start_position) as usize
        } else {
            0
        }
    }
}

/// What an output timeline holds.
#[verifier::ext_equal]
pub struct OutputTimelineView {
    pub segments: Seq<OutputTimelineSegment>,
    pub last_media_time: Option<Duration>,
}

/// The timeline without the segments the device has played, remembering the
/// media time at which the last of them ended.
pub open spec fn pruned<F: Fn(Duration, usize, u32, u64) -> Duration>(
    timeline: OutputTimelineView,
    read_position: u64,
    sample_rate: u32,
    offset: F,
) -> OutputTimelineView
    decreases timeline.segments.len(),
{
    if timeline.segments.len() == 0 || timeline.segments[0].end_position > read_position {
        timeline
    } else {
        let front = timeline.segments[0];
        pruned(
            OutputTimelineView {
                segments: timeline.segments.drop_first(),
                last_media_time: optional_offset(
                    offset,
                    front.media_time,
                    front.frames_to(front.end_position),
                    sample_rate,
                    front.media_frames_per_output_frame,
                ),
            },
            read_position,
            sample_rate,
            offset,
        )
    }
}

/// The timeline as seen with a device queue; without one there are no
/// segments.
pub open spec fn pruned_for<F: Fn(Duration, usize, u32, u64) -> Duration>(
    timeline: OutputTimelineView,
    queue: Option<DeviceQueue>,
    sample_rate: u32,
    offset: F,
) -> OutputTimelineView {
    match queue {
        Some(queue) => pruned(timeline, queue.read_position, sample_rate, offset),
        None => OutputTimelineView {
            segments: Seq::empty(),
            last_media_time: timeline.last_media_time,
        },
    }
}

/// The media time that plays at `read_position`, by a pruned timeline.
pub open spec fn playing_media_time<F: Fn(Duration, usize, u32, u64) -> Duration>(
    timeline: OutputTimelineView,
    read_position: u64,
    sample_rate: u32,
    offset: F,
) -> Option<Duration> {
    if timeline.segments.len() == 0 || timeline.segments[0].media_time is None {
        timeline.last_media_time
    } else {
        let front = timeline.segments[0];
        if read_position < front.start_position || read_position >= front.end_position {
            front.media_time
        } else {
            optional_offset(
                offset,
                front.media_time,
                front.frames_to(read_position),
                sample_rate,
                front.media_frames_per_output_frame,
            )
        }
    }
}

/// Pruning leaves nothing in front that the device has played, and what it
/// leaves is the end of what there was.
pub proof fn lemma_pruned_is_the_unplayed_rest<F: Fn(Duration, usize, u32, u64) -> Duration>(
    timeline: OutputTimelineView,
    read_position: u64,
    sample_rate: u32,
    offset: F,
)
    ensures
        ({
            let after = pruned(timeline, read_position, sample_rate, offset).segments;
            let gone = timeline.segments.len() - after.len();
            &&& after.len() > 0 ==> after[0].end_position > read_position
            &&& 0 <= gone
            &&& after == timeline.segments.skip(gone)
            &&& forall|i: int|
                0 <= i < gone ==> #[trigger] timeline.segments[i].end_position <= read_position
        }),
    decreases timeline.segments.len(),
{
    if timeline.segments.len() == 0 || timeline.segments[0].end_position > read_position {
        assert(timeline.segments.skip(0) =~= timeline.segments);
    } else {
        let front = timeline.segments[0];
        let rest = OutputTimelineView {
            segments: timeline.segments.drop_first(),
            last_media_time: optional_offset(
                offset,
                front.media_time,
                front.frames_to(front.end_position),
                sample_rate,
                front.media_frames_per_output_frame,
            ),
        };
        lemma_pruned_is_the_unplayed_rest(rest, read_position, sample_rate, offset);
        let after = pruned(rest, read_position, sample_rate, offset).segments;
        let gone = rest.segments.len() - after.len();
        assert(rest.segments.skip(gone) =~= timeline.segments.skip(gone + 1));
        assert forall|i: int| 0 <= i < gone + 1 implies #[trigger] timeline.segments[i].end_position
            <= read_position by {
            if i > 0 {
                assert(rest.segments[i - 1] == timeline.segments[i]);
            }
        }
    }
}

/// The media clock of a device queue.
#[derive(Debug)]
pub struct OutputTimeline {
    segments: VecDeque<OutputTimelineSegment>,
    last_media_time: Option<Duration>,
}

impl View for OutputTimeline {
    type V = OutputTimelineView;

    closed spec fn view(&self) -> OutputTimelineView {
        OutputTimelineView { segments: self.segments@, last_media_time: self.last_media_time }
    }
}

impl OutputTimeline {
    pub open spec fn empty_view() -> OutputTimelineView {
        OutputTimelineView { segments: Seq::empty(), last_media_time: None }
    }

    pub fn new() -> (timeline: Self)
        ensures
            timeline@ == OutputTimeline::empty_view(),
    {
        OutputTimeline { segments: VecDeque::new(), last_media_time: None }
    }

    pub fn clear(&mut self)
        ensures
            final(self)@ == OutputTimeline::empty_view(),
    {
        self.segments.clear();
        self.last_media_time = None;
    }

    /// Forgets the segments the device has played.
    pub fn prune_timeline<F: Fn(Duration, usize, u32, u64) -> Duration>(
        &mut self,
        queue: Option<DeviceQueue>,
        sample_rate: u32,
        offset: &F,
    )
        requires
            is_media_offset(*offset),
        ensures
            final(self)@ == pruned_for(old(self)@, queue, sample_rate, *offset),
    {
        let read_position: u64 = match queue {
            Some(queue) => queue.read_position,
            None => {
                self.segments.clear();
                return;
            },
        };
        while self.segments.len() > 0 && self.segments[0].end_position <= read_position
            invariant
                is_media_offset(*offset),
                pruned(self@, read_position, sample_rate, *offset) == pruned(
                    old(self)@,
                    read_position,
                    sample_rate,
                    *offset,
                ),
            decreases self.segments@.len(),
        {
            let ghost before = self@;
            let front: OutputTimelineSegment = self.segments[0];
            let _ = self.segments.pop_front();
            let frames: usize = if front.end_position >= front.start_position {
                (front.end_position - front.start_position) as usize
            } else {
                0
            };
            self.last_media_time = match front.media_time {
                Some(start) => Some(
                    offset_pts_scaled(
                        start,
                        frames,
                        sample_rate,
                        front.media_frames_per_output_frame,
                        offset,
                    ),
                ),
                None => None,
            };
            assert(self.segments@ =~= before.segments.drop_first());
        }
    }

    /// Appends what the device queue accepted. `segment_start` is the media
    /// time of the first sample that was offered.
    pub fn append_timeline<F: Fn(Duration, usize, u32, u64) -> Duration>(
        &mut self,
        pushed: PcmSpscPushResult,
        segment_start: Option<Duration>,
        queue: Option<DeviceQueue>,
        sample_rate: u32,
        rate: u64,
        offset: &F,
    )
        requires
            is_media_offset(*offset),
        ensures
            ({
                let before = pruned_for(old(self)@, queue, sample_rate, *offset);
                &&& final(self)@.last_media_time == before.last_media_time
                &&& final(self)@.segments == if pushed.accepted_frames == 0 {
                    before.segments
                } else {
                    before.segments.push(
                        appended_segment(pushed, segment_start, sample_rate, rate, *offset),
                    )
                }
            }),
    {
        self.prune_timeline(queue, sample_rate, offset);
        if pushed.accepted_frames == 0 {
            return;
        }
        let media_time: Option<Duration> = match segment_start {
            Some(start) => Some(
                offset_pts_scaled(start, pushed.input_offset_frames, sample_rate, rate, offset),
            ),
            None => None,
        };
        self.segments.push_back(
            OutputTimelineSegment {
                start_position: pushed.start_position,
                end_position: pushed.start_position.saturating_add(pushed.accepted_frames as u64),
                media_time,
                media_frames_per_output_frame: rate,
            },
        );
    }

    /// The media clock as the device plays it.
    pub fn clock_snapshot<F: Fn(Duration, usize, u32, u64) -> Duration>(
        &mut self,
        queue: Option<DeviceQueue>,
        format: Option<PcmFormat>,
        offset: &F,
    ) -> (snapshot: AudioClockSnapshot)
        requires
            is_media_offset(*offset),
        ensures
            final(self)@ == pruned_for(old(self)@, queue, rate_of(format), *offset),
            snapshot.media_time == playing_media_time(
                final(self)@,
                match queue {
                    Some(queue) => queue.read_position,
                    None => 0,
                },
                rate_of(format),
                *offset,
            ),
            snapshot.queued_duration == if rate_of(format) == 0 {
                None
            } else {
                Some(
                    media_offset(
                        *offset,
                        Duration::spanning(0),
                        snapshot.queued_frames,
                        rate_of(format),
                        UNIT_RATE,
                    ),
                )
            },
            match queue {
                Some(queue) => {
                    &&& snapshot.queued_frames == queue.stats.queued_frames
                    &&& snapshot.read_frames == queue.stats.read_frames
                    &&& snapshot.written_frames == queue.stats.written_frames
                    &&& snapshot.underflow_frames == queue.stats.underflow_frames
                },
                None => {
                    &&& snapshot.queued_frames == 0
                    &&& snapshot.read_frames == 0
                    &&& snapshot.written_frames == 0
                    &&& snapshot.underflow_frames == 0
                },
            },
    {
        let sample_rate: u32 = match format {
            Some(format) => format.sample_rate,
            None => 0,
        };
        self.prune_timeline(queue, sample_rate, offset);
        let stats: AudioRingBufferStats = match queue {
            Some(queue) => queue.stats,
            None => AudioRingBufferStats::default(),
        };
        let read_position: u64 = match queue {
            Some(queue) => queue.read_position,
            None => 0,
        };
        let mut media_time: Option<Duration> = self.last_media_time;
        if self.segments.len() > 0 {
            let front: OutputTimelineSegment = self.segments[0];
            if let Some(start) = front.media_time {
                if read_position < front.start_position || read_position >= front.end_position {
                    media_time = front.media_time;
                } else {
                    media_time = Some(
                        offset_pts_scaled(
                            start,
                            (read_position - front.start_position) as usize,
                            sample_rate,
                            front.media_frames_per_output_frame,
                            offset,
                        ),
                    );
                }
            }
        }
        let queued_duration: Option<Duration> = if sample_rate == 0 {
            None
        } else {
            Some(
                offset_pts_scaled(
                    Duration::zero(),
                    stats.queued_frames,
                    sample_rate,
                    UNIT_RATE,
                    offset,
                ),
            )
        };
        AudioClockSnapshot {
            media_time,
            queued_duration,
            queued_frames: stats.queued_frames,
            read_frames: stats.read_frames,
            written_frames: stats.written_frames,
            underflow_frames: stats.underflow_frames,
        }
    }
}

/// The sample rate of a format that may be unknown.
pub open spec fn rate_of(format: Option<PcmFormat>) -> u32 {
    match format {
        Some(format) => format.sample_rate,
        None => 0,
    }
}

/// The segment that covers what a device queue accepted.
pub open spec fn appended_segment<F: Fn(Duration, usize, u32, u64) -> Duration>(
    pushed: PcmSpscPushResult,
    segment_start: Option<Duration>,
    sample_rate: u32,
    rate: u64,
    offset: F,
) -> OutputTimelineSegment {
    OutputTimelineSegment {
        start_position: pushed.start_position,
        end_position: if pushed.start_position + pushed.accepted_frames <= u64::MAX {
            (pushed.start_position + pushed.accepted_frames) as u64
        } else {
            u64::MAX
        },
        media_time: optional_offset(
            offset,
            segment_start,
            pushed.input_offset_frames,
            sample_rate,
            rate,
        ),
        media_frames_per_output_frame: rate,
    }
}

/// What a lost device calls for.
#[derive(Debug, Clone, Copy, PartialEq, Eq, Structural)]
pub enum RecoveryPlan {
    /// The stream plays, or is not meant to.
    NotNeeded,
    /// The last attempt failed a moment ago.
    Wait,
    /// There is nothing to open a stream for.
    NotConfigured,
    /// Close the stream, then open and start one of this format.
    Reopen(PcmFormat),
}

/// How a recovery attempt ended.
#[derive(Debug, Clone, Copy, PartialEq, Eq, Structural)]
pub enum RecoveryOutcome {
    Recovered,
    /// The new stream was lost again before the attempt could be recorded.
    Redisconnected,
}

/// What an output is in the middle of.
#[verifier::ext_equal]
pub struct OutputView {
    pub state: AudioOutputState,
    pub progress: AudioOutputRuntimeStats,
    pub gain: u32,
    pub format: Option<PcmFormat>,
    pub has_queue: bool,
    pub has_stream: bool,
    pub timeline: OutputTimelineView,
    pub playback_rate: u64,
    pub next_recovery_at: Option<Duration>,
}

impl OutputView {
    pub open spec fn initial() -> Self {
        OutputView {
            state: AudioOutputState::Stopped,
            progress: AudioOutputRuntimeStats::initial(),
            gain: FULL_VOLUME,
            format: None,
            has_queue: false,
            has_stream: false,
            timeline: OutputTimeline::empty_view(),
            playback_rate: UNIT_RATE,
            next_recovery_at: None,
        }
    }

    /// What a lost device calls for at the time `now`.
    pub open spec fn recovery_plan(self, now: Duration) -> RecoveryPlan {
        if self.state != AudioOutputState::Playing || self.progress.recovery_state
            == AudioRecoveryState::Stable {
            RecoveryPlan::NotNeeded
        } else if self.progress.recovery_state == AudioRecoveryState::Failed
            && (self.next_recovery_at matches Some(deadline) && now@ < deadline@) {
            RecoveryPlan::Wait
        } else {
            match self.format {
                Some(format) if self.has_queue => RecoveryPlan::Reopen(format),
                _ => RecoveryPlan::NotConfigured,
            }
        }
    }

    /// The output ready to open a stream of `format`.
    pub open spec fn configured(self, format: PcmFormat) -> Self {
        OutputView {
            state: AudioOutputState::Stopped,
            progress: cleared(self.progress),
            format: Some(format),
            has_queue: true,
            has_stream: false,
            timeline: OutputTimeline::empty_view(),
            next_recovery_at: None,
            ..self
        }
    }

    /// The output after it was stopped.
    pub open spec fn stopped(self) -> Self {
        OutputView {
            state: AudioOutputState::Stopped,
            progress: cleared(self.progress),
            format: None,
            has_queue: false,
            has_stream: false,
            timeline: OutputTimeline::empty_view(),
            next_recovery_at: None,
            ..self
        }
    }

    /// The output after its stream was closed and a recovery attempt began.
    pub open spec fn reopening(self) -> Self {
        OutputView { has_stream: false, progress: recovering(self.progress), ..self }
    }

    /// The output after a recovery attempt failed at the time `now`; without a
    /// code of its own the failure keeps the last one.
    pub open spec fn reopen_failed(self, code: Option<i32>, now: Duration) -> Self {
        OutputView {
            progress: failed(
                self.progress,
                match code {
                    Some(code) => code,
                    None => self.progress.last_error_code,
                },
            ),
            next_recovery_at: Some(retry_deadline(now)),
            ..self
        }
    }

    /// The output with a new stream that plays. The attempt counts as a
    /// success unless the stream was lost again meanwhile.
    pub open spec fn reopened(self) -> Self {
        OutputView {
            has_stream: true,
            progress: match recovered(self.progress) {
                Some(after) => after,
                None => self.progress,
            },
            next_recovery_at: None,
            ..self
        }
    }
}

/// When a recovery that failed at `now` may be tried again.
pub open spec fn retry_deadline(now: Duration) -> Duration {
    Duration::spanning(capped((now@ + RECOVERY_RETRY_DELAY_MILLIS * 1_000_000) as nat))
}

/// The control state of a platform output stream.
#[derive(Debug)]
pub struct OutputControl {
    state: AudioOutputState,
    signals: OutputSignals,
    format: Option<PcmFormat>,
    has_queue: bool,
    has_stream: bool,
    timeline: OutputTimeline,
    playback_rate: u64,
    next_recovery_at: Option<Duration>,
}

impl View for OutputControl {
    type V = OutputView;

    closed spec fn view(&self) -> OutputView {
        OutputView {
            state: self.state,
            progress: self.signals.progress(),
            gain: self.signals.gain(),
            format: self.format,
            has_queue: self.has_queue,
            has_stream: self.has_stream,
            timeline: self.timeline@,
            playback_rate: self.playback_rate,
            next_recovery_at: self.next_recovery_at,
        }
    }
}

impl OutputControl {
    pub fn new() -> (control: Self)
        ensures
            control@ == OutputView::initial(),
    {
        OutputControl {
            state: AudioOutputState::Stopped,
            signals: OutputSignals::new(),
            format: None,
            has_queue: false,
            has_stream: false,
            timeline: OutputTimeline::new(),
            playback_rate: UNIT_RATE,
            next_recovery_at: None,
        }
    }

    pub fn state(&self) -> (state: AudioOutputState)
        ensures
            state == self@.state,
    {
        self.state
    }

    pub fn volume(&self) -> (volume: u32)
        ensures
            volume == self@.gain,
    {
        self.signals.volume()
    }

    pub fn set_volume(&mut self, volume: u32)
        ensures
            final(self)@ == (OutputView { gain: normalized(volume), ..old(self)@ }),
    {
        self.signals.set_volume(volume);
    }

    pub fn playback_rate(&self) -> (rate: u64)
        ensures
            rate == self@.playback_rate,
    {
        self.playback_rate
    }

    pub fn set_playback_rate(&mut self, rate: u64)
        ensures
            final(self)@ == (OutputView {
                playback_rate: normalized_rate(rate),
                ..old(self)@
            }),
    {
        self.playback_rate = normalize_playback_rate(rate);
    }

    pub fn format(&self) -> (format: Option<PcmFormat>)
        ensures
            format == self@.format,
    {
        self.format
    }

    pub fn has_stream(&self) -> (has_stream: bool)
        ensures
            has_stream == self@.has_stream,
    {
        self.has_stream
    }

    /// Whether another decoded frame may be pushed; an output that is not
    /// configured does not hold frames back.
    pub fn can_accept_audio_frame(&self, queued_frames: usize) -> (accepts: bool)
        ensures
            accepts <==> {
                ||| !self@.has_queue
                ||| rate_of(self@.format) == 0
                ||| queued_frames < high_water_frames(rate_of(self@.format))
            },
    {
        match self.format {
            Some(format) if self.has_queue => audio_output_queue_has_capacity(
                queued_frames,
                format.sample_rate,
            ),
            _ => true,
        }
    }

    pub fn runtime_stats(&self) -> (stats: AudioOutputRuntimeStats)
        ensures
            stats == self@.progress,
    {
        self.signals.snapshot()
    }

    /// Records a device loss that the platform reported on its own thread.
    pub fn device_lost(&mut self, error: i32)
        ensures
            final(self)@ == (OutputView {
                progress: disconnected(old(self)@.progress, error),
                ..old(self)@
            }),
    {
        self.signals.set_disconnected_from_callback(error);
    }

    /// Gets ready for a stream of `format`: any old stream is closed without
    /// being asked to stop, and the queue starts empty.
    pub fn begin_configure(&mut self, format: PcmFormat)
        ensures
            final(self)@ == old(self)@.configured(format),
    {
        self.state = AudioOutputState::Stopped;
        self.has_stream = false;
        self.timeline.clear();
        self.next_recovery_at = None;
        self.format = Some(format);
        self.has_queue = true;
        self.signals.reset_current_error();
    }

    /// Records that the stream of a configuration was opened.
    pub fn configure_succeeded(&mut self)
        ensures
            final(self)@ == (OutputView { has_stream: true, ..old(self)@ }),
    {
        self.has_stream = true;
    }

    /// Records that the stream of a configuration could not be opened.
    pub fn configure_failed(&mut self, code: Option<i32>) -> (stats: AudioOutputRuntimeStats)
        ensures
            final(self)@ == (OutputView {
                progress: failed(
                    old(self)@.progress,
                    match code {
                        Some(code) => code,
                        None => RESULT_OK,
                    },
                ),
                ..old(self)@
            }),
            stats == final(self)@.progress,
    {
        let code: i32 = match code {
            Some(code) => code,
            None => RESULT_OK,
        };
        self.signals.recovery_failed(code)
    }

    /// Sets the output playing; the caller gives the previous state back to
    /// [`OutputControl::start_failed`] if it cannot.
    pub fn begin_start(&mut self) -> (previous: AudioOutputState)
        ensures
            previous == old(self)@.state,
            final(self)@ == (OutputView { state: AudioOutputState::Playing, ..old(self)@ }),
    {
        let previous: AudioOutputState = self.state;
        self.state = AudioOutputState::Playing;
        previous
    }

    /// Puts the state back after a start that failed.
    pub fn start_failed(&mut self, previous: AudioOutputState)
        ensures
            final(self)@ == (OutputView { state: previous, ..old(self)@ }),
    {
        self.state = previous;
    }

    /// Records that the platform refused to start or pause the stream; with a
    /// result code the device counts as lost.
    pub fn stream_refused(&mut self, code: Option<i32>) -> (stats: Option<AudioOutputRuntimeStats>)
        ensures
            match code {
                Some(code) => {
                    &&& final(self)@ == (OutputView {
                        progress: disconnected(old(self)@.progress, code),
                        ..old(self)@
                    })
                    &&& stats == Some(final(self)@.progress)
                },
                None => stats is None && final(self)@ == old(self)@,
            },
    {
        match code {
            Some(code) => Some(self.signals.mark_disconnected(code)),
            None => None,
        }
    }

    /// Sets the output paused. Returns whether there is a stream to pause: one
    /// that did not play needs nothing.
    pub fn begin_pause(&mut self) -> (pause_stream: bool)
        ensures
            final(self)@ == (OutputView { state: AudioOutputState::Paused, ..old(self)@ }),
            pause_stream <==> old(self)@.state == AudioOutputState::Playing && old(
                self,
            )@.has_stream,
    {
        let previous: AudioOutputState = self.state;
        self.state = AudioOutputState::Paused;
        previous == AudioOutputState::Playing && self.has_stream
    }

    /// Stops the output and forgets its queue. Returns whether the stream is
    /// to be asked to stop before it is closed: one that plays is, and with
    /// `stops_paused` one that is paused too.
    pub fn stop(&mut self, stops_paused: bool) -> (request_stop: bool)
        ensures
            final(self)@ == old(self)@.stopped(),
            request_stop <==> old(self)@.has_stream && (old(self)@.state
                == AudioOutputState::Playing || (stops_paused && old(self)@.state
                == AudioOutputState::Paused)),
    {
        let previous: AudioOutputState = self.state;
        let request_stop: bool = self.has_stream && (previous == AudioOutputState::Playing || (
        stops_paused && previous == AudioOutputState::Paused));
        self.state = AudioOutputState::Stopped;
        self.has_stream = false;
        self.timeline.clear();
        self.has_queue = false;
        self.format = None;
        self.next_recovery_at = None;
        self.signals.reset_current_error();
        request_stop
    }

    /// What a lost device calls for at the time `now`.
    pub fn plan_recovery(&self, now: Duration) -> (plan: RecoveryPlan)
        ensures
            plan == self@.recovery_plan(now),
    {
        let progress: AudioOutputRuntimeStats = self.signals.snapshot();
        if self.state != AudioOutputState::Playing || progress.recovery_state
            == AudioRecoveryState::Stable {
            return RecoveryPlan::NotNeeded;
        }
        if progress.recovery_state == AudioRecoveryState::Failed {
            if let Some(deadline) = self.next_recovery_at {
                if now.as_nanos() < deadline.as_nanos() {
                    return RecoveryPlan::Wait;
                }
            }
        }
        match self.format {
            Some(format) if self.has_queue => RecoveryPlan::Reopen(format),
            _ => RecoveryPlan::NotConfigured,
        }
    }

    /// Begins a recovery attempt. Closing the old stream may itself report a
    /// loss, so this comes after the close.
    pub fn begin_reopen(&mut self) -> (stats: AudioOutputRuntimeStats)
        ensures
            final(self)@ == old(self)@.reopening(),
            stats == final(self)@.progress,
    {
        self.has_stream = false;
        self.signals.begin_recovery()
    }

    /// Records that a new stream could not be opened or started.
    pub fn reopen_failed(&mut self, code: Option<i32>, now: Duration) -> (stats:
        AudioOutputRuntimeStats)
        ensures
            final(self)@ == old(self)@.reopen_failed(code, now),
            stats == final(self)@.progress,
    {
        let code: i32 = match code {
            Some(code) => code,
            None => self.signals.snapshot().last_error_code,
        };
        let stats: AudioOutputRuntimeStats = self.signals.recovery_failed(code);
        let delay: Duration = Duration::from_millis(RECOVERY_RETRY_DELAY_MILLIS);
        let deadline: Duration = now.saturating_add(delay);
        proof {
            lemma_span_is_its_nanos(deadline);
        }
        self.next_recovery_at = Some(deadline);
        stats
    }

    /// Records that a new stream was opened and started.
    pub fn reopen_succeeded(&mut self) -> (outcome: RecoveryOutcome)
        ensures
            final(self)@ == old(self)@.reopened(),
            outcome == if final(self)@.progress.recovery_state == AudioRecoveryState::Stable {
                RecoveryOutcome::Recovered
            } else {
                RecoveryOutcome::Redisconnected
            },
    {
        self.has_stream = true;
        let stats: AudioOutputRuntimeStats = match self.signals.recovery_succeeded() {
            Some(stats) => stats,
            None => self.signals.snapshot(),
        };
        self.next_recovery_at = None;
        if stats.recovery_state == AudioRecoveryState::Stable {
            RecoveryOutcome::Recovered
        } else {
            RecoveryOutcome::Redisconnected
        }
    }

    /// Records what the device queue accepted.
    pub fn append_timeline<F: Fn(Duration, usize, u32, u64) -> Duration>(
        &mut self,
        pushed: PcmSpscPushResult,
        segment_start: Option<Duration>,
        queue: DeviceQueue,
        offset: &F,
    )
        requires
            is_media_offset(*offset),
        ensures
            ({
                let rate = rate_of(old(self)@.format);
                let shown = if old(self)@.has_queue {
                    Some(queue)
                } else {
                    None
                };
                let before = pruned_for(old(self)@.timeline, shown, rate, *offset);
                final(self)@ == (OutputView {
                    timeline: OutputTimelineView {
                        segments: if pushed.accepted_frames == 0 {
                            before.segments
                        } else {
                            before.segments.push(
                                appended_segment(
                                    pushed,
                                    segment_start,
                                    rate,
                                    old(self)@.playback_rate,
                                    *offset,
                                ),
                            )
                        },
                        last_media_time: before.last_media_time,
                    },
                    ..old(self)@
                })
            }),
    {
        let sample_rate: u32 = match self.format {
            Some(format) => format.sample_rate,
            None => 0,
        };
        let shown: Option<DeviceQueue> = if self.has_queue {
            Some(queue)
        } else {
            None
        };
        self.timeline.append_timeline(
            pushed,
            segment_start,
            shown,
            sample_rate,
            self.playback_rate,
            offset,
        );
    }

    /// The media clock as the device plays it. `queue` is what the device
    /// queue reports, where there is one.
    pub fn clock_snapshot<F: Fn(Duration, usize, u32, u64) -> Duration>(
        &mut self,
        queue: Option<DeviceQueue>,
        offset: &F,
    ) -> (snapshot: AudioClockSnapshot)
        requires
            is_media_offset(*offset),
        ensures
            ({
                let rate = rate_of(old(self)@.format);
                let timeline = pruned_for(old(self)@.timeline, queue, rate, *offset);
                let read_position = match queue {
                    Some(queue) => queue.read_position,
                    None => 0,
                };
                &&& final(self)@ == (OutputView { timeline, ..old(self)@ })
                &&& snapshot.media_time == playing_media_time(
                    timeline,
                    read_position,
                    rate,
                    *offset,
                )
                &&& snapshot.queued_duration == if rate == 0 {
                    None
                } else {
                    Some(
                        media_offset(
                            *offset,
                            Duration::spanning(0),
                            snapshot.queued_frames,
                            rate,
                            UNIT_RATE,
                        ),
                    )
                }
                &&& match queue {
                    Some(queue) => {
                        &&& snapshot.queued_frames == queue.stats.queued_frames
                        &&& snapshot.read_frames == queue.stats.read_frames
                        &&& snapshot.written_frames == queue.stats.written_frames
                        &&& snapshot.underflow_frames == queue.stats.underflow_frames
                    },
                    None => {
                        &&& snapshot.queued_frames == 0
                        &&& snapshot.read_frames == 0
                        &&& snapshot.written_frames == 0
                        &&& snapshot.underflow_frames == 0
                    },
                }
            }),
    {
        self.timeline.clock_snapshot(queue, self.format, offset)
    }
}

/// An output that is not playing never touches its stream on recovery.
pub proof fn lemma_recovery_needs_playing(output: OutputView, now: Duration)
    requires
        output.state != AudioOutputState::Playing,
    ensures
        output.recovery_plan(now) == RecoveryPlan::NotNeeded,
{
}

/// After a failed attempt a playing output waits for the retry delay and then
/// tries again.
pub proof fn lemma_failed_recovery_is_retried_after_the_delay(
    output: OutputView,
    code: Option<i32>,
    failed_at: Duration,
    now: Duration,
    format: PcmFormat,
)
    requires
        output.state == AudioOutputState::Playing,
        output.format == Some(format),
        output.has_queue,
        failed_at@ + RECOVERY_RETRY_DELAY_MILLIS * 1_000_000 <= crate::time::MAX_NANOS,
    ensures
        output.reopen_failed(code, failed_at).recovery_plan(now) == if now@ < failed_at@
            + RECOVERY_RETRY_DELAY_MILLIS * 1_000_000 {
            RecoveryPlan::Wait
        } else {
            RecoveryPlan::Reopen(format)
        },
{
    lemma_spanning_is_that_long(
        capped((failed_at@ + RECOVERY_RETRY_DELAY_MILLIS * 1_000_000) as nat),
    );
}

/// A loss of the device after a failed attempt is answered at once, without
/// waiting for the retry delay.
pub proof fn lemma_fresh_loss_is_answered_at_once(
    output: OutputView,
    error: i32,
    now: Duration,
    format: PcmFormat,
)
    requires
        output.state == AudioOutputState::Playing,
        output.format == Some(format),
        output.has_queue,
    ensures
        (OutputView { progress: disconnected(output.progress, error), ..output }).recovery_plan(now)
            == RecoveryPlan::Reopen(format),
{
}

/// A recovery that nothing interrupts leaves nothing to recover.
pub proof fn lemma_uninterrupted_reopen_needs_no_recovery(output: OutputView, now: Duration)
    ensures
        output.reopening().reopened().recovery_plan(now) == RecoveryPlan::NotNeeded,
        output.reopening().reopened().has_stream,
{
}

/// A stream that is lost again before its recovery is recorded is recovered
/// anew.
pub proof fn lemma_interrupted_reopen_is_tried_again(
    output: OutputView,
    error: i32,
    now: Duration,
    format: PcmFormat,
)
    requires
        output.state == AudioOutputState::Playing,
        output.format == Some(format),
        output.has_queue,
    ensures
        ({
            let begun = output.reopening();
            let lost = OutputView { progress: disconnected(begun.progress, error), ..begun };
            lost.reopened().recovery_plan(now) == RecoveryPlan::Reopen(format)
        }),
{
}

/// A stopped output has nothing to recover, whatever the device reports later.
pub proof fn lemma_stopped_output_stays_stopped(output: OutputView, error: i32, now: Duration)
    ensures
        ({
            let stopped = output.stopped();
            let reported = OutputView {
                progress: disconnected(stopped.progress, error),
                ..stopped
            };
            reported.recovery_plan(now) == RecoveryPlan::NotNeeded
        }),
{
}

/// The codes that a playing state is published by. A code that is none of them
/// stands for stopped.
pub proof fn lemma_output_states_are_published_by_code(code: u8)
    ensures
        decoded_state(0) == AudioOutputState::Stopped,
        decoded_state(1) == AudioOutputState::Playing,
        decoded_state(2) == AudioOutputState::Paused,
        code > 2 ==> decoded_state(code) == AudioOutputState::Stopped,
{
}

/// When the device has played the front segment, the clock remembers where that
/// segment ended: its own time moved on by all of its frames at its own ratio.
pub proof fn lemma_played_segment_leaves_its_end<F: Fn(Duration, usize, u32, u64) -> Duration>(
    timeline: OutputTimelineView,
    read_position: u64,
    sample_rate: u32,
    offset: F,
    start: Duration,
)
    requires
        timeline.segments.len() > 0,
        timeline.segments[0].start_position <= timeline.segments[0].end_position,
        timeline.segments[0].end_position <= read_position,
        timeline.segments[0].media_time == Some(start),
        timeline.segments.len() == 1 || timeline.segments[1].end_position > read_position,
    ensures
        ({
            let front = timeline.segments[0];
            let after = pruned(timeline, read_position, sample_rate, offset);
            &&& after.segments == timeline.segments.skip(1)
            &&& after.last_media_time == Some(
                media_offset(
                    offset,
                    start,
                    (front.end_position - front.start_position) as usize,
                    sample_rate,
                    front.media_frames_per_output_frame,
                ),
            )
        }),
{
    reveal_with_fuel(pruned, 3);
    assert(timeline.segments.skip(1) =~= timeline.segments.drop_first());
}

/// Nothing is forgotten of what the device has still to play, and without a device
/// queue only the time that was reached is kept.
pub proof fn lemma_unplayed_segments_stay<F: Fn(Duration, usize, u32, u64) -> Duration>(
    timeline: OutputTimelineView,
    queue: DeviceQueue,
    sample_rate: u32,
    offset: F,
)
    ensures
        timeline.segments.len() > 0 && timeline.segments[0].end_position > queue.read_position
            ==> pruned_for(timeline, Some(queue), sample_rate, offset) == timeline,
        pruned_for(timeline, Some(queue), sample_rate, offset) == pruned(
            timeline,
            queue.read_position,
            sample_rate,
            offset,
        ),
        pruned_for(timeline, None, sample_rate, offset).segments.len() == 0,
        pruned_for(timeline, None, sample_rate, offset).last_media_time
            == timeline.last_media_time,
{
}

/// Within the front segment the clock runs at that segment's ratio from that
/// segment's time; before it the clock waits at that time; and where the segment's
/// time is not known, or there is none, it stands where it was.
pub proof fn lemma_clock_runs_within_the_front_segment<
    F: Fn(Duration, usize, u32, u64) -> Duration,
>(timeline: OutputTimelineView, read_position: u64, sample_rate: u32, offset: F)
    ensures
        ({
            let told = playing_media_time(timeline, read_position, sample_rate, offset);
            let front = timeline.segments[0];
            &&& timeline.segments.len() == 0 ==> told == timeline.last_media_time
            &&& timeline.segments.len() > 0 && front.media_time is None ==> told
                == timeline.last_media_time
            &&& timeline.segments.len() > 0 && front.media_time is Some && read_position
                < front.start_position ==> told == front.media_time
            &&& timeline.segments.len() > 0 && front.media_time is Some && front.start_position
                <= read_position < front.end_position ==> told == Some(
                media_offset(
                    offset,
                    front.media_time->0,
                    (read_position - front.start_position) as usize,
                    sample_rate,
                    front.media_frames_per_output_frame,
                ),
            )
        }),
{
}

/// What a device queue accepted is one segment, as long as what was accepted, at the
/// queue position where it went. Its time is that of the first frame that was
/// offered, moved on by the frames that were left out in front.
pub proof fn lemma_accepted_audio_is_one_segment<F: Fn(Duration, usize, u32, u64) -> Duration>(
    pushed: PcmSpscPushResult,
    segment_start: Option<Duration>,
    sample_rate: u32,
    rate: u64,
    offset: F,
)
    requires
        pushed.start_position + pushed.accepted_frames <= u64::MAX,
    ensures
        ({
            let segment = appended_segment(pushed, segment_start, sample_rate, rate, offset);
            &&& segment.start_position == pushed.start_position
            &&& segment.end_position - segment.start_position == pushed.accepted_frames
            &&& segment.media_frames_per_output_frame == rate
            &&& segment_start is None ==> segment.media_time is None
            &&& segment_start matches Some(start) ==> segment.media_time == Some(
                media_offset(offset, start, pushed.input_offset_frames, sample_rate, rate),
            )
        }),
{
}

/// When an output tries to recover. Only a playing output that has lost its device
/// does; after a failure it waits for the deadline; and then it needs a format and a
/// queue to reopen with.
pub proof fn lemma_recovery_is_for_lost_playing_outputs(output: OutputView, now: Duration)
    ensures
        ({
            let plan = output.recovery_plan(now);
            let lost = output.state == AudioOutputState::Playing
                && output.progress.recovery_state != AudioRecoveryState::Stable;
            let waits = lost && output.progress.recovery_state == AudioRecoveryState::Failed
                && output.next_recovery_at is Some && now@ < output.next_recovery_at->0@;
            &&& plan == RecoveryPlan::NotNeeded <==> !lost
            &&& plan == RecoveryPlan::Wait <==> waits
            &&& lost && !waits && output.has_queue && output.format is Some ==> plan
                == RecoveryPlan::Reopen(output.format->0)
            &&& lost && !waits && !(output.has_queue && output.format is Some) ==> plan
                == RecoveryPlan::NotConfigured
        }),
{
}

/// What becomes of an output when it is configured, stopped or reopened. Configuring
/// and stopping both end what was playing and what was wrong, and keep the volume and
/// the rate; only configuring leaves a queue. Reopening lets go of the stream at
/// once, has one again when it succeeded, and keeps the queue and its clock.
pub proof fn lemma_output_changes_keep_the_settings(
    output: OutputView,
    format: PcmFormat,
    code: Option<i32>,
    now: Duration,
)
    requires
        now@ + 250_000_000 <= crate::time::MAX_NANOS,
    ensures
        ({
            let configured = output.configured(format);
            &&& configured.state == AudioOutputState::Stopped
            &&& configured.format == Some(format)
            &&& configured.has_queue
            &&& !configured.has_stream
            &&& configured.timeline.segments.len() == 0
            &&& configured.timeline.last_media_time is None
            &&& configured.next_recovery_at is None
            &&& configured.progress.recovery_state == AudioRecoveryState::Stable
            &&& configured.progress.last_error_code == 0
            &&& configured.gain == output.gain
            &&& configured.playback_rate == output.playback_rate
        }),
        ({
            let stopped = output.stopped();
            &&& stopped.state == AudioOutputState::Stopped
            &&& stopped.format is None
            &&& !stopped.has_queue
            &&& !stopped.has_stream
            &&& stopped.timeline.segments.len() == 0
            &&& stopped.timeline.last_media_time is None
            &&& stopped.next_recovery_at is None
            &&& stopped.progress.recovery_state == AudioRecoveryState::Stable
            &&& stopped.progress.last_error_code == 0
            &&& stopped.gain == output.gain
            &&& stopped.playback_rate == output.playback_rate
        }),
        ({
            let begun = output.reopening();
            &&& !begun.has_stream
            &&& begun.progress.recovery_state == AudioRecoveryState::Recovering
            &&& begun == (OutputView { has_stream: false, progress: begun.progress, ..output })
        }),
        ({
            let refused = output.reopen_failed(code, now);
            &&& refused.progress.recovery_state == AudioRecoveryState::Failed
            &&& code is Some ==> refused.progress.last_error_code == code->0
            &&& code is None ==> refused.progress.last_error_code
                == output.progress.last_error_code
            &&& refused.next_recovery_at matches Some(deadline) && deadline@ == now@ + 250_000_000
            &&& refused == (OutputView {
                progress: refused.progress,
                next_recovery_at: refused.next_recovery_at,
                ..output
            })
        }),
        ({
            let reopened = output.reopened();
            &&& reopened.has_stream
            &&& reopened.next_recovery_at is None
            &&& output.progress.recovery_state != AudioRecoveryState::Recovering ==>
                reopened.progress == output.progress
            &&& reopened == (OutputView {
                has_stream: true,
                next_recovery_at: None,
                progress: reopened.progress,
                ..output
            })
        }),
        ({
            let new = OutputView::initial();
            &&& new.state == AudioOutputState::Stopped
            &&& new.gain == 0x3f80_0000
            &&& new.playback_rate == 0x3ff0_0000_0000_0000
            &&& new.format is None
            &&& !new.has_queue
            &&& !new.has_stream
            &&& new.timeline.segments.len() == 0
            &&& new.timeline.last_media_time is None
            &&& new.next_recovery_at is None
        }),
{
    lemma_spanning_is_that_long((now@ + 250_000_000) as nat);
}

/// A clock runs at the sample rate of its format, and not at all without one.
pub proof fn lemma_clock_runs_at_the_formats_rate(format: PcmFormat)
    ensures
        rate_of(Some(format)) == format.sample_rate,
        rate_of(None) == 0,
{
}

} // verus!
