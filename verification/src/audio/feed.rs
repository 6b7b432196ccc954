//! The way of a decoded frame to a device's queue: it goes through the ring
//! buffer, which gives it its tempo, and comes out again at once.

use crate::audio::rate::{is_distance, UNIT_RATE};
use crate::audio::ring::{
    accepting, after_read, clock, counts_fit, is_unit_rate, prepares, push_outcome, pushed,
    AudioRingBuffer, RingView,
};
use crate::audio::tempo::PreparedAudio;
use crate::audio::timeline::{
    advanced_singly, is_media_offset, lemma_advanced_frames, lemma_total_frames_push,
    optional_offset, AudioTimelineSegment,
};
use crate::audio::{
    AudioClockSnapshot, AudioError, AudioPushResult, AudioReadResult, AudioRingBufferConfig,
};
use crate::pcm::{PcmAudioFrame, SILENCE};
use crate::time::Duration;
use vstd::arithmetic::div_mod::{lemma_div_multiples_vanish, lemma_fundamental_div_mod};
use vstd::arithmetic::mul::{lemma_mul_inequality, lemma_mul_is_commutative};
use vstd::prelude::*;

verus! {

/// What came out of a ring buffer for a device.
#[derive(Debug, Clone, PartialEq, Eq)]
pub struct FedAudio {
    pub samples: Vec<u32>,
    pub frames: usize,
    /// The media time of the first sample, or the last one known.
    pub media_time: Option<Duration>,
}

/// `fed` is everything that was queued, and `after` the queue without it.
pub open spec fn drains<F: Fn(Duration, usize, u32, u64) -> Duration>(
    ring: RingView,
    offset: F,
    fed: FedAudio,
    after: RingView,
) -> bool {
    &&& fed.samples@ == ring.samples
    &&& fed.frames == ring.queued_frames()
    &&& fed.media_time == clock(ring, offset).media_time
    &&& after == after_read(ring, ring.queued_frames(), offset)
}

/// Reading `samples` samples keeps every count within its machine integer.
pub open spec fn reads_fit(ring: RingView, samples: nat) -> bool {
    &&& ring.read_frames + samples <= u64::MAX
    &&& ring.underflow_frames + samples <= u64::MAX
}

impl AudioRingBuffer {
    /// Takes out everything that is queued.
    pub fn drain<F: Fn(Duration, usize, u32, u64) -> Duration>(&mut self, offset: &F) -> (fed:
        Result<FedAudio, AudioError>)
        requires
            old(self).well_formed(),
            is_media_offset(*offset),
            reads_fit(old(self)@, old(self)@.samples.len()),
        ensures
            final(self).well_formed(),
            final(self).configuration() == old(self).configuration(),
            match fed {
                Ok(fed) => old(self)@.format is Some && drains(
                    old(self)@,
                    *offset,
                    fed,
                    final(self)@,
                ),
                Err(error) => {
                    &&& old(self)@.format is None
                    &&& error == AudioError::FormatNotConfigured
                    &&& final(self)@ == old(self)@
                },
            },
    {
        let ghost before = self@;
        let channels: usize = match self.format() {
            Some(format) => format.channels as usize,
            None => {
                return Err(AudioError::FormatNotConfigured);
            },
        };
        let snapshot: AudioClockSnapshot = self.clock_snapshot(offset);
        let frames: usize = snapshot.queued_frames;
        let queued: usize = self.stats().queued_samples;
        assert(queued == frames * channels);
        let count: usize = frames * channels;
        let mut samples: Vec<u32> = vec![SILENCE; count];
        proof {
            lemma_mul_is_commutative(frames as int, channels as int);
            lemma_div_multiples_vanish(frames as int, channels as int);
        }
        let read: Result<AudioReadResult, AudioError> = self.read_interleaved(
            samples.as_mut_slice(),
            offset,
        );
        match read {
            Ok(_) => {
                assert(samples@ =~= before.samples);
                Ok(FedAudio { samples, frames, media_time: snapshot.media_time })
            },
            Err(error) => Err(error),
        }
    }

    /// Pushes a decoded frame and takes out everything that is queued then.
    pub fn feed<
        D: Fn(u64, u64) -> u64,
        T: FnOnce(bool, Vec<u32>, usize) -> Vec<u32>,
        F: Fn(Duration, usize, u32, u64) -> Duration,
    >(&mut self, frame: PcmAudioFrame, distance: &D, transform: T, offset: &F) -> (fed: Result<
        FedAudio,
        AudioError,
    >)
        requires
            old(self).well_formed(),
            is_distance(*distance),
            is_media_offset(*offset),
            forall|fresh: bool, samples: Vec<u32>, frames: usize| #[trigger]
                transform.requires((fresh, samples, frames)),
            is_unit_rate(*distance, old(self)@.playback_rate) ==> counts_fit(
                old(self)@,
                frame.samples@.len(),
            ),
            !is_unit_rate(*distance, old(self)@.playback_rate) ==> counts_fit(old(self)@, 0)
                && forall|
                fresh: bool,
                samples: Vec<u32>,
                frames: usize,
                stretched: Vec<u32>,
            |
                #[trigger] transform.ensures((fresh, samples, frames), stretched) ==> counts_fit(
                    old(self)@,
                    stretched@.len(),
                ),
            reads_fit(
                old(self)@,
                (old(self).configuration().capacity_frames * frame.format.channels) as nat,
            ),
        ensures
            final(self).well_formed(),
            final(self).configuration() == old(self).configuration(),
            fed is Err <==> {
                ||| old(self)@.format is Some && old(self)@.format != Some(frame.format)
                ||| old(self)@.format is None && frame.format.channels == 0
            },
            fed matches Err(error) ==> {
                &&& final(self)@ == old(self)@
                &&& error == match old(self)@.format {
                    Some(format) => AudioError::FormatChanged {
                        expected: format,
                        actual: frame.format,
                    },
                    None => AudioError::InvalidChannelCount,
                }
            },
            fed matches Ok(fed) ==> feeds(
                old(self)@,
                old(self).configuration(),
                frame,
                *distance,
                transform,
                *offset,
                fed,
                final(self)@,
            ),
    {
        let ghost config = self.configuration();
        let ghost decoded = frame;
        match self.push_frame(frame, distance, transform, offset) {
            Ok(result) => {
                proof {
                    let after = self@;
                    assert(push_outcome(
                        old(self)@,
                        config,
                        decoded,
                        *distance,
                        transform,
                        *offset,
                        after,
                        result,
                    ));
                    lemma_push_keeps_reads(
                        old(self)@,
                        config,
                        decoded,
                        *distance,
                        transform,
                        *offset,
                        after,
                        result,
                    );
                    lemma_mul_inequality(
                        after.queued_frames() as int,
                        config.capacity_frames as int,
                        decoded.format.channels as int,
                    );
                }
                self.drain(offset)
            },
            Err(error) => Err(error),
        }
    }
}

/// `fed` is what comes out of a ring buffer once `frame` has been pushed, and
/// `after` what the ring buffer is then.
pub open spec fn feeds<
    D: Fn(u64, u64) -> u64,
    T: FnOnce(bool, Vec<u32>, usize) -> Vec<u32>,
    F: Fn(Duration, usize, u32, u64) -> Duration,
>(
    ring: RingView,
    config: AudioRingBufferConfig,
    frame: PcmAudioFrame,
    distance: D,
    transform: T,
    offset: F,
    fed: FedAudio,
    after: RingView,
) -> bool {
    exists|queued: RingView, result: AudioPushResult|
        {
            &&& #[trigger] push_outcome(
                ring,
                config,
                frame,
                distance,
                transform,
                offset,
                queued,
                result,
            )
            &&& drains(queued, offset, fed, after)
        }
}

/// A push reads nothing, and leaves the queue in the format of the frame.
proof fn lemma_push_keeps_reads<
    D: Fn(u64, u64) -> u64,
    T: FnOnce(bool, Vec<u32>, usize) -> Vec<u32>,
    F: Fn(Duration, usize, u32, u64) -> Duration,
>(
    ring: RingView,
    config: AudioRingBufferConfig,
    frame: PcmAudioFrame,
    distance: D,
    transform: T,
    offset: F,
    after: RingView,
    result: AudioPushResult,
)
    requires
        ring.format is None || ring.format == Some(frame.format),
        push_outcome(ring, config, frame, distance, transform, offset, after, result),
    ensures
        after.read_frames == ring.read_frames,
        after.underflow_frames == ring.underflow_frames,
        after.format == Some(frame.format),
{
}

/// A ring buffer is empty once everything has been taken out of it, and nothing
/// was missing.
pub proof fn lemma_drained_queue_is_empty<F: Fn(Duration, usize, u32, u64) -> Duration>(
    ring: RingView,
    config: AudioRingBufferConfig,
    offset: F,
    fed: FedAudio,
    after: RingView,
)
    requires
        ring.well_formed(config),
        drains(ring, offset, fed, after),
    ensures
        after.queued_frames() == 0,
        after.samples.len() == 0,
        after.read_frames == ring.read_frames + ring.queued_frames(),
        after.underflow_frames == ring.underflow_frames,
{
    lemma_advanced_frames(ring.timeline, ring.queued_frames(), ring.sample_rate(), offset);
}

/// At normal speed a frame comes out of an empty ring buffer with the samples with
/// which it went in, and at its own media time, no frames later.
pub proof fn lemma_normal_speed_passes_through<
    D: Fn(u64, u64) -> u64,
    T: FnOnce(bool, Vec<u32>, usize) -> Vec<u32>,
    F: Fn(Duration, usize, u32, u64) -> Duration,
>(
    ring: RingView,
    config: AudioRingBufferConfig,
    frame: PcmAudioFrame,
    distance: D,
    transform: T,
    offset: F,
    fed: FedAudio,
    after: RingView,
)
    requires
        ring.well_formed(config),
        ring.format == Some(frame.format),
        ring.queued_frames() == 0,
        is_unit_rate(distance, ring.playback_rate),
        frame.samples@.len() % ring.channels() == 0,
        frame.samples@.len() / ring.channels() <= config.capacity_frames,
        feeds(ring, config, frame, distance, transform, offset, fed, after),
    ensures
        fed.samples@ == frame.samples@,
        fed.frames == frame.samples@.len() / ring.channels(),
        frame.samples@.len() > 0 && frame.pts is Some ==> fed.media_time == optional_offset(
            offset,
            frame.pts,
            0,
            frame.format.sample_rate,
            UNIT_RATE,
        ),
{
    let (queued, result) = choose|queued: RingView, result: AudioPushResult|
        {
            &&& #[trigger] push_outcome(
                ring,
                config,
                frame,
                distance,
                transform,
                offset,
                queued,
                result,
            )
            &&& drains(queued, offset, fed, after)
        };
    let base = accepting(ring, frame.format);
    let prepared = choose|prepared: PreparedAudio|
        {
            &&& #[trigger] prepares(
                base,
                frame,
                distance,
                transform,
                offset,
                queued.tempo,
                prepared,
            )
            &&& queued == pushed(
                RingView { tempo: queued.tempo, ..base },
                config,
                prepared.samples@,
                prepared.start,
                prepared.media_frames_per_output_frame,
                offset,
            )
        };
    let channels = ring.channels();
    let samples = frame.samples@;
    let incoming = samples.len() / channels;
    let waiting = RingView { tempo: queued.tempo, ..ring };
    lemma_fundamental_div_mod(samples.len() as int, channels as int);
    lemma_mul_is_commutative(incoming as int, channels as int);
    assert(0 * channels == 0) by (nonlinear_arith);
    assert(ring.samples.len() == 0);
    assert(ring.timeline.segments.len() == 0) by {
        if ring.timeline.segments.len() > 0 {
            assert(ring.timeline.segments[0].frames > 0);
        }
    }
    assert(queued == pushed(waiting, config, samples, frame.pts, UNIT_RATE, offset));
    if incoming == 0 {
        assert(queued.samples =~= samples);
    } else {
        let segment = AudioTimelineSegment {
            start: optional_offset(offset, frame.pts, 0, ring.sample_rate(), UNIT_RATE),
            frames: incoming as usize,
            media_frames_per_output_frame: UNIT_RATE,
        };
        lemma_total_frames_push(ring.timeline.segments, segment);
        assert(advanced_singly(ring.timeline, 0, ring.sample_rate(), offset) == ring.timeline);
        assert(queued.samples =~= samples);
        assert(queued.timeline.segments[0] == segment);
    }
}

/// Feeding hands over the whole queue in its order, with the time of its oldest
/// frame where that is known and else the time that was reached before.
pub proof fn lemma_feed_hands_over_the_queue<F: Fn(Duration, usize, u32, u64) -> Duration>(
    ring: RingView,
    offset: F,
    fed: FedAudio,
    after: RingView,
)
    requires
        drains(ring, offset, fed, after),
    ensures
        fed.samples@ == ring.samples,
        fed.frames == ring.queued_frames(),
        ring.timeline.segments.len() > 0 && ring.timeline.segments[0].start is Some
            ==> fed.media_time == ring.timeline.segments[0].start,
        ring.timeline.segments.len() == 0 ==> fed.media_time == ring.timeline.last_media_time,
        after.written_frames == ring.written_frames,
        after.dropped_frames == ring.dropped_frames,
        after.format == ring.format,
        after.playback_rate == ring.playback_rate,
        after.tempo == ring.tempo,
{
}

} // verus!
