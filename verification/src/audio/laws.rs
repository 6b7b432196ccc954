//! What reading, pushing and rate changes do to a queue of audio frames and to
//! its clock, stated of the frames themselves.

use crate::audio::rate::{is_distance, normalized_rate};
use crate::audio::ring::{
    accepting, after_read, bridge_frames, changes_rate, clock, cut_to_front, evicted_frames,
    is_unit_rate, lemma_drop_oldest_keeps_the_newest, lemma_push_accounts_for_every_frame,
    lemma_refusing_keeps_the_queue, prepares, push_outcome, pushed, read_samples, tempo_in_use,
    RingView,
};
use crate::audio::tempo::{processes, serves_rate, AudioTempoProcessor, PreparedAudio};
use crate::audio::timeline::{
    advanced, advanced_singly, is_media_offset, lemma_advanced_frames,
    lemma_advanced_singly_frames, lemma_trimmed_frames, media_offset, no_empty_segment,
    optional_offset, total_frames, trimmed, AudioTimelineSegment, TimelineView,
};
use crate::audio::{AudioPushResult, AudioRingBufferConfig};
use crate::pcm::{PcmAudioFrame, PcmFormat};
use crate::time::Duration;
use vstd::arithmetic::mul::lemma_mul_inequality;
use vstd::prelude::*;

verus! {

/// Media time is moved on by the conversion that was handed in, given the start,
/// the frames, the sample rate and the frames' own ratio, in this order. Without a
/// sample rate it stands still.
pub proof fn lemma_media_time_moves_by_the_conversion<
    F: Fn(Duration, usize, u32, u64) -> Duration,
>(offset: F, start: Duration, frames: usize, sample_rate: u32, rate: u64, at: Duration)
    requires
        is_media_offset(offset),
        offset.ensures((start, frames, sample_rate, rate), at),
    ensures
        media_offset(offset, start, frames, sample_rate, rate) == if sample_rate == 0 {
            start
        } else {
            at
        },
        optional_offset(offset, Some(start), frames, sample_rate, rate) == Some(
            media_offset(offset, start, frames, sample_rate, rate),
        ),
        optional_offset(offset, None, frames, sample_rate, rate) is None,
{
}

/// Reading does not change how the remaining audio is timed. What is left is the
/// end of what was queued: every segment behind the front one is as it was, and the
/// front one keeps the ratio that it was pushed with. Where part of it was read, it
/// starts where the last frame read ended, by its own ratio.
pub proof fn lemma_reading_leaves_the_rest_as_queued<
    F: Fn(Duration, usize, u32, u64) -> Duration,
>(timeline: TimelineView, frames: nat, sample_rate: u32, offset: F)
    requires
        no_empty_segment(timeline.segments),
    ensures
        ({
            let before = timeline.segments;
            let after = advanced(timeline, frames, sample_rate, offset).segments;
            let gone = before.len() - after.len();
            let front = before[gone];
            let taken = front.frames - after[0].frames;
            &&& 0 <= gone
            &&& forall|i: int| 0 < i < after.len() ==> #[trigger] after[i] == before[gone + i]
            &&& after.len() > 0 ==> {
                &&& after[0].media_frames_per_output_frame == front.media_frames_per_output_frame
                &&& 0 <= taken < front.frames
                &&& taken == 0 ==> after[0] == front
                &&& taken > 0 ==> after[0].start == match front.start {
                    Some(start) => Some(
                        media_offset(
                            offset,
                            start,
                            taken as usize,
                            sample_rate,
                            front.media_frames_per_output_frame,
                        ),
                    ),
                    None => None,
                }
            }
            &&& total_frames(after) == if frames <= total_frames(before) {
                total_frames(before) - frames
            } else {
                0
            }
        }),
    decreases timeline.segments.len(),
{
    lemma_advanced_frames(timeline, frames, sample_rate, offset);
    if frames == 0 || timeline.segments.len() == 0 {
    } else if frames >= timeline.segments[0].frames {
        let front = timeline.segments[0];
        let rest = TimelineView {
            segments: timeline.segments.drop_first(),
            last_media_time: if front.start is Some {
                optional_offset(
                    offset,
                    front.start,
                    front.frames,
                    sample_rate,
                    front.media_frames_per_output_frame,
                )
            } else {
                timeline.last_media_time
            },
        };
        let left = (frames - front.frames) as nat;
        assert(no_empty_segment(rest.segments)) by {
            assert forall|i: int| 0 <= i < rest.segments.len() implies #[trigger]
                rest.segments[i].frames > 0 by {
                assert(rest.segments[i] == timeline.segments[i + 1]);
            }
        }
        lemma_reading_leaves_the_rest_as_queued(rest, left, sample_rate, offset);
        let after = advanced(rest, left, sample_rate, offset).segments;
        assert(after == advanced(timeline, frames, sample_rate, offset).segments);
        let gone = rest.segments.len() - after.len();
        assert forall|i: int| 0 < i < after.len() implies #[trigger] after[i]
            == timeline.segments[gone + 1 + i] by {
            assert(rest.segments[gone + i] == timeline.segments[gone + 1 + i]);
        }
    }
}

/// Dropping frames one at a time leaves the end of what was queued too: every
/// segment behind the front one as it was, and the front one with its ratio.
pub proof fn lemma_dropping_leaves_the_rest_as_queued<
    F: Fn(Duration, usize, u32, u64) -> Duration,
>(timeline: TimelineView, count: nat, sample_rate: u32, offset: F)
    requires
        no_empty_segment(timeline.segments),
    ensures
        ({
            let before = timeline.segments;
            let after = advanced_singly(timeline, count, sample_rate, offset).segments;
            let gone = before.len() - after.len();
            &&& 0 <= gone
            &&& forall|i: int| 0 < i < after.len() ==> #[trigger] after[i] == before[gone + i]
            &&& after.len() > 0 ==> {
                &&& after[0].media_frames_per_output_frame
                    == before[gone].media_frames_per_output_frame
                &&& after[0].frames <= before[gone].frames
                &&& after[0].frames == before[gone].frames ==> after[0] == before[gone]
                &&& after[0].start is Some <==> before[gone].start is Some
            }
            &&& total_frames(after) == if count <= total_frames(before) {
                total_frames(before) - count
            } else {
                0
            }
        }),
    decreases count,
{
    lemma_advanced_singly_frames(timeline, count, sample_rate, offset);
    if count > 0 {
        let fewer = (count - 1) as nat;
        lemma_dropping_leaves_the_rest_as_queued(timeline, fewer, sample_rate, offset);
        let middle = advanced_singly(timeline, fewer, sample_rate, offset);
        lemma_advanced_singly_frames(timeline, fewer, sample_rate, offset);
        lemma_reading_leaves_the_rest_as_queued(middle, 1, sample_rate, offset);
        let after = advanced(middle, 1, sample_rate, offset).segments;
        let first = timeline.segments.len() - middle.segments.len();
        let second = middle.segments.len() - after.len();
        assert forall|i: int| 0 < i < after.len() implies #[trigger] after[i]
            == timeline.segments[first + second + i] by {
            assert(after[i] == middle.segments[second + i]);
            assert(middle.segments[second + i] == timeline.segments[first + (second + i)]);
        }
        if after.len() > 0 && second > 0 {
            assert(middle.segments[second] == timeline.segments[first + second]);
        }
    }
}

/// The last media time that a queue remembers is where reading stopped: at the
/// start of what is left of a segment that was read in part, or else at the end of
/// the last segment that was read whole. Audio whose time is not known leaves it
/// unchanged.
pub proof fn lemma_last_media_time_is_where_reading_stopped<
    F: Fn(Duration, usize, u32, u64) -> Duration,
>(timeline: TimelineView, frames: nat, sample_rate: u32, offset: F)
    requires
        no_empty_segment(timeline.segments),
        0 < frames <= total_frames(timeline.segments),
    ensures
        ({
            let before = timeline.segments;
            let after = advanced(timeline, frames, sample_rate, offset);
            let gone = before.len() - after.segments.len();
            let whole = before[gone - 1];
            &&& (forall|i: int| 0 <= i < before.len() ==> #[trigger] before[i].start is Some) ==> {
                if after.segments.len() > 0 && after.segments[0] != before[gone] {
                    after.last_media_time == after.segments[0].start
                } else {
                    &&& gone > 0
                    &&& after.last_media_time == Some(
                        media_offset(
                            offset,
                            whole.start->0,
                            whole.frames,
                            sample_rate,
                            whole.media_frames_per_output_frame,
                        ),
                    )
                }
            }
            &&& (forall|i: int| 0 <= i < before.len() ==> #[trigger] before[i].start is None) ==>
                after.last_media_time == timeline.last_media_time
        }),
    decreases timeline.segments.len(),
{
    lemma_reading_leaves_the_rest_as_queued(timeline, frames, sample_rate, offset);
    let front = timeline.segments[0];
    if frames >= front.frames {
        let rest = TimelineView {
            segments: timeline.segments.drop_first(),
            last_media_time: if front.start is Some {
                optional_offset(
                    offset,
                    front.start,
                    front.frames,
                    sample_rate,
                    front.media_frames_per_output_frame,
                )
            } else {
                timeline.last_media_time
            },
        };
        let left = (frames - front.frames) as nat;
        assert forall|i: int| 0 <= i < rest.segments.len() implies #[trigger] rest.segments[i]
            == timeline.segments[i + 1] by {}
        assert(no_empty_segment(rest.segments)) by {
            assert forall|i: int| 0 <= i < rest.segments.len() implies #[trigger]
                rest.segments[i].frames > 0 by {
                assert(rest.segments[i] == timeline.segments[i + 1]);
            }
        }
        let before = timeline.segments;
        let after = advanced(timeline, frames, sample_rate, offset);
        assert(after == advanced(rest, left, sample_rate, offset));
        if forall|i: int| 0 <= i < before.len() ==> #[trigger] before[i].start is Some {
            assert forall|i: int| 0 <= i < rest.segments.len() implies #[trigger]
                rest.segments[i].start is Some by {
                assert(before[i + 1].start is Some);
            }
            assert(before[0].start is Some);
        }
        if forall|i: int| 0 <= i < before.len() ==> #[trigger] before[i].start is None {
            assert forall|i: int| 0 <= i < rest.segments.len() implies #[trigger]
                rest.segments[i].start is None by {
                assert(before[i + 1].start is None);
            }
            assert(before[0].start is None);
        }
        if left > 0 {
            lemma_last_media_time_is_where_reading_stopped(rest, left, sample_rate, offset);
            lemma_reading_leaves_the_rest_as_queued(rest, left, sample_rate, offset);
            let gone = before.len() - after.segments.len();
            if after.segments.len() > 0 {
                assert(rest.segments[gone - 1] == before[gone]);
            }
            if gone > 1 {
                assert(rest.segments[gone - 2] == before[gone - 1]);
            }
        } else {
            assert(after == rest);
            if rest.segments.len() > 0 {
                assert(rest.segments[0] == before[1]);
            }
        }
    }
}

/// Two reads that stay within the front segment move the media time on by the first
/// and then by the second, both at the ratio that the segment was pushed with.
pub proof fn lemma_two_reads_move_the_clock_by_one_ratio<
    F: Fn(Duration, usize, u32, u64) -> Duration,
>(ring: RingView, config: AudioRingBufferConfig, first: usize, second: usize, offset: F)
    requires
        ring.well_formed(config),
        ring.timeline.segments.len() > 0,
        ring.timeline.segments[0].start is Some,
        0 < first,
        0 < second,
        first + second < ring.timeline.segments[0].frames || (first + second
            == ring.timeline.segments[0].frames && ring.timeline.segments.len() == 1),
    ensures
        ({
            let front = ring.timeline.segments[0];
            let rate = front.media_frames_per_output_frame;
            let middle = after_read(ring, first as nat, offset);
            let after = after_read(middle, second as nat, offset);
            let reached = media_offset(offset, front.start->0, first, ring.sample_rate(), rate);
            &&& clock(middle, offset).media_time == Some(reached)
            &&& clock(after, offset).media_time == Some(
                media_offset(offset, reached, second, ring.sample_rate(), rate),
            )
            &&& after.timeline.segments.len() > 0 ==> {
                &&& after.timeline.segments[0].media_frames_per_output_frame == rate
                &&& after.timeline.segments[0].frames == front.frames - first - second
            }
        }),
{
    assert(ring.queued_frames() >= ring.timeline.segments[0].frames);
    let middle = after_read(ring, first as nat, offset);
    lemma_advanced_frames(ring.timeline, first as nat, ring.sample_rate(), offset);
    assert(middle.timeline.segments[0].frames == ring.timeline.segments[0].frames - first);
    assert(middle.queued_frames() >= second);
    reveal_with_fuel(advanced, 2);
}

/// Every frame that is read is counted once: as read where there was one, as
/// missing where there was none. Nothing else about the queue is counted or changed.
pub proof fn lemma_reading_counts_every_frame<F: Fn(Duration, usize, u32, u64) -> Duration>(
    ring: RingView,
    requested: nat,
    offset: F,
)
    ensures
        ({
            let after = after_read(ring, requested, offset);
            let read = after.read_frames - ring.read_frames;
            let missing = after.underflow_frames - ring.underflow_frames;
            &&& read + missing == requested
            &&& read <= ring.queued_frames()
            &&& missing > 0 ==> read == ring.queued_frames()
            &&& missing >= 0
            &&& after.samples == ring.samples.skip(read * ring.channels())
            &&& after.format == ring.format
            &&& after.playback_rate == ring.playback_rate
            &&& after.tempo == ring.tempo
            &&& after.written_frames == ring.written_frames
            &&& after.dropped_frames == ring.dropped_frames
        }),
{
}

/// A read gives the oldest samples in their order and then silence, whose samples
/// are zero.
pub proof fn lemma_reads_give_the_oldest_and_then_silence(
    ring: RingView,
    config: AudioRingBufferConfig,
    len: nat,
)
    requires
        ring.well_formed(config),
        ring.format is Some,
        len % ring.channels() == 0,
    ensures
        ({
            let read = read_samples(ring, len);
            &&& read.len() == len
            &&& len <= ring.samples.len() ==> read == ring.samples.take(len as int)
            &&& len > ring.samples.len() ==> read.take(ring.samples.len() as int) == ring.samples
            &&& forall|i: int| ring.samples.len() <= i < len ==> #[trigger] read[i] == 0
        }),
{
    let channels = ring.channels() as int;
    let wanted = len as int / channels;
    let queued = ring.queued_frames() as int;
    assert(wanted * channels == len) by (nonlinear_arith)
        requires
            channels > 0,
            len as int % channels == 0,
            wanted == len as int / channels,
    ;
    if wanted <= queued {
        lemma_mul_inequality(wanted, queued, channels);
    } else {
        lemma_mul_inequality(queued, wanted, channels);
        assert(queued * channels < len) by (nonlinear_arith)
            requires
                channels > 0,
                queued < wanted,
                wanted * channels == len,
        ;
    }
    let read = read_samples(ring, len);
    if len <= ring.samples.len() {
        if wanted > queued {
            assert(false);
        }
        assert(read =~= ring.samples.take(len as int));
    } else {
        if wanted <= queued {
            assert(false);
        }
        assert(read.take(ring.samples.len() as int) =~= ring.samples);
    }
}

/// The clock stands at the oldest queued audio whose time is known, or else where
/// the last such audio ended. It says how long the queue lasts at normal speed, and
/// repeats the queue's counts.
pub proof fn lemma_clock_tells_of_the_queue<F: Fn(Duration, usize, u32, u64) -> Duration>(
    ring: RingView,
    config: AudioRingBufferConfig,
    offset: F,
    lasting: Duration,
)
    requires
        ring.well_formed(config),
        is_media_offset(offset),
        offset.ensures(
            (
                Duration::spanning(0),
                ring.queued_frames() as usize,
                ring.sample_rate(),
                0x3ff0_0000_0000_0000,
            ),
            lasting,
        ),
        ring.read_frames <= u64::MAX,
        ring.written_frames <= u64::MAX,
        ring.underflow_frames <= u64::MAX,
    ensures
        ({
            let told = clock(ring, offset);
            let segments = ring.timeline.segments;
            &&& segments.len() == 0 ==> told.media_time == ring.timeline.last_media_time
            &&& segments.len() > 0 && segments[0].start is None ==> told.media_time
                == ring.timeline.last_media_time
            &&& segments.len() > 0 && segments[0].start is Some ==> told.media_time
                == segments[0].start
            &&& ring.sample_rate() == 0 ==> told.queued_duration is None
            &&& ring.sample_rate() > 0 ==> told.queued_duration == Some(lasting)
            &&& told.queued_frames == total_frames(ring.timeline.segments)
            &&& told.read_frames == ring.read_frames
            &&& told.written_frames == ring.written_frames
            &&& told.underflow_frames == ring.underflow_frames
        }),
{
}

/// Trimming keeps the beginning: the segments in front as they were, and of the
/// last one that is kept its start and its ratio, cut to the frames that are left.
pub proof fn lemma_trimming_keeps_the_beginning(segments: Seq<AudioTimelineSegment>, frames: nat)
    requires
        no_empty_segment(segments),
    ensures
        ({
            let kept = trimmed(segments, frames);
            let last = kept.len() - 1;
            &&& kept.len() <= segments.len()
            &&& forall|i: int| 0 <= i < last ==> #[trigger] kept[i] == segments[i]
            &&& kept.len() > 0 ==> {
                &&& kept[last].start == segments[last].start
                &&& kept[last].media_frames_per_output_frame
                    == segments[last].media_frames_per_output_frame
                &&& kept[last].frames <= segments[last].frames
            }
            &&& total_frames(kept) == if frames <= total_frames(segments) {
                frames
            } else {
                total_frames(segments)
            }
        }),
    decreases segments.len(),
{
    lemma_trimmed_frames(segments, frames);
    if frames > 0 && segments.len() > 0 && segments[0].frames <= frames {
        let rest = segments.drop_first();
        let left = (frames - segments[0].frames) as nat;
        assert(no_empty_segment(rest)) by {
            assert forall|i: int| 0 <= i < rest.len() implies #[trigger] rest[i].frames > 0 by {
                assert(rest[i] == segments[i + 1]);
            }
        }
        lemma_trimming_keeps_the_beginning(rest, left);
        let tail = trimmed(rest, left);
        let kept = trimmed(segments, frames);
        assert forall|i: int| 0 <= i < kept.len() - 1 implies #[trigger] kept[i] == segments[i] by {
            if i > 0 {
                assert(kept[i] == tail[i - 1]);
                assert(tail[i - 1] == rest[i - 1]);
            }
        }
        if tail.len() > 0 {
            assert(kept[kept.len() - 1] == tail[tail.len() - 1]);
            assert(rest[tail.len() - 1] == segments[kept.len() - 1]);
        }
    }
}

/// Reading from a trimmed timeline is trimming what reading leaves of the whole.
proof fn lemma_reading_and_trimming_commute<F: Fn(Duration, usize, u32, u64) -> Duration>(
    timeline: TimelineView,
    kept: nat,
    frames: nat,
    sample_rate: u32,
    offset: F,
)
    requires
        no_empty_segment(timeline.segments),
        frames <= kept <= total_frames(timeline.segments),
    ensures
        ({
            let whole = advanced(timeline, frames, sample_rate, offset);
            let short = TimelineView {
                segments: trimmed(timeline.segments, kept),
                last_media_time: timeline.last_media_time,
            };
            advanced(short, frames, sample_rate, offset) == TimelineView {
                segments: trimmed(whole.segments, (kept - frames) as nat),
                last_media_time: whole.last_media_time,
            }
        }),
    decreases timeline.segments.len(),
{
    let short = TimelineView {
        segments: trimmed(timeline.segments, kept),
        last_media_time: timeline.last_media_time,
    };
    let whole = advanced(timeline, frames, sample_rate, offset);
    if frames == 0 || timeline.segments.len() == 0 {
    } else {
        let front = timeline.segments[0];
        let behind = timeline.segments.drop_first();
        let passed = optional_offset(
            offset,
            front.start,
            front.frames,
            sample_rate,
            front.media_frames_per_output_frame,
        );
        let last_media_time = if front.start is Some {
            passed
        } else {
            timeline.last_media_time
        };
        let rest = TimelineView { segments: behind, last_media_time };
        assert(no_empty_segment(behind)) by {
            assert forall|i: int| 0 <= i < behind.len() implies #[trigger] behind[i].frames > 0 by {
                assert(behind[i] == timeline.segments[i + 1]);
            }
        }
        if front.frames <= kept {
            let tail = trimmed(behind, (kept - front.frames) as nat);
            assert(short.segments.drop_first() =~= tail);
            if frames >= front.frames {
                lemma_reading_and_trimming_commute(
                    rest,
                    (kept - front.frames) as nat,
                    (frames - front.frames) as nat,
                    sample_rate,
                    offset,
                );
            } else {
                assert(whole.segments.drop_first() =~= behind);
                assert(advanced(short, frames, sample_rate, offset).segments =~= trimmed(
                    whole.segments,
                    (kept - frames) as nat,
                ));
            }
        } else {
            assert(short.segments.drop_first() =~= Seq::empty());
            if frames == kept {
                reveal_with_fuel(advanced, 2);
            }
            assert(advanced(short, frames, sample_rate, offset).segments =~= trimmed(
                whole.segments,
                (kept - frames) as nat,
            ));
        }
    }
}

/// A change of the playback rate leaves the beginning of the queue, a quarter of a
/// second of it to the nearest frame, and drops the rest. As long as that lasts, a
/// read gives the samples, and the clock the media time, that they would have given
/// without the change.
pub proof fn lemma_rate_change_leaves_a_prefix<F: Fn(Duration, usize, u32, u64) -> Duration>(
    ring: RingView,
    config: AudioRingBufferConfig,
    rate: u64,
    frames: nat,
    offset: F,
)
    requires
        ring.well_formed(config),
        ring.format is Some,
    ensures
        ({
            let after = cut_to_front(
                RingView { playback_rate: rate, tempo: None, ..ring },
                bridge_frames(ring),
            );
            let bridge = bridge_frames(ring);
            let channels = ring.channels();
            &&& ring.sample_rate() - 2 < 4 * bridge <= ring.sample_rate() + 2
            &&& after.well_formed(config)
            &&& after.queued_frames() == if bridge <= ring.queued_frames() {
                bridge
            } else {
                ring.queued_frames()
            }
            &&& after.samples == ring.samples.take((after.queued_frames() * channels) as int)
            &&& after.samples.is_prefix_of(ring.samples)
            &&& frames <= after.queued_frames() ==> read_samples(after, frames * channels)
                == read_samples(ring, frames * channels)
            &&& frames < after.queued_frames() ==> clock(
                after_read(after, frames, offset),
                offset,
            ).media_time == clock(after_read(ring, frames, offset), offset).media_time
            &&& after.timeline.last_media_time == ring.timeline.last_media_time
            &&& after.format == ring.format
            &&& after.written_frames == ring.written_frames
            &&& after.read_frames == ring.read_frames
            &&& after.dropped_frames == ring.dropped_frames
            &&& after.underflow_frames == ring.underflow_frames
        }),
{
    let bridge = bridge_frames(ring);
    let after = cut_to_front(RingView { playback_rate: rate, tempo: None, ..ring }, bridge);
    let channels = ring.channels() as int;
    let queued = ring.queued_frames();
    let kept = if bridge <= queued {
        bridge
    } else {
        queued
    };
    lemma_trimmed_frames(ring.timeline.segments, kept);
    lemma_mul_inequality(kept as int, queued as int, channels);
    lemma_mul_inequality(0, kept as int, channels);
    if frames <= kept {
        lemma_mul_inequality(frames as int, kept as int, channels);
        assert((frames * channels) / channels == frames) by (nonlinear_arith)
            requires
                channels > 0,
        ;
        assert(read_samples(after, frames * ring.channels()) =~= read_samples(
            ring,
            frames * ring.channels(),
        ));
    }
    if frames < kept {
        lemma_reading_and_trimming_commute(
            ring.timeline,
            kept,
            frames,
            ring.sample_rate(),
            offset,
        );
        let whole = advanced(ring.timeline, frames, ring.sample_rate(), offset).segments;
        let short = trimmed(whole, (kept - frames) as nat);
        lemma_advanced_frames(ring.timeline, frames, ring.sample_rate(), offset);
        lemma_trimming_keeps_the_beginning(whole, (kept - frames) as nat);
        assert(short.len() > 0);
        if short.len() > 1 {
            assert(short[0] == whole[0]);
        }
    }
}

/// What is pushed joins the end of the queue. A queue that drops its oldest frames
/// keeps the newest that fit of all of them; one that refuses the newest keeps the
/// beginning of what came in. The frames that joined have the ratio they came with,
/// and their time is the time they came with, moved on by the frames of theirs that
/// were left out in front.
pub proof fn lemma_pushed_audio_joins_the_end<F: Fn(Duration, usize, u32, u64) -> Duration>(
    ring: RingView,
    config: AudioRingBufferConfig,
    samples: Seq<u32>,
    start: Option<Duration>,
    rate: u64,
    offset: F,
)
    requires
        ring.well_formed(config),
        ring.format is Some,
        samples.len() <= usize::MAX,
        samples.len() / ring.channels() > 0,
    ensures
        ({
            let channels = ring.channels();
            let queued = ring.queued_frames();
            let capacity = config.capacity_frames as int;
            let incoming = samples.len() / channels;
            let all = ring.samples + samples.take((incoming * channels) as int);
            let over = if queued + incoming <= capacity {
                0
            } else {
                queued + incoming - capacity
            };
            let room = if config.drop_oldest_on_overflow {
                capacity
            } else {
                capacity - queued
            };
            let joined = if incoming <= room {
                incoming as int
            } else {
                room
            };
            let left_out = if config.drop_oldest_on_overflow {
                incoming - joined
            } else {
                0
            };
            let after = pushed(ring, config, samples, start, rate, offset);
            let segments = after.timeline.segments;
            let last = segments[segments.len() - 1];
            &&& after.samples == if config.drop_oldest_on_overflow {
                all.skip(over * channels)
            } else {
                all.take((queued + incoming - over) * channels)
            }
            &&& after.queued_frames() == queued + incoming - over
            &&& after.written_frames == ring.written_frames + joined
            &&& after.dropped_frames == ring.dropped_frames + over
            &&& joined > 0 ==> {
                &&& segments.len() > 0
                &&& last.frames == joined
                &&& last.media_frames_per_output_frame == rate
                &&& start is None ==> last.start is None
                &&& start matches Some(start) ==> last.start == Some(
                    media_offset(offset, start, left_out as usize, ring.sample_rate(), rate),
                )
            }
            &&& over == 0 || !config.drop_oldest_on_overflow ==> {
                &&& after.timeline.last_media_time == ring.timeline.last_media_time
                &&& joined > 0 ==> segments.drop_last() == ring.timeline.segments
                &&& joined == 0 ==> segments == ring.timeline.segments
            }
            &&& after.read_frames == ring.read_frames
            &&& after.underflow_frames == ring.underflow_frames
            &&& after.format == ring.format
            &&& after.playback_rate == ring.playback_rate
            &&& after.tempo == ring.tempo
        }),
{
    let channels = ring.channels();
    let queued = ring.queued_frames();
    let incoming = samples.len() / channels;
    let after = pushed(ring, config, samples, start, rate, offset);
    lemma_push_accounts_for_every_frame(ring, config, samples, start, rate, offset);
    assert(incoming <= samples.len() && incoming * channels <= samples.len()) by (nonlinear_arith)
        requires
            channels > 0,
            incoming == samples.len() / channels,
    ;
    if config.drop_oldest_on_overflow {
        lemma_drop_oldest_keeps_the_newest(ring, config, samples, start, rate, offset);
        assert(0 * channels == 0) by (nonlinear_arith);
    } else {
        lemma_refusing_keeps_the_queue(ring, config, samples, start, rate, offset);
        let all = ring.samples + samples.take((incoming * channels) as int);
        let joined = if queued + incoming <= config.capacity_frames {
            incoming as int
        } else {
            config.capacity_frames - queued
        };
        assert((queued + joined) * channels == queued * channels + joined * channels)
            by (nonlinear_arith);
        lemma_mul_inequality(joined, incoming as int, channels as int);
        lemma_mul_inequality(0, joined, channels as int);
        assert(after.samples =~= all.take((queued + joined) * channels));
    }
    if !config.drop_oldest_on_overflow || queued + incoming <= config.capacity_frames {
        assert(advanced_singly(ring.timeline, 0, ring.sample_rate(), offset) == ring.timeline);
        if after.timeline.segments.len() > 0 {
            assert(after.timeline.segments != ring.timeline.segments ==>
                after.timeline.segments.drop_last() =~= ring.timeline.segments);
        }
    }
}

/// A playback rate is kept between a quarter and sixteen times normal speed. One
/// that is no finite number above zero stands for normal speed.
pub proof fn lemma_playback_rates_stay_within_bounds(rate: u64)
    ensures
        rate == 0 || rate >= 0x7ff0_0000_0000_0000 ==> normalized_rate(rate)
            == 0x3ff0_0000_0000_0000,
        0 < rate < 0x3fd0_0000_0000_0000 ==> normalized_rate(rate) == 0x3fd0_0000_0000_0000,
        0x3fd0_0000_0000_0000 <= rate <= 0x4030_0000_0000_0000 ==> normalized_rate(rate) == rate,
        0x4030_0000_0000_0000 < rate < 0x7ff0_0000_0000_0000 ==> normalized_rate(rate)
            == 0x4030_0000_0000_0000,
{
}

/// Rates no further apart than a thousandth are the same: such a change leaves the
/// queue alone, such a rate is normal speed, and a stretching that is under way goes
/// on at one that is nearer still.
pub proof fn lemma_rates_differ_beyond_a_thousandth<D: Fn(u64, u64) -> u64>(
    distance: D,
    current: u64,
    rate: u64,
    to_rate: u64,
    to_unit: u64,
)
    requires
        is_distance(distance),
        distance.ensures((current, normalized_rate(rate)), to_rate),
        distance.ensures((current, 0x3ff0_0000_0000_0000), to_unit),
    ensures
        changes_rate(distance, current, rate) <==> to_rate > 0x3f50_624d_d2f1_a9fc,
        is_unit_rate(distance, current) <==> to_unit <= 0x3f50_624d_d2f1_a9fc,
        serves_rate(distance, current, rate) <==> to_rate < 0x3f50_624d_d2f1_a9fc,
{
}

/// At normal speed what comes in is queued as it came: its own samples, at its own
/// time, one media frame for each frame, with no stretching under way.
pub proof fn lemma_normal_speed_queues_what_came_in<
    D: Fn(u64, u64) -> u64,
    T: FnOnce(bool, Vec<u32>, usize) -> Vec<u32>,
    F: Fn(Duration, usize, u32, u64) -> Duration,
>(
    ring: RingView,
    frame: PcmAudioFrame,
    distance: D,
    transform: T,
    offset: F,
    tempo_after: Option<AudioTempoProcessor>,
    prepared: PreparedAudio,
)
    requires
        prepares(ring, frame, distance, transform, offset, tempo_after, prepared),
        is_unit_rate(distance, ring.playback_rate),
    ensures
        prepared.samples == frame.samples,
        prepared.start == frame.pts,
        prepared.media_frames_per_output_frame == 0x3ff0_0000_0000_0000,
        tempo_after is None,
{
}

/// At another speed what is queued stands for as many media frames as the queue's
/// rate says, and the stretching stays under way, in the queue's format.
pub proof fn lemma_other_speeds_are_stretched<
    D: Fn(u64, u64) -> u64,
    T: FnOnce(bool, Vec<u32>, usize) -> Vec<u32>,
    F: Fn(Duration, usize, u32, u64) -> Duration,
>(
    ring: RingView,
    frame: PcmAudioFrame,
    distance: D,
    transform: T,
    offset: F,
    tempo_after: Option<AudioTempoProcessor>,
    prepared: PreparedAudio,
)
    requires
        prepares(ring, frame, distance, transform, offset, tempo_after, prepared),
        !is_unit_rate(distance, ring.playback_rate),
        ring.format is Some,
    ensures
        tempo_after matches Some(after) && after.format == ring.format->0,
        ring.tempo is None ==> prepared.media_frames_per_output_frame == normalized_rate(
            ring.playback_rate,
        ) && prepared.start == frame.pts,
        tempo_after matches Some(after) ==> prepared.media_frames_per_output_frame
            == after.playback_rate,
{
}

/// A stretching goes on where the one before it stopped, if that was for the same
/// format and near enough the same rate; otherwise one is begun, with no media time
/// behind it, at the queue's rate.
pub proof fn lemma_stretching_goes_on_or_begins_anew<D: Fn(u64, u64) -> u64>(
    ring: RingView,
    distance: D,
    format: PcmFormat,
)
    requires
        ring.format == Some(format),
    ensures
        ring.tempo matches Some(under_way) && under_way.format == format && serves_rate(
            distance,
            under_way.playback_rate,
            ring.playback_rate,
        ) ==> tempo_in_use(ring, distance) == ring.tempo->0,
        ring.tempo is None || ring.tempo->0.format != format || !serves_rate(
            distance,
            ring.tempo->0.playback_rate,
            ring.playback_rate,
        ) ==> ({
            let begun = tempo_in_use(ring, distance);
            &&& begun.format == format
            &&& begun.playback_rate == normalized_rate(ring.playback_rate)
            &&& begun.pending_pts is None
            &&& !begun.started
        }),
{
}

/// Stretched audio follows on without a gap. The first that comes out has the time
/// of the first that went in, and what comes out next starts where the first ended,
/// by the rate of the stretching, whatever the time of what went in meanwhile. As
/// long as nothing comes out, the time waits.
pub proof fn lemma_stretched_audio_follows_on<
    T: FnOnce(bool, Vec<u32>, usize) -> Vec<u32>,
    F: Fn(Duration, usize, u32, u64) -> Duration,
>(
    begun: AudioTempoProcessor,
    first: PcmAudioFrame,
    second: PcmAudioFrame,
    transform: T,
    transform_next: T,
    offset: F,
    middle: AudioTempoProcessor,
    first_out: PreparedAudio,
    after: AudioTempoProcessor,
    second_out: PreparedAudio,
    start: Duration,
)
    requires
        begun.pending_pts is None,
        begun.format.channels > 0,
        first.pts == Some(start),
        first.samples@.len() / (begun.format.channels as nat) > 0,
        second.samples@.len() / (begun.format.channels as nat) > 0,
        processes(begun, first, transform, offset, middle, first_out),
        processes(middle, second, transform_next, offset, after, second_out),
    ensures
        ({
            let came_out = first_out.samples@.len() / (begun.format.channels as nat);
            &&& first_out.start == Some(start)
            &&& came_out == 0 ==> second_out.start == Some(start)
            &&& came_out > 0 ==> second_out.start == Some(
                media_offset(
                    offset,
                    start,
                    came_out as usize,
                    begun.format.sample_rate,
                    begun.playback_rate,
                ),
            )
            &&& first_out.media_frames_per_output_frame == begun.playback_rate
            &&& second_out.media_frames_per_output_frame == begun.playback_rate
            &&& transform.ensures(
                (
                    !begun.started,
                    first.samples,
                    (first.samples@.len() / (begun.format.channels as nat)) as usize,
                ),
                first_out.samples,
            )
            &&& transform_next.ensures(
                (
                    false,
                    second.samples,
                    (second.samples@.len() / (begun.format.channels as nat)) as usize,
                ),
                second_out.samples,
            )
        }),
{
}

/// Clearing or configuring a queue empties it and forgets its clock and its
/// stretching, and keeps its counts and its rate. A new queue runs at normal speed
/// and has counted nothing.
pub proof fn lemma_cleared_queue_keeps_its_counts(ring: RingView, format: PcmFormat)
    ensures
        ({
            let cleared = ring.cleared();
            let configured = ring.configured(format);
            &&& cleared.samples.len() == 0
            &&& cleared.timeline.segments.len() == 0
            &&& cleared.timeline.last_media_time is None
            &&& cleared.tempo is None
            &&& cleared.format == ring.format
            &&& cleared.playback_rate == ring.playback_rate
            &&& cleared.written_frames == ring.written_frames
            &&& cleared.read_frames == ring.read_frames
            &&& cleared.dropped_frames == ring.dropped_frames
            &&& cleared.underflow_frames == ring.underflow_frames
            &&& configured.format == Some(format)
            &&& configured == (RingView { format: Some(format), ..cleared })
        }),
        ({
            let new = RingView::empty();
            &&& new.format is None
            &&& new.samples.len() == 0
            &&& new.timeline.segments.len() == 0
            &&& new.timeline.last_media_time is None
            &&& new.playback_rate == 0x3ff0_0000_0000_0000
            &&& new.tempo is None
            &&& new.written_frames == 0
            &&& new.read_frames == 0
            &&& new.dropped_frames == 0
            &&& new.underflow_frames == 0
        }),
{
}

/// A queue without a format takes that of the first frame that is pushed, and is
/// empty when it does. What a push reports is what the queue then has counted more,
/// whatever its rate, and nothing is counted as read.
pub proof fn lemma_push_reports_what_it_counted<
    D: Fn(u64, u64) -> u64,
    T: FnOnce(bool, Vec<u32>, usize) -> Vec<u32>,
    F: Fn(Duration, usize, u32, u64) -> Duration,
>(
    ring: RingView,
    config: AudioRingBufferConfig,
    frame: PcmAudioFrame,
    distance: D,
    transform: T,
    offset: F,
    after: RingView,
    result: AudioPushResult,
)
    requires
        push_outcome(ring, config, frame, distance, transform, offset, after, result),
    ensures
        after.written_frames == ring.written_frames + result.accepted_frames,
        after.dropped_frames == ring.dropped_frames + result.dropped_frames,
        after.read_frames == ring.read_frames,
        after.underflow_frames == ring.underflow_frames,
        after.playback_rate == ring.playback_rate,
        ring.format is None ==> after.format == Some(frame.format),
        ring.format is Some ==> after.format == ring.format,
        ring.format is None ==> accepting(ring, frame.format).samples.len() == 0,
        ring.format is Some ==> accepting(ring, frame.format) == ring,
{
}

/// What is less than a whole frame goes into no stretching: nothing comes out and
/// nothing changes. A format without channels counts as mono.
pub proof fn lemma_incomplete_frame_changes_nothing<
    T: FnOnce(bool, Vec<u32>, usize) -> Vec<u32>,
    F: Fn(Duration, usize, u32, u64) -> Duration,
>(
    before: AudioTempoProcessor,
    frame: PcmAudioFrame,
    transform: T,
    offset: F,
    after: AudioTempoProcessor,
    prepared: PreparedAudio,
)
    requires
        processes(before, frame, transform, offset, after, prepared),
    ensures
        before.format.channels > 0 && frame.samples@.len() < before.format.channels ==> {
            &&& prepared.samples@.len() == 0
            &&& prepared.start == frame.pts
            &&& after == before
        },
        before.format.channels == 0 && frame.samples@.len() == 0 ==> after == before,
        before.format.channels == 0 && frame.samples@.len() > 0 ==> transform.ensures(
            (!before.started, frame.samples, frame.samples@.len() as usize),
            prepared.samples,
        ),
{
    if before.format.channels > 0 && frame.samples@.len() < before.format.channels {
        assert(frame.samples@.len() / (before.format.channels as nat) == 0) by (nonlinear_arith)
            requires
                frame.samples@.len() < before.format.channels,
        ;
    }
    assert(frame.samples@.len() / 1 == frame.samples@.len());
}

/// A queue has the channels and the sample rate of its format, and none without one.
pub proof fn lemma_queue_is_of_its_format(ring: RingView)
    ensures
        ring.format is None ==> ring.channels() == 0 && ring.sample_rate() == 0,
        ring.format matches Some(format) ==> ring.channels() == format.channels
            && ring.sample_rate() == format.sample_rate,
{
}

/// A push that drops the oldest frames leaves the newer ones as they were queued:
/// every segment behind the front one is the same, and the front one keeps its ratio.
pub proof fn lemma_overflow_leaves_the_rest_as_queued<
    F: Fn(Duration, usize, u32, u64) -> Duration,
>(
    ring: RingView,
    config: AudioRingBufferConfig,
    samples: Seq<u32>,
    start: Option<Duration>,
    rate: u64,
    offset: F,
)
    requires
        ring.well_formed(config),
        ring.format is Some,
        config.drop_oldest_on_overflow,
        samples.len() <= usize::MAX,
        0 < samples.len() / ring.channels() <= config.capacity_frames,
    ensures
        ({
            let before = ring.timeline.segments;
            let after = pushed(ring, config, samples, start, rate, offset).timeline.segments;
            let rest = after.drop_last();
            let gone = before.len() - rest.len();
            &&& 0 <= gone
            &&& forall|i: int| 0 < i < rest.len() ==> #[trigger] rest[i] == before[gone + i]
            &&& rest.len() > 0 ==> {
                &&& rest[0].media_frames_per_output_frame
                    == before[gone].media_frames_per_output_frame
                &&& rest[0].frames <= before[gone].frames
                &&& rest[0].frames == before[gone].frames ==> rest[0] == before[gone]
                &&& rest[0].start is Some <==> before[gone].start is Some
            }
        }),
{
    let queued = ring.queued_frames();
    let incoming = samples.len() / ring.channels();
    let evicted = evicted_frames(config, queued, incoming);
    let kept = advanced_singly(ring.timeline, evicted, ring.sample_rate(), offset).segments;
    lemma_dropping_leaves_the_rest_as_queued(ring.timeline, evicted, ring.sample_rate(), offset);
    lemma_pushed_audio_joins_the_end(ring, config, samples, start, rate, offset);
    let after = pushed(ring, config, samples, start, rate, offset).timeline.segments;
    assert(after.drop_last() =~= kept);
}

} // verus!
