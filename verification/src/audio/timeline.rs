//! The media timeline of a queue of audio frames.
//!
//! A timeline is a list of segments, oldest first. Each segment covers a run
//! of queued output frames, knows the media time of its first frame and how
//! many media frames one output frame stands for. That ratio, and the
//! conversion from frames to media time, are floating point: the ratio is
//! carried as a bit pattern and the conversion is handed in by the caller.

use crate::time::Duration;
use std::collections::VecDeque;
use vstd::prelude::*;

verus! {

/// `offset` is a conversion the timeline can use: it accepts every argument
/// and its result depends on the arguments alone.
pub open spec fn is_media_offset<F: Fn(Duration, usize, u32, u64) -> Duration>(offset: F) -> bool {
    &&& forall|start: Duration, frames: usize, sample_rate: u32, rate: u64| #[trigger]
        offset.requires((start, frames, sample_rate, rate))
    &&& forall|
        start: Duration,
        frames: usize,
        sample_rate: u32,
        rate: u64,
        first: Duration,
        second: Duration,
    |
        #[trigger] offset.ensures((start, frames, sample_rate, rate), first)
            && #[trigger] offset.ensures((start, frames, sample_rate, rate), second) ==> first
            == second
}

/// The media time `frames` output frames after `start`. Without a sample rate
/// media time stands still.
pub open spec fn media_offset<F: Fn(Duration, usize, u32, u64) -> Duration>(
    offset: F,
    start: Duration,
    frames: usize,
    sample_rate: u32,
    rate: u64,
) -> Duration {
    if sample_rate == 0 {
        start
    } else {
        choose|at: Duration| offset.ensures((start, frames, sample_rate, rate), at)
    }
}

/// [`media_offset`] of a start that may be unknown.
pub open spec fn optional_offset<F: Fn(Duration, usize, u32, u64) -> Duration>(
    offset: F,
    start: Option<Duration>,
    frames: usize,
    sample_rate: u32,
    rate: u64,
) -> Option<Duration> {
    match start {
        Some(start) => Some(media_offset(offset, start, frames, sample_rate, rate)),
        None => None,
    }
}

/// The media time `frames` output frames after `pts` at `rate` media frames
/// per output frame.
pub fn offset_pts_scaled<F: Fn(Duration, usize, u32, u64) -> Duration>(
    pts: Duration,
    frames: usize,
    sample_rate: u32,
    rate: u64,
    offset: &F,
) -> (at: Duration)
    requires
        is_media_offset(*offset),
    ensures
        at == media_offset(*offset, pts, frames, sample_rate, rate),
{
    if sample_rate == 0 {
        return pts;
    }
    offset(pts, frames, sample_rate, rate)
}

/// A run of queued output frames that share a media clock.
#[derive(Debug, Clone, Copy, PartialEq, Eq, Structural)]
pub struct AudioTimelineSegment {
    pub start: Option<Duration>,
    pub frames: usize,
    pub media_frames_per_output_frame: u64,
}

impl AudioTimelineSegment {
    pub fn new(
        start: Option<Duration>,
        frames: usize,
        media_frames_per_output_frame: u64,
    ) -> (segment: Self)
        ensures
            segment.start == start,
            segment.frames == frames,
            segment.media_frames_per_output_frame == media_frames_per_output_frame,
    {
        AudioTimelineSegment { start, frames, media_frames_per_output_frame }
    }
}

/// What a timeline holds: its segments, oldest first, and the media time of
/// the last frame boundary that left it.
#[verifier::ext_equal]
pub struct TimelineView {
    pub segments: Seq<AudioTimelineSegment>,
    pub last_media_time: Option<Duration>,
}

/// The number of output frames the segments cover.
pub open spec fn total_frames(segments: Seq<AudioTimelineSegment>) -> nat
    decreases segments.len(),
{
    if segments.len() == 0 {
        0
    } else {
        segments[0].frames as nat + total_frames(segments.drop_first())
    }
}

/// No segment is empty.
pub open spec fn no_empty_segment(segments: Seq<AudioTimelineSegment>) -> bool {
    forall|i: int| 0 <= i < segments.len() ==> #[trigger] segments[i].frames > 0
}

/// The timeline after `frames` output frames have left its front.
pub open spec fn advanced<F: Fn(Duration, usize, u32, u64) -> Duration>(
    timeline: TimelineView,
    frames: nat,
    sample_rate: u32,
    offset: F,
) -> TimelineView
    decreases timeline.segments.len(),
{
    if frames == 0 || timeline.segments.len() == 0 {
        timeline
    } else {
        let front = timeline.segments[0];
        let consumed = if frames <= front.frames {
            frames as usize
        } else {
            front.frames
        };
        let moved = optional_offset(
            offset,
            front.start,
            consumed,
            sample_rate,
            front.media_frames_per_output_frame,
        );
        let last_media_time = if front.start is Some {
            moved
        } else {
            timeline.last_media_time
        };
        if consumed == front.frames {
            advanced(
                TimelineView { segments: timeline.segments.drop_first(), last_media_time },
                (frames - consumed) as nat,
                sample_rate,
                offset,
            )
        } else {
            let rest = AudioTimelineSegment {
                start: moved,
                frames: (front.frames - consumed) as usize,
                media_frames_per_output_frame: front.media_frames_per_output_frame,
            };
            TimelineView { segments: timeline.segments.update(0, rest), last_media_time }
        }
    }
}

/// The timeline after `count` output frames have left its front one by one.
/// Media time is rounded after every step, so this can differ from
/// [`advanced`] by `count`.
pub open spec fn advanced_singly<F: Fn(Duration, usize, u32, u64) -> Duration>(
    timeline: TimelineView,
    count: nat,
    sample_rate: u32,
    offset: F,
) -> TimelineView
    decreases count,
{
    if count == 0 {
        timeline
    } else {
        advanced(
            advanced_singly(timeline, (count - 1) as nat, sample_rate, offset),
            1,
            sample_rate,
            offset,
        )
    }
}

/// The segments cut down to their first `frames` output frames.
pub open spec fn trimmed(segments: Seq<AudioTimelineSegment>, frames: nat) -> Seq<
    AudioTimelineSegment,
>
    decreases segments.len(),
{
    if frames == 0 || segments.len() == 0 {
        Seq::empty()
    } else if segments[0].frames <= frames {
        seq![segments[0]] + trimmed(segments.drop_first(), (frames - segments[0].frames) as nat)
    } else {
        seq![
            AudioTimelineSegment {
                start: segments[0].start,
                frames: frames as usize,
                media_frames_per_output_frame: segments[0].media_frames_per_output_frame,
            },
        ]
    }
}

/// Appending a segment adds its frames to the total.
pub proof fn lemma_total_frames_push(
    segments: Seq<AudioTimelineSegment>,
    segment: AudioTimelineSegment,
)
    ensures
        total_frames(segments.push(segment)) == total_frames(segments) + segment.frames,
    decreases segments.len(),
{
    if segments.len() == 0 {
        assert(segments.push(segment).drop_first() =~= segments);
        reveal_with_fuel(total_frames, 2);
    } else {
        assert(segments.push(segment).drop_first() =~= segments.drop_first().push(segment));
        lemma_total_frames_push(segments.drop_first(), segment);
    }
}

/// Advancing takes exactly the frames that were asked for, as far as there
/// are any, and leaves no empty segment behind.
pub proof fn lemma_advanced_frames<F: Fn(Duration, usize, u32, u64) -> Duration>(
    timeline: TimelineView,
    frames: nat,
    sample_rate: u32,
    offset: F,
)
    requires
        no_empty_segment(timeline.segments),
    ensures
        no_empty_segment(advanced(timeline, frames, sample_rate, offset).segments),
        total_frames(advanced(timeline, frames, sample_rate, offset).segments) == if frames
            <= total_frames(timeline.segments) {
            total_frames(timeline.segments) - frames
        } else {
            0
        },
    decreases timeline.segments.len(),
{
    if frames == 0 || timeline.segments.len() == 0 {
    } else {
        let front = timeline.segments[0];
        let rest = timeline.segments.drop_first();
        assert(no_empty_segment(rest)) by {
            assert forall|i: int| 0 <= i < rest.len() implies #[trigger] rest[i].frames > 0 by {
                assert(rest[i] == timeline.segments[i + 1]);
            }
        }
        if frames >= front.frames {
            let last_media_time = if front.start is Some {
                optional_offset(
                    offset,
                    front.start,
                    front.frames,
                    sample_rate,
                    front.media_frames_per_output_frame,
                )
            } else {
                timeline.last_media_time
            };
            lemma_advanced_frames(
                TimelineView { segments: rest, last_media_time },
                (frames - front.frames) as nat,
                sample_rate,
                offset,
            );
        } else {
            let after = advanced(timeline, frames, sample_rate, offset).segments;
            assert(after.drop_first() =~= rest);
        }
    }
}

/// Advancing frame by frame takes as many frames as advancing at once.
pub proof fn lemma_advanced_singly_frames<F: Fn(Duration, usize, u32, u64) -> Duration>(
    timeline: TimelineView,
    count: nat,
    sample_rate: u32,
    offset: F,
)
    requires
        no_empty_segment(timeline.segments),
    ensures
        no_empty_segment(advanced_singly(timeline, count, sample_rate, offset).segments),
        total_frames(advanced_singly(timeline, count, sample_rate, offset).segments) == if count
            <= total_frames(timeline.segments) {
            total_frames(timeline.segments) - count
        } else {
            0
        },
    decreases count,
{
    if count > 0 {
        lemma_advanced_singly_frames(timeline, (count - 1) as nat, sample_rate, offset);
        lemma_advanced_frames(
            advanced_singly(timeline, (count - 1) as nat, sample_rate, offset),
            1,
            sample_rate,
            offset,
        );
    }
}

/// Trimming keeps as many leading frames as were asked for, as far as there
/// are any, and leaves no empty segment behind.
pub proof fn lemma_trimmed_frames(segments: Seq<AudioTimelineSegment>, frames: nat)
    requires
        no_empty_segment(segments),
    ensures
        no_empty_segment(trimmed(segments, frames)),
        total_frames(trimmed(segments, frames)) == if frames <= total_frames(segments) {
            frames
        } else {
            total_frames(segments)
        },
    decreases segments.len(),
{
    if frames == 0 || segments.len() == 0 {
    } else {
        let rest = segments.drop_first();
        assert(no_empty_segment(rest)) by {
            assert forall|i: int| 0 <= i < rest.len() implies #[trigger] rest[i].frames > 0 by {
                assert(rest[i] == segments[i + 1]);
            }
        }
        if segments[0].frames <= frames {
            lemma_trimmed_frames(rest, (frames - segments[0].frames) as nat);
            let tail = trimmed(rest, (frames - segments[0].frames) as nat);
            let whole = trimmed(segments, frames);
            assert(whole.drop_first() =~= tail);
            assert forall|i: int| 0 <= i < whole.len() implies #[trigger] whole[i].frames > 0 by {
                if i > 0 {
                    assert(whole[i] == tail[i - 1]);
                }
            }
        } else {
            let whole = trimmed(segments, frames);
            assert(whole.drop_first() =~= Seq::empty());
            reveal_with_fuel(total_frames, 2);
        }
    }
}

/// The timeline of a queue of audio frames.
#[derive(Debug)]
pub struct AudioTimeline {
    segments: VecDeque<AudioTimelineSegment>,
    last_media_time: Option<Duration>,
}

impl View for AudioTimeline {
    type V = TimelineView;

    closed spec fn view(&self) -> TimelineView {
        TimelineView { segments: self.segments@, last_media_time: self.last_media_time }
    }
}

impl AudioTimeline {
    pub fn new() -> (timeline: Self)
        ensures
            timeline@ == (TimelineView { segments: Seq::empty(), last_media_time: None }),
    {
        AudioTimeline { segments: VecDeque::new(), last_media_time: None }
    }

    /// Forgets every segment and the last media time.
    pub fn clear(&mut self)
        ensures
            final(self)@ == (TimelineView { segments: Seq::empty(), last_media_time: None }),
    {
        self.segments.clear();
        self.last_media_time = None;
    }

    /// The media time at the front of the queue: that of the first segment,
    /// or the last one that is known.
    pub fn media_time(&self) -> (time: Option<Duration>)
        ensures
            time == (if self@.segments.len() > 0 && self@.segments[0].start is Some {
                self@.segments[0].start
            } else {
                self@.last_media_time
            }),
    {
        if self.segments.len() > 0 {
            let front = self.segments[0];
            if front.start.is_some() {
                return front.start;
            }
        }
        self.last_media_time
    }

    /// Appends a segment of `frames` output frames; an empty one is left out.
    pub fn push_timeline_segment(
        &mut self,
        start: Option<Duration>,
        frames: usize,
        media_frames_per_output_frame: u64,
    )
        ensures
            final(self)@.last_media_time == old(self)@.last_media_time,
            final(self)@.segments == if frames == 0 {
                old(self)@.segments
            } else {
                old(self)@.segments.push(
                    AudioTimelineSegment { start, frames, media_frames_per_output_frame },
                )
            },
    {
        if frames == 0 {
            return;
        }
        self.segments.push_back(
            AudioTimelineSegment::new(start, frames, media_frames_per_output_frame),
        );
    }

    /// Moves the timeline on by `frames` output frames.
    pub fn advance_timeline<F: Fn(Duration, usize, u32, u64) -> Duration>(
        &mut self,
        frames: usize,
        sample_rate: u32,
        offset: &F,
    )
        requires
            is_media_offset(*offset),
        ensures
            final(self)@ == advanced(old(self)@, frames as nat, sample_rate, *offset),
    {
        let mut left: usize = frames;
        while left > 0 && self.segments.len() > 0
            invariant
                is_media_offset(*offset),
                advanced(self@, left as nat, sample_rate, *offset) == advanced(
                    old(self)@,
                    frames as nat,
                    sample_rate,
                    *offset,
                ),
            decreases left, self.segments@.len(),
        {
            let ghost before = self@;
            let front: AudioTimelineSegment = self.segments[0];
            let consumed: usize = if left <= front.frames {
                left
            } else {
                front.frames
            };
            let mut moved: Option<Duration> = None;
            if let Some(start) = front.start {
                moved = Some(
                    offset_pts_scaled(
                        start,
                        consumed,
                        sample_rate,
                        front.media_frames_per_output_frame,
                        offset,
                    ),
                );
                self.last_media_time = moved;
            }
            let _ = self.segments.pop_front();
            if consumed < front.frames {
                self.segments.push_front(
                    AudioTimelineSegment::new(
                        moved,
                        front.frames - consumed,
                        front.media_frames_per_output_frame,
                    ),
                );
                assert(self@.segments =~= before.segments.update(0, self@.segments[0]));
            } else {
                assert(self@.segments =~= before.segments.drop_first());
            }
            left = left - consumed;
        }
    }

    /// Cuts the timeline down to its first `frames` output frames.
    pub fn trim_timeline_to_front_frames(&mut self, frames: usize)
        ensures
            final(self)@.last_media_time == old(self)@.last_media_time,
            final(self)@.segments == trimmed(old(self)@.segments, frames as nat),
    {
        let mut left: usize = frames;
        let mut kept: VecDeque<AudioTimelineSegment> = VecDeque::new();
        while left > 0 && self.segments.len() > 0
            invariant
                self.last_media_time == old(self).last_media_time,
                kept@ + trimmed(self.segments@, left as nat) == trimmed(
                    old(self).segments@,
                    frames as nat,
                ),
            decreases self.segments@.len(),
        {
            let ghost before = self.segments@;
            let ghost kept_before = kept@;
            let front: AudioTimelineSegment = self.segments[0];
            let _ = self.segments.pop_front();
            assert(self.segments@ =~= before.drop_first());
            if front.frames <= left {
                kept.push_back(front);
                left = left - front.frames;
                assert(kept@ + trimmed(self.segments@, left as nat) =~= kept_before + trimmed(
                    before,
                    (left + front.frames) as nat,
                ));
            } else {
                kept.push_back(
                    AudioTimelineSegment::new(
                        front.start,
                        left,
                        front.media_frames_per_output_frame,
                    ),
                );
                assert(kept@ =~= kept_before + trimmed(before, left as nat));
                left = 0;
                assert(trimmed(self.segments@, 0) =~= Seq::empty());
            }
        }
        assert(trimmed(self.segments@, left as nat) =~= Seq::empty());
        assert(kept@ + trimmed(self.segments@, left as nat) =~= kept@);
        self.segments = kept;
    }
}

} // verus!
