//! The bounded queue of decoded audio in front of an output device.

use crate::audio::rate::{
    distance_of, is_distance, normalize_playback_rate, normalized_rate, RATE_TOLERANCE, UNIT_RATE,
};
use crate::audio::tempo::{processes, serves_rate, AudioTempoProcessor, PreparedAudio};
use crate::audio::timeline::{
    advanced, advanced_singly, is_media_offset, lemma_advanced_frames,
    lemma_advanced_singly_frames, lemma_total_frames_push, lemma_trimmed_frames, media_offset,
    no_empty_segment, offset_pts_scaled, optional_offset, total_frames, trimmed, AudioTimeline,
    AudioTimelineSegment, TimelineView,
};
use crate::audio::{
    AudioClockSnapshot, AudioError, AudioPushResult, AudioReadResult, AudioRingBufferConfig,
    AudioRingBufferStats,
};
use crate::pcm::{PcmAudioFrame, PcmFormat, SILENCE};
use crate::time::Duration;
use std::collections::VecDeque;
use vstd::arithmetic::div_mod::{lemma_fundamental_div_mod, lemma_fundamental_div_mod_converse};
use vstd::arithmetic::mul::{lemma_mul_inequality, lemma_mul_is_distributive_add_other_way,
    lemma_mul_is_distributive_sub_other_way};
use vstd::prelude::*;

verus! {

/// Whether `rate` is another rate than `current`.
pub open spec fn changes_rate<D: Fn(u64, u64) -> u64>(
    distance: D,
    current: u64,
    rate: u64,
) -> bool {
    distance_of(distance, current, normalized_rate(rate)) > RATE_TOLERANCE
}

/// Whether `rate` is normal speed.
pub open spec fn is_unit_rate<D: Fn(u64, u64) -> u64>(distance: D, rate: u64) -> bool {
    distance_of(distance, rate, UNIT_RATE) <= RATE_TOLERANCE
}

/// What a ring buffer holds.
#[verifier::ext_equal]
pub struct RingView {
    pub format: Option<PcmFormat>,
    /// The queued samples, oldest first.
    pub samples: Seq<u32>,
    pub timeline: TimelineView,
    pub playback_rate: u64,
    pub tempo: Option<AudioTempoProcessor>,
    pub written_frames: nat,
    pub read_frames: nat,
    pub dropped_frames: nat,
    pub underflow_frames: nat,
}

impl RingView {
    /// The queue as it is before any audio has come in.
    pub open spec fn empty() -> Self {
        RingView {
            format: None,
            samples: Seq::empty(),
            timeline: TimelineView { segments: Seq::empty(), last_media_time: None },
            playback_rate: UNIT_RATE,
            tempo: None,
            written_frames: 0,
            read_frames: 0,
            dropped_frames: 0,
            underflow_frames: 0,
        }
    }

    /// The same queue with everything in it forgotten.
    pub open spec fn cleared(self) -> Self {
        RingView {
            samples: Seq::empty(),
            timeline: TimelineView { segments: Seq::empty(), last_media_time: None },
            tempo: None,
            ..self
        }
    }

    /// The queue configured for `format`, which empties it.
    pub open spec fn configured(self, format: PcmFormat) -> Self {
        RingView { format: Some(format), ..self.cleared() }
    }

    pub open spec fn channels(self) -> nat {
        match self.format {
            Some(format) => format.channels as nat,
            None => 0,
        }
    }

    pub open spec fn sample_rate(self) -> u32 {
        match self.format {
            Some(format) => format.sample_rate,
            None => 0,
        }
    }

    /// The number of whole frames in the queue.
    pub open spec fn queued_frames(self) -> nat {
        total_frames(self.timeline.segments)
    }

    /// The timeline covers exactly the queued samples, which fill whole
    /// frames and stay within the capacity.
    pub open spec fn well_formed(self, config: AudioRingBufferConfig) -> bool {
        &&& no_empty_segment(self.timeline.segments)
        &&& self.samples.len() == self.queued_frames() * self.channels()
        &&& self.format is None ==> self.queued_frames() == 0
        &&& self.format matches Some(format) ==> format.channels > 0
        &&& self.queued_frames() <= config.capacity_frames
    }
}

/// How many of the oldest frames make room for `incoming` frames.
pub open spec fn evicted_frames(
    config: AudioRingBufferConfig,
    queued: nat,
    incoming: nat,
) -> nat {
    if !config.drop_oldest_on_overflow || queued + incoming <= config.capacity_frames {
        0
    } else if incoming >= config.capacity_frames {
        queued
    } else {
        (queued + incoming - config.capacity_frames) as nat
    }
}

/// How many of the oldest incoming frames are left out because all of them
/// would not fit into an empty queue.
pub open spec fn skipped_frames(config: AudioRingBufferConfig, incoming: nat) -> nat {
    if config.drop_oldest_on_overflow && incoming > config.capacity_frames {
        (incoming - config.capacity_frames) as nat
    } else {
        0
    }
}

/// How many of `incoming` frames enter a queue of `queued` frames.
pub open spec fn accepted_frames(
    config: AudioRingBufferConfig,
    queued: nat,
    incoming: nat,
) -> nat {
    let free = config.capacity_frames - (queued - evicted_frames(config, queued, incoming));
    let offered = incoming - skipped_frames(config, incoming);
    if offered <= free {
        offered as nat
    } else {
        free as nat
    }
}

/// How many frames a push of `incoming` frames loses, old and new together.
pub open spec fn lost_frames(config: AudioRingBufferConfig, queued: nat, incoming: nat) -> nat {
    (evicted_frames(config, queued, incoming) + incoming - accepted_frames(
        config,
        queued,
        incoming,
    )) as nat
}

/// The queue after `prepared` has been pushed into it.
pub open spec fn pushed<F: Fn(Duration, usize, u32, u64) -> Duration>(
    ring: RingView,
    config: AudioRingBufferConfig,
    samples: Seq<u32>,
    start: Option<Duration>,
    rate: u64,
    offset: F,
) -> RingView {
    let channels = ring.channels();
    let queued = ring.queued_frames();
    let incoming = samples.len() / channels;
    let evicted = evicted_frames(config, queued, incoming);
    let skipped = skipped_frames(config, incoming);
    let accepted = accepted_frames(config, queued, incoming);
    let timeline = advanced_singly(ring.timeline, evicted, ring.sample_rate(), offset);
    if incoming == 0 {
        ring
    } else {
        RingView {
            samples: ring.samples.skip((evicted * channels) as int) + samples.subrange(
                (skipped * channels) as int,
                ((skipped + accepted) * channels) as int,
            ),
            timeline: TimelineView {
                segments: if accepted == 0 {
                    timeline.segments
                } else {
                    timeline.segments.push(
                        AudioTimelineSegment {
                            start: optional_offset(
                                offset,
                                start,
                                skipped as usize,
                                ring.sample_rate(),
                                rate,
                            ),
                            frames: accepted as usize,
                            media_frames_per_output_frame: rate,
                        },
                    )
                },
                last_media_time: timeline.last_media_time,
            },
            written_frames: ring.written_frames + accepted,
            dropped_frames: ring.dropped_frames + lost_frames(config, queued, incoming),
            ..ring
        }
    }
}

/// How long the queue plays, unless the sample rate is not known.
pub open spec fn playing_time<F: Fn(Duration, usize, u32, u64) -> Duration>(
    ring: RingView,
    offset: F,
) -> Option<Duration> {
    if ring.sample_rate() == 0 {
        None
    } else {
        Some(
            media_offset(
                offset,
                Duration::spanning(0),
                ring.queued_frames() as usize,
                ring.sample_rate(),
                UNIT_RATE,
            ),
        )
    }
}

/// The clock of a queue: the media time at its front, or the last one known,
/// and how much follows it.
pub open spec fn clock<F: Fn(Duration, usize, u32, u64) -> Duration>(
    ring: RingView,
    offset: F,
) -> AudioClockSnapshot {
    AudioClockSnapshot {
        media_time: if ring.timeline.segments.len() > 0 && ring.timeline.segments[0].start is Some {
            ring.timeline.segments[0].start
        } else {
            ring.timeline.last_media_time
        },
        queued_duration: playing_time(ring, offset),
        queued_frames: ring.queued_frames() as usize,
        read_frames: ring.read_frames as u64,
        written_frames: ring.written_frames as u64,
        underflow_frames: ring.underflow_frames as u64,
    }
}

/// How many whole frames a read of `requested` frames gets out of the queue.
pub open spec fn readable_frames(ring: RingView, requested: nat) -> nat {
    if requested <= ring.queued_frames() {
        requested
    } else {
        ring.queued_frames()
    }
}

/// The queue after `requested` frames have been read from it.
pub open spec fn after_read<F: Fn(Duration, usize, u32, u64) -> Duration>(
    ring: RingView,
    requested: nat,
    offset: F,
) -> RingView {
    let frames = readable_frames(ring, requested);
    RingView {
        samples: ring.samples.skip((frames * ring.channels()) as int),
        timeline: advanced(ring.timeline, frames, ring.sample_rate(), offset),
        read_frames: ring.read_frames + frames,
        underflow_frames: ring.underflow_frames + (requested - frames) as nat,
        ..ring
    }
}

/// The samples a read of `len` samples gives out: the oldest queued ones, and
/// silence where there are none or where no whole frame fits.
pub open spec fn read_samples(ring: RingView, len: nat) -> Seq<u32> {
    let frames = readable_frames(ring, len / ring.channels());
    Seq::new(
        len,
        |i: int|
            if i < frames * ring.channels() {
                ring.samples[i]
            } else {
                SILENCE
            },
    )
}

/// The frames a playback-rate change leaves in the queue as a bridge: a
/// quarter of a second, rounded to the nearest frame, halves upwards.
pub open spec fn bridge_frames(ring: RingView) -> nat {
    match ring.format {
        Some(format) => ((format.sample_rate + 2) / 4) as nat,
        None => 0,
    }
}

/// The queue cut down to its first `frames` frames.
pub open spec fn cut_to_front(ring: RingView, frames: nat) -> RingView {
    let kept = if frames <= ring.queued_frames() {
        frames
    } else {
        ring.queued_frames()
    };
    RingView {
        samples: ring.samples.take((kept * ring.channels()) as int),
        timeline: TimelineView {
            segments: trimmed(ring.timeline.segments, kept),
            last_media_time: ring.timeline.last_media_time,
        },
        ..ring
    }
}

/// The tempo processor that a frame goes through: the one in use while it
/// fits the stream and the rate, else a new one.
pub open spec fn tempo_in_use<D: Fn(u64, u64) -> u64>(
    ring: RingView,
    distance: D,
) -> AudioTempoProcessor {
    match (ring.tempo, ring.format) {
        (Some(processor), Some(format)) if processor.format == format && serves_rate(
            distance,
            processor.playback_rate,
            ring.playback_rate,
        ) => processor,
        (_, Some(format)) => AudioTempoProcessor {
            format,
            playback_rate: normalized_rate(ring.playback_rate),
            pending_pts: None,
            started: false,
        },
        (_, None) => arbitrary(),
    }
}

/// `prepared` is what the queue makes of `frame` before it is queued, and
/// `tempo_after` the tempo processor from then on. At normal speed the
/// samples stay as they are and no processor is kept.
pub open spec fn prepares<
    D: Fn(u64, u64) -> u64,
    T: FnOnce(bool, Vec<u32>, usize) -> Vec<u32>,
    F: Fn(Duration, usize, u32, u64) -> Duration,
>(
    ring: RingView,
    frame: PcmAudioFrame,
    distance: D,
    transform: T,
    offset: F,
    tempo_after: Option<AudioTempoProcessor>,
    prepared: PreparedAudio,
) -> bool {
    if is_unit_rate(distance, ring.playback_rate) {
        &&& tempo_after is None
        &&& prepared.samples == frame.samples
        &&& prepared.start == frame.pts
        &&& prepared.media_frames_per_output_frame == UNIT_RATE
    } else {
        &&& tempo_after matches Some(after)
        &&& processes(tempo_in_use(ring, distance), frame, transform, offset, after, prepared)
    }
}

/// Pushing `samples` samples keeps both counters within their machine integers.
/// No push loses more frames than it brings.
pub open spec fn counts_fit(ring: RingView, samples: nat) -> bool {
    &&& ring.written_frames + samples <= u64::MAX
    &&& ring.dropped_frames + samples <= u64::MAX
}

/// Whole frames in `frames * channels` samples.
proof fn lemma_whole_frames(samples: nat, frames: nat, channels: nat)
    requires
        channels > 0,
        samples == frames * channels,
    ensures
        samples / channels == frames,
{
    lemma_fundamental_div_mod_converse(samples as int, channels as int, frames as int, 0);
}

/// Whole frames never take more samples than there are.
proof fn lemma_frames_fit(samples: nat, channels: nat)
    requires
        channels > 0,
    ensures
        (samples / channels) * channels <= samples,
        samples / channels <= samples,
{
    lemma_fundamental_div_mod(samples as int, channels as int);
    assert((samples / channels) * channels <= samples && samples / channels <= samples)
        by (nonlinear_arith)
        requires
            channels > 0,
            samples == channels * (samples / channels) + samples % channels,
            samples % channels >= 0,
    ;
}

/// A bounded queue of decoded audio with its media clock.
#[derive(Debug)]
pub struct AudioRingBuffer {
    config: AudioRingBufferConfig,
    format: Option<PcmFormat>,
    samples: VecDeque<u32>,
    timeline: AudioTimeline,
    playback_rate: u64,
    tempo_processor: Option<AudioTempoProcessor>,
    stats: AudioRingBufferStats,
}

impl View for AudioRingBuffer {
    type V = RingView;

    closed spec fn view(&self) -> RingView {
        RingView {
            format: self.format,
            samples: self.samples@,
            timeline: self.timeline@,
            playback_rate: self.playback_rate,
            tempo: self.tempo_processor,
            written_frames: self.stats.written_frames as nat,
            read_frames: self.stats.read_frames as nat,
            dropped_frames: self.stats.dropped_frames as nat,
            underflow_frames: self.stats.underflow_frames as nat,
        }
    }
}

impl AudioRingBuffer {
    pub closed spec fn configuration(&self) -> AudioRingBufferConfig {
        self.config
    }

    /// What every operation keeps.
    pub open spec fn well_formed(&self) -> bool {
        self@.well_formed(self.configuration())
    }

    pub fn new(config: AudioRingBufferConfig) -> (buffer: Self)
        ensures
            buffer.well_formed(),
            buffer.configuration() == config,
            buffer@ == RingView::empty(),
    {
        assert(RingView::empty().well_formed(config)) by {
            assert(0 * RingView::empty().channels() == 0) by (nonlinear_arith);
        }
        AudioRingBuffer {
            config,
            format: None,
            samples: VecDeque::new(),
            timeline: AudioTimeline::new(),
            playback_rate: UNIT_RATE,
            tempo_processor: None,
            stats: AudioRingBufferStats::default(),
        }
    }

    pub fn with_format(config: AudioRingBufferConfig, format: PcmFormat) -> (buffer: Result<
        Self,
        AudioError,
    >)
        ensures
            buffer is Err <==> format.channels == 0,
            buffer matches Err(error) ==> error == AudioError::InvalidChannelCount,
            buffer matches Ok(buffer) ==> {
                &&& buffer.well_formed()
                &&& buffer.configuration() == config
                &&& buffer@ == RingView::empty().configured(format)
            },
    {
        let mut buffer = AudioRingBuffer::new(config);
        match buffer.configure(format) {
            Ok(()) => Ok(buffer),
            Err(error) => Err(error),
        }
    }

    /// Sets the format and empties the queue. A format without channels is
    /// refused and changes nothing.
    pub fn configure(&mut self, format: PcmFormat) -> (result: Result<(), AudioError>)
        requires
            old(self).well_formed(),
        ensures
            final(self).well_formed(),
            final(self).configuration() == old(self).configuration(),
            result is Err <==> format.channels == 0,
            result matches Err(error) ==> error == AudioError::InvalidChannelCount && final(self)@
                == old(self)@,
            result is Ok ==> final(self)@ == old(self)@.configured(format),
    {
        if format.channels == 0 {
            return Err(AudioError::InvalidChannelCount);
        }
        self.format = Some(format);
        self.clear_queue();
        Ok(())
    }

    pub fn format(&self) -> (format: Option<PcmFormat>)
        ensures
            format == self@.format,
    {
        self.format
    }

    pub fn capacity_frames(&self) -> (frames: usize)
        ensures
            frames == self.configuration().capacity_frames,
    {
        self.config.capacity_frames
    }

    pub fn playback_rate(&self) -> (rate: u64)
        ensures
            rate == self@.playback_rate,
    {
        self.playback_rate
    }

    /// The tempo processor in use, if any.
    pub fn tempo_processor(&self) -> (processor: Option<AudioTempoProcessor>)
        ensures
            processor == self@.tempo,
    {
        self.tempo_processor
    }

    pub fn queued_frames(&self) -> (frames: usize)
        requires
            self.well_formed(),
        ensures
            frames == self@.queued_frames(),
    {
        match self.format {
            Some(format) => {
                proof {
                    lemma_whole_frames(
                        self.samples@.len(),
                        self@.queued_frames(),
                        format.channels as nat,
                    );
                }
                self.samples.len() / format.channels as usize
            },
            None => 0,
        }
    }

    /// How long the queue plays, unless the sample rate is not known.
    pub fn queued_duration<F: Fn(Duration, usize, u32, u64) -> Duration>(
        &self,
        offset: &F,
    ) -> (duration: Option<Duration>)
        requires
            self.well_formed(),
            is_media_offset(*offset),
        ensures
            duration == playing_time(self@, *offset),
    {
        let format: PcmFormat = match self.format {
            Some(format) => format,
            None => {
                return None;
            },
        };
        if format.sample_rate == 0 {
            return None;
        }
        Some(
            offset_pts_scaled(
                Duration::zero(),
                self.queued_frames(),
                format.sample_rate,
                UNIT_RATE,
                offset,
            ),
        )
    }

    pub fn stats(&self) -> (stats: AudioRingBufferStats)
        requires
            self.well_formed(),
        ensures
            stats.queued_frames == self@.queued_frames(),
            stats.queued_samples == self@.samples.len(),
            stats.written_frames == self@.written_frames,
            stats.read_frames == self@.read_frames,
            stats.dropped_frames == self@.dropped_frames,
            stats.underflow_frames == self@.underflow_frames,
    {
        AudioRingBufferStats {
            queued_frames: self.queued_frames(),
            queued_samples: self.samples.len(),
            written_frames: self.stats.written_frames,
            read_frames: self.stats.read_frames,
            dropped_frames: self.stats.dropped_frames,
            underflow_frames: self.stats.underflow_frames,
        }
    }

    /// The media time at the front of the queue and how much follows it.
    pub fn clock_snapshot<F: Fn(Duration, usize, u32, u64) -> Duration>(
        &self,
        offset: &F,
    ) -> (snapshot: AudioClockSnapshot)
        requires
            self.well_formed(),
            is_media_offset(*offset),
        ensures
            snapshot == clock(self@, *offset),
    {
        AudioClockSnapshot {
            media_time: self.timeline.media_time(),
            queued_duration: self.queued_duration(offset),
            queued_frames: self.queued_frames(),
            read_frames: self.stats.read_frames,
            written_frames: self.stats.written_frames,
            underflow_frames: self.stats.underflow_frames,
        }
    }

    fn clear_queue(&mut self)
        ensures
            final(self).configuration() == old(self).configuration(),
            final(self)@ == old(self)@.cleared(),
            final(self)@.samples.len() == final(self)@.queued_frames() * final(self)@.channels(),
    {
        self.samples.clear();
        self.timeline.clear();
        self.tempo_processor = None;
        self.stats.queued_frames = 0;
        self.stats.queued_samples = 0;
        assert(0 * self@.channels() == 0) by (nonlinear_arith);
    }

    /// Forgets everything queued; the format, the rate and the totals stay.
    pub fn clear(&mut self)
        requires
            old(self).well_formed(),
        ensures
            final(self).well_formed(),
            final(self).configuration() == old(self).configuration(),
            final(self)@ == old(self)@.cleared(),
    {
        self.clear_queue();
    }

    /// Changes the playback rate. If it is the current one, nothing happens.
    /// Samples already queued were made at the old rate: a bounded bridge of
    /// them stays.
    pub fn set_playback_rate<D: Fn(u64, u64) -> u64>(&mut self, rate: u64, distance: &D)
        requires
            old(self).well_formed(),
            is_distance(*distance),
        ensures
            final(self).well_formed(),
            final(self).configuration() == old(self).configuration(),
            final(self)@ == if changes_rate(*distance, old(self)@.playback_rate, rate) {
                cut_to_front(
                    RingView {
                        playback_rate: normalized_rate(rate),
                        tempo: None,
                        ..old(self)@
                    },
                    bridge_frames(old(self)@),
                )
            } else {
                old(self)@
            },
    {
        let wanted: u64 = normalize_playback_rate(rate);
        if distance(self.playback_rate, wanted) <= RATE_TOLERANCE {
            return;
        }
        self.playback_rate = wanted;
        self.tempo_processor = None;
        let frames: usize = self.rate_change_bridge_frames();
        self.trim_queued_to_front_frames(frames);
    }

    fn rate_change_bridge_frames(&self) -> (frames: usize)
        ensures
            frames == bridge_frames(self@),
    {
        match self.format {
            Some(format) => {
                let rounded: u64 = (format.sample_rate as u64 + 2) / 4;
                rounded as usize
            },
            None => 0,
        }
    }

    fn trim_queued_to_front_frames(&mut self, frames: usize)
        requires
            old(self).well_formed(),
        ensures
            final(self).well_formed(),
            final(self).configuration() == old(self).configuration(),
            final(self)@ == cut_to_front(old(self)@, frames as nat),
    {
        let ghost before = self@;
        let queued: usize = self.queued_frames();
        let kept: usize = if frames <= queued {
            frames
        } else {
            queued
        };
        let channels: usize = match self.format {
            Some(format) => format.channels as usize,
            None => 0,
        };
        proof {
            lemma_mul_inequality(kept as int, queued as int, channels as int);
            lemma_trimmed_frames(before.timeline.segments, kept as nat);
        }
        let queued_samples: usize = self.samples.len();
        let target_samples: usize = kept * channels;
        if queued_samples > target_samples {
            self.samples.truncate(target_samples);
        }
        self.timeline.trim_timeline_to_front_frames(kept);
        assert(self.samples@ =~= before.samples.take((kept * channels) as int));
    }

    /// Drops the oldest frame; `false` if there is none.
    fn drop_oldest_frame<F: Fn(Duration, usize, u32, u64) -> Duration>(
        &mut self,
        channels: usize,
        sample_rate: u32,
        offset: &F,
    ) -> (dropped: bool)
        requires
            channels > 0,
            is_media_offset(*offset),
            old(self)@.samples.len() % (channels as nat) == 0,
        ensures
            final(self).config == old(self).config,
            final(self).format == old(self).format,
            final(self).playback_rate == old(self).playback_rate,
            final(self).tempo_processor == old(self).tempo_processor,
            final(self).stats == old(self).stats,
            dropped <==> old(self)@.samples.len() >= channels,
            dropped ==> final(self)@.samples == old(self)@.samples.skip(channels as int)
                && final(self)@.timeline == advanced(
                old(self)@.timeline,
                1,
                sample_rate,
                *offset,
            ),
            !dropped ==> final(self)@ == old(self)@,
    {
        let ghost before = self.samples@;
        if self.samples.len() < channels {
            proof {
                vstd::arithmetic::div_mod::lemma_small_mod(before.len(), channels as nat);
            }
            self.samples.clear();
            assert(self.samples@ =~= before);
            return false;
        }
        let mut popped: usize = 0;
        while popped < channels
            invariant
                self.config == old(self).config,
                self.format == old(self).format,
                self.playback_rate == old(self).playback_rate,
                self.tempo_processor == old(self).tempo_processor,
                self.stats == old(self).stats,
                self.timeline == old(self).timeline,
                popped <= channels <= before.len(),
                self.samples@ == before.skip(popped as int),
            decreases channels - popped,
        {
            let _ = self.samples.pop_front();
            popped = popped + 1;
            assert(self.samples@ =~= before.skip(popped as int));
        }
        self.timeline.advance_timeline(1, sample_rate, offset);
        true
    }

    /// Makes a frame ready for the queue, through a tempo processor unless it
    /// plays at normal speed.
    pub fn prepare_frame_samples<
        D: Fn(u64, u64) -> u64,
        T: FnOnce(bool, Vec<u32>, usize) -> Vec<u32>,
        F: Fn(Duration, usize, u32, u64) -> Duration,
    >(
        &mut self,
        frame: PcmAudioFrame,
        distance: &D,
        transform: T,
        offset: &F,
    ) -> (prepared: PreparedAudio)
        requires
            old(self).well_formed(),
            old(self)@.format is Some,
            is_distance(*distance),
            is_media_offset(*offset),
            forall|fresh: bool, samples: Vec<u32>, frames: usize| #[trigger]
                transform.requires((fresh, samples, frames)),
        ensures
            final(self).well_formed(),
            final(self).configuration() == old(self).configuration(),
            final(self)@ == (RingView { tempo: final(self)@.tempo, ..old(self)@ }),
            prepares(
                old(self)@,
                frame,
                *distance,
                transform,
                *offset,
                final(self)@.tempo,
                prepared,
            ),
    {
        if distance(self.playback_rate, UNIT_RATE) <= RATE_TOLERANCE {
            self.tempo_processor = None;
            return PreparedAudio {
                samples: frame.samples,
                start: frame.pts,
                media_frames_per_output_frame: UNIT_RATE,
            };
        }
        let format: PcmFormat = self.format.unwrap();
        let mut processor: AudioTempoProcessor = match self.tempo_processor {
            Some(processor) => if processor.matches(
                format,
                self.playback_rate,
                distance,
            ) {
                processor
            } else {
                AudioTempoProcessor::new(format, self.playback_rate)
            },
            None => AudioTempoProcessor::new(format, self.playback_rate),
        };
        let prepared: PreparedAudio = processor.process(frame, transform, offset);
        self.tempo_processor = Some(processor);
        prepared
    }

    /// Queues prepared samples. On overflow the queue drops its oldest frames
    /// or refuses the newest, as configured.
    pub fn push_prepared<F: Fn(Duration, usize, u32, u64) -> Duration>(
        &mut self,
        prepared: PreparedAudio,
        offset: &F,
    ) -> (result: AudioPushResult)
        requires
            old(self).well_formed(),
            old(self)@.format is Some,
            is_media_offset(*offset),
            counts_fit(old(self)@, prepared.samples@.len()),
        ensures
            final(self).well_formed(),
            final(self).configuration() == old(self).configuration(),
            final(self)@ == pushed(
                old(self)@,
                old(self).configuration(),
                prepared.samples@,
                prepared.start,
                prepared.media_frames_per_output_frame,
                *offset,
            ),
            result.accepted_frames == pushed_frames(
                old(self)@,
                old(self).configuration(),
                prepared.samples@.len(),
            ),
            result.dropped_frames == dropped_by_push(
                old(self)@,
                old(self).configuration(),
                prepared.samples@.len(),
            ),
    {
        let ghost before = self@;
        let format: PcmFormat = self.format.unwrap();
        let channels: usize = format.channels as usize;
        let incoming_frames: usize = prepared.samples.len() / channels;
        proof {
            lemma_frames_fit(prepared.samples@.len(), channels as nat);
        }
        if incoming_frames == 0 {
            return AudioPushResult { accepted_frames: 0, dropped_frames: 0 };
        }
        let capacity: usize = self.config.capacity_frames;
        let drop_oldest: bool = self.config.drop_oldest_on_overflow;
        let mut dropped_frames: usize = 0;
        if drop_oldest {
            dropped_frames = self.make_room(incoming_frames, format, offset);
        }
        let ghost roomy = self@;
        let skip_incoming_frames: usize = if drop_oldest && incoming_frames > capacity {
            incoming_frames - capacity
        } else {
            0
        };
        let free_frames: usize = capacity - self.queued_frames();
        let offered_frames: usize = incoming_frames - skip_incoming_frames;
        let accepted_frames: usize = if offered_frames <= free_frames {
            offered_frames
        } else {
            free_frames
        };
        proof {
            lemma_mul_inequality(
                skip_incoming_frames + accepted_frames,
                incoming_frames as int,
                channels as int,
            );
            lemma_mul_is_distributive_add_other_way(
                channels as int,
                skip_incoming_frames as int,
                accepted_frames as int,
            );
            lemma_mul_inequality(0, accepted_frames as int, channels as int);
        }
        let skipped_samples: usize = skip_incoming_frames * channels;
        let end: usize = skipped_samples + accepted_frames * channels;
        self.append_samples(&prepared.samples, skipped_samples, end);
        let start: Option<Duration> = match prepared.start {
            Some(pts) => Some(
                offset_pts_scaled(
                    pts,
                    skip_incoming_frames,
                    format.sample_rate,
                    prepared.media_frames_per_output_frame,
                    offset,
                ),
            ),
            None => None,
        };
        self.timeline.push_timeline_segment(
            start,
            accepted_frames,
            prepared.media_frames_per_output_frame,
        );
        let lost_frames: usize = dropped_frames + (incoming_frames - accepted_frames);
        self.stats.written_frames = self.stats.written_frames + accepted_frames as u64;
        self.stats.dropped_frames = self.stats.dropped_frames + lost_frames as u64;
        proof {
            let segment = AudioTimelineSegment {
                start,
                frames: accepted_frames,
                media_frames_per_output_frame: prepared.media_frames_per_output_frame,
            };
            lemma_total_frames_push(roomy.timeline.segments, segment);
            lemma_mul_is_distributive_add_other_way(
                channels as int,
                roomy.queued_frames() as int,
                accepted_frames as int,
            );
        }
        AudioPushResult { accepted_frames, dropped_frames: lost_frames }
    }

    /// Drops oldest frames until `incoming_frames` more fit or none are left.
    fn make_room<F: Fn(Duration, usize, u32, u64) -> Duration>(
        &mut self,
        incoming_frames: usize,
        format: PcmFormat,
        offset: &F,
    ) -> (dropped_frames: usize)
        requires
            old(self).well_formed(),
            old(self)@.format == Some(format),
            old(self).configuration().drop_oldest_on_overflow,
            is_media_offset(*offset),
        ensures
            final(self).well_formed(),
            final(self).configuration() == old(self).configuration(),
            dropped_frames == evicted_frames(
                old(self).configuration(),
                old(self)@.queued_frames(),
                incoming_frames as nat,
            ),
            final(self).stats == old(self).stats,
            final(self)@ == (RingView {
                samples: old(self)@.samples.skip((dropped_frames * old(self)@.channels()) as int),
                timeline: advanced_singly(
                    old(self)@.timeline,
                    dropped_frames as nat,
                    format.sample_rate,
                    *offset,
                ),
                ..old(self)@
            }),
            final(self)@.queued_frames() == old(self)@.queued_frames() - dropped_frames,
    {
        let ghost before = self@;
        let channels: usize = format.channels as usize;
        let capacity: usize = self.config.capacity_frames;
        let queued: usize = self.queued_frames();
        let mut dropped: usize = 0;
        assert(before.samples.skip(0) =~= before.samples);
        assert(0 * channels == 0) by (nonlinear_arith);
        while dropped < queued && (incoming_frames > capacity || queued - dropped > capacity
            - incoming_frames)
            invariant
                self.config == old(self).config,
                self.stats == old(self).stats,
                capacity == self.config.capacity_frames,
                before == old(self)@,
                before.well_formed(old(self).config),
                before.format == Some(format),
                channels == format.channels,
                channels > 0,
                is_media_offset(*offset),
                queued == before.queued_frames(),
                dropped <= queued,
                self@ == (RingView {
                    samples: before.samples.skip((dropped * channels) as int),
                    timeline: advanced_singly(
                        before.timeline,
                        dropped as nat,
                        format.sample_rate,
                        *offset,
                    ),
                    ..before
                }),
                dropped <= evicted_frames(self.config, queued as nat, incoming_frames as nat)
                    || dropped == 0,
                self.config.drop_oldest_on_overflow,
            decreases queued - dropped,
        {
            proof {
                lemma_mul_inequality(dropped + 1, queued as int, channels as int);
                lemma_mul_is_distributive_add_other_way(channels as int, dropped as int, 1);
                lemma_mul_is_distributive_sub_other_way(
                    channels as int,
                    queued as int,
                    dropped as int,
                );
                lemma_mul_inequality(0, dropped as int, channels as int);
                lemma_fundamental_div_mod_converse(
                    self@.samples.len() as int,
                    channels as int,
                    queued - dropped,
                    0,
                );
            }
            let removed: bool = self.drop_oldest_frame(channels, format.sample_rate, offset);
            assert(removed);
            dropped = dropped + 1;
            assert(self@.samples =~= before.samples.skip((dropped * channels) as int));
        }
        proof {
            lemma_advanced_singly_frames(
                before.timeline,
                dropped as nat,
                format.sample_rate,
                *offset,
            );
            lemma_mul_inequality(dropped as int, queued as int, channels as int);
            lemma_mul_inequality(0, dropped as int, channels as int);
            lemma_mul_is_distributive_sub_other_way(channels as int, queued as int, dropped as int);
        }
        dropped
    }

    fn append_samples(&mut self, samples: &Vec<u32>, first: usize, end: usize)
        requires
            first <= end <= samples@.len(),
        ensures
            final(self).config == old(self).config,
            final(self).stats == old(self).stats,
            final(self)@ == (RingView {
                samples: old(self)@.samples + samples@.subrange(first as int, end as int),
                ..old(self)@
            }),
    {
        let mut index: usize = first;
        assert(samples@.subrange(first as int, first as int) =~= Seq::empty());
        assert(self.samples@ + Seq::<u32>::empty() =~= self.samples@);
        while index < end
            invariant
                first <= index <= end <= samples@.len(),
                self.config == old(self).config,
                self.stats == old(self).stats,
                self@ == (RingView {
                    samples: old(self)@.samples + samples@.subrange(first as int, index as int),
                    ..old(self)@
                }),
            decreases end - index,
        {
            self.samples.push_back(samples[index]);
            index = index + 1;
            assert(self.samples@ =~= old(self)@.samples + samples@.subrange(
                first as int,
                index as int,
            ));
        }
    }

    /// Queues one decoded frame. The first frame of an unconfigured queue sets
    /// the format; later ones must keep to it.
    pub fn push_frame<
        D: Fn(u64, u64) -> u64,
        T: FnOnce(bool, Vec<u32>, usize) -> Vec<u32>,
        F: Fn(Duration, usize, u32, u64) -> Duration,
    >(&mut self, frame: PcmAudioFrame, distance: &D, transform: T, offset: &F) -> (result:
        Result<AudioPushResult, AudioError>)
        requires
            old(self).well_formed(),
            is_distance(*distance),
            is_media_offset(*offset),
            forall|fresh: bool, samples: Vec<u32>, frames: usize| #[trigger]
                transform.requires((fresh, samples, frames)),
            is_unit_rate(*distance, old(self)@.playback_rate) ==> counts_fit(
                old(self)@,
                frame.samples@.len(),
            ),
            !is_unit_rate(*distance, old(self)@.playback_rate) ==> counts_fit(old(self)@, 0) && forall|
                fresh: bool,
                samples: Vec<u32>,
                frames: usize,
                stretched: Vec<u32>,
            |
                #[trigger] transform.ensures((fresh, samples, frames), stretched) ==> counts_fit(
                    old(self)@,
                    stretched@.len(),
                ),
        ensures
            final(self).well_formed(),
            final(self).configuration() == old(self).configuration(),
            result is Err <==> {
                ||| old(self)@.format is Some && old(self)@.format != Some(frame.format)
                ||| old(self)@.format is None && frame.format.channels == 0
            },
            result matches Err(error) ==> {
                &&& final(self)@ == old(self)@
                &&& error == match old(self)@.format {
                    Some(format) => AudioError::FormatChanged {
                        expected: format,
                        actual: frame.format,
                    },
                    None => AudioError::InvalidChannelCount,
                }
            },
            result matches Ok(result) ==> push_outcome(
                old(self)@,
                old(self).configuration(),
                frame,
                *distance,
                transform,
                *offset,
                final(self)@,
                result,
            ),
    {
        match self.format {
            Some(format) => {
                if format != frame.format {
                    return Err(
                        AudioError::FormatChanged { expected: format, actual: frame.format },
                    );
                }
            },
            None => {
                match self.configure(frame.format) {
                    Ok(()) => {},
                    Err(error) => {
                        return Err(error);
                    },
                }
            },
        }
        let ghost base = self@;
        let ghost decoded = frame;
        assert(base == accepting(old(self)@, frame.format));
        let prepared: PreparedAudio = self.prepare_frame_samples(
            frame,
            distance,
            transform,
            offset,
        );
        let ghost ready = prepared;
        let result: AudioPushResult = self.push_prepared(prepared, offset);
        proof {
            let with_tempo = RingView { tempo: self@.tempo, ..base };
            assert(prepares(base, decoded, *distance, transform, *offset, self@.tempo, ready));
        }
        Ok(result)
    }

    /// Reads interleaved samples into `output`, oldest first, with silence
    /// after the last whole frame that could be supplied.
    pub fn read_interleaved<F: Fn(Duration, usize, u32, u64) -> Duration>(
        &mut self,
        output: &mut [u32],
        offset: &F,
    ) -> (result: Result<AudioReadResult, AudioError>)
        requires
            old(self).well_formed(),
            is_media_offset(*offset),
            old(self)@.read_frames + old(output)@.len() <= u64::MAX,
            old(self)@.underflow_frames + old(output)@.len() <= u64::MAX,
        ensures
            final(self).well_formed(),
            final(self).configuration() == old(self).configuration(),
            result is Err <==> old(self)@.format is None,
            result matches Err(error) ==> {
                &&& error == AudioError::FormatNotConfigured
                &&& final(self)@ == old(self)@
                &&& final(output)@ == old(output)@
            },
            result matches Ok(result) ==> {
                let requested = old(output)@.len() / old(self)@.channels();
                let frames = readable_frames(old(self)@, requested);
                &&& final(self)@ == after_read(old(self)@, requested, *offset)
                &&& final(output)@ == read_samples(old(self)@, old(output)@.len())
                &&& result.frames == frames
                &&& result.samples == frames * old(self)@.channels()
                &&& result.underflow_frames == requested - frames
            },
    {
        let format: PcmFormat = match self.format {
            Some(format) => format,
            None => {
                return Err(AudioError::FormatNotConfigured);
            },
        };
        let ghost before = self@;
        let channels: usize = format.channels as usize;
        let total: usize = output.len();
        let requested_frames: usize = total / channels;
        let queued: usize = self.queued_frames();
        let read_frames: usize = if requested_frames <= queued {
            requested_frames
        } else {
            queued
        };
        proof {
            lemma_frames_fit(total as nat, channels as nat);
            lemma_mul_inequality(read_frames as int, requested_frames as int, channels as int);
            lemma_mul_inequality(read_frames as int, queued as int, channels as int);
            lemma_mul_inequality(0, read_frames as int, channels as int);
            lemma_mul_is_distributive_sub_other_way(
                channels as int,
                queued as int,
                read_frames as int,
            );
            lemma_advanced_frames(
                before.timeline,
                read_frames as nat,
                format.sample_rate,
                *offset,
            );
        }
        let read_samples_count: usize = read_frames * channels;
        let mut index: usize = 0;
        assert(before.samples.skip(0) =~= before.samples);
        while index < read_samples_count
            invariant
                self.config == old(self).config,
                self.stats == old(self).stats,
                self@ == (RingView { samples: before.samples.skip(index as int), ..before }),
                index <= read_samples_count <= before.samples.len(),
                read_samples_count <= total,
                output@.len() == total,
                forall|j: int| 0 <= j < index ==> output@[j] == before.samples[j],
            decreases read_samples_count - index,
        {
            let ghost queue = self.samples@;
            match self.samples.pop_front() {
                Some(sample) => {
                    output[index] = sample;
                },
                None => {},
            }
            index = index + 1;
            assert(self.samples@ =~= before.samples.skip(index as int));
        }
        while index < total
            invariant
                read_samples_count <= index <= total,
                output@.len() == total,
                forall|j: int| 0 <= j < read_samples_count ==> output@[j] == before.samples[j],
                forall|j: int| read_samples_count <= j < index ==> output@[j] == SILENCE,
            decreases total - index,
        {
            output[index] = SILENCE;
            index = index + 1;
        }
        let underflow_frames: usize = requested_frames - read_frames;
        self.timeline.advance_timeline(read_frames, format.sample_rate, offset);
        self.stats.read_frames = self.stats.read_frames + read_frames as u64;
        self.stats.underflow_frames = self.stats.underflow_frames + underflow_frames as u64;
        assert(output@ =~= read_samples(before, total as nat));
        Ok(
            AudioReadResult {
                frames: read_frames,
                samples: read_samples_count,
                underflow_frames,
            },
        )
    }
}

/// The queue that a frame of `format` goes into: an unconfigured one takes the
/// frame's format first.
pub open spec fn accepting(ring: RingView, format: PcmFormat) -> RingView {
    if ring.format is None {
        ring.configured(format)
    } else {
        ring
    }
}

/// `after` and `result` are an outcome of pushing `frame` into `ring`.
pub open spec fn push_outcome<
    D: Fn(u64, u64) -> u64,
    T: FnOnce(bool, Vec<u32>, usize) -> Vec<u32>,
    F: Fn(Duration, usize, u32, u64) -> Duration,
>(
    ring: RingView,
    config: AudioRingBufferConfig,
    frame: PcmAudioFrame,
    distance: D,
    transform: T,
    offset: F,
    after: RingView,
    result: AudioPushResult,
) -> bool {
    let base = accepting(ring, frame.format);
    exists|prepared: PreparedAudio|
        {
            &&& #[trigger] prepares(base, frame, distance, transform, offset, after.tempo, prepared)
            &&& after == pushed(
                RingView { tempo: after.tempo, ..base },
                config,
                prepared.samples@,
                prepared.start,
                prepared.media_frames_per_output_frame,
                offset,
            )
            &&& result.accepted_frames == pushed_frames(base, config, prepared.samples@.len())
            &&& result.dropped_frames == dropped_by_push(base, config, prepared.samples@.len())
        }
}

/// How many frames of `samples` samples a push queues.
pub open spec fn pushed_frames(ring: RingView, config: AudioRingBufferConfig, samples: nat) -> nat {
    let incoming = samples / ring.channels();
    if incoming == 0 {
        0
    } else {
        accepted_frames(config, ring.queued_frames(), incoming)
    }
}

/// How many frames a push of `samples` samples loses, old and new together.
pub open spec fn dropped_by_push(
    ring: RingView,
    config: AudioRingBufferConfig,
    samples: nat,
) -> nat {
    let incoming = samples / ring.channels();
    if incoming == 0 {
        0
    } else {
        lost_frames(config, ring.queued_frames(), incoming)
    }
}

/// Every frame is accounted for: what was queued and what came in is either
/// still queued or counted as dropped, and the queue never exceeds its
/// capacity.
pub proof fn lemma_push_accounts_for_every_frame<F: Fn(Duration, usize, u32, u64) -> Duration>(
    ring: RingView,
    config: AudioRingBufferConfig,
    samples: Seq<u32>,
    start: Option<Duration>,
    rate: u64,
    offset: F,
)
    requires
        ring.well_formed(config),
        ring.format is Some,
        samples.len() <= usize::MAX,
    ensures
        ({
            let after = pushed(ring, config, samples, start, rate, offset);
            &&& after.well_formed(config)
            &&& after.queued_frames() + dropped_by_push(ring, config, samples.len())
                == ring.queued_frames() + samples.len() / ring.channels()
        }),
{
    let channels = ring.channels();
    let queued = ring.queued_frames();
    let incoming = samples.len() / channels;
    lemma_frames_fit(samples.len(), channels);
    if incoming > 0 {
        let evicted = evicted_frames(config, queued, incoming);
        let skipped = skipped_frames(config, incoming);
        let accepted = accepted_frames(config, queued, incoming);
        let timeline = advanced_singly(ring.timeline, evicted, ring.sample_rate(), offset);
        lemma_advanced_singly_frames(ring.timeline, evicted, ring.sample_rate(), offset);
        let segment = AudioTimelineSegment {
            start: optional_offset(offset, start, skipped as usize, ring.sample_rate(), rate),
            frames: accepted as usize,
            media_frames_per_output_frame: rate,
        };
        lemma_total_frames_push(timeline.segments, segment);
        lemma_mul_inequality((skipped + accepted) as int, incoming as int, channels as int);
        lemma_mul_inequality(skipped as int, (skipped + accepted) as int, channels as int);
        lemma_mul_inequality(0, skipped as int, channels as int);
        lemma_mul_inequality(evicted as int, queued as int, channels as int);
        lemma_mul_inequality(0, evicted as int, channels as int);
        lemma_mul_is_distributive_add_other_way(channels as int, skipped as int, accepted as int);
        lemma_mul_is_distributive_sub_other_way(channels as int, queued as int, evicted as int);
        lemma_mul_is_distributive_add_other_way(
            channels as int,
            queued - evicted,
            accepted as int,
        );
    }
}

/// Whatever a queue holds, a frame that is pushed at normal speed is accounted
/// for in its counters: what came in is queued or reported as dropped, what was
/// accepted is counted as written and what was lost as dropped, and nothing is
/// counted as read or missed. The queue stays within its capacity and holds whole
/// frames.
pub proof fn lemma_pushed_frames_are_queued_or_dropped<
    D: Fn(u64, u64) -> u64,
    T: FnOnce(bool, Vec<u32>, usize) -> Vec<u32>,
    F: Fn(Duration, usize, u32, u64) -> Duration,
>(
    ring: RingView,
    config: AudioRingBufferConfig,
    frame: PcmAudioFrame,
    distance: D,
    transform: T,
    offset: F,
    after: RingView,
    result: AudioPushResult,
)
    requires
        ring.well_formed(config),
        is_unit_rate(distance, ring.playback_rate),
        ring.format is None || ring.format == Some(frame.format),
        frame.format.channels > 0,
        push_outcome(ring, config, frame, distance, transform, offset, after, result),
    ensures
        after.well_formed(config),
        after.queued_frames() + result.dropped_frames == ring.queued_frames()
            + frame.samples@.len() / (frame.format.channels as nat),
        after.queued_frames() <= config.capacity_frames,
        after.samples.len() == after.queued_frames() * (frame.format.channels as nat),
        after.written_frames == ring.written_frames + result.accepted_frames,
        after.dropped_frames == ring.dropped_frames + result.dropped_frames,
        after.read_frames == ring.read_frames,
        after.underflow_frames == ring.underflow_frames,
{
    let base = RingView { tempo: after.tempo, ..accepting(ring, frame.format) };
    let samples = frame.samples@;
    assert(samples.len() == frame.samples.len());
    assert(0 * base.channels() == 0) by (nonlinear_arith);
    assert(base.well_formed(config));
    let prepared = choose|prepared: PreparedAudio|
        {
            &&& #[trigger] prepares(
                accepting(ring, frame.format),
                frame,
                distance,
                transform,
                offset,
                after.tempo,
                prepared,
            )
            &&& after == pushed(
                base,
                config,
                prepared.samples@,
                prepared.start,
                prepared.media_frames_per_output_frame,
                offset,
            )
            &&& result.accepted_frames == pushed_frames(base, config, prepared.samples@.len())
            &&& result.dropped_frames == dropped_by_push(base, config, prepared.samples@.len())
        };
    lemma_push_accounts_for_every_frame(
        base,
        config,
        samples,
        prepared.start,
        prepared.media_frames_per_output_frame,
        offset,
    );
}

/// A queue that drops its oldest frames on overflow holds the newest ones: as
/// many as fit of what was queued followed by what came in.
pub proof fn lemma_drop_oldest_keeps_the_newest<F: Fn(Duration, usize, u32, u64) -> Duration>(
    ring: RingView,
    config: AudioRingBufferConfig,
    samples: Seq<u32>,
    start: Option<Duration>,
    rate: u64,
    offset: F,
)
    requires
        ring.well_formed(config),
        ring.format is Some,
        config.drop_oldest_on_overflow,
        samples.len() <= usize::MAX,
    ensures
        ({
            let incoming = samples.len() / ring.channels();
            let all = ring.samples + samples.take((incoming * ring.channels()) as int);
            let lost = dropped_by_push(ring, config, samples.len());
            let after = pushed(ring, config, samples, start, rate, offset);
            &&& after.samples == all.skip((lost * ring.channels()) as int)
            &&& after.queued_frames() == if ring.queued_frames() + incoming
                <= config.capacity_frames {
                ring.queued_frames() + incoming
            } else {
                config.capacity_frames as nat
            }
        }),
{
    let channels = ring.channels();
    let queued = ring.queued_frames();
    let incoming = samples.len() / channels;
    lemma_frames_fit(samples.len(), channels);
    lemma_push_accounts_for_every_frame(ring, config, samples, start, rate, offset);
    let all = ring.samples + samples.take((incoming * channels) as int);
    let after = pushed(ring, config, samples, start, rate, offset);
    if incoming == 0 {
        assert(0 * channels == 0) by (nonlinear_arith);
        assert(all.skip(0) =~= ring.samples);
    } else {
        let evicted = evicted_frames(config, queued, incoming);
        let skipped = skipped_frames(config, incoming);
        let accepted = accepted_frames(config, queued, incoming);
        let lost = lost_frames(config, queued, incoming);
        assert(skipped + accepted == incoming);
        assert(lost == evicted + skipped);
        assert(skipped == 0 || evicted == queued);
        lemma_mul_is_distributive_add_other_way(channels as int, evicted as int, skipped as int);
        lemma_mul_is_distributive_add_other_way(channels as int, skipped as int, accepted as int);
        lemma_mul_inequality(evicted as int, queued as int, channels as int);
        lemma_mul_inequality(0, evicted as int, channels as int);
        lemma_mul_inequality(0, skipped as int, channels as int);
        lemma_mul_inequality(skipped as int, incoming as int, channels as int);
        assert(skipped == 0 ==> skipped * channels == 0) by (nonlinear_arith);
        assert(after.samples =~= all.skip((lost * channels) as int));
    }
}

/// A queue that refuses the newest frames on overflow keeps all it had: the
/// accepted frames follow what was queued.
pub proof fn lemma_refusing_keeps_the_queue<F: Fn(Duration, usize, u32, u64) -> Duration>(
    ring: RingView,
    config: AudioRingBufferConfig,
    samples: Seq<u32>,
    start: Option<Duration>,
    rate: u64,
    offset: F,
)
    requires
        ring.well_formed(config),
        ring.format is Some,
        !config.drop_oldest_on_overflow,
        samples.len() <= usize::MAX,
    ensures
        ({
            let accepted = pushed_frames(ring, config, samples.len());
            let after = pushed(ring, config, samples, start, rate, offset);
            after.samples == ring.samples + samples.take((accepted * ring.channels()) as int)
        }),
{
    let channels = ring.channels();
    let incoming = samples.len() / channels;
    lemma_frames_fit(samples.len(), channels);
    assert(0 * channels == 0) by (nonlinear_arith);
    let accepted = pushed_frames(ring, config, samples.len());
    lemma_mul_inequality(accepted as int, incoming as int, channels as int);
    lemma_mul_inequality(0, accepted as int, channels as int);
    assert(pushed(ring, config, samples, start, rate, offset).samples =~= ring.samples
        + samples.take((accepted * channels) as int));
}

/// What is pushed into an empty queue that has room for it comes out again
/// unchanged, and leaves the queue empty.
pub proof fn lemma_read_gives_back_what_was_pushed<F: Fn(Duration, usize, u32, u64) -> Duration>(
    ring: RingView,
    config: AudioRingBufferConfig,
    samples: Seq<u32>,
    start: Option<Duration>,
    rate: u64,
    offset: F,
)
    requires
        ring.well_formed(config),
        ring.format is Some,
        ring.queued_frames() == 0,
        samples.len() % ring.channels() == 0,
        samples.len() / ring.channels() <= config.capacity_frames,
    ensures
        ({
            let after = pushed(ring, config, samples, start, rate, offset);
            let requested = samples.len() / ring.channels();
            &&& read_samples(after, samples.len()) == samples
            &&& after_read(after, requested, offset).samples.len() == 0
        }),
{
    let channels = ring.channels();
    let incoming = samples.len() / channels;
    lemma_fundamental_div_mod(samples.len() as int, channels as int);
    assert(incoming * channels == channels * incoming) by (nonlinear_arith);
    assert(0 * channels == 0) by (nonlinear_arith);
    let after = pushed(ring, config, samples, start, rate, offset);
    assert(ring.samples.len() == 0);
    if incoming == 0 {
        assert(read_samples(after, samples.len()) =~= samples);
    } else {
        let timeline = advanced_singly(ring.timeline, 0, ring.sample_rate(), offset);
        let segment = AudioTimelineSegment {
            start: optional_offset(offset, start, 0, ring.sample_rate(), rate),
            frames: incoming as usize,
            media_frames_per_output_frame: rate,
        };
        lemma_total_frames_push(timeline.segments, segment);
        assert(after.samples =~= samples);
        assert(read_samples(after, samples.len()) =~= samples);
    }
}

/// Reads come out in order: what one read leaves in the queue is what the
/// next one starts with.
pub proof fn lemma_reads_continue_in_order<F: Fn(Duration, usize, u32, u64) -> Duration>(
    ring: RingView,
    config: AudioRingBufferConfig,
    first: nat,
    second: nat,
    offset: F,
)
    requires
        ring.well_formed(config),
        ring.format is Some,
        first + second <= ring.queued_frames(),
    ensures
        ({
            let middle = after_read(ring, first, offset);
            &&& middle.well_formed(config)
            &&& middle.queued_frames() + first == ring.queued_frames()
            &&& after_read(middle, second, offset).samples == after_read(
                ring,
                first + second,
                offset,
            ).samples
            &&& read_samples(ring, first * ring.channels()) + read_samples(
                middle,
                second * ring.channels(),
            ) == read_samples(ring, (first + second) * ring.channels())
        }),
{
    let channels = ring.channels();
    let queued = ring.queued_frames();
    let middle = after_read(ring, first, offset);
    lemma_advanced_frames(ring.timeline, first, ring.sample_rate(), offset);
    lemma_mul_is_distributive_sub_other_way(channels as int, queued as int, first as int);
    lemma_mul_is_distributive_add_other_way(channels as int, first as int, second as int);
    lemma_mul_inequality(first as int, queued as int, channels as int);
    lemma_mul_inequality((first + second) as int, queued as int, channels as int);
    lemma_mul_inequality(0, first as int, channels as int);
    lemma_mul_inequality(0, second as int, channels as int);
    lemma_whole_frames(first * channels, first, channels);
    lemma_whole_frames(second * channels, second, channels);
    lemma_whole_frames((first + second) * channels, first + second, channels);
    assert(after_read(middle, second, offset).samples =~= after_read(
        ring,
        first + second,
        offset,
    ).samples);
    assert(read_samples(ring, first * channels) + read_samples(middle, second * channels)
        =~= read_samples(ring, (first + second) * channels));
}

/// The clock follows what is read. As long as a read stays within the front
/// segment, or takes all of the last one, the media time afterwards is that of
/// the segment's start moved on by the frames that were read.
pub proof fn lemma_clock_follows_what_is_read<F: Fn(Duration, usize, u32, u64) -> Duration>(
    ring: RingView,
    config: AudioRingBufferConfig,
    requested: usize,
    offset: F,
)
    requires
        ring.well_formed(config),
        ring.timeline.segments.len() > 0,
        ring.timeline.segments[0].start is Some,
        0 < requested <= ring.timeline.segments[0].frames,
        requested < ring.timeline.segments[0].frames || ring.timeline.segments.len() == 1,
    ensures
        clock(after_read(ring, requested as nat, offset), offset).media_time == Some(
            media_offset(
                offset,
                ring.timeline.segments[0].start->0,
                requested,
                ring.sample_rate(),
                ring.timeline.segments[0].media_frames_per_output_frame,
            ),
        ),
{
    let segments = ring.timeline.segments;
    assert(total_frames(segments) == segments[0].frames + total_frames(segments.drop_first()));
    assert(readable_frames(ring, requested as nat) == requested);
    reveal_with_fuel(advanced, 2);
}

/// A playback-rate change leaves the front of the queue, and with it the media
/// time, where it was.
pub proof fn lemma_rate_change_keeps_the_front(ring: RingView, config: AudioRingBufferConfig)
    requires
        ring.well_formed(config),
        ring.queued_frames() > 0,
        bridge_frames(ring) > 0,
    ensures
        ({
            let after = cut_to_front(ring, bridge_frames(ring));
            &&& after.queued_frames() <= bridge_frames(ring)
            &&& after.queued_frames() <= ring.queued_frames()
            &&& after.timeline.segments.len() > 0
            &&& after.timeline.segments[0].start == ring.timeline.segments[0].start
            &&& after.timeline.last_media_time == ring.timeline.last_media_time
        }),
{
    let kept = if bridge_frames(ring) <= ring.queued_frames() {
        bridge_frames(ring)
    } else {
        ring.queued_frames()
    };
    lemma_trimmed_frames(ring.timeline.segments, kept);
}

} // verus!
