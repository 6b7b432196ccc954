//! An output that only queues: the host reads the samples itself.

use crate::audio::rate::{is_distance, normalized_rate};
use crate::audio::ring::{
    after_read, bridge_frames, changes_rate, clock, counts_fit, cut_to_front, is_unit_rate,
    push_outcome, read_samples, readable_frames, AudioRingBuffer, RingView,
};
use crate::audio::timeline::is_media_offset;
use crate::audio::volume::{
    apply_volume, is_multiply, normalize_volume, normalized, scaled, FULL_VOLUME,
};
use crate::audio::{
    AudioClockSnapshot, AudioError, AudioOutputState, AudioPushResult, AudioReadResult,
    AudioRingBufferConfig, AudioRingBufferStats,
};
use crate::pcm::{PcmAudioFrame, PcmFormat};
use crate::time::Duration;
use vstd::prelude::*;

verus! {

/// An audio output in front of a queue.
#[derive(Debug)]
pub struct BufferedAudioOutput {
    state: AudioOutputState,
    buffer: AudioRingBuffer,
    volume: u32,
}

impl BufferedAudioOutput {
    pub closed spec fn output_state(&self) -> AudioOutputState {
        self.state
    }

    pub closed spec fn queue(&self) -> AudioRingBuffer {
        self.buffer
    }

    pub closed spec fn gain(&self) -> u32 {
        self.volume
    }

    pub open spec fn well_formed(&self) -> bool {
        self.queue().well_formed()
    }

    pub fn new(config: AudioRingBufferConfig) -> (output: Self)
        ensures
            output.well_formed(),
            output.output_state() == AudioOutputState::Stopped,
            output.queue().configuration() == config,
            output.queue()@ == RingView::empty(),
            output.gain() == FULL_VOLUME,
    {
        BufferedAudioOutput {
            state: AudioOutputState::Stopped,
            buffer: AudioRingBuffer::new(config),
            volume: FULL_VOLUME,
        }
    }

    pub fn buffer(&self) -> (buffer: &AudioRingBuffer)
        ensures
            *buffer == self.queue(),
    {
        &self.buffer
    }

    pub fn buffer_mut(&mut self) -> (buffer: &mut AudioRingBuffer)
        ensures
            *buffer == old(self).queue(),
            final(self).queue() == *final(buffer),
            final(self).output_state() == old(self).output_state(),
            final(self).gain() == old(self).gain(),
    {
        &mut self.buffer
    }

    /// Reads from the queue and applies the volume to what comes out.
    pub fn read_interleaved<
        F: Fn(Duration, usize, u32, u64) -> Duration,
        M: Fn(u32, u32) -> u32,
    >(&mut self, output: &mut [u32], offset: &F, multiply: &M) -> (result: Result<
        AudioReadResult,
        AudioError,
    >)
        requires
            old(self).well_formed(),
            is_media_offset(*offset),
            is_multiply(*multiply),
            old(self).queue()@.read_frames + old(output)@.len() <= u64::MAX,
            old(self).queue()@.underflow_frames + old(output)@.len() <= u64::MAX,
        ensures
            final(self).well_formed(),
            final(self).output_state() == old(self).output_state(),
            final(self).gain() == old(self).gain(),
            final(self).queue().configuration() == old(self).queue().configuration(),
            result is Err <==> old(self).queue()@.format is None,
            result matches Err(error) ==> {
                &&& error == AudioError::FormatNotConfigured
                &&& final(self).queue()@ == old(self).queue()@
                &&& final(output)@ == old(output)@
            },
            result matches Ok(result) ==> {
                let ring = old(self).queue()@;
                let requested = old(output)@.len() / ring.channels();
                let frames = readable_frames(ring, requested);
                let samples = read_samples(ring, old(output)@.len());
                &&& final(self).queue()@ == after_read(ring, requested, *offset)
                &&& final(output)@ == Seq::new(
                    samples.len(),
                    |i: int| scaled(*multiply, samples[i], old(self).gain()),
                )
                &&& result.frames == frames
                &&& result.samples == frames * ring.channels()
                &&& result.underflow_frames == requested - frames
            },
    {
        match self.buffer.read_interleaved(output, offset) {
            Ok(result) => {
                apply_volume(output, self.volume, multiply);
                Ok(result)
            },
            Err(error) => Err(error),
        }
    }

    pub fn clock_snapshot<F: Fn(Duration, usize, u32, u64) -> Duration>(
        &self,
        offset: &F,
    ) -> (snapshot: AudioClockSnapshot)
        requires
            self.well_formed(),
            is_media_offset(*offset),
        ensures
            snapshot == clock(self.queue()@, *offset),
    {
        self.buffer.clock_snapshot(offset)
    }

    pub fn configure(&mut self, format: PcmFormat) -> (result: Result<(), AudioError>)
        requires
            old(self).well_formed(),
        ensures
            final(self).well_formed(),
            final(self).output_state() == old(self).output_state(),
            final(self).gain() == old(self).gain(),
            final(self).queue().configuration() == old(self).queue().configuration(),
            result is Err <==> format.channels == 0,
            result matches Err(error) ==> error == AudioError::InvalidChannelCount
                && final(self).queue()@ == old(self).queue()@,
            result is Ok ==> final(self).queue()@ == old(self).queue()@.configured(format),
    {
        self.buffer.configure(format)
    }

    pub fn start(&mut self)
        ensures
            final(self).output_state() == AudioOutputState::Playing,
            final(self).queue() == old(self).queue(),
            final(self).gain() == old(self).gain(),
    {
        self.state = AudioOutputState::Playing;
    }

    pub fn pause(&mut self)
        ensures
            final(self).output_state() == AudioOutputState::Paused,
            final(self).queue() == old(self).queue(),
            final(self).gain() == old(self).gain(),
    {
        self.state = AudioOutputState::Paused;
    }

    /// Stops and forgets what is queued.
    pub fn stop(&mut self)
        requires
            old(self).well_formed(),
        ensures
            final(self).well_formed(),
            final(self).output_state() == AudioOutputState::Stopped,
            final(self).queue()@ == old(self).queue()@.cleared(),
            final(self).queue().configuration() == old(self).queue().configuration(),
            final(self).gain() == old(self).gain(),
    {
        self.state = AudioOutputState::Stopped;
        self.buffer.clear();
    }

    /// Sets the volume, brought into range.
    pub fn set_volume(&mut self, volume: u32)
        ensures
            final(self).gain() == normalized(volume),
            final(self).output_state() == old(self).output_state(),
            final(self).queue() == old(self).queue(),
    {
        self.volume = normalize_volume(volume);
    }

    pub fn volume(&self) -> (volume: u32)
        ensures
            volume == self.gain(),
    {
        self.volume
    }

    pub fn set_playback_rate<D: Fn(u64, u64) -> u64>(&mut self, rate: u64, distance: &D)
        requires
            old(self).well_formed(),
            is_distance(*distance),
        ensures
            final(self).well_formed(),
            final(self).output_state() == old(self).output_state(),
            final(self).gain() == old(self).gain(),
            final(self).queue().configuration() == old(self).queue().configuration(),
            final(self).queue()@ == if changes_rate(
                *distance,
                old(self).queue()@.playback_rate,
                rate,
            ) {
                cut_to_front(
                    RingView {
                        playback_rate: normalized_rate(rate),
                        tempo: None,
                        ..old(self).queue()@
                    },
                    bridge_frames(old(self).queue()@),
                )
            } else {
                old(self).queue()@
            },
    {
        self.buffer.set_playback_rate(rate, distance);
    }

    pub fn push<
        D: Fn(u64, u64) -> u64,
        T: FnOnce(bool, Vec<u32>, usize) -> Vec<u32>,
        F: Fn(Duration, usize, u32, u64) -> Duration,
    >(&mut self, frame: PcmAudioFrame, distance: &D, transform: T, offset: &F) -> (result:
        Result<AudioPushResult, AudioError>)
        requires
            old(self).well_formed(),
            is_media_offset(*offset),
            forall|fresh: bool, samples: Vec<u32>, frames: usize| #[trigger]
                transform.requires((fresh, samples, frames)),
            is_distance(*distance),
            is_unit_rate(*distance, old(self).queue()@.playback_rate) ==> counts_fit(
                old(self).queue()@,
                frame.samples@.len(),
            ),
            !is_unit_rate(*distance, old(self).queue()@.playback_rate) ==> counts_fit(old(self).queue()@, 0) && forall|
                fresh: bool,
                samples: Vec<u32>,
                frames: usize,
                stretched: Vec<u32>,
            |
                #[trigger] transform.ensures((fresh, samples, frames), stretched) ==> counts_fit(
                    old(self).queue()@,
                    stretched@.len(),
                ),
        ensures
            final(self).well_formed(),
            final(self).output_state() == old(self).output_state(),
            final(self).gain() == old(self).gain(),
            final(self).queue().configuration() == old(self).queue().configuration(),
            result is Err <==> {
                ||| old(self).queue()@.format is Some && old(self).queue()@.format != Some(
                    frame.format,
                )
                ||| old(self).queue()@.format is None && frame.format.channels == 0
            },
            result matches Err(error) ==> {
                &&& final(self).queue()@ == old(self).queue()@
                &&& error == match old(self).queue()@.format {
                    Some(format) => AudioError::FormatChanged {
                        expected: format,
                        actual: frame.format,
                    },
                    None => AudioError::InvalidChannelCount,
                }
            },
            result matches Ok(result) ==> push_outcome(
                old(self).queue()@,
                old(self).queue().configuration(),
                frame,
                *distance,
                transform,
                *offset,
                final(self).queue()@,
                result,
            ),
    {
        self.buffer.push_frame(frame, distance, transform, offset)
    }

    pub fn state(&self) -> (state: AudioOutputState)
        ensures
            state == self.output_state(),
    {
        self.state
    }

    pub fn stats(&self) -> (stats: AudioRingBufferStats)
        requires
            self.well_formed(),
        ensures
            stats.queued_frames == self.queue()@.queued_frames(),
            stats.queued_samples == self.queue()@.samples.len(),
            stats.written_frames == self.queue()@.written_frames,
            stats.read_frames == self.queue()@.read_frames,
            stats.dropped_frames == self.queue()@.dropped_frames,
            stats.underflow_frames == self.queue()@.underflow_frames,
    {
        self.buffer.stats()
    }
}

} // verus!
