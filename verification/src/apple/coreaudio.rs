//! The CoreAudio output: its configuration, errors and state.

use crate::audio::ring::{after_read, read_samples, readable_frames, AudioRingBuffer};
use crate::audio::timeline::is_media_offset;
use crate::audio::volume::{
    apply_volume_ramp, is_multiply, is_ramp, normalize_volume, normalized, ramp_frames,
    ramped_sample, reached_gain, FULL_VOLUME,
};
use crate::audio::{AudioError, AudioOutputState, AudioRingBufferConfig};
use crate::pcm::PcmFormat;
use crate::time::Duration;
use vstd::prelude::*;

verus! {

#[derive(Debug, PartialEq, Eq)]
pub enum CoreAudioOutputError {
    Audio(AudioError),
    /// The platform's description of what went wrong.
    CoreAudio(String),
    NotConfigured,
    LockPoisoned,
}

#[derive(Debug, Clone, Copy, PartialEq, Eq, Structural)]
pub struct CoreAudioOutputConfig {
    pub ring_buffer: AudioRingBufferConfig,
}

impl Default for CoreAudioOutputConfig {
    fn default() -> (config: Self)
        ensures
            config.ring_buffer.capacity_frames == 192_000,
            config.ring_buffer.drop_oldest_on_overflow,
    {
        CoreAudioOutputConfig {
            ring_buffer: AudioRingBufferConfig {
                capacity_frames: 192_000,
                drop_oldest_on_overflow: true,
            },
        }
    }
}

/// A stream of packed 32-bit floating point frames.
#[derive(Debug, Clone, Copy, PartialEq, Eq, Structural)]
pub struct CoreAudioStreamFormat {
    pub sample_rate: u32,
    pub channels: u32,
}

pub fn coreaudio_stream_format(format: PcmFormat) -> (stream: CoreAudioStreamFormat)
    ensures
        stream.sample_rate == format.sample_rate,
        stream.channels == format.channels,
{
    CoreAudioStreamFormat { sample_rate: format.sample_rate, channels: format.channels }
}

/// What a render callback has come to.
#[derive(Debug, Clone, Copy, PartialEq, Eq, Structural)]
pub struct RenderedBuffer {
    /// The gain that the next callback ramps from.
    pub reached: u32,
    /// The unit is told that the buffer holds silence.
    pub silence: bool,
}

/// Fills the buffer of a render callback from the queue, ramping the volume from
/// the gain that the callback before ended on. A buffer that the queue could not
/// fill is marked as silence. Without a format there is nothing to read, and the
/// callback fails with the buffer as it was.
pub fn render_buffer<
    F: Fn(Duration, usize, u32, u64) -> Duration,
    R: Fn(u32, u32, usize, usize) -> u32,
    M: Fn(u32, u32) -> u32,
>(
    ring: &mut AudioRingBuffer,
    samples: &mut [u32],
    channels: usize,
    from: u32,
    to: u32,
    offset: &F,
    ramp: &R,
    multiply: &M,
) -> (rendered: Option<RenderedBuffer>)
    requires
        old(ring).well_formed(),
        is_media_offset(*offset),
        is_ramp(*ramp),
        is_multiply(*multiply),
        old(ring)@.read_frames + old(samples)@.len() <= u64::MAX,
        old(ring)@.underflow_frames + old(samples)@.len() <= u64::MAX,
    ensures
        final(ring).well_formed(),
        final(ring).configuration() == old(ring).configuration(),
        rendered is None <==> old(ring)@.format is None,
        rendered is None ==> final(ring)@ == old(ring)@ && final(samples)@ == old(samples)@,
        rendered matches Some(rendered) ==> {
            let len = old(samples)@.len();
            let requested = len / old(ring)@.channels();
            let audible = readable_frames(old(ring)@, requested);
            &&& final(ring)@ == after_read(old(ring)@, requested, *offset)
            &&& rendered.silence <==> audible < requested
            &&& rendered.reached == reached_gain(
                *ramp,
                ramp_frames(len, channels),
                from,
                to,
                audible as usize,
            )
            &&& final(samples)@ == Seq::new(
                len,
                |i: int|
                    ramped_sample(
                        *ramp,
                        *multiply,
                        read_samples(old(ring)@, len),
                        i,
                        channels,
                        from,
                        to,
                        audible as usize,
                    ),
            )
        },
{
    match ring.read_interleaved(samples, offset) {
        Ok(read) => {
            let reached: u32 = apply_volume_ramp(
                samples,
                channels,
                from,
                to,
                read.frames,
                ramp,
                multiply,
            );
            Some(RenderedBuffer { reached, silence: read.underflow_frames > 0 })
        },
        Err(_) => None,
    }
}

/// The state of an output on an audio unit.
#[derive(Debug, Clone, Copy, PartialEq, Eq, Structural)]
pub struct CoreAudioOutput {
    pub state: AudioOutputState,
    pub has_unit: bool,
    pub volume: u32,
}

impl CoreAudioOutput {
    pub fn new() -> (control: Self)
        ensures
            control == (CoreAudioOutput {
                state: AudioOutputState::Stopped,
                has_unit: false,
                volume: FULL_VOLUME,
            }),
    {
        CoreAudioOutput {
            state: AudioOutputState::Stopped,
            has_unit: false,
            volume: FULL_VOLUME,
        }
    }

    /// Sets the volume, brought into range. A callback ramps towards it.
    pub fn set_volume(&mut self, volume: u32)
        ensures
            *final(self) == (CoreAudioOutput { volume: normalized(volume), ..*old(self) }),
    {
        self.volume = normalize_volume(volume);
    }

    pub fn volume(&self) -> (volume: u32)
        ensures
            volume == self.volume,
    {
        self.volume
    }

    /// A new unit is ready.
    pub fn configured(&mut self)
        ensures
            *final(self) == (CoreAudioOutput { has_unit: true, ..*old(self) }),
    {
        self.has_unit = true;
    }

    /// The unit was asked to start; `failure` is what it answered otherwise.
    pub fn started(&mut self, failure: Option<String>) -> (result: Result<
        (),
        CoreAudioOutputError,
    >)
        ensures
            result == if !old(self).has_unit {
                Err::<(), CoreAudioOutputError>(CoreAudioOutputError::NotConfigured)
            } else {
                match failure {
                    Some(failure) => Err(CoreAudioOutputError::CoreAudio(failure)),
                    None => Ok(()),
                }
            },
            *final(self) == if result is Ok {
                CoreAudioOutput { state: AudioOutputState::Playing, ..*old(self) }
            } else {
                *old(self)
            },
    {
        if !self.has_unit {
            return Err(CoreAudioOutputError::NotConfigured);
        }
        match failure {
            Some(failure) => Err(CoreAudioOutputError::CoreAudio(failure)),
            None => {
                self.state = AudioOutputState::Playing;
                Ok(())
            },
        }
    }

    /// The unit, if any, was asked to stop so that the output is left in
    /// `state`; `failure` is what it answered otherwise.
    pub fn halted(&mut self, state: AudioOutputState, failure: Option<String>) -> (result: Result<
        (),
        CoreAudioOutputError,
    >)
        ensures
            result == match failure {
                Some(failure) if old(self).has_unit => Err::<(), CoreAudioOutputError>(
                    CoreAudioOutputError::CoreAudio(failure),
                ),
                _ => Ok(()),
            },
            *final(self) == if result is Ok {
                CoreAudioOutput { state, ..*old(self) }
            } else {
                *old(self)
            },
    {
        if self.has_unit {
            if let Some(failure) = failure {
                return Err(CoreAudioOutputError::CoreAudio(failure));
            }
        }
        self.state = state;
        Ok(())
    }
}

} // verus!
