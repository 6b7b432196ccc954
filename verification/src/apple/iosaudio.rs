//! The AudioQueue output: buffer sizes, status codes and the queue's life.

use crate::audio::{AudioError, AudioOutputState, AudioRingBufferConfig};
use crate::audio::volume::{normalize_volume, normalized, FULL_VOLUME};
use crate::pcm::PcmFormat;
use crate::time::{capped, Duration};
use vstd::prelude::*;

verus! {

pub const NO_ERR: i32 = 0;

/// How many buffers a queue keeps in flight.
pub const BUFFER_COUNT: usize = 3;

/// How much audio one buffer holds, in milliseconds.
pub const BUFFER_MILLIS: u32 = 20;

pub const K_AUDIO_FORMAT_LINEAR_PCM: u32 = 0x6c70_636d;

/// Packed floating point samples.
pub const K_AUDIO_FORMAT_FLAGS_PACKED_FLOAT: u32 = 0b1001;

#[derive(Debug, PartialEq, Eq)]
pub enum IosAudioQueueOutputError {
    Audio(AudioError),
    AudioQueue { operation: &'static str, status: i32 },
    NotConfigured,
    LockPoisoned,
}

#[derive(Debug, Clone, Copy, PartialEq, Eq, Structural)]
pub struct IosAudioQueueOutputConfig {
    pub ring_buffer: AudioRingBufferConfig,
}

impl Default for IosAudioQueueOutputConfig {
    fn default() -> (config: Self)
        ensures
            config.ring_buffer.capacity_frames == 192_000,
            config.ring_buffer.drop_oldest_on_overflow,
    {
        IosAudioQueueOutputConfig {
            ring_buffer: AudioRingBufferConfig {
                capacity_frames: 192_000,
                drop_oldest_on_overflow: true,
            },
        }
    }
}

/// A linear PCM stream as the queue wants it described.
#[derive(Debug, Clone, Copy, PartialEq, Eq, Structural)]
pub struct StreamDescription {
    pub sample_rate: u32,
    pub format_id: u32,
    pub format_flags: u32,
    pub bytes_per_packet: u32,
    pub frames_per_packet: u32,
    pub bytes_per_frame: u32,
    pub channels_per_frame: u32,
    pub bits_per_channel: u32,
}

/// A count, and one where it is zero.
pub open spec fn at_least_one(count: u32) -> u32 {
    if count == 0 {
        1
    } else {
        count
    }
}

/// Describes a stream of interleaved 32-bit floating point frames.
pub fn audio_stream_description(format: PcmFormat) -> (description: StreamDescription)
    requires
        format.channels * 4 <= u32::MAX,
    ensures
        description == (StreamDescription {
            sample_rate: at_least_one(format.sample_rate),
            format_id: K_AUDIO_FORMAT_LINEAR_PCM,
            format_flags: K_AUDIO_FORMAT_FLAGS_PACKED_FLOAT,
            bytes_per_packet: (at_least_one(format.channels) * 4) as u32,
            frames_per_packet: 1,
            bytes_per_frame: (at_least_one(format.channels) * 4) as u32,
            channels_per_frame: at_least_one(format.channels),
            bits_per_channel: 32,
        }),
        description.format_id == 0x6c70_636d,
        description.format_flags == 9,
        format.channels > 0 ==> description.channels_per_frame == format.channels,
        format.channels > 0 ==> description.bytes_per_frame == 4 * format.channels,
        format.channels > 0 ==> description.bytes_per_packet == 4 * format.channels,
        format.sample_rate > 0 ==> description.sample_rate == format.sample_rate,
{
    let channels: u32 = if format.channels == 0 {
        1
    } else {
        format.channels
    };
    let bytes_per_frame: u32 = channels * 4;
    StreamDescription {
        sample_rate: if format.sample_rate == 0 {
            1
        } else {
            format.sample_rate
        },
        format_id: K_AUDIO_FORMAT_LINEAR_PCM,
        format_flags: K_AUDIO_FORMAT_FLAGS_PACKED_FLOAT,
        bytes_per_packet: bytes_per_frame,
        frames_per_packet: 1,
        bytes_per_frame,
        channels_per_frame: channels,
        bits_per_channel: 32,
    }
}

/// The frames of one buffer: twenty milliseconds, kept within bounds.
pub open spec fn buffer_frames(format: PcmFormat) -> nat {
    let frames = at_least_one(format.sample_rate) as nat * BUFFER_MILLIS as nat / 1_000;
    if frames < 256 {
        256
    } else if frames > 4_096 {
        4_096
    } else {
        frames
    }
}

pub fn audio_queue_buffer_frames(format: PcmFormat) -> (frames: usize)
    ensures
        frames == buffer_frames(format),
        256 <= frames <= 4_096,
{
    let sample_rate: u64 = if format.sample_rate == 0 {
        1
    } else {
        format.sample_rate as u64
    };
    let frames: u64 = sample_rate * BUFFER_MILLIS as u64 / 1_000;
    if frames < 256 {
        256
    } else if frames > 4_096 {
        4_096
    } else {
        frames as usize
    }
}

/// The bytes of one buffer, capped at what the queue can be asked for.
pub fn audio_queue_buffer_size(format: PcmFormat) -> (bytes: u32)
    ensures
        bytes == if buffer_frames(format) * at_least_one(format.channels) * 4 <= u32::MAX {
            buffer_frames(format) * at_least_one(format.channels) * 4
        } else {
            u32::MAX as int
        },
{
    let channels: u64 = if format.channels == 0 {
        1
    } else {
        format.channels as u64
    };
    let frames: u64 = audio_queue_buffer_frames(format) as u64;
    assert(frames * channels <= 4_096 * 0xffff_ffff) by (nonlinear_arith)
        requires
            frames <= 4_096,
            channels <= 0xffff_ffff,
    ;
    let bytes: u64 = frames * channels * 4;
    if bytes <= u32::MAX as u64 {
        bytes as u32
    } else {
        u32::MAX
    }
}

/// Turns a status into an error unless it is the status of success.
pub fn check_status(status: i32, operation: &'static str) -> (checked: Result<
    (),
    IosAudioQueueOutputError,
>)
    ensures
        checked is Ok <==> status == NO_ERR,
        checked matches Err(error) ==> error == (IosAudioQueueOutputError::AudioQueue {
            operation,
            status,
        }),
{
    if status == NO_ERR {
        Ok(())
    } else {
        Err(IosAudioQueueOutputError::AudioQueue { operation, status })
    }
}

/// The buffers that the platform holds and has not played yet.
#[derive(Debug, Clone, Copy, PartialEq, Eq, Structural)]
pub struct InFlightBuffers {
    pub count: u32,
    pub buffer_duration: Duration,
}

impl InFlightBuffers {
    pub fn new(buffer_duration: Duration) -> (buffers: Self)
        ensures
            buffers.count == 0,
            buffers.buffer_duration == buffer_duration,
    {
        InFlightBuffers { count: 0, buffer_duration }
    }

    /// A buffer is handed to the platform.
    pub fn enqueued(&mut self)
        requires
            old(self).count < u32::MAX,
        ensures
            final(self).count == old(self).count + 1,
            final(self).buffer_duration == old(self).buffer_duration,
    {
        self.count = self.count + 1;
    }

    /// A buffer came back from the platform, or was refused by it. There is
    /// never less than none in flight.
    pub fn returned(&mut self)
        ensures
            final(self).count == if old(self).count == 0 {
                0
            } else {
                old(self).count - 1
            },
            final(self).buffer_duration == old(self).buffer_duration,
    {
        if self.count > 0 {
            self.count = self.count - 1;
        }
    }

    /// How long the buffers in flight play.
    pub fn queued_output_duration(&self) -> (duration: Duration)
        ensures
            duration@ == capped(self.buffer_duration@ * self.count as nat),
    {
        self.buffer_duration.saturating_mul(self.count)
    }
}

/// The life of an audio queue: its state, its format and its buffers.
#[derive(Debug, Clone, Copy, PartialEq, Eq, Structural)]
pub struct IosAudioQueueOutput {
    pub state: AudioOutputState,
    pub format: Option<PcmFormat>,
    pub has_queue: bool,
    pub buffers: usize,
    pub volume: u32,
}

impl IosAudioQueueOutput {
    pub fn new() -> (control: Self)
        ensures
            control == (IosAudioQueueOutput {
                state: AudioOutputState::Stopped,
                format: None,
                has_queue: false,
                buffers: 0,
                volume: FULL_VOLUME,
            }),
    {
        IosAudioQueueOutput {
            state: AudioOutputState::Stopped,
            format: None,
            has_queue: false,
            buffers: 0,
            volume: FULL_VOLUME,
        }
    }

    /// Sets the volume, brought into range. A callback ramps towards it.
    pub fn set_volume(&mut self, volume: u32)
        ensures
            *final(self) == (IosAudioQueueOutput { volume: normalized(volume), ..*old(self) }),
    {
        self.volume = normalize_volume(volume);
    }

    pub fn volume(&self) -> (volume: u32)
        ensures
            volume == self.volume,
    {
        self.volume
    }

    /// The queue was disposed of, with this status. It is gone either way.
    pub fn disposed(&mut self, status: i32) -> (result: Result<(), IosAudioQueueOutputError>)
        ensures
            *final(self) == (IosAudioQueueOutput { has_queue: false, buffers: 0, ..*old(self) }),
            result is Ok <==> status == NO_ERR,
            result matches Err(error) ==> error == (IosAudioQueueOutputError::AudioQueue {
                operation: "AudioQueueDispose",
                status,
            }),
    {
        self.has_queue = false;
        self.buffers = 0;
        check_status(status, "AudioQueueDispose")
    }

    /// A queue was created, with this status; `present` says that there is
    /// one.
    pub fn created(&self, status: i32, present: bool) -> (result: Result<
        (),
        IosAudioQueueOutputError,
    >)
        ensures
            match result {
                Ok(()) => status == NO_ERR && present,
                Err(error) => if status != NO_ERR {
                    error == (IosAudioQueueOutputError::AudioQueue {
                        operation: "AudioQueueNewOutput",
                        status,
                    })
                } else {
                    !present && error == IosAudioQueueOutputError::NotConfigured
                },
            },
    {
        match check_status(status, "AudioQueueNewOutput") {
            Ok(()) => if present {
                Ok(())
            } else {
                Err(IosAudioQueueOutputError::NotConfigured)
            },
            Err(error) => Err(error),
        }
    }

    /// Takes over a new queue with all its buffers. The allocations' statuses
    /// are given in order; the first that failed decides.
    pub fn configured(&mut self, format: PcmFormat, allocations: &[i32]) -> (result: Result<
        (),
        IosAudioQueueOutputError,
    >)
        ensures
            result is Ok <==> forall|i: int|
                0 <= i < allocations@.len() ==> allocations@[i] == NO_ERR,
            result is Ok ==> *final(self) == (IosAudioQueueOutput {
                state: AudioOutputState::Stopped,
                format: Some(format),
                has_queue: true,
                buffers: allocations@.len() as usize,
                ..*old(self)
            }),
            result matches Err(error) ==> *final(self) == *old(self) && exists|i: int|
                0 <= i < allocations@.len() && allocations@[i] != NO_ERR && error == (
                IosAudioQueueOutputError::AudioQueue {
                    operation: "AudioQueueAllocateBuffer",
                    status: #[trigger] allocations@[i],
                }) && forall|j: int| 0 <= j < i ==> allocations@[j] == NO_ERR,
    {
        let mut index: usize = 0;
        while index < allocations.len()
            invariant
                index <= allocations@.len(),
                *self == *old(self),
                forall|i: int| 0 <= i < index ==> allocations@[i] == NO_ERR,
            decreases allocations@.len() - index,
        {
            match check_status(allocations[index], "AudioQueueAllocateBuffer") {
                Ok(()) => {},
                Err(error) => {
                    return Err(error);
                },
            }
            index = index + 1;
        }
        self.has_queue = true;
        self.buffers = allocations.len();
        self.format = Some(format);
        self.state = AudioOutputState::Stopped;
        Ok(())
    }

    /// How many buffers to fill before the queue is started: all of them,
    /// unless it goes on after a pause.
    pub fn buffers_to_fill(&self) -> (buffers: Result<usize, IosAudioQueueOutputError>)
        ensures
            match buffers {
                Ok(buffers) => self.has_queue && buffers == if self.state
                    == AudioOutputState::Paused {
                    0
                } else {
                    self.buffers
                },
                Err(error) => !self.has_queue && error == IosAudioQueueOutputError::NotConfigured,
            },
    {
        if !self.has_queue {
            return Err(IosAudioQueueOutputError::NotConfigured);
        }
        if self.state == AudioOutputState::Paused {
            Ok(0)
        } else {
            Ok(self.buffers)
        }
    }

    /// The queue was asked to start, with this status.
    pub fn started(&mut self, status: i32) -> (result: Result<(), IosAudioQueueOutputError>)
        ensures
            result is Ok <==> status == NO_ERR,
            result is Ok ==> *final(self) == (IosAudioQueueOutput {
                state: AudioOutputState::Playing,
                ..*old(self)
            }),
            result matches Err(error) ==> *final(self) == *old(self) && error == (
            IosAudioQueueOutputError::AudioQueue { operation: "AudioQueueStart", status }),
    {
        match check_status(status, "AudioQueueStart") {
            Ok(()) => {
                self.state = AudioOutputState::Playing;
                Ok(())
            },
            Err(error) => Err(error),
        }
    }

    /// The queue was asked to pause, with this status; without a queue there
    /// is nothing to ask.
    pub fn paused(&mut self, status: i32) -> (result: Result<(), IosAudioQueueOutputError>)
        ensures
            result is Ok <==> !old(self).has_queue || status == NO_ERR,
            result is Ok ==> *final(self) == (IosAudioQueueOutput {
                state: AudioOutputState::Paused,
                ..*old(self)
            }),
            result matches Err(error) ==> *final(self) == *old(self) && error == (
            IosAudioQueueOutputError::AudioQueue { operation: "AudioQueuePause", status }),
    {
        if self.has_queue {
            match check_status(status, "AudioQueuePause") {
                Ok(()) => {},
                Err(error) => {
                    return Err(error);
                },
            }
        }
        self.state = AudioOutputState::Paused;
        Ok(())
    }

    /// The queue is gone and the output stopped.
    pub fn stopped(&mut self)
        ensures
            *final(self) == (IosAudioQueueOutput {
                state: AudioOutputState::Stopped,
                format: None,
                ..*old(self)
            }),
    {
        self.format = None;
        self.state = AudioOutputState::Stopped;
    }
}

/// A buffer holds twenty milliseconds of audio, to within a frame, unless that is
/// below the least or above the most that a buffer may hold.
pub proof fn lemma_buffer_holds_twenty_milliseconds(format: PcmFormat)
    ensures
        format.sample_rate < 12_800 ==> buffer_frames(format) == 256,
        12_800 <= format.sample_rate < 204_850 ==> 50 * buffer_frames(format) <= format.sample_rate
            < 50 * buffer_frames(format) + 50,
        format.sample_rate >= 204_850 ==> buffer_frames(format) == 4_096,
{
}

/// A count of zero stands for one, and any other for itself.
pub proof fn lemma_zero_counts_as_one(count: u32)
    ensures
        at_least_one(0) == 1,
        count > 0 ==> at_least_one(count) == count,
{
}

} // verus!
