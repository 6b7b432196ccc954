//! The AAudio output: formats, result codes and errors.

use crate::audio::{AudioError, AudioRingBufferConfig};
use crate::pcm::PcmFormat;
use vstd::prelude::*;

verus! {

pub const AAUDIO_OK: i32 = 0;

pub const AAUDIO_ERROR_DISCONNECTED: i32 = -899;

pub const AAUDIO_DIRECTION_OUTPUT: i32 = 0;

pub const AAUDIO_FORMAT_PCM_FLOAT: i32 = 2;

pub const AAUDIO_SHARING_MODE_SHARED: i32 = 1;

pub const AAUDIO_PERFORMANCE_MODE_LOW_LATENCY: i32 = 12;

#[derive(Debug, PartialEq, Eq)]
pub enum AAudioOutputError {
    Audio(AudioError),
    NotConfigured,
    LockPoisoned,
    InvalidFormat { sample_rate: u32, channels: u32 },
    InvalidRingCapacity { capacity_frames: usize, channels: usize },
    AAudio { operation: &'static str, result: i32, message: String },
    FormatNegotiation {
        requested_sample_rate: u32,
        requested_channels: u32,
        actual_sample_rate: i32,
        actual_channels: i32,
    },
}

#[derive(Debug, Clone, Copy, PartialEq, Eq, Structural)]
pub struct AAudioOutputConfig {
    pub ring_buffer: AudioRingBufferConfig,
}

impl Default for AAudioOutputConfig {
    fn default() -> (config: Self)
        ensures
            config.ring_buffer.capacity_frames == 192_000,
            config.ring_buffer.drop_oldest_on_overflow,
    {
        AAudioOutputConfig {
            ring_buffer: AudioRingBufferConfig {
                capacity_frames: 192_000,
                drop_oldest_on_overflow: true,
            },
        }
    }
}

/// The stream interface takes signed, positive rates and channel counts.
pub open spec fn is_supported(format: PcmFormat) -> bool {
    0 < format.sample_rate <= i32::MAX && 0 < format.channels <= i32::MAX
}

pub fn validate_format(format: PcmFormat) -> (result: Result<(), AAudioOutputError>)
    ensures
        result is Ok <==> is_supported(format),
        result matches Err(error) ==> error == (AAudioOutputError::InvalidFormat {
            sample_rate: format.sample_rate,
            channels: format.channels,
        }),
{
    if format.sample_rate == 0 || format.sample_rate > i32::MAX as u32 || format.channels == 0
        || format.channels > i32::MAX as u32 {
        return Err(
            AAudioOutputError::InvalidFormat {
                sample_rate: format.sample_rate,
                channels: format.channels,
            },
        );
    }
    Ok(())
}

/// Turns a result code into an error unless it is the code of success.
/// `message` is the platform's text for the code.
pub fn check_result(result: i32, operation: &'static str, message: String) -> (checked: Result<
    (),
    AAudioOutputError,
>)
    ensures
        checked is Ok <==> result == AAUDIO_OK,
        checked matches Err(error) ==> error == (AAudioOutputError::AAudio {
            operation,
            result,
            message,
        }),
{
    if result == AAUDIO_OK {
        return Ok(());
    }
    Err(AAudioOutputError::AAudio { operation, result, message })
}

/// The platform's result code behind an error, if it came from the platform.
pub open spec fn result_code_of(error: AAudioOutputError) -> Option<i32> {
    match error {
        AAudioOutputError::AAudio { result, .. } => Some(result),
        _ => None,
    }
}

pub fn error_result_code(error: &AAudioOutputError) -> (code: Option<i32>)
    ensures
        code == result_code_of(*error),
{
    match error {
        AAudioOutputError::AAudio { result, .. } => Some(*result),
        _ => None,
    }
}

/// Whether an error says that the device is gone, which a stream that is
/// being paused or closed takes in its stride.
pub fn is_disconnected_error(error: &AAudioOutputError) -> (disconnected: bool)
    ensures
        disconnected <==> result_code_of(*error) == Some(AAUDIO_ERROR_DISCONNECTED),
        disconnected <==> (error matches AAudioOutputError::AAudio { result, .. } && result
            == -899),
{
    match error {
        AAudioOutputError::AAudio { result, .. } => *result == AAUDIO_ERROR_DISCONNECTED,
        _ => false,
    }
}

/// What remains of the result of asking a stream to stop while it is closed:
/// a device that is gone needs no stopping.
pub fn close_result(result: Result<(), AAudioOutputError>) -> (closed: Result<
    (),
    AAudioOutputError,
>)
    ensures
        closed == match result {
            Err(error) if result_code_of(error) != Some(AAUDIO_ERROR_DISCONNECTED) => Err(error),
            _ => Ok(()),
        },
{
    match result {
        Ok(()) => Ok(()),
        Err(error) => if is_disconnected_error(&error) {
            Ok(())
        } else {
            Err(error)
        },
    }
}

/// What a stream is asked for.
#[derive(Debug, Clone, Copy, PartialEq, Eq, Structural)]
pub struct StreamSettings {
    pub direction: i32,
    pub format: i32,
    pub sample_rate: i32,
    pub channels: i32,
    pub sharing_mode: i32,
    pub performance_mode: i32,
}

/// A shared, low latency output of floating point samples.
pub fn stream_settings(format: PcmFormat) -> (settings: StreamSettings)
    requires
        is_supported(format),
    ensures
        settings.direction == AAUDIO_DIRECTION_OUTPUT,
        settings.format == AAUDIO_FORMAT_PCM_FLOAT,
        settings.sample_rate == format.sample_rate,
        settings.channels == format.channels,
        settings.sharing_mode == AAUDIO_SHARING_MODE_SHARED,
        settings.performance_mode == AAUDIO_PERFORMANCE_MODE_LOW_LATENCY,
        settings.direction == 0,
        settings.format == 2,
        settings.sharing_mode == 1,
        settings.performance_mode == 12,
{
    StreamSettings {
        direction: AAUDIO_DIRECTION_OUTPUT,
        format: AAUDIO_FORMAT_PCM_FLOAT,
        sample_rate: format.sample_rate as i32,
        channels: format.channels as i32,
        sharing_mode: AAUDIO_SHARING_MODE_SHARED,
        performance_mode: AAUDIO_PERFORMANCE_MODE_LOW_LATENCY,
    }
}

/// A call that hands out an object on the way to a stream.
#[derive(Debug, Clone, Copy, PartialEq, Eq, Structural)]
pub enum OpenStep {
    CreateBuilder,
    OpenStream,
}

impl OpenStep {
    /// The call's name in errors.
    pub open spec fn name(self) -> Seq<char> {
        match self {
            OpenStep::CreateBuilder => "createStreamBuilder"@,
            OpenStep::OpenStream => "openStream"@,
        }
    }

    pub fn operation(self) -> (name: &'static str)
        ensures
            name@ == self.name(),
    {
        match self {
            OpenStep::CreateBuilder => "createStreamBuilder",
            OpenStep::OpenStream => "openStream",
        }
    }

    /// Whether the call lets opening go on: it succeeded and handed out its object.
    pub fn answered(self, result: i32, handed_out: bool, message: String) -> (checked: Result<
        (),
        AAudioOutputError,
    >)
        ensures
            checked is Ok <==> result == AAUDIO_OK && handed_out,
            checked matches Err(error) ==> if result != AAUDIO_OK {
                error matches AAudioOutputError::AAudio { operation, result: code, message: text }
                    && operation@ == self.name() && code == result && text == message
            } else {
                error == AAudioOutputError::NotConfigured
            },
    {
        match check_result(result, self.operation(), message) {
            Ok(()) => {
                if handed_out {
                    Ok(())
                } else {
                    Err(AAudioOutputError::NotConfigured)
                }
            },
            Err(error) => Err(error),
        }
    }
}

/// Holds the stream that was opened against the one that was asked for.
pub fn check_negotiated_format(
    format: PcmFormat,
    actual_format: i32,
    actual_sample_rate: i32,
    actual_channels: i32,
) -> (result: Result<(), AAudioOutputError>)
    requires
        is_supported(format),
    ensures
        result is Ok <==> actual_format == AAUDIO_FORMAT_PCM_FLOAT && actual_sample_rate
            == format.sample_rate && actual_channels == format.channels,
        result matches Err(error) ==> error == (AAudioOutputError::FormatNegotiation {
            requested_sample_rate: format.sample_rate,
            requested_channels: format.channels,
            actual_sample_rate,
            actual_channels,
        }),
{
    if actual_format != AAUDIO_FORMAT_PCM_FLOAT || actual_sample_rate != format.sample_rate as i32
        || actual_channels != format.channels as i32 {
        return Err(
            AAudioOutputError::FormatNegotiation {
                requested_sample_rate: format.sample_rate,
                requested_channels: format.channels,
                actual_sample_rate,
                actual_channels,
            },
        );
    }
    Ok(())
}

/// The samples that `frames` prepared frames take up in a device queue.
pub fn queued_sample_count(frames: usize, channels: usize) -> (count: Result<
    usize,
    AAudioOutputError,
>)
    ensures
        match count {
            Ok(count) => count == frames * channels,
            Err(error) => frames * channels > usize::MAX && error == (
            AAudioOutputError::InvalidRingCapacity { capacity_frames: frames, channels }),
        },
{
    match frames.checked_mul(channels) {
        Some(count) => Ok(count),
        None => Err(AAudioOutputError::InvalidRingCapacity { capacity_frames: frames, channels }),
    }
}

/// How many samples a data callback is to write, or `None` where it is to stop
/// the stream.
pub fn callback_sample_count(num_frames: i32, channels: usize) -> (count: Option<usize>)
    ensures
        match count {
            Some(count) => num_frames > 0 && count == num_frames * channels,
            None => num_frames <= 0 || num_frames * channels > usize::MAX,
        },
{
    if num_frames <= 0 {
        return None;
    }
    (num_frames as usize).checked_mul(channels)
}

/// A stream needs a sample rate and a channel, each no larger than the platform can
/// be told.
pub proof fn lemma_formats_fit_the_platform(format: PcmFormat)
    ensures
        is_supported(format) <==> 1 <= format.sample_rate <= 0x7fff_ffff && 1 <= format.channels
            <= 0x7fff_ffff,
{
}

/// Of all errors only those of the platform have a result code, their own.
pub proof fn lemma_platform_errors_have_codes(error: AAudioOutputError)
    ensures
        error is AAudio <==> result_code_of(error) is Some,
        error matches AAudioOutputError::AAudio { result, .. } ==> result_code_of(error) == Some(
            result,
        ),
        OpenStep::CreateBuilder.name() == "createStreamBuilder"@,
        OpenStep::OpenStream.name() == "openStream"@,
{
}

} // verus!
