//! The OHAudio output: formats, result codes, errors, and how a stream is
//! opened.

use crate::audio::{AudioError, AudioRingBufferConfig};
use crate::pcm::PcmFormat;
use vstd::prelude::*;

verus! {

pub const OHAUDIO_SUCCESS: i32 = 0;

pub const OHAUDIO_ERROR_INVALID_PARAMETER: i32 = 1;

pub const OHAUDIO_ERROR_ILLEGAL_STATE: i32 = 2;

pub const OHAUDIO_ERROR_SYSTEM: i32 = 3;

pub const OHAUDIO_ERROR_UNSUPPORTED_FORMAT: i32 = 4;

pub const OHAUDIO_STREAM_TYPE_RENDERER: i32 = 1;

pub const OHAUDIO_SAMPLE_F32LE: i32 = 4;

pub const OHAUDIO_ENCODING_RAW: i32 = 0;

pub const OHAUDIO_LATENCY_NORMAL: i32 = 0;

pub const OHAUDIO_USAGE_MUSIC: i32 = 1;

/// Bytes in one sample.
pub const SAMPLE_BYTES: usize = 4;

#[derive(Debug, PartialEq, Eq)]
pub enum OHAudioOutputError {
    Audio(AudioError),
    NotConfigured,
    LockPoisoned,
    InvalidFormat { sample_rate: u32, channels: u32 },
    InvalidRingCapacity { capacity_frames: usize, channels: usize },
    OHAudio { operation: &'static str, result: i32, message: String },
    FormatNegotiation {
        requested_sample_rate: u32,
        requested_channels: u32,
        actual_sample_rate: i32,
        actual_channels: i32,
    },
}

#[derive(Debug, Clone, Copy, PartialEq, Eq, Structural)]
pub struct OHAudioOutputConfig {
    pub ring_buffer: AudioRingBufferConfig,
}

impl Default for OHAudioOutputConfig {
    fn default() -> (config: Self)
        ensures
            config.ring_buffer.capacity_frames == 192_000,
            config.ring_buffer.drop_oldest_on_overflow,
    {
        OHAudioOutputConfig {
            ring_buffer: AudioRingBufferConfig {
                capacity_frames: 192_000,
                drop_oldest_on_overflow: true,
            },
        }
    }
}

/// The stream interface takes signed, positive rates and channel counts.
pub open spec fn is_supported(format: PcmFormat) -> bool {
    0 < format.sample_rate <= i32::MAX && 0 < format.channels <= i32::MAX
}

pub fn validate_format(format: PcmFormat) -> (result: Result<(), OHAudioOutputError>)
    ensures
        result is Ok <==> is_supported(format),
        result matches Err(error) ==> error == (OHAudioOutputError::InvalidFormat {
            sample_rate: format.sample_rate,
            channels: format.channels,
        }),
{
    if format.sample_rate == 0 || format.sample_rate > i32::MAX as u32 || format.channels == 0
        || format.channels > i32::MAX as u32 {
        return Err(
            OHAudioOutputError::InvalidFormat {
                sample_rate: format.sample_rate,
                channels: format.channels,
            },
        );
    }
    Ok(())
}

/// The text for a result code.
pub open spec fn text_of(result: i32) -> Seq<char> {
    if result == OHAUDIO_SUCCESS {
        "success"@
    } else if result == OHAUDIO_ERROR_INVALID_PARAMETER {
        "invalid parameter"@
    } else if result == OHAUDIO_ERROR_ILLEGAL_STATE {
        "illegal state"@
    } else if result == OHAUDIO_ERROR_SYSTEM {
        "system error"@
    } else if result == OHAUDIO_ERROR_UNSUPPORTED_FORMAT {
        "unsupported format"@
    } else {
        "unknown error"@
    }
}

pub fn result_text(result: i32) -> (text: String)
    ensures
        text@ == text_of(result),
{
    let text: &str = if result == OHAUDIO_SUCCESS {
        "success"
    } else if result == OHAUDIO_ERROR_INVALID_PARAMETER {
        "invalid parameter"
    } else if result == OHAUDIO_ERROR_ILLEGAL_STATE {
        "illegal state"
    } else if result == OHAUDIO_ERROR_SYSTEM {
        "system error"
    } else if result == OHAUDIO_ERROR_UNSUPPORTED_FORMAT {
        "unsupported format"
    } else {
        "unknown error"
    };
    text.to_owned()
}

/// Turns a result code into an error unless it is the code of success.
pub fn check_result(result: i32, operation: &'static str) -> (checked: Result<
    (),
    OHAudioOutputError,
>)
    ensures
        checked is Ok <==> result == OHAUDIO_SUCCESS,
        checked matches Err(error) ==> is_refusal(error, operation, result),
{
    if result == OHAUDIO_SUCCESS {
        return Ok(());
    }
    Err(OHAudioOutputError::OHAudio { operation, result, message: result_text(result) })
}

/// `error` says that `operation` ended with `result`.
pub open spec fn is_refusal(error: OHAudioOutputError, operation: &'static str, result: i32) -> bool {
    error matches OHAudioOutputError::OHAudio { operation: o, result: r, message: m } && o@
        == operation@ && r == result && m@ == text_of(result)
}

/// The platform's result code behind an error, if it came from the platform.
pub open spec fn result_code_of(error: OHAudioOutputError) -> Option<i32> {
    match error {
        OHAudioOutputError::OHAudio { result, .. } => Some(result),
        _ => None,
    }
}

/// The codes that say the device is gone.
pub open spec fn is_disconnected_code(code: Option<i32>) -> bool {
    code == Some(OHAUDIO_ERROR_ILLEGAL_STATE) || code == Some(OHAUDIO_ERROR_SYSTEM)
}

pub fn error_result_code(error: &OHAudioOutputError) -> (code: Option<i32>)
    ensures
        code == result_code_of(*error),
{
    match error {
        OHAudioOutputError::OHAudio { result, .. } => Some(*result),
        _ => None,
    }
}

/// Whether an error says that the device is gone, which a stream that is
/// being paused or closed takes in its stride.
pub fn is_disconnected_error(error: &OHAudioOutputError) -> (disconnected: bool)
    ensures
        disconnected <==> is_disconnected_code(result_code_of(*error)),
{
    match error {
        OHAudioOutputError::OHAudio { result, .. } => *result == OHAUDIO_ERROR_ILLEGAL_STATE
            || *result == OHAUDIO_ERROR_SYSTEM,
        _ => false,
    }
}

/// What remains of the result of asking a stream to stop while it is closed:
/// a device that is gone needs no stopping.
pub fn close_result(result: Result<(), OHAudioOutputError>) -> (closed: Result<
    (),
    OHAudioOutputError,
>)
    ensures
        closed == match result {
            Err(error) if !is_disconnected_code(result_code_of(error)) => Err(error),
            _ => Ok(()),
        },
{
    match result {
        Ok(()) => Ok(()),
        Err(error) => if is_disconnected_error(&error) {
            Ok(())
        } else {
            Err(error)
        },
    }
}

/// The samples that `frames` prepared frames take up in a device queue.
pub fn queued_sample_count(frames: usize, channels: usize) -> (count: Result<
    usize,
    OHAudioOutputError,
>)
    ensures
        match count {
            Ok(count) => count == frames * channels,
            Err(error) => frames * channels > usize::MAX && error == (
            OHAudioOutputError::InvalidRingCapacity { capacity_frames: frames, channels }),
        },
{
    match frames.checked_mul(channels) {
        Some(count) => Ok(count),
        None => Err(OHAudioOutputError::InvalidRingCapacity { capacity_frames: frames, channels }),
    }
}

/// How many samples a data callback is to write, or `None` where the request
/// is invalid: it must ask for whole frames.
pub fn callback_sample_count(audio_data_size: i32, channels: usize) -> (count: Option<usize>)
    requires
        channels > 0,
    ensures
        match count {
            Some(count) => audio_data_size > 0 && count == audio_data_size as int / 4 && count > 0
                && count % channels == 0,
            None => audio_data_size <= 0 || audio_data_size as int / 4 == 0 || (
            audio_data_size as int / 4) % channels as int != 0,
        },
{
    if audio_data_size <= 0 {
        return None;
    }
    let count: usize = audio_data_size as usize / SAMPLE_BYTES;
    if count == 0 || count % channels != 0 {
        return None;
    }
    Some(count)
}

/// The calls that open a stream, in order.
#[derive(Debug, Clone, Copy, PartialEq, Eq, Structural)]
pub enum OpenStep {
    CreateBuilder,
    SetSamplingRate,
    SetChannelCount,
    SetSampleFormat,
    SetEncodingType,
    SetLatencyMode,
    SetRendererInfo,
    SetRendererCallback,
    GenerateRenderer,
    GetSampleFormat,
    GetSamplingRate,
    GetChannelCount,
}

impl OpenStep {
    /// The place of the call, counted from zero.
    pub open spec fn position(self) -> nat {
        match self {
            OpenStep::CreateBuilder => 0,
            OpenStep::SetSamplingRate => 1,
            OpenStep::SetChannelCount => 2,
            OpenStep::SetSampleFormat => 3,
            OpenStep::SetEncodingType => 4,
            OpenStep::SetLatencyMode => 5,
            OpenStep::SetRendererInfo => 6,
            OpenStep::SetRendererCallback => 7,
            OpenStep::GenerateRenderer => 8,
            OpenStep::GetSampleFormat => 9,
            OpenStep::GetSamplingRate => 10,
            OpenStep::GetChannelCount => 11,
        }
    }

    /// The call's name in errors.
    pub open spec fn name(self) -> Seq<char> {
        match self {
            OpenStep::CreateBuilder => "createStreamBuilder"@,
            OpenStep::SetSamplingRate => "setSamplingRate"@,
            OpenStep::SetChannelCount => "setChannelCount"@,
            OpenStep::SetSampleFormat => "setSampleFormat"@,
            OpenStep::SetEncodingType => "setEncodingType"@,
            OpenStep::SetLatencyMode => "setLatencyMode"@,
            OpenStep::SetRendererInfo => "setRendererInfo"@,
            OpenStep::SetRendererCallback => "setRendererCallback"@,
            OpenStep::GenerateRenderer => "generateRenderer"@,
            OpenStep::GetSampleFormat => "getSampleFormat"@,
            OpenStep::GetSamplingRate => "getSamplingRate"@,
            OpenStep::GetChannelCount => "getChannelCount"@,
        }
    }

    /// Whether the call hands out an object that the later ones need.
    pub open spec fn hands_out(self) -> bool {
        self is CreateBuilder || self is GenerateRenderer
    }

    /// The call that follows, if any.
    pub open spec fn following(self) -> Option<OpenStep> {
        match self {
            OpenStep::CreateBuilder => Some(OpenStep::SetSamplingRate),
            OpenStep::SetSamplingRate => Some(OpenStep::SetChannelCount),
            OpenStep::SetChannelCount => Some(OpenStep::SetSampleFormat),
            OpenStep::SetSampleFormat => Some(OpenStep::SetEncodingType),
            OpenStep::SetEncodingType => Some(OpenStep::SetLatencyMode),
            OpenStep::SetLatencyMode => Some(OpenStep::SetRendererInfo),
            OpenStep::SetRendererInfo => Some(OpenStep::SetRendererCallback),
            OpenStep::SetRendererCallback => Some(OpenStep::GenerateRenderer),
            OpenStep::GenerateRenderer => Some(OpenStep::GetSampleFormat),
            OpenStep::GetSampleFormat => Some(OpenStep::GetSamplingRate),
            OpenStep::GetSamplingRate => Some(OpenStep::GetChannelCount),
            OpenStep::GetChannelCount => None,
        }
    }

    pub fn operation(self) -> (name: &'static str)
        ensures
            name@ == self.name(),
    {
        match self {
            OpenStep::CreateBuilder => "createStreamBuilder",
            OpenStep::SetSamplingRate => "setSamplingRate",
            OpenStep::SetChannelCount => "setChannelCount",
            OpenStep::SetSampleFormat => "setSampleFormat",
            OpenStep::SetEncodingType => "setEncodingType",
            OpenStep::SetLatencyMode => "setLatencyMode",
            OpenStep::SetRendererInfo => "setRendererInfo",
            OpenStep::SetRendererCallback => "setRendererCallback",
            OpenStep::GenerateRenderer => "generateRenderer",
            OpenStep::GetSampleFormat => "getSampleFormat",
            OpenStep::GetSamplingRate => "getSamplingRate",
            OpenStep::GetChannelCount => "getChannelCount",
        }
    }

    /// The number that the call is given, for those that take one.
    pub fn argument(self, format: PcmFormat) -> (argument: Option<i32>)
        requires
            is_supported(format),
        ensures
            argument == match self {
                OpenStep::CreateBuilder => Some(OHAUDIO_STREAM_TYPE_RENDERER),
                OpenStep::SetSamplingRate => Some(format.sample_rate as i32),
                OpenStep::SetChannelCount => Some(format.channels as i32),
                OpenStep::SetSampleFormat => Some(OHAUDIO_SAMPLE_F32LE),
                OpenStep::SetEncodingType => Some(OHAUDIO_ENCODING_RAW),
                OpenStep::SetLatencyMode => Some(OHAUDIO_LATENCY_NORMAL),
                OpenStep::SetRendererInfo => Some(OHAUDIO_USAGE_MUSIC),
                _ => None,
            },
            self == OpenStep::CreateBuilder ==> argument == Some(1i32),
            self == OpenStep::SetSampleFormat ==> argument == Some(4i32),
            self == OpenStep::SetEncodingType ==> argument == Some(0i32),
            self == OpenStep::SetLatencyMode ==> argument == Some(0i32),
            self == OpenStep::SetRendererInfo ==> argument == Some(1i32),
    {
        match self {
            OpenStep::CreateBuilder => Some(OHAUDIO_STREAM_TYPE_RENDERER),
            OpenStep::SetSamplingRate => Some(format.sample_rate as i32),
            OpenStep::SetChannelCount => Some(format.channels as i32),
            OpenStep::SetSampleFormat => Some(OHAUDIO_SAMPLE_F32LE),
            OpenStep::SetEncodingType => Some(OHAUDIO_ENCODING_RAW),
            OpenStep::SetLatencyMode => Some(OHAUDIO_LATENCY_NORMAL),
            OpenStep::SetRendererInfo => Some(OHAUDIO_USAGE_MUSIC),
            _ => None,
        }
    }

    fn next(self) -> (next: Option<OpenStep>)
        ensures
            next == self.following(),
    {
        match self {
            OpenStep::CreateBuilder => Some(OpenStep::SetSamplingRate),
            OpenStep::SetSamplingRate => Some(OpenStep::SetChannelCount),
            OpenStep::SetChannelCount => Some(OpenStep::SetSampleFormat),
            OpenStep::SetSampleFormat => Some(OpenStep::SetEncodingType),
            OpenStep::SetEncodingType => Some(OpenStep::SetLatencyMode),
            OpenStep::SetLatencyMode => Some(OpenStep::SetRendererInfo),
            OpenStep::SetRendererInfo => Some(OpenStep::SetRendererCallback),
            OpenStep::SetRendererCallback => Some(OpenStep::GenerateRenderer),
            OpenStep::GenerateRenderer => Some(OpenStep::GetSampleFormat),
            OpenStep::GetSampleFormat => Some(OpenStep::GetSamplingRate),
            OpenStep::GetSamplingRate => Some(OpenStep::GetChannelCount),
            OpenStep::GetChannelCount => None,
        }
    }
}

/// What a call answered: its result code, whether it handed out an object, and
/// the number that it reported.
#[derive(Debug, Clone, Copy, PartialEq, Eq, Structural)]
pub struct StepReply {
    pub result: i32,
    pub handed_out: bool,
    pub value: i32,
}

/// Why a stream was not opened.
#[derive(Debug, Clone, Copy, PartialEq, Eq, Structural)]
pub enum OpenFailure {
    /// A call was refused.
    Refused { step: OpenStep, result: i32 },
    /// A call succeeded without handing out its object.
    NothingHandedOut,
    /// The stream is not of the requested format.
    FormatNegotiation { actual_sample_rate: i32, actual_channels: i32 },
}

impl OpenFailure {
    pub fn into_error(self, format: PcmFormat) -> (error: OHAudioOutputError)
        ensures
            match self {
                OpenFailure::Refused { step, result } => error
                    matches OHAudioOutputError::OHAudio { operation, result: r, message }
                    && operation@ == step.name() && r == result && message@ == text_of(result),
                OpenFailure::NothingHandedOut => error == OHAudioOutputError::NotConfigured,
                OpenFailure::FormatNegotiation { actual_sample_rate, actual_channels } => error
                    == (OHAudioOutputError::FormatNegotiation {
                    requested_sample_rate: format.sample_rate,
                    requested_channels: format.channels,
                    actual_sample_rate,
                    actual_channels,
                }),
            },
    {
        match self {
            OpenFailure::Refused { step, result } => OHAudioOutputError::OHAudio {
                operation: step.operation(),
                result,
                message: result_text(result),
            },
            OpenFailure::NothingHandedOut => OHAudioOutputError::NotConfigured,
            OpenFailure::FormatNegotiation { actual_sample_rate, actual_channels } => {
                OHAudioOutputError::FormatNegotiation {
                    requested_sample_rate: format.sample_rate,
                    requested_channels: format.channels,
                    actual_sample_rate,
                    actual_channels,
                }
            },
        }
    }
}

/// A stream that is being opened: the call to make next and what the stream
/// has reported of itself.
#[derive(Debug, Clone, Copy, PartialEq, Eq, Structural)]
pub struct OpenStream {
    pub format: PcmFormat,
    pub step: OpenStep,
    pub actual_format: i32,
    pub actual_sample_rate: i32,
    pub actual_channels: i32,
}

impl OpenStream {
    pub open spec fn beginning(format: PcmFormat) -> Self {
        OpenStream {
            format,
            step: OpenStep::CreateBuilder,
            actual_format: -1i32,
            actual_sample_rate: 0,
            actual_channels: 0,
        }
    }

    /// The stream with the number that the current call reported.
    pub open spec fn reported(self, value: i32) -> Self {
        match self.step {
            OpenStep::GetSampleFormat => OpenStream { actual_format: value, ..self },
            OpenStep::GetSamplingRate => OpenStream { actual_sample_rate: value, ..self },
            OpenStep::GetChannelCount => OpenStream { actual_channels: value, ..self },
            _ => self,
        }
    }

    /// Whether the stream has the requested format.
    pub open spec fn is_negotiated(self) -> bool {
        &&& self.actual_format == OHAUDIO_SAMPLE_F32LE
        &&& self.actual_sample_rate == self.format.sample_rate
        &&& self.actual_channels == self.format.channels
    }

    /// Where opening stands after the current call answered: at the next call,
    /// at an open stream, or at a failure.
    pub open spec fn after_reply(self, reply: StepReply) -> Result<Option<OpenStream>, OpenFailure> {
        let stream = self.reported(reply.value);
        if reply.result != OHAUDIO_SUCCESS {
            Err(OpenFailure::Refused { step: self.step, result: reply.result })
        } else if self.step.hands_out() && !reply.handed_out {
            Err(OpenFailure::NothingHandedOut)
        } else {
            match self.step.following() {
                Some(step) => Ok(Some(OpenStream { step, ..stream })),
                None => if stream.is_negotiated() {
                    Ok(None)
                } else {
                    Err(
                        OpenFailure::FormatNegotiation {
                            actual_sample_rate: stream.actual_sample_rate,
                            actual_channels: stream.actual_channels,
                        },
                    )
                },
            }
        }
    }

    pub fn new(format: PcmFormat) -> (stream: Self)
        ensures
            stream == OpenStream::beginning(format),
    {
        OpenStream {
            format,
            step: OpenStep::CreateBuilder,
            actual_format: -1,
            actual_sample_rate: 0,
            actual_channels: 0,
        }
    }

    /// Goes on after the current call answered. `None` means that the stream
    /// is open.
    pub fn answered(self, reply: StepReply) -> (next: Result<Option<OpenStream>, OpenFailure>)
        requires
            is_supported(self.format),
        ensures
            next == self.after_reply(reply),
    {
        if reply.result != OHAUDIO_SUCCESS {
            return Err(OpenFailure::Refused { step: self.step, result: reply.result });
        }
        let mut stream: OpenStream = self;
        match self.step {
            OpenStep::CreateBuilder | OpenStep::GenerateRenderer => {
                if !reply.handed_out {
                    return Err(OpenFailure::NothingHandedOut);
                }
            },
            OpenStep::GetSampleFormat => {
                stream.actual_format = reply.value;
            },
            OpenStep::GetSamplingRate => {
                stream.actual_sample_rate = reply.value;
            },
            OpenStep::GetChannelCount => {
                stream.actual_channels = reply.value;
            },
            _ => {},
        }
        match self.step.next() {
            Some(step) => {
                stream.step = step;
                Ok(Some(stream))
            },
            None => {
                if stream.actual_format != OHAUDIO_SAMPLE_F32LE || stream.actual_sample_rate
                    != stream.format.sample_rate as i32 || stream.actual_channels
                    != stream.format.channels as i32 {
                    return Err(
                        OpenFailure::FormatNegotiation {
                            actual_sample_rate: stream.actual_sample_rate,
                            actual_channels: stream.actual_channels,
                        },
                    );
                }
                Ok(None)
            },
        }
    }
}

/// Opening a stream with one answer after the other. `None` while more answers
/// are needed.
pub open spec fn opened(stream: OpenStream, replies: Seq<StepReply>) -> Option<
    Result<(), OpenFailure>,
>
    decreases replies.len(),
{
    if replies.len() == 0 {
        None
    } else {
        match stream.after_reply(replies[0]) {
            Err(failure) => Some(Err(failure)),
            Ok(None) => Some(Ok(())),
            Ok(Some(next)) => opened(next, replies.drop_first()),
        }
    }
}

/// `reply` lets opening go on after `step`.
pub open spec fn goes_on(step: OpenStep, reply: StepReply) -> bool {
    reply.result == OHAUDIO_SUCCESS && (step.hands_out() ==> reply.handed_out)
}

/// The call at a place in the order.
pub open spec fn step_at(position: nat) -> OpenStep {
    seq![
        OpenStep::CreateBuilder,
        OpenStep::SetSamplingRate,
        OpenStep::SetChannelCount,
        OpenStep::SetSampleFormat,
        OpenStep::SetEncodingType,
        OpenStep::SetLatencyMode,
        OpenStep::SetRendererInfo,
        OpenStep::SetRendererCallback,
        OpenStep::GenerateRenderer,
        OpenStep::GetSampleFormat,
        OpenStep::GetSamplingRate,
        OpenStep::GetChannelCount,
    ][position as int]
}

/// The first call that is refused decides: opening fails with its name and its
/// result code, whatever would have come after it.
pub proof fn lemma_first_refusal_is_reported(
    stream: OpenStream,
    replies: Seq<StepReply>,
    refused: nat,
)
    requires
        stream.step.position() + refused < 12,
        refused < replies.len(),
        forall|i: int|
            0 <= i < refused ==> goes_on(
                step_at((stream.step.position() + i) as nat),
                #[trigger] replies[i],
            ),
        replies[refused as int].result != OHAUDIO_SUCCESS,
    ensures
        opened(stream, replies) == Some(
            Err::<(), OpenFailure>(
                OpenFailure::Refused {
                    step: step_at((stream.step.position() + refused) as nat),
                    result: replies[refused as int].result,
                },
            ),
        ),
    decreases refused,
{
    assert(step_at(stream.step.position()) == stream.step);
    if refused > 0 {
        assert(goes_on(step_at((stream.step.position() + 0) as nat), replies[0]));
        let next = stream.after_reply(replies[0])->Ok_0->Some_0;
        let rest = replies.drop_first();
        assert forall|i: int| 0 <= i < refused - 1 implies goes_on(
            step_at((next.step.position() + i) as nat),
            #[trigger] rest[i],
        ) by {
            assert(rest[i] == replies[i + 1]);
        }
        lemma_first_refusal_is_reported(next, rest, (refused - 1) as nat);
    }
}

/// Twelve calls that all succeed open the stream exactly when it reports the
/// requested format.
pub proof fn lemma_stream_opens_in_the_requested_format(
    format: PcmFormat,
    replies: Seq<StepReply>,
)
    requires
        replies.len() == 12,
        forall|i: int| 0 <= i < 12 ==> goes_on(step_at(i as nat), #[trigger] replies[i]),
    ensures
        opened(OpenStream::beginning(format), replies) == Some(
            if replies[9].value == OHAUDIO_SAMPLE_F32LE && replies[10].value == format.sample_rate
                && replies[11].value == format.channels {
                Ok::<(), OpenFailure>(())
            } else {
                Err(
                    OpenFailure::FormatNegotiation {
                        actual_sample_rate: replies[10].value,
                        actual_channels: replies[11].value,
                    },
                )
            },
        ),
{
    reveal_with_fuel(opened, 13);
    assert(goes_on(step_at(0), replies[0]));
    assert(goes_on(step_at(1), replies[1]));
    assert(goes_on(step_at(2), replies[2]));
    assert(goes_on(step_at(3), replies[3]));
    assert(goes_on(step_at(4), replies[4]));
    assert(goes_on(step_at(5), replies[5]));
    assert(goes_on(step_at(6), replies[6]));
    assert(goes_on(step_at(7), replies[7]));
    assert(goes_on(step_at(8), replies[8]));
    assert(goes_on(step_at(9), replies[9]));
    assert(goes_on(step_at(10), replies[10]));
    assert(goes_on(step_at(11), replies[11]));
}

/// A stream needs a sample rate and a channel, each no larger than the platform can
/// be told.
pub proof fn lemma_formats_fit_the_platform(format: PcmFormat)
    ensures
        is_supported(format) <==> 1 <= format.sample_rate <= 0x7fff_ffff && 1 <= format.channels
            <= 0x7fff_ffff,
{
}

/// The steps follow one another from the first to the last, each told of under its
/// own name, and exactly those that make something hand it out.
pub proof fn lemma_steps_follow_one_another(step: OpenStep)
    ensures
        step.following() matches Some(next) ==> next.position() == step.position() + 1,
        step.following() is None <==> step == OpenStep::GetChannelCount,
        step.position() < 12,
        step_at(step.position()) == step,
        step.hands_out() <==> step == OpenStep::CreateBuilder || step
            == OpenStep::GenerateRenderer,
        OpenStep::CreateBuilder.name() == "createStreamBuilder"@,
        OpenStep::SetSamplingRate.name() == "setSamplingRate"@,
        OpenStep::SetChannelCount.name() == "setChannelCount"@,
        OpenStep::SetSampleFormat.name() == "setSampleFormat"@,
        OpenStep::SetEncodingType.name() == "setEncodingType"@,
        OpenStep::SetLatencyMode.name() == "setLatencyMode"@,
        OpenStep::SetRendererInfo.name() == "setRendererInfo"@,
        OpenStep::SetRendererCallback.name() == "setRendererCallback"@,
        OpenStep::GenerateRenderer.name() == "generateRenderer"@,
        OpenStep::GetSampleFormat.name() == "getSampleFormat"@,
        OpenStep::GetSamplingRate.name() == "getSamplingRate"@,
        OpenStep::GetChannelCount.name() == "getChannelCount"@,
{
}

/// The platform's result codes and what each is told as. Of all errors only those of
/// the platform have a code, and an illegal state or a system error means that the
/// device is gone.
pub proof fn lemma_result_codes_and_their_texts(code: i32, error: OHAudioOutputError)
    ensures
        text_of(0) == "success"@,
        text_of(1) == "invalid parameter"@,
        text_of(2) == "illegal state"@,
        text_of(3) == "system error"@,
        text_of(4) == "unsupported format"@,
        code < 0 || code > 4 ==> text_of(code) == "unknown error"@,
        is_disconnected_code(Some(code)) <==> code == 2 || code == 3,
        !is_disconnected_code(None),
        error is OHAudio <==> result_code_of(error) is Some,
        error matches OHAudioOutputError::OHAudio { result, .. } ==> result_code_of(error)
            == Some(result),
{
}

/// A reply that refuses, or that hands out nothing where something was to be made,
/// ends the opening at its step. Any other leads to the next step, and the last one
/// succeeds only where the samples are 32-bit floats at the rate and in the channels
/// that were asked for.
pub proof fn lemma_each_reply_is_heeded(stream: OpenStream, reply: StepReply)
    ensures
        ({
            let after = stream.after_reply(reply);
            let refused = reply.result != 0;
            let empty = (stream.step == OpenStep::CreateBuilder || stream.step
                == OpenStep::GenerateRenderer) && !reply.handed_out;
            &&& refused ==> after == Err::<Option<OpenStream>, OpenFailure>(
                OpenFailure::Refused { step: stream.step, result: reply.result },
            )
            &&& !refused && empty ==> after == Err::<Option<OpenStream>, OpenFailure>(
                OpenFailure::NothingHandedOut,
            )
            &&& !refused && !empty && stream.step != OpenStep::GetChannelCount ==> {
                &&& after matches Ok(Some(next))
                &&& next.step.position() == stream.step.position() + 1
                &&& next.format == stream.format
                &&& next.actual_format == if stream.step == OpenStep::GetSampleFormat {
                    reply.value
                } else {
                    stream.actual_format
                }
                &&& next.actual_sample_rate == if stream.step == OpenStep::GetSamplingRate {
                    reply.value
                } else {
                    stream.actual_sample_rate
                }
                &&& next.actual_channels == stream.actual_channels
            }
            &&& !refused && stream.step == OpenStep::GetChannelCount ==> {
                &&& after is Ok <==> stream.actual_format == 4 && stream.actual_sample_rate
                    == stream.format.sample_rate && reply.value == stream.format.channels
                &&& after is Ok ==> after == Ok::<Option<OpenStream>, OpenFailure>(None)
                &&& after is Err ==> after == Err::<Option<OpenStream>, OpenFailure>(
                    OpenFailure::FormatNegotiation {
                        actual_sample_rate: stream.actual_sample_rate,
                        actual_channels: reply.value,
                    },
                )
            }
        }),
{
}

/// A refusal names the operation, the code and what the code means.
pub proof fn lemma_refusals_name_operation_and_code(
    error: OHAudioOutputError,
    operation: &'static str,
    result: i32,
)
    requires
        is_refusal(error, operation, result),
    ensures
        result_code_of(error) == Some(result),
        error matches OHAudioOutputError::OHAudio { operation: named, result: code, message }
            && named@ == operation@ && code == result && message@ == text_of(result),
{
}

} // verus!
