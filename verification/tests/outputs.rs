use erika::android::aaudio;
use erika::android::aaudio::AAudioOutputError;
use erika::android::{
    check_data_space_api, AndroidDataSpaceError, AndroidDataSpaceErrorKind,
    AndroidDataSpaceVerification, DataSpaceCheck, ADATASPACE_SCRGB_LINEAR,
};
use erika::apple::coreaudio::{
    coreaudio_stream_format, render_buffer, CoreAudioOutput, CoreAudioOutputError,
};
use erika::apple::fill_device_buffer;
use erika::apple::iosaudio::{
    audio_queue_buffer_frames, audio_queue_buffer_size, audio_stream_description, check_status,
    InFlightBuffers, IosAudioQueueOutput, IosAudioQueueOutputError, BUFFER_COUNT,
};
use erika::apple::DisplayHdrCapabilities;
use erika::audio::output::{
    decode_state, DeviceQueue, OutputControl, PcmSpscPushResult, RecoveryOutcome, RecoveryPlan,
};
use erika::audio::recovery::AudioRecoveryState;
use erika::audio::ring::AudioRingBuffer;
use erika::audio::volume::apply_volume;
use erika::audio::{AudioOutputState, AudioRingBufferConfig, AudioRingBufferStats};
use erika::ohos::ohaudio;
use erika::ohos::ohaudio::{OHAudioOutputError, OpenFailure, OpenStep, OpenStream, StepReply};
use erika::pcm::{PcmAudioFrame, PcmFormat, PcmSampleFormat};
use erika::time::Duration;

fn offset(pts: Duration, frames: usize, sample_rate: u32, rate: u64) -> Duration {
    let media_frames = frames as f64 * f64::from_bits(rate).max(0.0);
    let span = std::time::Duration::from_secs_f64(media_frames / sample_rate as f64);
    Duration::saturating_from_nanos(pts.as_nanos() + span.as_nanos())
}

fn distance(left: u64, right: u64) -> u64 {
    (f64::from_bits(left) - f64::from_bits(right)).abs().to_bits()
}

fn multiply(sample: u32, gain: u32) -> u32 {
    (f32::from_bits(sample) * f32::from_bits(gain)).to_bits()
}

fn ramp(from: u32, to: u32, step: usize, steps: usize) -> u32 {
    let (from, to) = (f32::from_bits(from), f32::from_bits(to));
    (from + (to - from) * (step as f32 / steps as f32)).to_bits()
}

fn bits(samples: &[f32]) -> Vec<u32> {
    samples.iter().map(|sample| sample.to_bits()).collect()
}

fn stereo() -> PcmFormat {
    PcmFormat { sample_rate: 48_000, channels: 2, sample_format: PcmSampleFormat::F32Interleaved }
}

fn queue(read_position: u64, queued_frames: usize) -> DeviceQueue {
    DeviceQueue {
        read_position,
        stats: AudioRingBufferStats { queued_frames, ..AudioRingBufferStats::default() },
    }
}

fn playing() -> OutputControl {
    let mut control = OutputControl::new();
    control.begin_configure(stereo());
    control.configure_succeeded();
    control.begin_start();
    control
}

#[test]
fn volume_is_clamped_and_applied_to_pcm_samples() {
    let mut output = CoreAudioOutput::new();

    assert_eq!(f32::from_bits(output.volume()), 1.0);
    output.set_volume(0.25f32.to_bits());
    assert_eq!(f32::from_bits(output.volume()), 0.25);
    output.set_volume((-1.0f32).to_bits());
    assert_eq!(f32::from_bits(output.volume()), 0.0);
    output.set_volume(f32::NAN.to_bits());
    assert_eq!(f32::from_bits(output.volume()), 1.0);

    let mut samples = bits(&[1.0, -0.5, 0.25, 0.0]);
    apply_volume(&mut samples, 0.5f32.to_bits(), &multiply);
    assert_eq!(samples, bits(&[0.5, -0.25, 0.125, 0.0]));
}

#[test]
fn core_audio_units_start_and_halt() {
    let mut output = CoreAudioOutput::new();
    assert_eq!(output.started(None), Err(CoreAudioOutputError::NotConfigured));
    assert_eq!(output.halted(AudioOutputState::Paused, Some("gone".to_string())), Ok(()));
    output.configured();
    assert_eq!(
        output.started(Some("busy".to_string())),
        Err(CoreAudioOutputError::CoreAudio("busy".to_string()))
    );
    assert_eq!(output.started(None), Ok(()));
    assert_eq!(output.state, AudioOutputState::Playing);
    assert!(output.halted(AudioOutputState::Stopped, Some("late".to_string())).is_err());
    assert_eq!(output.state, AudioOutputState::Playing);
    assert_eq!(coreaudio_stream_format(stereo()).channels, 2);
    assert!(!DisplayHdrCapabilities::default().supports_edr);
}

#[test]
fn device_buffers_are_filled_and_ramped() {
    let mut ring =
        AudioRingBuffer::with_format(AudioRingBufferConfig::default(), stereo()).unwrap();
    let frame = PcmAudioFrame {
        format: stereo(),
        pts: None,
        frames: 1,
        samples: bits(&[1.0, 1.0]),
    };
    ring.push_frame(frame, &distance, |_, samples, _| samples, &offset).unwrap();
    let mut samples = bits(&[9.0; 8]);
    let reached = fill_device_buffer(
        &mut ring,
        &mut samples,
        2,
        1.0f32.to_bits(),
        0.5f32.to_bits(),
        &offset,
        &ramp,
        &multiply,
    );
    assert_eq!(f32::from_bits(reached), 0.875);
    assert_eq!(samples, bits(&[0.875, 0.875, 0.0, 0.0, 0.0, 0.0, 0.0, 0.0]));

    let mut unconfigured = AudioRingBuffer::new(AudioRingBufferConfig::default());
    let mut samples = bits(&[9.0; 2]);
    let half = 0.5f32.to_bits();
    fill_device_buffer(&mut unconfigured, &mut samples, 2, half, half, &offset, &ramp, &multiply);
    assert_eq!(samples, bits(&[0.0, 0.0]));
}

#[test]
fn render_callbacks_mark_what_the_queue_cannot_fill() {
    let mut ring =
        AudioRingBuffer::with_format(AudioRingBufferConfig::default(), stereo()).unwrap();
    let frame = PcmAudioFrame {
        format: stereo(),
        pts: None,
        frames: 3,
        samples: bits(&[1.0; 6]),
    };
    ring.push_frame(frame, &distance, |_, samples, _| samples, &offset).unwrap();
    let full = 1.0f32.to_bits();
    let half = 0.5f32.to_bits();
    let mut samples = bits(&[9.0; 4]);
    let first =
        render_buffer(&mut ring, &mut samples, 2, full, half, &offset, &ramp, &multiply).unwrap();
    assert!(!first.silence);
    assert_eq!(f32::from_bits(first.reached), 0.5);
    assert_eq!(samples, bits(&[0.75, 0.75, 0.5, 0.5]));
    let mut samples = bits(&[9.0; 4]);
    let last =
        render_buffer(&mut ring, &mut samples, 2, half, half, &offset, &ramp, &multiply).unwrap();
    assert!(last.silence);
    assert_eq!(samples, bits(&[0.5, 0.5, 0.0, 0.0]));
    assert_eq!(ring.stats().underflow_frames, 1);

    let mut unconfigured = AudioRingBuffer::new(AudioRingBufferConfig::default());
    let rendered =
        render_buffer(&mut unconfigured, &mut samples, 2, half, half, &offset, &ramp, &multiply);
    assert!(rendered.is_none());
    assert_eq!(samples, bits(&[0.5, 0.5, 0.0, 0.0]));
}

#[test]
fn audio_queues_are_described_and_controlled() {
    let description = audio_stream_description(stereo());
    assert_eq!((description.bytes_per_frame, description.channels_per_frame), (8, 2));
    assert_eq!(description.bits_per_channel, 32);
    assert_eq!(audio_queue_buffer_frames(stereo()), 960);
    assert_eq!(audio_queue_buffer_size(stereo()), 7680);
    assert_eq!(
        check_status(-50, "AudioQueueStart"),
        Err(IosAudioQueueOutputError::AudioQueue { operation: "AudioQueueStart", status: -50 })
    );

    let mut output = IosAudioQueueOutput::new();
    assert_eq!(output.buffers_to_fill(), Err(IosAudioQueueOutputError::NotConfigured));
    assert_eq!(output.created(0, false), Err(IosAudioQueueOutputError::NotConfigured));
    assert_eq!(
        output.configured(stereo(), &[0, -4, -5]),
        Err(IosAudioQueueOutputError::AudioQueue {
            operation: "AudioQueueAllocateBuffer",
            status: -4,
        })
    );
    output.configured(stereo(), &[0; BUFFER_COUNT]).unwrap();
    assert_eq!(output.buffers_to_fill(), Ok(BUFFER_COUNT));
    output.started(0).unwrap();
    output.paused(0).unwrap();
    assert_eq!(output.buffers_to_fill(), Ok(0));
    assert!(output.disposed(-1).is_err());
    assert!(!output.has_queue);
    output.stopped();
    assert_eq!(output.format, None);
    output.set_volume(f32::INFINITY.to_bits());
    assert_eq!(f32::from_bits(output.volume()), 1.0);
}

#[test]
fn buffers_in_flight_count_as_queued() {
    let mut buffers = InFlightBuffers::new(Duration::from_millis(20));
    buffers.enqueued();
    buffers.enqueued();
    assert_eq!(buffers.queued_output_duration(), Duration::from_millis(40));
    buffers.returned();
    buffers.returned();
    buffers.returned();
    assert_eq!(buffers.queued_output_duration(), Duration::zero());
}

#[test]
fn a_lost_device_is_reopened_after_a_delay() {
    let mut control = playing();
    let now = Duration::from_secs(1);
    assert_eq!(control.plan_recovery(now), RecoveryPlan::NotNeeded);
    control.device_lost(-899);
    assert_eq!(control.plan_recovery(now), RecoveryPlan::Reopen(stereo()));
    control.begin_reopen();
    let stats = control.reopen_failed(Some(-900), now);
    assert_eq!(stats.recovery_state, AudioRecoveryState::Failed);
    assert_eq!(control.plan_recovery(now), RecoveryPlan::Wait);
    let later = Duration::from_millis(1_250);
    assert_eq!(control.plan_recovery(later), RecoveryPlan::Reopen(stereo()));
    control.begin_reopen();
    assert_eq!(control.reopen_succeeded(), RecoveryOutcome::Recovered);
    assert_eq!(control.runtime_stats().recovery_count, 1);
    assert!(control.has_stream());
}

#[test]
fn a_device_lost_during_recovery_stays_lost() {
    let mut control = playing();
    control.device_lost(-899);
    control.begin_reopen();
    control.device_lost(-899);
    assert_eq!(control.reopen_succeeded(), RecoveryOutcome::Redisconnected);
    assert_eq!(control.runtime_stats().recovery_state, AudioRecoveryState::Disconnected);
}

#[test]
fn outputs_without_a_format_are_not_reopened() {
    let mut control = OutputControl::new();
    control.begin_start();
    control.device_lost(-1);
    assert_eq!(control.plan_recovery(Duration::zero()), RecoveryPlan::NotConfigured);
    assert!(control.can_accept_audio_frame(usize::MAX));
}

#[test]
fn output_clock_follows_what_the_device_has_played() {
    let mut control = playing();
    let pushed = PcmSpscPushResult {
        accepted_frames: 480,
        dropped_frames: 0,
        input_offset_frames: 0,
        start_position: 0,
    };
    control.append_timeline(pushed, Some(Duration::from_secs(5)), queue(0, 480), &offset);
    assert_eq!(
        control.clock_snapshot(Some(queue(0, 480)), &offset).media_time,
        Some(Duration::from_secs(5))
    );
    let halfway = control.clock_snapshot(Some(queue(240, 240)), &offset);
    assert_eq!(halfway.media_time, Some(Duration::from_millis(5_005)));
    assert_eq!(halfway.queued_duration, Some(Duration::from_millis(5)));
    assert!(control.can_accept_audio_frame(11_999));
    assert!(!control.can_accept_audio_frame(12_000));
    assert_eq!(pushed.into_push_result().accepted_frames, 480);
}

#[test]
fn output_controls_normalise_what_they_are_set_to() {
    let mut control = OutputControl::new();
    control.set_volume(3.0f32.to_bits());
    assert_eq!(f32::from_bits(control.volume()), 1.0);
    control.set_playback_rate(99.0f64.to_bits());
    assert_eq!(f64::from_bits(control.playback_rate()), 16.0);
    assert_eq!(control.state(), AudioOutputState::Stopped);
    assert_eq!(decode_state(1), AudioOutputState::Playing);
    assert_eq!(decode_state(2), AudioOutputState::Paused);
    assert_eq!(decode_state(77), AudioOutputState::Stopped);
}

#[test]
fn aaudio_checks_formats_and_results() {
    assert!(aaudio::validate_format(stereo()).is_ok());
    let silent = PcmFormat { channels: 0, ..stereo() };
    assert_eq!(
        aaudio::validate_format(silent),
        Err(AAudioOutputError::InvalidFormat { sample_rate: 48_000, channels: 0 })
    );
    let lost = aaudio::check_result(-899, "open", "gone".to_string()).unwrap_err();
    assert_eq!(aaudio::error_result_code(&lost), Some(-899));
    assert!(aaudio::is_disconnected_error(&lost));
    assert!(aaudio::close_result(Err(lost)).is_ok());
    assert!(aaudio::check_negotiated_format(stereo(), 2, 48_000, 2).is_ok());
    assert_eq!(
        aaudio::check_negotiated_format(stereo(), 2, 44_100, 2),
        Err(AAudioOutputError::FormatNegotiation {
            requested_sample_rate: 48_000,
            requested_channels: 2,
            actual_sample_rate: 44_100,
            actual_channels: 2,
        })
    );
    assert_eq!(
        aaudio::queued_sample_count(usize::MAX, 2),
        Err(AAudioOutputError::InvalidRingCapacity { capacity_frames: usize::MAX, channels: 2 })
    );
    assert_eq!(aaudio::callback_sample_count(4, 2), Some(8));
    assert_eq!(aaudio::callback_sample_count(-4, 2), None);
    let error = AndroidDataSpaceError::api_unavailable("none".to_string());
    assert_eq!(error.message, "none");
}

#[test]
fn ohaudio_streams_are_opened_step_by_step() {
    let mut stream = OpenStream::new(stereo());
    let mut operations = Vec::new();
    loop {
        operations.push(stream.step.operation());
        let value = match stream.step {
            OpenStep::GetSampleFormat => ohaudio::OHAUDIO_SAMPLE_F32LE,
            OpenStep::GetSamplingRate => 48_000,
            OpenStep::GetChannelCount => 2,
            _ => 0,
        };
        match stream.answered(StepReply { result: 0, handed_out: true, value }).unwrap() {
            Some(next) => stream = next,
            None => break,
        }
    }
    assert_eq!(operations.len(), 12);
    assert_eq!(OpenStep::SetSamplingRate.argument(stereo()), Some(48_000));
    let first = OpenStream::new(stereo());
    assert_eq!(
        first.answered(StepReply { result: 3, handed_out: false, value: 0 }).err(),
        Some(OpenFailure::Refused { step: OpenStep::CreateBuilder, result: 3 })
    );
    assert!(matches!(
        OpenFailure::Refused { step: OpenStep::CreateBuilder, result: 3 }.into_error(stereo()),
        OHAudioOutputError::OHAudio { result: 3, .. }
    ));
}

#[test]
fn ohaudio_checks_formats_and_results() {
    assert!(ohaudio::validate_format(stereo()).is_ok());
    assert_eq!(ohaudio::result_text(2), "illegal state");
    let refused = ohaudio::check_result(1, "start").unwrap_err();
    assert_eq!(ohaudio::error_result_code(&refused), Some(1));
    assert_eq!(ohaudio::callback_sample_count(16, 2), Some(4));
    assert_eq!(ohaudio::callback_sample_count(-1, 2), None);
    assert_eq!(ohaudio::queued_sample_count(8, 2), Ok(16));
}

#[test]
fn aaudio_streams_are_shared_and_low_latency() {
    let settings = aaudio::stream_settings(stereo());
    assert_eq!(settings.direction, 0);
    assert_eq!(settings.format, 2);
    assert_eq!(settings.sample_rate, 48_000);
    assert_eq!(settings.channels, 2);
    assert_eq!(settings.sharing_mode, 1);
    assert_eq!(settings.performance_mode, 12);

    let text = || "text".to_string();
    assert_eq!(aaudio::OpenStep::CreateBuilder.answered(0, true, text()), Ok(()));
    assert_eq!(
        aaudio::OpenStep::CreateBuilder.answered(0, false, text()),
        Err(AAudioOutputError::NotConfigured)
    );
    assert_eq!(
        aaudio::OpenStep::OpenStream.answered(-899, true, text()),
        Err(AAudioOutputError::AAudio { operation: "openStream", result: -899, message: text() })
    );
}

#[test]
fn data_spaces_are_verified_or_corrected_once() {
    const WANTED: i32 = ADATASPACE_SCRGB_LINEAR;
    let failed = Some(Err(AndroidDataSpaceErrorKind::VerificationFailed));
    assert_eq!(
        DataSpaceCheck::observe(WANTED).outcome(),
        Some(Ok(AndroidDataSpaceVerification { before: WANTED, after: WANTED, corrected: false }))
    );
    let correcting = DataSpaceCheck::observe(7);
    assert_eq!(correcting.outcome(), None);
    assert_eq!(correcting.answered(-1).outcome(), failed);
    assert_eq!(correcting.answered(0).outcome(), None);
    assert_eq!(correcting.answered(0).answered(7).outcome(), failed);
    assert_eq!(
        correcting.answered(0).answered(WANTED).outcome(),
        Some(Ok(AndroidDataSpaceVerification { before: 7, after: WANTED, corrected: true }))
    );

    let unavailable = Err(AndroidDataSpaceErrorKind::ApiUnavailable);
    assert_eq!(check_data_space_api(true, true), Ok(()));
    assert_eq!(check_data_space_api(true, false), unavailable);
    assert_eq!(check_data_space_api(false, true), unavailable);
}
