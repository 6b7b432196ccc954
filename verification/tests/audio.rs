use erika::audio::buffered::BufferedAudioOutput;
use erika::audio::rate::normalize_playback_rate;
use erika::audio::recovery::{
    decode_recovery_state, AudioRecoveryState, RecoveryBackoff, RecoverySignals,
};
use erika::audio::ring::AudioRingBuffer;
use erika::audio::tempo::AudioTempoProcessor;
use erika::audio::volume::{apply_volume, apply_volume_ramp, normalize_volume};
use erika::audio::{
    audio_output_queue_has_capacity, AudioError, AudioOutputState, AudioRingBufferConfig,
};
use erika::pcm::{PcmAudioFrame, PcmFormat, PcmSampleFormat};
use erika::time::{Duration, MAX_NANOS};

fn offset(pts: Duration, frames: usize, sample_rate: u32, rate: u64) -> Duration {
    let media_frames = frames as f64 * f64::from_bits(rate).max(0.0);
    let span = std::time::Duration::from_secs_f64(media_frames / sample_rate as f64);
    Duration::saturating_from_nanos(pts.as_nanos() + span.as_nanos())
}

fn distance(left: u64, right: u64) -> u64 {
    (f64::from_bits(left) - f64::from_bits(right)).abs().to_bits()
}

fn multiply(sample: u32, gain: u32) -> u32 {
    (f32::from_bits(sample) * f32::from_bits(gain)).to_bits()
}

fn ramp(from: u32, to: u32, step: usize, steps: usize) -> u32 {
    let (from, to) = (f32::from_bits(from), f32::from_bits(to));
    (from + (to - from) * (step as f32 / steps as f32)).to_bits()
}

fn unstretched(_fresh: bool, samples: Vec<u32>, _frames: usize) -> Vec<u32> {
    samples
}

/// Keeps every other stereo frame.
fn halved(_fresh: bool, samples: Vec<u32>, _frames: usize) -> Vec<u32> {
    samples.chunks_exact(4).flat_map(|pair| [pair[0], pair[1]]).collect()
}

fn bits(samples: &[f32]) -> Vec<u32> {
    samples.iter().map(|sample| sample.to_bits()).collect()
}

fn floats(samples: &[u32]) -> Vec<f32> {
    samples.iter().map(|sample| f32::from_bits(*sample)).collect()
}

fn stereo_format() -> PcmFormat {
    PcmFormat { sample_rate: 48_000, channels: 2, sample_format: PcmSampleFormat::F32Interleaved }
}

fn frame(samples: Vec<f32>) -> PcmAudioFrame {
    PcmAudioFrame {
        format: stereo_format(),
        pts: None,
        frames: samples.len() / 2,
        samples: bits(&samples),
    }
}

fn timed_frame(pts: Duration, frames: usize) -> PcmAudioFrame {
    PcmAudioFrame { format: stereo_format(), pts: Some(pts), frames, samples: vec![0; frames * 2] }
}

fn ring(capacity_frames: usize, drop_oldest_on_overflow: bool) -> AudioRingBuffer {
    AudioRingBuffer::with_format(
        AudioRingBufferConfig { capacity_frames, drop_oldest_on_overflow },
        stereo_format(),
    )
    .unwrap()
}

fn ramped(samples: &[f32], channels: usize, from: f32, to: f32, audible: usize) -> (Vec<f32>, f32) {
    let mut patterns = bits(samples);
    let reached = apply_volume_ramp(
        &mut patterns,
        channels,
        from.to_bits(),
        to.to_bits(),
        audible,
        &ramp,
        &multiply,
    );
    (floats(&patterns), f32::from_bits(reached))
}

#[test]
fn playback_rate_supports_short_form_video_acceleration() {
    assert_eq!(f64::from_bits(normalize_playback_rate(4.8f64.to_bits())), 4.8);
    assert_eq!(f64::from_bits(normalize_playback_rate(32.0f64.to_bits())), 16.0);
}

#[test]
fn playback_rate_stays_in_range() {
    for (rate, expected) in [
        (0.25, 0.25),
        (0.1, 0.25),
        (1e-320, 0.25),
        (0.0, 1.0),
        (-0.0, 1.0),
        (-2.0, 1.0),
        (f64::NAN, 1.0),
        (-f64::NAN, 1.0),
        (f64::INFINITY, 1.0),
        (f64::NEG_INFINITY, 1.0),
        (16.0, 16.0),
        (16.000001, 16.0),
        (f64::MAX, 16.0),
    ] {
        assert_eq!(f64::from_bits(normalize_playback_rate(f64::to_bits(rate))), expected, "{rate}");
    }
}

#[test]
fn ring_buffer_reads_interleaved_samples_and_zero_fills_underflow() {
    let mut buffer = ring(8, true);
    buffer
        .push_frame(frame(vec![0.1, 0.2, 0.3, 0.4]), &distance, unstretched, &offset)
        .unwrap();

    let mut output = bits(&[1.0; 6]);
    let result = buffer.read_interleaved(&mut output, &offset).unwrap();

    assert_eq!(result.frames, 2);
    assert_eq!(result.underflow_frames, 1);
    assert_eq!(floats(&output), [0.1, 0.2, 0.3, 0.4, 0.0, 0.0]);
}

#[test]
fn ring_buffer_drops_oldest_frames_on_overflow() {
    let mut buffer = ring(2, true);

    let result = buffer
        .push_frame(frame(vec![0.1, 0.2, 0.3, 0.4, 0.5, 0.6]), &distance, unstretched, &offset)
        .unwrap();
    let mut output = [0; 4];
    buffer.read_interleaved(&mut output, &offset).unwrap();

    assert_eq!(result.accepted_frames, 2);
    assert_eq!(result.dropped_frames, 1);
    assert_eq!(floats(&output), [0.3, 0.4, 0.5, 0.6]);
}

#[test]
fn pushed_frames_are_queued_or_counted_as_dropped() {
    for drop_oldest in [true, false] {
        let mut buffer = ring(3, drop_oldest);
        for count in [2, 2, 5, 0, 1] {
            let before = buffer.stats();
            let pushed = buffer
                .push_frame(frame(vec![0.5; 2 * count]), &distance, unstretched, &offset)
                .unwrap();
            let after = buffer.stats();
            assert_eq!(after.queued_frames + pushed.dropped_frames, before.queued_frames + count);
            assert!(after.queued_frames <= 3);
            assert_eq!(after.queued_samples, 2 * after.queued_frames);
            assert_eq!(after.written_frames - before.written_frames, pushed.accepted_frames as u64);
            assert_eq!(after.dropped_frames - before.dropped_frames, pushed.dropped_frames as u64);
            assert_eq!(after.read_frames, 0);
            assert_eq!(after.underflow_frames, 0);
        }
    }
}

#[test]
fn ring_buffer_refuses_newest_frames_when_configured_to() {
    let mut buffer = ring(2, false);
    let result = buffer
        .push_frame(frame(vec![0.1, 0.2, 0.3, 0.4, 0.5, 0.6]), &distance, unstretched, &offset)
        .unwrap();
    let mut output = [0; 4];
    buffer.read_interleaved(&mut output, &offset).unwrap();

    assert_eq!(result.accepted_frames, 2);
    assert_eq!(result.dropped_frames, 1);
    assert_eq!(floats(&output), [0.1, 0.2, 0.3, 0.4]);
    assert_eq!(buffer.stats().dropped_frames, 1);
    assert_eq!(buffer.stats().written_frames, 2);
}

#[test]
fn ring_buffer_reports_format_errors() {
    let mut buffer = AudioRingBuffer::new(AudioRingBufferConfig::default());
    assert_eq!(
        buffer.read_interleaved(&mut [0; 2], &offset),
        Err(AudioError::FormatNotConfigured)
    );
    let silent = PcmFormat { channels: 0, ..stereo_format() };
    assert_eq!(buffer.configure(silent), Err(AudioError::InvalidChannelCount));
    buffer.push_frame(frame(vec![0.5, 0.5]), &distance, unstretched, &offset).unwrap();
    assert_eq!(buffer.format(), Some(stereo_format()));
    let other = PcmFormat { sample_rate: 44_100, ..stereo_format() };
    let changed = PcmAudioFrame { format: other, ..frame(vec![0.5, 0.5]) };
    assert_eq!(
        buffer.push_frame(changed, &distance, unstretched, &offset),
        Err(AudioError::FormatChanged { expected: stereo_format(), actual: other })
    );
    assert_eq!(buffer.queued_frames(), 1);
}

#[test]
fn buffered_audio_output_tracks_state() {
    let mut output = BufferedAudioOutput::new(AudioRingBufferConfig::default());

    output.configure(stereo_format()).unwrap();
    output.start();
    assert_eq!(output.state(), AudioOutputState::Playing);
    output.pause();
    assert_eq!(output.state(), AudioOutputState::Paused);
    output.stop();
    assert_eq!(output.state(), AudioOutputState::Stopped);
}

#[test]
fn volume_helpers_clamp_and_apply_gain() {
    let normalized = |volume: f32| f32::from_bits(normalize_volume(volume.to_bits()));
    assert_eq!(normalized(1.0), 1.0);
    assert_eq!(normalized(-1.0), 0.0);
    assert_eq!(normalized(2.0), 1.0);
    assert_eq!(normalized(f32::NAN), 1.0);

    let mut samples = bits(&[1.0, -0.5, 0.25, 0.0]);
    apply_volume(&mut samples, 0.5f32.to_bits(), &multiply);
    assert_eq!(floats(&samples), [0.5, -0.25, 0.125, 0.0]);
}

#[test]
fn normalized_volume_is_what_floating_point_gives() {
    let expected = |volume: f32| {
        if volume.is_finite() { volume.clamp(0.0, 1.0) } else { 1.0 }
    };
    for volume in [
        0.0,
        -0.0,
        1e-45,
        -1e-45,
        0.5,
        0.99999994,
        1.0000001,
        f32::MAX,
        f32::MIN,
        f32::INFINITY,
        f32::NEG_INFINITY,
        f32::NAN,
        -f32::NAN,
    ] {
        assert_eq!(normalize_volume(volume.to_bits()), expected(volume).to_bits(), "{volume}");
    }
}

#[test]
fn nearly_full_volume_leaves_samples_alone() {
    for (volume, unchanged) in [
        (1.0f32, true),
        (1.0 - f32::EPSILON, true),
        (1.0 - 1.5 * f32::EPSILON, false),
        (0.999, false),
        (f32::NAN, true),
    ] {
        let full = if volume.is_finite() { volume.clamp(0.0, 1.0) } else { 1.0 };
        assert_eq!((full - 1.0).abs() <= f32::EPSILON, unchanged, "{volume}");
        let mut samples = bits(&[3.0]);
        apply_volume(&mut samples, volume.to_bits(), &|_, _| 7);
        assert_eq!(samples[0] == 3.0f32.to_bits(), unchanged, "{volume}");
    }
}

#[test]
fn buffered_audio_output_volume_is_clamped() {
    let mut output = BufferedAudioOutput::new(AudioRingBufferConfig::default());

    assert_eq!(f32::from_bits(output.volume()), 1.0);
    output.set_volume(0.25f32.to_bits());
    assert_eq!(f32::from_bits(output.volume()), 0.25);
    output.set_volume((-1.0f32).to_bits());
    assert_eq!(f32::from_bits(output.volume()), 0.0);
    output.set_volume(f32::NAN.to_bits());
    assert_eq!(f32::from_bits(output.volume()), 1.0);
}

#[test]
fn buffered_audio_output_applies_its_volume() {
    let mut output = BufferedAudioOutput::new(AudioRingBufferConfig::default());
    output.set_volume(0.5f32.to_bits());
    output.push(frame(vec![1.0, -0.5]), &distance, unstretched, &offset).unwrap();
    let mut samples = bits(&[9.0; 4]);
    let read = output.read_interleaved(&mut samples, &offset, &multiply).unwrap();
    assert_eq!((read.frames, read.samples, read.underflow_frames), (1, 2, 1));
    assert_eq!(floats(&samples), [0.5, -0.25, 0.0, 0.0]);
    assert_eq!(output.stats().read_frames, 1);
    assert_eq!(output.clock_snapshot(&offset).underflow_frames, 1);
}

#[test]
fn output_queue_high_water_bounds_rate_transition_latency() {
    assert!(audio_output_queue_has_capacity(11_999, 48_000));
    assert!(!audio_output_queue_has_capacity(12_000, 48_000));
    assert!(audio_output_queue_has_capacity(11_024, 44_100));
    assert!(!audio_output_queue_has_capacity(11_025, 44_100));
    assert!(audio_output_queue_has_capacity(usize::MAX, 0));
}

#[test]
fn volume_ramp_interpolates_per_frame_and_lands_on_target() {
    let (samples, reached) = ramped(&[1.0; 8], 2, 0.0, 1.0, 4);
    assert_eq!(samples, [0.25, 0.25, 0.5, 0.5, 0.75, 0.75, 1.0, 1.0]);
    assert_eq!(reached, 1.0);
}

#[test]
fn volume_ramp_with_equal_endpoints_is_constant_gain() {
    let (samples, reached) = ramped(&[1.0, -0.5, 0.25, 0.0], 2, 0.5, 0.5, 2);
    assert_eq!(samples, [0.5, -0.25, 0.125, 0.0]);
    assert_eq!(reached, 0.5);
}

#[test]
fn volume_ramp_is_monotonic_and_clamps_invalid_endpoints() {
    let (samples, reached) = ramped(&[1.0; 32], 1, 2.0, -1.0, 32);

    for pair in samples.windows(2) {
        assert!(pair[1] <= pair[0], "ramp regressed: {pair:?}");
    }
    assert_eq!(samples[0], 1.0 - 1.0 / 32.0);
    assert_eq!(samples[31], 0.0);
    assert_eq!(reached, 0.0);
}

#[test]
fn volume_ramp_stops_at_the_underflow_boundary() {
    let (samples, reached) = ramped(&[1.0, 1.0, 0.0, 0.0, 0.0, 0.0, 0.0, 0.0], 2, 1.0, 0.5, 1);

    assert_eq!(samples[0], 0.875);
    assert_eq!(samples[1], 0.875);
    assert_eq!(reached, 0.875);
    assert!(
        samples[2..].iter().all(|sample| *sample == 0.0),
        "underflow tail must stay silent: {samples:?}"
    );
}

#[test]
fn volume_ramp_makes_no_progress_without_audible_frames() {
    let (samples, reached) = ramped(&[0.0; 8], 2, 1.0, 0.5, 0);
    assert_eq!(reached, 1.0);
    assert!(samples.iter().all(|sample| *sample == 0.0));
}

#[test]
fn volume_ramp_handles_empty_buffers_and_partial_frames() {
    assert_eq!(ramped(&[], 2, 0.0, 1.0, 0).1, 1.0);

    let (samples, reached) = ramped(&[1.0, 1.0, 1.0], 2, 0.0, 0.5, 1);
    assert_eq!(samples, [0.5, 0.5, 0.5]);
    assert_eq!(reached, 0.5);
}

#[test]
fn volume_ramp_between_the_two_zeros_is_constant() {
    let (samples, reached) = ramped(&[1.0, 1.0], 0, -0.0, 0.0, 1);
    assert_eq!(samples, [0.0, 0.0]);
    assert_eq!(reached, 0.0);
}

#[test]
fn recovery_backoff_doubles_until_attempts_are_exhausted() {
    let mut backoff = RecoveryBackoff::new(Duration::from_millis(200), 5);

    let delays: Vec<_> = std::iter::from_fn(|| backoff.next_delay()).collect();

    assert_eq!(delays, [200, 400, 800, 1600, 3200].map(Duration::from_millis));
    assert!(backoff.is_exhausted());
    assert_eq!(backoff.attempts(), 5);

    backoff.reset();
    assert!(!backoff.is_exhausted());
    assert_eq!(backoff.next_delay(), Some(Duration::from_millis(200)));
}

#[test]
fn recovery_signals_track_disconnect_recover_cycle() {
    let mut signals = RecoverySignals::default();
    assert_eq!(signals.snapshot().recovery_state, AudioRecoveryState::Stable);

    let stats = signals.mark_disconnected(-77);
    assert_eq!(stats.recovery_state, AudioRecoveryState::Disconnected);
    assert_eq!(stats.last_error_code, -77);

    let stats = signals.begin_recovery();
    assert_eq!(stats.recovery_state, AudioRecoveryState::Recovering);
    assert_eq!(stats.recovery_attempts, 1);

    let stats = signals.recovery_succeeded().expect("recovering commits to stable");
    assert_eq!(stats.recovery_state, AudioRecoveryState::Stable);
    assert_eq!(stats.recovery_count, 1);

    // A success must not commit when a fresh disconnect superseded it.
    signals.mark_disconnected(-78);
    assert!(signals.recovery_succeeded().is_none());
    assert_eq!(signals.snapshot().recovery_state, AudioRecoveryState::Disconnected);

    signals.begin_recovery();
    let stats = signals.recovery_failed(-79);
    assert_eq!(stats.recovery_state, AudioRecoveryState::Failed);
    assert_eq!(stats.recovery_failures, 1);
    assert_eq!(stats.last_error_code, -79);

    signals.reset();
    let stats = signals.snapshot();
    assert_eq!(stats.recovery_state, AudioRecoveryState::Stable);
    assert_eq!(stats.last_error_code, 0);
}

#[test]
fn recovery_signals_snapshot_sequence_advances_per_transition() {
    let mut signals = RecoverySignals::default();
    let initial = signals.snapshot().transition_sequence;

    signals.mark_disconnected(-1);
    signals.begin_recovery();
    signals.recovery_succeeded();

    assert_eq!(signals.snapshot().transition_sequence, initial + 3);
}

#[test]
fn recovery_states_have_codes_and_names() {
    let states = [
        AudioRecoveryState::Stable,
        AudioRecoveryState::Disconnected,
        AudioRecoveryState::Recovering,
        AudioRecoveryState::Failed,
    ];
    let names = ["stable", "disconnected", "recovering", "failed"];
    for (code, (state, name)) in states.into_iter().zip(names).enumerate() {
        assert_eq!(decode_recovery_state(code as u8), state);
        assert_eq!(state.as_str(), name);
    }
    assert_eq!(decode_recovery_state(9), AudioRecoveryState::Stable);
}

#[test]
fn ring_buffer_clock_snapshot_tracks_front_audio_pts() {
    let mut buffer = ring(48_000, true);
    buffer
        .push_frame(timed_frame(Duration::from_secs(10), 480), &distance, unstretched, &offset)
        .unwrap();

    assert_eq!(buffer.clock_snapshot(&offset).media_time, Some(Duration::from_secs(10)));

    let mut output = vec![0; 240 * 2];
    buffer.read_interleaved(&mut output, &offset).unwrap();

    assert_eq!(buffer.clock_snapshot(&offset).media_time, Some(Duration::from_millis(10_005)));
    assert_eq!(buffer.clock_snapshot(&offset).queued_frames, 240);
}

#[test]
fn ring_buffer_fast_rate_preserves_pitch_and_media_timeline() {
    let mut buffer = ring(48_000, true);
    buffer.set_playback_rate(2.0f64.to_bits(), &distance);
    for index in 0..8u64 {
        let start = std::time::Duration::from_secs_f64(index as f64 * 2048.0 / 48_000.0);
        let pts = Duration::saturating_from_nanos(10_000_000_000 + start.as_nanos());
        buffer.push_frame(timed_frame(pts, 2048), &distance, halved, &offset).unwrap();
    }

    let queued_frames = buffer.clock_snapshot(&offset).queued_frames;
    assert!(queued_frames > 0);
    assert!(queued_frames < 16_384);

    let mut output = vec![0; queued_frames * 2];
    let result = buffer.read_interleaved(&mut output, &offset).unwrap();

    assert_eq!(result.frames, queued_frames);
    let media_time = buffer.clock_snapshot(&offset).media_time.unwrap();
    let expected = 10_000_000_000
        + std::time::Duration::from_secs_f64(queued_frames as f64 * 2.0 / 48_000.0).as_nanos();
    assert!(media_time.as_nanos().abs_diff(expected) < 2_000_000);
}

#[test]
fn ring_buffer_rate_change_keeps_a_full_prefill_bridge() {
    let mut buffer = ring(48_000, true);
    buffer
        .push_frame(timed_frame(Duration::from_secs(4), 24_000), &distance, unstretched, &offset)
        .unwrap();

    buffer.set_playback_rate(2.0f64.to_bits(), &distance);

    assert_eq!(buffer.clock_snapshot(&offset).queued_frames, 12_000);
    assert_eq!(buffer.clock_snapshot(&offset).media_time, Some(Duration::from_secs(4)));

    let mut output = vec![0; 12_000 * 2];
    let result = buffer.read_interleaved(&mut output, &offset).unwrap();
    assert_eq!(result.frames, 12_000);
    assert_eq!(result.underflow_frames, 0);
}

#[test]
fn ring_buffer_keeps_its_queue_while_the_rate_hardly_changes() {
    let mut buffer = ring(48_000, true);
    buffer
        .push_frame(timed_frame(Duration::from_secs(4), 24_000), &distance, unstretched, &offset)
        .unwrap();
    buffer.set_playback_rate(1.0005f64.to_bits(), &distance);
    assert_eq!(buffer.queued_frames(), 24_000);
    assert_eq!(f64::from_bits(buffer.playback_rate()), 1.0);
    buffer.set_playback_rate(f64::NAN.to_bits(), &distance);
    assert_eq!(buffer.queued_frames(), 24_000);
}

#[test]
fn ring_buffer_clock_survives_frame_drop() {
    let mut buffer = ring(2, true);
    buffer
        .push_frame(timed_frame(Duration::from_secs(1), 4), &distance, unstretched, &offset)
        .unwrap();

    assert_eq!(
        buffer.clock_snapshot(&offset).media_time,
        Some(Duration::from_nanos(1_000_041_667))
    );
}

#[test]
fn ring_buffer_clears() {
    let mut buffer = ring(48_000, true);
    buffer
        .push_frame(timed_frame(Duration::from_secs(1), 480), &distance, unstretched, &offset)
        .unwrap();
    assert_eq!(buffer.queued_duration(&offset), Some(Duration::from_millis(10)));
    assert_eq!(buffer.capacity_frames(), 48_000);
    buffer.clear();
    assert_eq!(buffer.queued_frames(), 0);
    assert_eq!(buffer.clock_snapshot(&offset).media_time, None);
    assert_eq!(buffer.stats().written_frames, 480);
}

#[test]
fn tempo_processor_serves_one_format_and_rate() {
    let low = PcmFormat { sample_rate: 4_000, channels: 0, ..stereo_format() };
    let processor = AudioTempoProcessor::new(low, 64.0f64.to_bits());
    let settings = processor.settings();
    assert_eq!((settings.sample_rate, settings.channels), (8_000, 1));
    assert_eq!(f64::from_bits(settings.tempo), 16.0);
    assert!(settings.quick_seek);
    assert_eq!((settings.sequence_ms, settings.seek_window_ms, settings.overlap_ms), (25, 12, 6));
    assert!(processor.matches(low, 16.0f64.to_bits(), &distance));
    assert!(processor.matches(low, 99.0f64.to_bits(), &distance));
    assert!(!processor.matches(low, 15.9f64.to_bits(), &distance));
    assert!(!processor.matches(stereo_format(), 16.0f64.to_bits(), &distance));
}

#[test]
fn tempo_processor_keeps_the_clock_of_what_comes_out() {
    let mut processor = AudioTempoProcessor::new(stereo_format(), 2.0f64.to_bits());
    let first = processor.process(
        timed_frame(Duration::from_secs(1), 480),
        |fresh, _, frames| {
            assert!(fresh);
            assert_eq!(frames, 480);
            Vec::new()
        },
        &offset,
    );
    assert_eq!(first.start, Some(Duration::from_secs(1)));
    let second = processor.process(
        timed_frame(Duration::from_secs(5), 480),
        |fresh, _, _| {
            assert!(!fresh);
            vec![0; 480]
        },
        &offset,
    );
    assert_eq!(second.start, Some(Duration::from_secs(1)));
    assert_eq!(f64::from_bits(second.media_frames_per_output_frame), 2.0);
    assert_eq!(processor.pending_pts, Some(Duration::from_millis(1_010)));
}

#[test]
fn fed_frames_come_out_at_once() {
    let mut ring = ring(8, true);
    let pts = Duration::from_millis(500);
    let samples = bits(&[0.1, 0.2, 0.3, 0.4]);
    let input = PcmAudioFrame {
        format: stereo_format(),
        pts: Some(pts),
        frames: 2,
        samples: samples.clone(),
    };
    let fed = ring.feed(input, &distance, unstretched, &offset).unwrap();
    assert_eq!(fed.samples, samples);
    assert_eq!(fed.frames, 2);
    assert_eq!(fed.media_time, Some(pts));
    assert_eq!(ring.queued_frames(), 0);
    assert_eq!(ring.stats().read_frames, 2);
    assert_eq!(ring.stats().underflow_frames, 0);
    let nothing = ring.drain(&offset).unwrap();
    assert!(nothing.samples.is_empty());
    assert_eq!(nothing.frames, 0);

    ring.set_playback_rate(2.0f64.to_bits(), &distance);
    let fed = ring.feed(timed_frame(pts, 4), &distance, halved, &offset).unwrap();
    assert_eq!(fed.frames, 2);
    assert_eq!(fed.samples.len(), 4);
}

#[test]
fn frames_of_another_format_are_not_fed() {
    let mut ring = ring(8, true);
    let mut mono = frame(vec![0.5, 0.5]);
    mono.format.channels = 1;
    let expected = AudioError::FormatChanged { expected: stereo_format(), actual: mono.format };
    assert_eq!(ring.feed(mono, &distance, unstretched, &offset).unwrap_err(), expected);

    let config = AudioRingBufferConfig { capacity_frames: 8, drop_oldest_on_overflow: true };
    let mut fresh = AudioRingBuffer::new(config);
    assert_eq!(fresh.drain(&offset).unwrap_err(), AudioError::FormatNotConfigured);
    let mut silent = frame(Vec::new());
    silent.format.channels = 0;
    assert_eq!(
        fresh.feed(silent, &distance, unstretched, &offset).unwrap_err(),
        AudioError::InvalidChannelCount
    );
}

#[test]
fn recovery_backoff_keeps_doubling_up_to_the_longest_span() {
    let mut backoff = RecoveryBackoff::new(Duration::from_nanos(1), 120);
    let delays: Vec<u128> =
        std::iter::from_fn(|| backoff.next_delay()).map(|delay| delay.as_nanos()).collect();
    assert_eq!(delays.len(), 120);
    assert_eq!(delays[31], 1 << 31);
    assert_eq!(delays[32], 1 << 32);
    assert_eq!(delays[39], 1 << 39);
    assert_eq!(delays[93], 1 << 93);
    assert_eq!(delays[94], MAX_NANOS);
    assert_eq!(delays[119], MAX_NANOS);

    let mut immediate = RecoveryBackoff::new(Duration::zero(), u32::MAX);
    assert_eq!(immediate.next_delay(), Some(Duration::zero()));
    assert_eq!(immediate.next_delay(), Some(Duration::zero()));
}

#[test]
fn spans_are_capped_at_the_longest() {
    assert_eq!(Duration::saturating_from_nanos(u128::MAX).as_nanos(), MAX_NANOS);
    let longest = Duration::from_secs(u64::MAX).saturating_add(Duration::from_secs(1));
    assert_eq!(longest.as_nanos(), MAX_NANOS);
    assert_eq!(Duration::from_millis(3).saturating_double(4), Duration::from_millis(48));
    assert_eq!(Duration::from_millis(3).saturating_mul(4), Duration::from_millis(12));
}
