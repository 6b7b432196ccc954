use erika::android::{
    AndroidDataSpaceErrorKind, AndroidDataSpaceVerification, DataSpaceCheck,
    ADATASPACE_SCRGB_LINEAR,
};
use erika::color::{ColorPrimaries, TransferFunction};
use erika::renderer::context::RenderFrameContext;
use erika::renderer::danmaku::{
    glyph_draws, prepare_danmaku_atlas, AtlasAction, DanmakuAtlasUpdate, DanmakuGlyphAtlas,
    DanmakuGlyphInstance, DanmakuRenderPlan, DanmakuViewport,
};
use erika::renderer::frame::DecoderBackend;
use erika::renderer::output::{
    effective_extended_linear_headroom, OutputDescription, OutputFallbackReason,
    OutputHeadroomState, OutputMode, SurfaceOutputCapabilities,
};
use erika::renderer::pipeline::{
    LumaUpscalerMode, SourceColorState, VideoRenderPipeline, VideoUniforms,
};
use erika::renderer::presentation::{aspect_fit_viewport, Pixels, PresentationRect};
use erika::renderer::stats::{
    add_retired_renderer_stats, LumaUpscalerBackendStatus, RendererRuntimeStats,
};
use erika::renderer::surface::{
    PlatformSurface, SurfaceMetrics, WgpuSurfaceHandle, WgpuSurfaceKind,
};
use erika::renderer::wgpu::backend::{
    attempted_candidate_prefix, backend_candidate_order, candidate_labels,
    fit_extent_without_upscale, ohos_surface_video_enabled, ohos_vulkan_video_enabled,
    recovery_candidate_order, wgpu_backend_candidates, wgpu_instance_flags, Backend, Backends, DeviceType, Platform,
};
use erika::renderer::wgpu::device::{
    requested_device_limits, AdapterReport, CandidateSearch, DeviceFailure, DeviceLimits,
    DeviceOutcome, DeviceReply, DeviceRequest, DeviceStep,
};
use erika::renderer::wgpu::draw::{
    batch_uniforms, CaptureError, RenderDecision, TestFrameTarget, UpscaleOutcome,
    UpscalerInput,
};
use erika::renderer::wgpu::readback::{
    readback_layout, strip_row_padding, WgpuOffscreenReadback,
};
use erika::renderer::wgpu::recovery::{
    android_wgpu_drop_poll_type, judge_operation, panic_payload_message,
    AndroidRecoveringWgpuRenderer, AndroidWgpuDeviceHealth, AndroidWgpuRecoveryPolicy,
    OperationEvent, OperationResult, OperationVerdict, RecoveryStep, RestoreEvent, ANDROID_WGPU_DROP_POLL_TIMEOUT_MILLIS,
};
use erika::renderer::wgpu::surface::{
    preferred_sdr_surface_format, select_wgpu_surface_output, AcquireAction, CompositeAlphaMode,
    PresentMode, SurfaceAcquisition, SurfaceError, SurfaceStatus, TextureFormat,
};
use erika::renderer::wgpu::upload::{
    android_ahb_intermediate_format, check_planes, native_buffer_extent, prepare_planar_upload,
    AndroidAhbIntermediateFormat, BufferCrop, ConversionOutcome, DecodedFrame, FrameRoute,
    NativeBufferError, PlanarFrame, PlanarPixelFormat, PlanarUploadPath, PlaneError,
    SharedBufferError, SharedBufferImport, SharedBufferRoute,
};
use erika::renderer::wgpu::{UpscalerReport, WgpuRenderer};
use erika::time::Duration;

fn exceeds(value: u32, base: u32, factor: u32) -> bool {
    f32::from_bits(value) > f32::from_bits(base) * f32::from_bits(factor)
}

fn multiply(left: u32, right: u32) -> u32 {
    (f32::from_bits(left) * f32::from_bits(right)).to_bits()
}

fn distance(left: u32, right: u32) -> u32 {
    (f32::from_bits(left) - f32::from_bits(right)).abs().to_bits()
}

fn gamut(_: ColorPrimaries, _: ColorPrimaries) -> [[u32; 4]; 3] {
    [[0; 4]; 3]
}

fn float(value: f32) -> u32 {
    value.to_bits()
}

fn sdr_uniforms() -> VideoUniforms {
    VideoUniforms::from_pipeline(
        &VideoRenderPipeline::sdr_default(&exceeds),
        false,
        false,
        [[0; 4]; 3],
    )
}

fn device(candidate_index: usize) -> DeviceOutcome {
    DeviceOutcome { candidate_index, supports_16bit_norm: true, interop: false }
}

fn renderer() -> WgpuRenderer {
    WgpuRenderer::new(Platform::Android, device(0), OutputMode::Sdr, false)
}

fn report() -> UpscalerReport {
    UpscalerReport {
        status: LumaUpscalerBackendStatus::Off,
        fallback_count: 0,
        upscaled_frames: 0,
        last_encode_duration: Duration::zero(),
    }
}

fn plain(limits: &wgpu::Limits) -> DeviceLimits {
    DeviceLimits {
        max_texture_dimension_1d: limits.max_texture_dimension_1d,
        max_texture_dimension_2d: limits.max_texture_dimension_2d,
        max_texture_dimension_3d: limits.max_texture_dimension_3d,
        max_uniform_buffer_binding_size: limits.max_uniform_buffer_binding_size,
        min_uniform_buffer_offset_alignment: limits.min_uniform_buffer_offset_alignment,
        min_storage_buffer_offset_alignment: limits.min_storage_buffer_offset_alignment,
        max_compute_workgroup_storage_size: limits.max_compute_workgroup_storage_size,
        max_compute_invocations_per_workgroup: limits.max_compute_invocations_per_workgroup,
        max_compute_workgroup_size_x: limits.max_compute_workgroup_size_x,
        max_compute_workgroup_size_y: limits.max_compute_workgroup_size_y,
        max_compute_workgroup_size_z: limits.max_compute_workgroup_size_z,
        max_compute_workgroups_per_dimension: limits.max_compute_workgroups_per_dimension,
    }
}

fn android_window(raw_window: u64) -> WgpuSurfaceHandle {
    WgpuSurfaceHandle::new(
        WgpuSurfaceKind::AndroidNativeWindow,
        raw_window,
        0,
        1280,
        720,
        float(2.0),
    )
}

fn hdr_capabilities() -> SurfaceOutputCapabilities {
    SurfaceOutputCapabilities {
        extended_linear: true,
        direct_composition: true,
        desired_headroom: float(4.0),
        fallback_reason: OutputFallbackReason::NotNeeded,
    }
}

const FORMATS: [TextureFormat; 2] = [TextureFormat::Rgba8Unorm, TextureFormat::Rgba16Float];

#[test]
fn conversion_extent_caps_4k_to_the_display_without_upscaling_smaller_video() {
    assert_eq!(fit_extent_without_upscale(3840, 2160, 2800, 1264), (2248, 1264));
    assert_eq!(fit_extent_without_upscale(1920, 1080, 2800, 1264), (1920, 1080));
    assert_eq!(fit_extent_without_upscale(2160, 3840, 1264, 2800), (1264, 2248));
}

#[test]
fn conversion_extent_stays_positive() {
    assert_eq!(fit_extent_without_upscale(0, 9, 4, 4), (0, 9));
    assert_eq!(fit_extent_without_upscale(8, 8, 0, 0), (1, 1));
    assert_eq!(fit_extent_without_upscale(u32::MAX, 1, 16, 16), (16, 1));
    assert_eq!(fit_extent_without_upscale(1, u32::MAX, 16, 16), (1, 16));
}

#[test]
fn backend_candidate_recovery_order_rotates_and_excludes_attempted_backends() {
    assert_eq!(backend_candidate_order(4, 2, &[]), vec![2, 3, 0, 1]);
    assert_eq!(backend_candidate_order(4, 2, &[2, 0]), vec![3, 1]);
    assert_eq!(backend_candidate_order(4, 7, &[3]), vec![0, 1, 2]);
    assert!(backend_candidate_order(0, 0, &[]).is_empty());
}

#[test]
fn runtime_recovery_records_initialization_failures_before_selected_candidate() {
    let order = vec![1, 2, 3, 0];
    assert_eq!(attempted_candidate_prefix(&order, Some(3)), vec![1, 2, 3]);
    assert_eq!(attempted_candidate_prefix(&order, Some(1)), vec![1]);
    assert_eq!(attempted_candidate_prefix(&order, None), order);
}

#[test]
fn recovery_starts_after_the_current_candidate() {
    assert_eq!(recovery_candidate_order(4, 1, &[1]), vec![2, 3, 0]);
    assert_eq!(recovery_candidate_order(4, 3, &[3, 0]), vec![1, 2]);
}

#[test]
fn android_backend_candidates_keep_plain_vulkan_before_gles() {
    let candidates = wgpu_backend_candidates(Platform::Android, false);
    let labels = candidates.iter().map(|candidate| candidate.label).collect::<Vec<_>>();

    assert_eq!(labels, vec!["vulkan-ahb", "vulkan", "gles", "vulkan-software"]);
    assert!(candidates[0].android_ahb_interop);
    assert!(!candidates[1].android_ahb_interop);
    assert!(!candidates[2].android_ahb_interop);
    assert!(!candidates[1].allow_cpu_adapter);
    assert!(!candidates[2].allow_cpu_adapter);
    assert!(candidates[3].allow_cpu_adapter);
    assert!(candidates[..3].iter().all(|candidate| !candidate.force_fallback_adapter));
    assert!(candidates[3].force_fallback_adapter);
    assert_eq!(candidate_labels(&candidates, &[2, 9, 0]), vec!["gles", "unknown", "vulkan-ahb"]);
}

#[test]
fn every_platform_has_a_candidate() {
    for platform in [
        Platform::Android,
        Platform::Ohos,
        Platform::Apple,
        Platform::Windows,
        Platform::Other,
    ] {
        assert!(!wgpu_backend_candidates(platform, false).is_empty());
        assert!(!wgpu_backend_candidates(platform, true).is_empty());
    }
}

#[test]
fn ohos_vulkan_video_can_be_switched_off() {
    assert!(ohos_vulkan_video_enabled(None));
    for value in ["", "1", "true", "on", "falsehood", "of"] {
        assert!(ohos_vulkan_video_enabled(Some(value)), "{value}");
    }
    for value in ["0", "false", "FALSE", "off", "Off"] {
        assert!(!ohos_vulkan_video_enabled(Some(value)), "{value}");
    }
}

#[test]
fn android_discards_debug_labels() {
    assert_eq!(wgpu_instance_flags(Platform::Other, 0b1010, 0b0100), 0b1010);
    assert_eq!(wgpu_instance_flags(Platform::Android, 0b1010, 0b0100), 0b1110);
}

#[test]
fn android_device_health_promotes_device_lost_over_prior_validation() {
    let mut health = AndroidWgpuDeviceHealth::new();
    health.record("validation", "bad surface configuration".to_string(), false);
    health.record("internal", "later internal error".to_string(), false);
    assert_eq!(health.failure().unwrap().kind, "validation");

    health.record("device_lost", "unknown: reset".to_string(), true);
    let failure = health.failure().unwrap();
    assert_eq!(failure.kind, "device_lost");
    assert_eq!(failure.reason, "unknown: reset");
}

#[test]
fn a_failed_poll_is_a_failure_of_the_device() {
    let mut health = AndroidWgpuDeviceHealth::new();
    assert!(health.polled(None));
    assert!(!health.polled(Some("timeout".to_string())));
    assert_eq!(health.failure().unwrap().kind, "poll_error");
    assert!(!health.polled(None));
}

#[test]
fn retired_renderer_stats_preserve_current_surface_and_accumulate_counters() {
    let mut current = RendererRuntimeStats {
        surface_width: 1920,
        surface_height: 1080,
        rendered_frames: 4,
        hardware_video_frames: 5,
        attached: true,
        ..RendererRuntimeStats::default()
    };
    let retired = RendererRuntimeStats {
        surface_width: 1280,
        surface_height: 720,
        rendered_frames: 7,
        hardware_video_frames: 9,
        attached: false,
        ..RendererRuntimeStats::default()
    };

    add_retired_renderer_stats(&mut current, retired);

    assert_eq!(current.surface_width, 1920);
    assert_eq!(current.surface_height, 1080);
    assert!(current.attached);
    assert_eq!(current.rendered_frames, 11);
    assert_eq!(current.hardware_video_frames, 14);
}

#[test]
fn android_renderer_drop_poll_is_bounded() {
    let poll = android_wgpu_drop_poll_type();
    assert!(poll.submission.is_none());
    assert_eq!(
        poll.timeout,
        Some(Duration::from_millis(ANDROID_WGPU_DROP_POLL_TIMEOUT_MILLIS))
    );
}

#[test]
fn panics_without_text_have_a_message() {
    assert_eq!(panic_payload_message(Some("lost".to_string())), "lost");
    assert_eq!(panic_payload_message(None), "non-string panic payload");
}

#[test]
fn wgpu_surface_extent_is_not_multiplied_by_content_scale() {
    let handle = WgpuSurfaceHandle::new(
        WgpuSurfaceKind::AndroidNativeWindow,
        1,
        0,
        1081,
        607,
        float(2.625),
    );

    assert_eq!(handle.metrics().physical_size(), (1081, 607));
    assert_eq!(handle.metrics().content_scale, float(2.625));
}

#[test]
fn requested_limits_accept_minimum_uniform_binding_without_losing_resolution() {
    let adapter_limits = wgpu::Limits {
        max_texture_dimension_2d: 16_384,
        max_uniform_buffer_binding_size: 16 * 1024,
        ..wgpu::Limits::downlevel_defaults()
    };

    let requested = requested_device_limits(plain(&adapter_limits), Backend::Vulkan);

    assert_eq!(requested.max_texture_dimension_2d, 16_384);
    assert_eq!(requested.max_uniform_buffer_binding_size, 16 * 1024);
    assert!(sdr_uniforms().bytes().len() <= 16 * 1024);
}

#[test]
fn requested_limits_accept_gles_without_compute_support() {
    let adapter_limits = wgpu::Limits {
        max_texture_dimension_2d: 8192,
        max_uniform_buffer_binding_size: 16 * 1024,
        max_compute_workgroup_storage_size: 0,
        max_compute_invocations_per_workgroup: 0,
        max_compute_workgroup_size_x: 0,
        max_compute_workgroup_size_y: 0,
        max_compute_workgroup_size_z: 0,
        max_compute_workgroups_per_dimension: 0,
        ..wgpu::Limits::downlevel_webgl2_defaults()
    };

    let requested = requested_device_limits(plain(&adapter_limits), Backend::Gl);

    assert_eq!(requested.max_texture_dimension_2d, 8192);
    assert_eq!(requested.max_uniform_buffer_binding_size, 16 * 1024);
    assert_eq!(requested.max_compute_workgroups_per_dimension, 0);
}

#[test]
fn requested_limits_are_the_portable_ones_with_the_adapters_resolution() {
    let adapter = wgpu::Limits {
        max_texture_dimension_1d: 11,
        max_texture_dimension_2d: 12,
        max_texture_dimension_3d: 13,
        min_uniform_buffer_offset_alignment: 64,
        min_storage_buffer_offset_alignment: 32,
        ..wgpu::Limits::default()
    };
    for (backend, portable) in [
        (Backend::Vulkan, wgpu::Limits::downlevel_defaults()),
        (Backend::Gl, wgpu::Limits::downlevel_webgl2_defaults()),
    ] {
        let expected = portable.using_resolution(adapter.clone()).using_alignment(adapter.clone());
        assert_eq!(requested_device_limits(plain(&adapter), backend), plain(&expected));
    }
}

#[test]
fn android_extended_linear_surface_requires_vulkan_fp16_and_direct_composition() {
    let requested = OutputMode::extended_linear(float(4.0));
    let select = |capabilities, backend| {
        select_wgpu_surface_output(requested, capabilities, backend, &FORMATS, &multiply).unwrap()
    };

    let active = select(hdr_capabilities(), Backend::Vulkan);
    assert_eq!(active.format, TextureFormat::Rgba16Float);
    assert!(active.output.extended_linear);
    assert_eq!(active.fallback_reason, OutputFallbackReason::NotNeeded);
    assert_eq!(active.output.target.reference_white_nits, float(80.0));

    let gles = select(hdr_capabilities(), Backend::Gl);
    assert_eq!(gles.format, TextureFormat::Rgba8Unorm);
    assert!(!gles.output.extended_linear);
    assert_eq!(gles.fallback_reason, OutputFallbackReason::WgpuBackendNotVulkan);

    let texture_composited = select(
        SurfaceOutputCapabilities { direct_composition: false, ..hdr_capabilities() },
        Backend::Vulkan,
    );
    assert!(!texture_composited.output.extended_linear);
    assert_eq!(texture_composited.fallback_reason, OutputFallbackReason::HybridCompositionRequired);

    for reason in [
        OutputFallbackReason::DisplayHdrUnsupported,
        OutputFallbackReason::NativeWindowDataSpaceApiUnavailable,
    ] {
        let unsupported = select(
            SurfaceOutputCapabilities {
                extended_linear: false,
                direct_composition: true,
                desired_headroom: float(0.0),
                fallback_reason: reason,
            },
            Backend::Vulkan,
        );
        assert_eq!(unsupported.fallback_reason, reason);
    }
}

#[test]
fn extended_linear_output_needs_a_half_float_format() {
    let selected = select_wgpu_surface_output(
        OutputMode::extended_linear(float(4.0)),
        hdr_capabilities(),
        Backend::Vulkan,
        &[TextureFormat::Bgra8Unorm],
        &multiply,
    )
    .unwrap();
    assert_eq!(
        selected.fallback_reason,
        OutputFallbackReason::Rgba16FloatSurfaceFormatUnavailable
    );
    assert_eq!(selected.format, TextureFormat::Bgra8Unorm);
    assert!(preferred_sdr_surface_format(&[]).is_none());
}

#[test]
fn extended_linear_headroom_respects_explicit_and_reported_limits() {
    let requested = OutputMode::extended_linear(float(4.0));
    let auto = SurfaceOutputCapabilities { desired_headroom: float(0.0), ..hdr_capabilities() };
    let effective = |capabilities, state| {
        f32::from_bits(effective_extended_linear_headroom(requested, capabilities, state))
    };
    let reported = |headroom: f32| OutputHeadroomState::reported(float(headroom), true);
    assert_eq!(effective(auto, OutputHeadroomState::default()), 4.0);
    // A pre-content ratio of 1 must not suppress the first HDR signal.
    assert_eq!(effective(auto, reported(1.0)), 4.0);
    assert_eq!(effective(auto, reported(2.5)), 2.5);

    let explicit = SurfaceOutputCapabilities { desired_headroom: float(3.0), ..auto };
    assert_eq!(effective(explicit, reported(3.5)), 3.0);
    assert_eq!(effective(explicit, reported(2.0)), 2.0);
}

#[test]
fn legacy_apple_edr_request_does_not_activate_android_scrgb() {
    let selection = select_wgpu_surface_output(
        OutputMode::apple_edr(float(4.0)),
        hdr_capabilities(),
        Backend::Vulkan,
        &FORMATS,
        &multiply,
    )
    .unwrap();

    assert_eq!(selection.format, TextureFormat::Rgba8Unorm);
    assert!(!selection.output.extended_linear);
    assert_eq!(selection.fallback_reason, OutputFallbackReason::LegacyAppleEdrUnsupported);
}

#[test]
fn planar_upload_downconverts_p010_only_when_16bit_norm_is_missing() {
    let pack = |codes: &[u16]| {
        codes.iter().flat_map(|code| (*code << 6).to_le_bytes()).collect::<Vec<_>>()
    };
    let upper = |bytes: &[u8]| bytes.chunks_exact(2).map(|pair| pair[1]).collect::<Vec<_>>();
    let downconvert = |frame: PlanarFrame| -> Result<PlanarFrame, ()> {
        Ok(PlanarFrame {
            format: PlanarPixelFormat::Nv12,
            luma: upper(&frame.luma),
            chroma: upper(&frame.chroma),
            ..frame
        })
    };
    let p010 = PlanarFrame {
        format: PlanarPixelFormat::P010,
        width: 2,
        height: 2,
        luma: pack(&[64, 940, 512, 1023]),
        chroma: pack(&[512, 960]),
    };
    let mut uniforms = sdr_uniforms();
    uniforms.source_transfer = 77;
    uniforms.nits = [1_000.0, 100.0, 203.0, 100.0].map(float);

    let native = prepare_planar_upload(p010.clone(), uniforms, true, downconvert).unwrap();
    let mut expected_native_uniforms = uniforms;
    expected_native_uniforms.is_p010 = 1;
    assert_eq!(native.path, PlanarUploadPath::Native);
    assert_eq!(native.frame, p010);
    assert!(native.uniforms == expected_native_uniforms);

    let fallback = prepare_planar_upload(p010, uniforms, false, downconvert).unwrap();
    let mut expected_fallback_uniforms = uniforms;
    expected_fallback_uniforms.is_p010 = 0;
    assert_eq!(fallback.path, PlanarUploadPath::CpuP010ToNv12);
    assert_eq!(fallback.frame.format, PlanarPixelFormat::Nv12);
    assert_eq!(fallback.frame.luma, vec![16, 235, 128, 255]);
    assert_eq!(fallback.frame.chroma, vec![128, 240]);
    assert!(fallback.uniforms == expected_fallback_uniforms);

    let nv12 = fallback.frame;
    let native_nv12 = prepare_planar_upload(nv12.clone(), uniforms, false, downconvert).unwrap();
    assert_eq!(native_nv12.path, PlanarUploadPath::Native);
    assert_eq!(native_nv12.frame, nv12);
    assert_eq!(native_nv12.uniforms.is_p010, 0);
}

fn lengths(rect: PresentationRect) -> [f64; 4] {
    [rect.x, rect.y, rect.width, rect.height]
        .map(|Pixels { numerator, denominator }| numerator as f64 / denominator as f64)
}

#[test]
fn aspect_fit_viewport_letterboxes_and_pillarboxes() {
    assert_eq!(lengths(aspect_fit_viewport(1920, 1080, 1000, 1000)), [0.0, 218.75, 1000.0, 562.5]);
    assert_eq!(lengths(aspect_fit_viewport(1080, 1920, 1000, 1000)), [218.75, 0.0, 562.5, 1000.0]);
}

#[test]
fn wgpu_renderer_render_test_frame_without_surface_uses_offscreen_path() {
    let mut renderer = renderer();
    let TestFrameTarget::Offscreen { width, height } = renderer.render_test_frame() else {
        panic!("there is no surface");
    };
    assert_eq!((width, height), (16, 16));
    renderer.clear_offscreen(width, height).unwrap();
    renderer.offscreen_cleared();
    renderer.clear_presented();
    assert_eq!(renderer.stats().rendered_frames, 1);
    assert_eq!(renderer.stats().offscreen_frames, 1);
    assert_eq!(renderer.clear_offscreen(0, 4), Err(CaptureError::ZeroSize));
}

#[test]
fn renderer_backend_capture_uses_requested_size_and_aspect_fit() {
    let mut renderer = renderer();
    renderer.upload_nv12(4, 2, vec![235; 8], vec![128; 4], sdr_uniforms()).unwrap();

    let context = RenderFrameContext::new(Duration::zero(), 1).output_size(4, 4);
    assert!(matches!(
        renderer.plan_capture(context, 4, 4),
        Ok(RenderDecision::Draw { danmaku: None, overlays: false })
    ));
    let plan = renderer
        .plan_draw(
            4,
            4,
            4,
            OutputDescription::sdr(),
            LumaUpscalerBackendStatus::Off,
            &exceeds,
            &gamut,
        )
        .expect("current wgpu frame captured");
    assert_eq!(lengths(plan.viewport), [0.0, 1.0, 4.0, 2.0]);
    renderer.frame_captured(0);
    assert_eq!(renderer.stats().offscreen_frames, 1);
    assert!(matches!(renderer.plan_capture(context, 0, 4), Err(CaptureError::ZeroSize)));
}

#[test]
fn transition_snapshot_remains_available_for_capture() {
    let mut renderer = renderer();
    renderer.upload_nv12(4, 2, vec![235; 8], vec![128; 4], sdr_uniforms()).unwrap();

    renderer.preserve_current_frame_for_track_transition();
    renderer.preserve_current_frame_for_transition();

    let context = RenderFrameContext::new(Duration::from_secs(15), 2).output_size(4, 4);
    assert!(matches!(renderer.plan_capture(context, 4, 4), Ok(RenderDecision::Draw { .. })));
    assert_eq!(renderer.render_current_offscreen(), Ok(Some((4, 2))));
}

#[test]
fn full_clear_removes_current_frame_from_capture() {
    let mut renderer = renderer();
    renderer.upload_nv12(4, 2, vec![235; 8], vec![128; 4], sdr_uniforms()).unwrap();

    assert!(!renderer.clear_current_frame());

    let context = RenderFrameContext::new(Duration::zero(), 1).output_size(4, 4);
    assert!(matches!(renderer.plan_capture(context, 4, 4), Ok(RenderDecision::NothingToShow)));
    assert_eq!(renderer.render_current_offscreen(), Ok(None));
}

fn glyph() -> DanmakuGlyphInstance {
    DanmakuGlyphInstance {
        item_id: 1,
        rect: [1.0, 2.0, 4.0, 4.0].map(float),
        tex_rect: [0.0, 0.0, 1.0, 1.0].map(float),
        color_rgba: [1.0, 1.0, 1.0, 1.0].map(float),
        outline_rgba: [0.0, 0.0, 0.0, 0.75].map(float),
        shadow_rgba: [0.0, 0.0, 0.0, 0.0].map(float),
        shadow_offset: [1.0, 1.0].map(float),
    }
}

fn glyph_atlas(version: u64, update: Option<DanmakuAtlasUpdate>) -> DanmakuGlyphAtlas {
    DanmakuGlyphAtlas {
        width: 4,
        height: 4,
        stride: 4,
        fill_alpha: vec![255; 16],
        outline_alpha: vec![64; 16],
        version,
        update,
    }
}

#[test]
fn wgpu_renderer_prepares_danmaku_glyph_atlas_draws_and_reuses_cache() {
    let atlas = glyph_atlas(42, None);
    let items = vec![glyph()];
    let mut cache = None;

    assert_eq!(prepare_danmaku_atlas(&mut cache, &atlas), AtlasAction::Upload);
    assert_eq!(glyph_draws(&items).len(), 2);
    assert!(cache.as_ref().is_some_and(|cache| cache.can_reuse_for(&atlas)));

    assert_eq!(prepare_danmaku_atlas(&mut cache, &atlas), AtlasAction::Reuse);
    assert_eq!(glyph_draws(&items).len(), 2);
    assert!(cache.as_ref().is_some_and(|cache| cache.can_reuse_for(&atlas)));

    let update = DanmakuAtlasUpdate { from_version: 42, x: 1, y: 1, width: 1, height: 1 };
    let mut updated_atlas = glyph_atlas(43, Some(update));
    updated_atlas.fill_alpha[5] = 128;
    updated_atlas.outline_alpha[5] = 192;
    assert_eq!(
        prepare_danmaku_atlas(&mut cache, &updated_atlas),
        AtlasAction::Update { update, offset: 5 }
    );
    assert!(cache.as_ref().is_some_and(|cache| cache.can_reuse_for(&updated_atlas)));
    assert!(!cache.as_ref().is_some_and(|cache| cache.can_reuse_for(&atlas)));
}

#[test]
fn an_update_of_another_version_uploads_the_whole_atlas() {
    let mut cache = None;
    prepare_danmaku_atlas(&mut cache, &glyph_atlas(42, None));
    let update = DanmakuAtlasUpdate { from_version: 41, x: 1, y: 1, width: 1, height: 1 };
    assert_eq!(
        prepare_danmaku_atlas(&mut cache, &glyph_atlas(43, Some(update))),
        AtlasAction::Upload
    );
    let widened = DanmakuGlyphAtlas {
        stride: 5,
        ..glyph_atlas(44, Some(DanmakuAtlasUpdate { from_version: 43, ..update }))
    };
    assert_eq!(prepare_danmaku_atlas(&mut cache, &widened), AtlasAction::Upload);
}

#[test]
fn wgpu_renderer_rejects_metal_surface() {
    let renderer = renderer();
    let result = renderer.check_surface(PlatformSurface::Metal { layer: 42 });

    assert_eq!(result, Err(SurfaceError::NotWgpu));
}

#[test]
fn wgpu_renderer_rejects_foreign_and_null_windows() {
    let renderer = renderer();
    let foreign = WgpuSurfaceHandle::new(WgpuSurfaceKind::WindowsHwnd, 1, 0, 1, 1, float(1.0));
    assert_eq!(
        renderer.check_surface(PlatformSurface::Wgpu { handle: foreign }),
        Err(SurfaceError::KindNotWired { kind: WgpuSurfaceKind::WindowsHwnd })
    );
    assert_eq!(
        renderer.check_surface(PlatformSurface::Wgpu { handle: android_window(0) }),
        Err(SurfaceError::NullWindow { kind: WgpuSurfaceKind::AndroidNativeWindow })
    );
    assert_eq!(
        renderer.check_surface(PlatformSurface::Wgpu { handle: android_window(7) }),
        Ok(android_window(7))
    );
}

#[test]
fn wgpu_renderer_is_usable_as_dyn_backend_and_reports_no_current_frame() {
    let renderer = renderer();
    assert!(matches!(
        renderer.plan_render(RenderFrameContext::new(Duration::zero(), 1)),
        RenderDecision::NothingToShow
    ));
}

#[test]
fn wgpu_video_rejects_wrong_plane_sizes() {
    let mut renderer = renderer();

    // Luma too short for a 4x4 frame.
    let result = renderer.upload_nv12(4, 4, vec![0; 8], vec![0; 8], sdr_uniforms());
    assert_eq!(result.err(), Some(PlaneError::LumaSize { actual: 8, expected: 16 }));

    // Odd dimensions are rejected.
    let result = renderer.upload_nv12(3, 4, vec![0; 12], vec![0; 4], sdr_uniforms());
    assert_eq!(result.err(), Some(PlaneError::ChromaSize { actual: 4, expected: 8 }));

    let result = renderer.upload_nv12(0, 4, vec![], vec![], sdr_uniforms());
    assert_eq!(result.err(), Some(PlaneError::ZeroSize));
    assert!(renderer.current_video.is_none());
}

#[test]
fn planes_of_both_formats_are_measured() {
    let frame = PlanarFrame {
        format: PlanarPixelFormat::P010,
        width: 4,
        height: 2,
        luma: vec![0; 16],
        chroma: vec![0; 8],
    };
    let layout = check_planes(&frame).unwrap();
    assert_eq!((layout.chroma_width, layout.chroma_height), (2, 1));
    assert_eq!((layout.luma_bytes_per_row, layout.chroma_bytes_per_row), (8, 8));
}

#[test]
fn uploads_are_numbered() {
    let mut renderer = renderer();
    let first = renderer.upload_nv12(2, 2, vec![0; 4], vec![0; 2], sdr_uniforms()).unwrap();
    let second = renderer.upload_nv12(2, 2, vec![0; 4], vec![0; 2], sdr_uniforms()).unwrap();
    assert!(second.frame_token > first.frame_token);
    let third = renderer.upload_converted_rgb_texture(8, 8, sdr_uniforms(), None).unwrap();
    assert!(third > second.frame_token);
    assert!(renderer.current_video.unwrap().is_rgb);
}

#[test]
fn frames_take_the_route_of_their_decoder() {
    let mut renderer = renderer();
    let software = DecodedFrame {
        backend: DecoderBackend::Software,
        is_mediacodec: false,
        is_ohos_avcodec_surface: false,
        has_planes: true,
        has_hw_frames_context: false,
    };
    assert_eq!(renderer.route_player_frame(software), FrameRoute::Planes);
    assert_eq!(renderer.stats().software_video_frames, 1);
    let mediacodec = DecodedFrame {
        backend: DecoderBackend::MediaCodec,
        is_mediacodec: true,
        has_planes: false,
        ..software
    };
    assert_eq!(renderer.route_player_frame(mediacodec), FrameRoute::SharedBuffer);
    let copied = DecodedFrame { backend: DecoderBackend::VideoToolbox, ..software };
    assert_eq!(renderer.route_player_frame(copied), FrameRoute::Planes);
    assert_eq!(renderer.stats().cpu_video_frame_fallbacks, 1);
    let opaque = DecodedFrame { has_planes: false, has_hw_frames_context: true, ..software };
    assert_eq!(renderer.route_player_frame(opaque), FrameRoute::HardwareWithoutInterop);
    let packed = DecodedFrame { has_planes: false, ..software };
    assert_eq!(renderer.route_player_frame(packed), FrameRoute::NotPlanar);
}

#[test]
fn ohos_surface_video_has_to_be_switched_on() {
    assert!(!ohos_surface_video_enabled(None));
    for value in ["1", "true", "TRUE", "True"] {
        assert!(ohos_surface_video_enabled(Some(value)), "{value}");
    }
    for value in ["", "0", "on", "yes", "11", "truest"] {
        assert!(!ohos_surface_video_enabled(Some(value)), "{value}");
    }
}

#[test]
fn shared_buffers_are_read_before_images() {
    let on = |platform, interop| {
        let device = DeviceOutcome { interop, ..device(0) };
        WgpuRenderer::new(platform, device, OutputMode::Sdr, false)
    };
    let android = on(Platform::Android, true);
    assert_eq!(android.shared_buffer_route(false), Ok(SharedBufferRoute::NativeBuffer));
    assert!(android.supports_mediacodec_surface_frames(false, false));
    let android = on(Platform::Android, false);
    assert_eq!(
        android.shared_buffer_route(true),
        Err(SharedBufferError::NativeBufferInteropMissing)
    );
    assert!(!android.supports_mediacodec_surface_frames(true, true));
    let ohos = on(Platform::Ohos, true);
    assert_eq!(ohos.shared_buffer_route(true), Ok(SharedBufferRoute::NativeBuffer));
    assert!(ohos.supports_mediacodec_surface_frames(true, false));
    assert!(!ohos.supports_mediacodec_surface_frames(false, false));
    let ohos = on(Platform::Ohos, false);
    assert_eq!(ohos.shared_buffer_route(true), Ok(SharedBufferRoute::NativeImage));
    assert!(ohos.supports_mediacodec_surface_frames(false, true));
    assert_eq!(
        ohos.shared_buffer_route(false),
        Err(SharedBufferError::NativeImageInteropMissing)
    );
    assert!(!on(Platform::Windows, true).supports_mediacodec_surface_frames(true, true));
}

#[test]
fn shared_buffers_become_the_frame_once_converted() {
    let mut renderer = renderer();
    let source = SourceColorState::new(ColorPrimaries::Bt2020, TransferFunction::Pq);
    let mut import = |route, outcome| {
        let imported = renderer.import_shared_buffer(route, outcome, source, &exceeds, &gamut);
        (imported, renderer.stats(), renderer.current_video)
    };
    let buffer = SharedBufferRoute::NativeBuffer;
    let image = SharedBufferRoute::NativeImage;
    let (kept, stats, video) = import(image, ConversionOutcome::NoPicture);
    assert_eq!(kept, Ok(SharedBufferImport::Kept));
    assert!(video.is_none());
    assert_eq!((stats.hdr_source_frames, stats.hardware_video_frames), (0, 0));
    let (failed, stats, video) = import(buffer, ConversionOutcome::Failed);
    assert_eq!(failed, Err(SharedBufferError::ConversionFailed));
    assert!(video.is_none());
    assert_eq!(stats.hdr_source_frames, 0);
    let (pressed, _, video) = import(buffer, ConversionOutcome::Backpressure);
    assert_eq!(pressed, Err(SharedBufferError::Backpressure));
    assert!(video.is_none());
    let (empty, stats, video) = import(buffer, ConversionOutcome::Converted { width: 0, height: 9 });
    assert_eq!(empty, Err(SharedBufferError::ZeroSize));
    assert!(video.is_none());
    assert_eq!((stats.hdr_source_frames, stats.hardware_video_frames), (1, 0));
    let (done, stats, video) =
        import(buffer, ConversionOutcome::Converted { width: 1280, height: 720 });
    assert_eq!(done, Ok(SharedBufferImport::Imported { frame_token: 1 }));
    let video = video.unwrap();
    assert!(video.is_rgb);
    assert_eq!((video.width, video.height), (1280, 720));
    assert_eq!(video.uniforms.input_mode, 1);
    assert_eq!((stats.hdr_source_frames, stats.sdr_tonemap_frames), (2, 2));
    assert_eq!((stats.zero_copy_video_frames, stats.shared_handle_video_frames), (1, 1));
    let (shown, stats, _) = import(image, ConversionOutcome::Converted { width: 8, height: 8 });
    assert_eq!(shown, Ok(SharedBufferImport::Imported { frame_token: 2 }));
    assert_eq!(stats.shared_handle_video_frames, 2);
}

#[test]
fn backpressure_does_not_cost_the_device() {
    assert_eq!(SharedBufferError::Backpressure.error_class(), OperationResult::OtherError);
    for error in [
        SharedBufferError::NativeBufferInteropMissing,
        SharedBufferError::NativeImageInteropMissing,
        SharedBufferError::ConversionFailed,
        SharedBufferError::ZeroSize,
    ] {
        assert_eq!(error.error_class(), OperationResult::RendererError);
    }
    let policy = AndroidWgpuRecoveryPolicy::AnyRendererFailure;
    let returned = |error: SharedBufferError| OperationEvent::Returned {
        result: error.error_class(),
        healthy_after: true,
    };
    assert_eq!(
        judge_operation(returned(SharedBufferError::Backpressure), policy),
        OperationVerdict::Final
    );
    assert_eq!(
        judge_operation(returned(SharedBufferError::ConversionFailed), policy),
        OperationVerdict::Recoverable
    );
}

#[test]
fn full_counters_are_noticed() {
    let mut renderer = renderer();
    assert!(renderer.stats().can_count());
    renderer.stats.offscreen_frames = u64::MAX;
    assert!(!renderer.stats().can_count());
}

#[test]
fn shared_buffers_are_cropped() {
    let crop = BufferCrop { left: 8, top: 0, right: 1288, bottom: 720 };
    assert_eq!(crop.visible_extent(), (1280, 720));
    assert_eq!(native_buffer_extent(1920, 1088, 1920, 1080), Ok((1920, 1080)));
    assert_eq!(
        native_buffer_extent(-8, 1088, 1920, 1080),
        Err(NativeBufferError::InvalidWidth { width: -8 })
    );
    assert_eq!(
        native_buffer_extent(1920, -1, 1920, 1080),
        Err(NativeBufferError::InvalidHeight { height: -1 })
    );
}

#[test]
fn hdr_frames_keep_their_precision_in_conversion() {
    let pq = SourceColorState::new(ColorPrimaries::Bt2020, TransferFunction::Pq);
    let sdr = SourceColorState::new(ColorPrimaries::Bt709, TransferFunction::Srgb);
    let format = |source, supported| android_ahb_intermediate_format(source, supported, &exceeds);
    assert_eq!(format(pq, true), AndroidAhbIntermediateFormat::Rgba16Float);
    assert_eq!(format(sdr, true), AndroidAhbIntermediateFormat::Rgb10a2Unorm);
    assert_eq!(format(sdr, false), AndroidAhbIntermediateFormat::Rgba16Float);
}

#[test]
fn a_surface_is_planned_attached_and_detached() {
    let mut renderer = WgpuRenderer::new(
        Platform::Android,
        device(0),
        OutputMode::extended_linear(float(4.0)),
        false,
    );
    let handle = WgpuSurfaceHandle { output_capabilities: hdr_capabilities(), ..android_window(7) };
    let attached = renderer
        .plan_surface(
            handle,
            Backend::Vulkan,
            &FORMATS,
            &[PresentMode::Fifo],
            &[CompositeAlphaMode::Opaque],
            &multiply,
        )
        .unwrap();
    assert!(attached.output.extended_linear);
    assert!(attached.needs_data_space(Platform::Android));
    renderer.surface_attached(attached);
    assert!(renderer.stats().attached);
    assert_eq!(renderer.surface(), Some(handle));

    renderer.set_output_headroom(float(2.0), true, &multiply, &distance);
    assert_eq!(renderer.output_status().active_headroom, float(2.0));
    assert_eq!(renderer.output_status().headroom_updates, 1);
    renderer.set_output_headroom(float(2.0005), true, &multiply, &distance);
    assert_eq!(renderer.output_status().headroom_updates, 1);

    assert!(renderer
        .surface_configured(Some(Err(AndroidDataSpaceErrorKind::VerificationFailed))));
    assert!(!renderer.surface.unwrap().output.extended_linear);
    assert_eq!(
        renderer.output_status().fallback_reason,
        OutputFallbackReason::ScrgbDataSpaceVerificationFailed
    );

    let metrics = SurfaceMetrics::new(640, 0, float(1.0));
    assert_eq!(renderer.resize_surface(metrics), Ok(true));
    assert_eq!(renderer.surface.unwrap().config.height, 1);
    renderer.detach_surface();
    assert_eq!(renderer.surface(), None);
    assert_eq!(renderer.resize_surface(metrics), Err(SurfaceError::NoSurface));
}

#[test]
fn a_surface_without_modes_is_refused() {
    let renderer = renderer();
    let plan = |formats: &[TextureFormat], modes: &[PresentMode], alpha: &[CompositeAlphaMode]| {
        renderer
            .plan_surface(android_window(7), Backend::Vulkan, formats, modes, alpha, &multiply)
            .map(|_| ())
    };
    let opaque = [CompositeAlphaMode::Opaque];
    assert_eq!(plan(&[], &[PresentMode::Fifo], &opaque), Err(SurfaceError::NoSdrFormat));
    assert_eq!(plan(&FORMATS, &[], &opaque), Err(SurfaceError::NoPresentMode));
    assert_eq!(plan(&FORMATS, &[PresentMode::Fifo], &[]), Err(SurfaceError::NoAlphaMode));
    assert_eq!(plan(&FORMATS, &[PresentMode::Fifo], &opaque), Ok(()));
}

#[test]
fn data_spaces_are_corrected_once() {
    let verified = AndroidDataSpaceVerification {
        before: ADATASPACE_SCRGB_LINEAR,
        after: ADATASPACE_SCRGB_LINEAR,
        corrected: false,
    };
    assert_eq!(
        DataSpaceCheck::observe(ADATASPACE_SCRGB_LINEAR),
        DataSpaceCheck::Verified(verified)
    );
    let check = DataSpaceCheck::observe(5);
    assert_eq!(check, DataSpaceCheck::Correct { before: 5 });
    assert_eq!(check.answered(-3), DataSpaceCheck::SetFailed { before: 5, result: -3 });
    let read_back = check.answered(0);
    assert_eq!(read_back, DataSpaceCheck::ReadBack { before: 5 });
    assert_eq!(read_back.answered(6), DataSpaceCheck::Mismatch { before: 5, after: 6 });
    assert_eq!(
        read_back.answered(ADATASPACE_SCRGB_LINEAR),
        DataSpaceCheck::Verified(AndroidDataSpaceVerification {
            before: 5,
            after: ADATASPACE_SCRGB_LINEAR,
            corrected: true,
        })
    );
}

#[test]
fn surface_frames_are_acquired_with_bounded_recovery() {
    let mut acquisition = SurfaceAcquisition::new();
    assert_eq!(
        acquisition.observed(SurfaceStatus::Outdated),
        AcquireAction::Reconfigure { retry: true }
    );
    assert_eq!(acquisition.observed(SurfaceStatus::Lost), AcquireAction::Recreate { retry: false });
    let mut fresh = SurfaceAcquisition::new();
    assert_eq!(
        fresh.observed(SurfaceStatus::Suboptimal),
        AcquireAction::Draw { reconfigure_after_present: true }
    );
    assert_eq!(fresh.observed(SurfaceStatus::Timeout), AcquireAction::Skip);
    assert_eq!(fresh.observed(SurfaceStatus::Occluded), AcquireAction::Skip);
    assert_eq!(fresh.observed(SurfaceStatus::Validation), AcquireAction::Fail);
}

#[test]
fn software_vulkan_waits_for_the_other_candidates() {
    let candidates = wgpu_backend_candidates(Platform::Android, false);
    let mut request = DeviceRequest::new(Platform::Android, candidates[1], 1);
    assert_eq!(
        request.step,
        DeviceStep::RequestAdapter { backends: Backends::Vulkan, force_fallback_adapter: false }
    );
    let limits = plain(&wgpu::Limits::default());
    let software = AdapterReport {
        backend: Backend::Vulkan,
        device_type: DeviceType::Cpu,
        supports_16bit_norm: true,
        limits,
    };
    request.answered(DeviceReply::Adapter { report: software });
    assert_eq!(
        request.step,
        DeviceStep::Failed { failure: DeviceFailure::SoftwareVulkanDeferred }
    );

    let mut request = DeviceRequest::new(Platform::Android, candidates[3], 3);
    request.answered(DeviceReply::Adapter { report: software });
    assert_eq!(
        request.step,
        DeviceStep::RequestDevice {
            require_16bit_norm: true,
            limits: requested_device_limits(limits, Backend::Vulkan),
        }
    );
    request.answered(DeviceReply::Device);
    assert_eq!(request.step, DeviceStep::Created { device: device(3) });
}

#[test]
fn failed_requests_say_where() {
    let candidates = wgpu_backend_candidates(Platform::Android, false);
    let mut interop = DeviceRequest::new(Platform::Android, candidates[0], 0);
    assert_eq!(interop.step, DeviceStep::CreateInteropDevice);
    interop.answered(DeviceReply::Refused);
    assert_eq!(interop.step, DeviceStep::Failed { failure: DeviceFailure::InteropUnavailable });
    let mut adapter = DeviceRequest::new(Platform::Android, candidates[2], 2);
    adapter.answered(DeviceReply::Refused);
    assert_eq!(adapter.step, DeviceStep::Failed { failure: DeviceFailure::AdapterRequestFailed });
    let mut plain_device = DeviceRequest::new(Platform::Android, candidates[2], 2);
    plain_device.answered(DeviceReply::Adapter {
        report: AdapterReport {
            backend: Backend::Gl,
            device_type: DeviceType::IntegratedGpu,
            supports_16bit_norm: false,
            limits: plain(&wgpu::Limits::default()),
        },
    });
    plain_device.answered(DeviceReply::Refused);
    assert_eq!(
        plain_device.step,
        DeviceStep::Failed { failure: DeviceFailure::DeviceRequestFailed }
    );
}

#[test]
fn candidates_are_searched_in_order() {
    assert!(CandidateSearch::new(vec![]).is_none());
    let mut search = CandidateSearch::new(vec![2, 0, 1]).unwrap();
    assert_eq!(search.current(), Some(2));
    search.failed(DeviceFailure::AdapterRequestFailed);
    assert_eq!(search.current(), Some(0));
    search.succeeded();
    assert_eq!(search.selected(), Some(0));
    assert_eq!(search.attempted(), vec![2, 0]);
    assert_eq!(search.failures().len(), 1);
    assert_eq!(search.failures()[0].candidate_index, 2);
}

#[test]
fn readbacks_lose_their_padding() {
    let layout = readback_layout(3, 2, 256);
    assert_eq!(layout.unpadded_bytes_per_row, 12);
    assert_eq!(layout.padded_bytes_per_row, 256);
    assert_eq!(layout.buffer_size, 512);
    let mut mapped = vec![0xee; 512];
    for (at, byte) in mapped[..12].iter_mut().enumerate() {
        *byte = at as u8;
    }
    for (at, byte) in mapped[256..268].iter_mut().enumerate() {
        *byte = 100 + at as u8;
    }
    let rgba = strip_row_padding(&mapped, 12, 256, 2);
    let readback = WgpuOffscreenReadback { width: 3, height: 2, rgba };
    assert_eq!(readback.pixel(0, 0), [0, 1, 2, 3]);
    assert_eq!(readback.pixel(2, 1), [108, 109, 110, 111]);
}

#[test]
fn uniforms_are_batched_at_the_devices_alignment() {
    let records = vec![vec![1, 2, 3], vec![4, 5, 6]];
    let batch = batch_uniforms(&records, 3, 4).unwrap();
    assert_eq!(batch.stride, 4);
    assert_eq!(batch.bytes, vec![1, 2, 3, 0, 4, 5, 6, 0]);
    assert_eq!(batch.offsets, vec![0, 4]);
    let tight = batch_uniforms(&records, 3, 0).unwrap();
    assert_eq!(tight.bytes, vec![1, 2, 3, 4, 5, 6]);
    assert!(batch_uniforms(&vec![], 3, 4).unwrap().bytes.is_empty());
}

#[test]
fn a_frame_that_failed_upscaling_is_drawn_plain() {
    let mut renderer = renderer();
    renderer.upload_nv12(64, 64, vec![0; 4096], vec![0; 2048], sdr_uniforms()).unwrap();
    assert!(renderer.set_luma_upscaler(
        LumaUpscalerMode::ArtCnnC4F16,
        LumaUpscalerMode::Off,
        LumaUpscalerBackendStatus::Off,
    ));
    assert!(!renderer.set_luma_upscaler(
        LumaUpscalerMode::ArtCnnC4F16,
        LumaUpscalerMode::ArtCnnC4F16,
        LumaUpscalerBackendStatus::Scalar,
    ));
    let draw = |renderer: &WgpuRenderer| {
        renderer
            .plan_draw(
                64,
                256,
                256,
                OutputDescription::sdr(),
                LumaUpscalerBackendStatus::Scalar,
                &exceeds,
                &gamut,
            )
            .unwrap()
    };
    let plan = draw(&renderer);
    assert_eq!(plan.upscale, Some(UpscalerInput::PlanarLuma));
    let uniforms = renderer.upscale_finished(plan, UpscaleOutcome::Failed);
    assert_eq!(uniforms.input_mode & 0xff, 0);
    assert_eq!(draw(&renderer).upscale, None);
}

#[test]
fn comments_of_another_generation_are_not_drawn() {
    let mut renderer = renderer();
    renderer.upload_nv12(4, 2, vec![235; 8], vec![128; 4], sdr_uniforms()).unwrap();
    let mut plan = DanmakuRenderPlan::empty(Duration::zero(), 1, DanmakuViewport::new(4, 4));
    plan.items.push(glyph());
    let context = |generation| {
        RenderFrameContext::new(Duration::zero(), generation).danmaku(Some(&plan))
    };
    assert!(matches!(
        renderer.plan_capture(context(1), 4, 4),
        Ok(RenderDecision::Draw { danmaku: Some(_), overlays: true })
    ));
    assert!(matches!(
        renderer.plan_capture(context(2), 4, 4),
        Ok(RenderDecision::Draw { danmaku: None, overlays: false })
    ));
    assert!(matches!(
        renderer.plan_capture(context(1), 8, 4),
        Ok(RenderDecision::Draw { danmaku: None, overlays: false })
    ));
}

fn recovering() -> AndroidRecoveringWgpuRenderer {
    AndroidRecoveringWgpuRenderer::new(renderer(), 3)
}

#[test]
fn recovery_tries_every_candidate_once_and_keeps_the_counters() {
    let mut renderer = recovering();
    renderer.active.stats.rendered_frames = 5;
    renderer.set_luma_upscaler(
        LumaUpscalerMode::ArtCnnC4F32,
        LumaUpscalerMode::Off,
        LumaUpscalerBackendStatus::Off,
    );
    let policy = AndroidWgpuRecoveryPolicy::AnyRendererFailure;
    let mut attempt = renderer.begin_operation().unwrap();
    assert_eq!(
        renderer.operation_finished(&mut attempt, OperationEvent::Panicked, policy),
        RecoveryStep::Rebuild
    );
    assert_eq!(renderer.rebuild_order(&attempt), vec![1, 2]);
    assert_eq!(
        renderer.construction_finished(
            &mut attempt,
            Some(device(2)),
            report(),
            &multiply,
            &distance,
        ),
        RecoveryStep::Restore
    );
    assert_eq!(attempt.attempted(), &vec![0, 1, 2]);
    assert_eq!(renderer.active.candidate_index, 2);
    assert_eq!(renderer.active.upscaler_mode, LumaUpscalerMode::ArtCnnC4F32);
    assert_eq!(renderer.runtime_stats(report()).rendered_frames, 5);
    assert_eq!(
        renderer.restore_finished(&mut attempt, RestoreEvent::Absent, RestoreEvent::Absent),
        RecoveryStep::Invoke
    );
    let failed = OperationEvent::Returned {
        result: OperationResult::RendererError,
        healthy_after: true,
    };
    assert_eq!(
        renderer.operation_finished(&mut attempt, failed, policy),
        RecoveryStep::Exhausted
    );
    assert!(renderer.begin_operation().is_none());
    renderer.detach_surface();
    assert!(renderer.begin_operation().is_some());
}

#[test]
fn recovery_is_for_what_a_new_device_can_mend() {
    let mut renderer = recovering();
    let refused = OperationEvent::Returned {
        result: OperationResult::RendererError,
        healthy_after: true,
    };
    let mut attempt = renderer.begin_operation().unwrap();
    assert_eq!(
        renderer.operation_finished(
            &mut attempt,
            refused,
            AndroidWgpuRecoveryPolicy::DeviceFailureOnly,
        ),
        RecoveryStep::Failed
    );
    let done = OperationEvent::Returned { result: OperationResult::Succeeded, healthy_after: true };
    assert_eq!(
        renderer.operation_finished(
            &mut attempt,
            done,
            AndroidWgpuRecoveryPolicy::DeviceFailureOnly,
        ),
        RecoveryStep::Succeeded
    );
    let sick = OperationEvent::Returned { result: OperationResult::Succeeded, healthy_after: false };
    assert_eq!(
        renderer.operation_finished(
            &mut attempt,
            sick,
            AndroidWgpuRecoveryPolicy::DeviceFailureOnly,
        ),
        RecoveryStep::Rebuild
    );
    assert_eq!(renderer.construction_panicked(&mut attempt), RecoveryStep::Exhausted);
}

#[test]
fn a_recovering_renderer_keeps_the_surface_and_releases_the_frame() {
    let mut renderer = recovering();
    assert_eq!(
        renderer.begin_attach(PlatformSurface::Metal { layer: 1 }),
        Err(SurfaceError::NotWgpu)
    );
    let handle = renderer
        .begin_attach(PlatformSurface::Wgpu { handle: android_window(9) })
        .unwrap();
    renderer.attached(handle);
    renderer.resized(SurfaceMetrics::new(1, 2, float(1.0)));
    assert_eq!(renderer.surface.unwrap().size.height, 2);
    renderer.frame_uploaded(true);
    renderer.preserve_current_frame_for_transition();
    assert!(!renderer.frame_cached);
    renderer.set_output_headroom(float(3.0), true, &multiply, &distance);
    assert_eq!(renderer.output_headroom.headroom, float(3.0));
    assert_eq!(renderer.active.output_headroom.headroom, float(3.0));
}

#[test]
fn frames_without_a_surface_are_converted_at_their_own_size() {
    assert_eq!(renderer().conversion_extent(3840, 2160), (3840, 2160));
}
