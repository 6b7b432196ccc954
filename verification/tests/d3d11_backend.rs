use erika::color::{ColorPrimaries, TransferFunction};
use erika::renderer::context::RenderFrameContext;
use erika::renderer::d3d11::mode::{clamp_u16, dxgi_hdr10_metadata, LightLevel, ModeStep, SelectStep};
use erika::renderer::d3d11::scene::FlutterTextureScene;
use erika::renderer::d3d11::targets::TargetStep;
use erika::renderer::d3d11::video::{
    constants_for_frame, d3d_error, nul, presented, update_box, video_vertices, wait_for_gpu,
    D3d11FrameRoute, D3d11RenderStep, D3d11TexRect, D3d11VideoTextureFormat, DecoderTexture,
    DrawError, GpuWait, ImportError, PresentStatus, SceneTarget, Share, SurfaceReadiness, UpdateBox,
};
use erika::renderer::d3d11::{
    D3d11OutputMode, D3d11Renderer, D3d11SurfaceError, DxgiColorSpace, DxgiFormat,
};
use erika::renderer::danmaku::{
    AtlasAction, DanmakuAtlasUpdate, DanmakuGlyphAtlas, DanmakuGlyphInstance, DanmakuRenderPlan,
    DanmakuViewport,
};
use erika::renderer::draws::{overlay_is_addressable, DanmakuError, OverlayError, PlaneRect};
use erika::renderer::output::OutputMode;
use erika::renderer::overlay::{
    OverlayFrame, OverlayViewport, SubtitleAlphaBitmap, SubtitleBitmapPlacement,
    SubtitleBitmapPlane,
};
use erika::renderer::pipeline::{
    Chromaticity, ContentLightMetadata, HdrMetadata, LumaUpscalerMode, MasteringDisplayMetadata,
    SourceColorState,
};
use erika::renderer::presentation::Pixels;
use erika::renderer::quad::{D3d11OverlayUniforms, OverlayUniforms};
use erika::renderer::stats::LumaUpscalerBackendStatus;
use erika::renderer::surface::{
    FlutterTextureHandle, FlutterTextureKind, PlatformSurface, SurfaceMetrics, WgpuSurfaceHandle,
    WgpuSurfaceKind,
};
use erika::renderer::wgpu::UpscalerReport;
use erika::time::Duration;

fn exceeds(value: u32, base: u32, factor: u32) -> bool {
    f32::from_bits(value) > f32::from_bits(base) * f32::from_bits(factor)
}

fn gamut(_: ColorPrimaries, _: ColorPrimaries) -> [[u32; 4]; 3] {
    [[0; 4]; 3]
}

fn as_float(value: u32) -> u32 {
    (value as f32).to_bits()
}

fn signed(value: i64) -> u32 {
    (value as f32).to_bits()
}

fn float(value: f32) -> u32 {
    value.to_bits()
}

fn share(share: Share) -> f32 {
    share.numerator as f32 / share.denominator as f32
}

fn assert_close(actual: f32, expected: f32) {
    assert!((actual - expected).abs() < 0.0001, "expected {actual} to be close to {expected}");
}

fn report(status: LumaUpscalerBackendStatus) -> UpscalerReport {
    UpscalerReport {
        status,
        fallback_count: 0,
        upscaled_frames: 0,
        last_encode_duration: Duration::zero(),
    }
}

fn glyph() -> DanmakuGlyphInstance {
    DanmakuGlyphInstance {
        item_id: 1,
        rect: [0.0, 0.0, 1.0, 1.0].map(float),
        tex_rect: [0.0, 0.0, 1.0, 1.0].map(float),
        color_rgba: [float(1.0); 4],
        outline_rgba: [float(0.0); 4],
        shadow_rgba: [float(0.0); 4],
        shadow_offset: [float(0.0); 2],
    }
}

fn window() -> PlatformSurface {
    PlatformSurface::Wgpu {
        handle: WgpuSurfaceHandle::new(WgpuSurfaceKind::WindowsHwnd, 7, 0, 1920, 1080, float(1.0)),
    }
}

fn flutter() -> PlatformSurface {
    PlatformSurface::FlutterTexture {
        handle: FlutterTextureHandle {
            kind: FlutterTextureKind::WindowsTextureRegistrar,
            texture_id: 3,
            size: SurfaceMetrics::new(1280, 720, float(1.0)),
        },
    }
}

/// Answers every step with success until nothing is left to make.
fn make_targets(renderer: &mut D3d11Renderer) -> Vec<TargetStep> {
    let mut steps = vec![renderer.begin_targets()];
    while !matches!(steps[steps.len() - 1], TargetStep::Done | TargetStep::Unneeded) {
        let step = steps[steps.len() - 1];
        steps.push(renderer.targets_answered(step, true));
    }
    steps
}

fn ready_renderer(surface: PlatformSurface) -> D3d11Renderer {
    let mut renderer = D3d11Renderer::new();
    renderer.device_changed();
    renderer.attach_surface(surface).unwrap();
    make_targets(&mut renderer);
    renderer
}

fn pq() -> SourceColorState {
    SourceColorState::new(ColorPrimaries::Bt2020, TransferFunction::Pq)
}

fn decoder_texture() -> DecoderTexture {
    DecoderTexture {
        format: DxgiFormat::P010,
        width: 2048,
        height: 1088,
        array_size: 4,
        array_index: 3,
        frame_width: 1920,
        frame_height: 1080,
    }
}

fn import(renderer: &mut D3d11Renderer, mode: D3d11OutputMode) {
    let texture = decoder_texture();
    let layout = texture.layout().unwrap();
    let imported = renderer.frame_created(texture, layout, pq(), mode, &exceeds, &gamut);
    renderer.frame_imported(imported);
}

#[test]
fn flutter_scene_ignores_clock_ticks_but_detects_output_changes() {
    let mut overlay = OverlayFrame {
        pts: Duration::zero(),
        viewport: OverlayViewport::new(8, 8),
        subtitle_planes: vec![SubtitleBitmapPlane::new(0, 0, 1, 1, vec![255; 4])],
        subtitle_alpha_planes: vec![],
        subtitle_changed: true,
    };
    let scene = FlutterTextureScene::new(
        7,
        LumaUpscalerMode::Off,
        RenderFrameContext::new(Duration::zero(), 1).overlay(Some(&overlay)),
    );
    overlay.pts = Duration::from_secs(2);
    overlay.subtitle_changed = false;
    let context = RenderFrameContext::new(Duration::from_secs(2), 1).overlay(Some(&overlay));
    assert!(scene.matches(7, LumaUpscalerMode::Off, context));
    assert!(!scene.matches(8, LumaUpscalerMode::Off, context));
    assert!(!scene.matches(7, LumaUpscalerMode::ArtCnnC4F16, context));
    assert!(!scene.matches(
        7,
        LumaUpscalerMode::Off,
        RenderFrameContext::new(Duration::zero(), 2).overlay(Some(&overlay))
    ));
    overlay.subtitle_planes[0].rgba[0] = 0;
    assert!(!scene.matches(
        7,
        LumaUpscalerMode::Off,
        RenderFrameContext::new(Duration::zero(), 1).overlay(Some(&overlay))
    ));
    assert!(!scene.matches(
        7,
        LumaUpscalerMode::Off,
        RenderFrameContext::new(Duration::zero(), 1)
    ));
}

#[test]
fn flutter_scene_reuses_unchanged_cpu_buffers_across_video_frames() {
    let mut overlay = OverlayFrame {
        pts: Duration::zero(),
        viewport: OverlayViewport::new(128, 64),
        subtitle_planes: vec![SubtitleBitmapPlane::new(0, 0, 128, 64, vec![255; 128 * 64 * 4])],
        subtitle_alpha_planes: vec![SubtitleAlphaBitmap::new(
            SubtitleBitmapPlacement::new(0, 0, 128, 64),
            128,
            0xffffffff,
            vec![255; 128 * 64],
        )],
        subtitle_changed: true,
    };
    let mut plan = DanmakuRenderPlan::empty(Duration::zero(), 1, DanmakuViewport::new(128, 64));
    plan.items.push(glyph());
    let mut scene = FlutterTextureScene::new(
        1,
        LumaUpscalerMode::Off,
        RenderFrameContext::new(Duration::zero(), 1).overlay(Some(&overlay)).danmaku(Some(&plan)),
    );
    let rgba = scene.overlay.as_ref().unwrap().subtitle_planes[0].rgba.as_ptr();
    let alpha = scene.overlay.as_ref().unwrap().subtitle_alpha_planes[0].alpha.as_ptr();
    let items = scene.danmaku.as_ref().unwrap().items.as_ptr();
    for token in 2..=121 {
        overlay.pts = Duration::from_millis(token * 10);
        overlay.subtitle_changed = false;
        plan.media_time = overlay.pts;
        let context =
            RenderFrameContext::new(overlay.pts, 1).overlay(Some(&overlay)).danmaku(Some(&plan));
        assert!(!scene.matches(token, LumaUpscalerMode::Off, context));
        scene.update(token, LumaUpscalerMode::Off, context);
        assert!(scene.matches(token, LumaUpscalerMode::Off, context));
        assert_eq!(scene.overlay.as_ref().unwrap().subtitle_planes[0].rgba.as_ptr(), rgba);
        assert_eq!(scene.overlay.as_ref().unwrap().subtitle_alpha_planes[0].alpha.as_ptr(), alpha);
        assert_eq!(scene.danmaku.as_ref().unwrap().items.as_ptr(), items);
    }

    // A real subtitle/HUD change still replaces the cached pixels even when
    // the video frame is paused and subtitle_changed is false.
    overlay.subtitle_planes[0].rgba[0] = 17;
    overlay.subtitle_alpha_planes[0].alpha[0] = 23;
    let context =
        RenderFrameContext::new(overlay.pts, 1).overlay(Some(&overlay)).danmaku(Some(&plan));
    assert!(!scene.matches(121, LumaUpscalerMode::Off, context));
    scene.update(121, LumaUpscalerMode::Off, context);
    assert!(scene.matches(121, LumaUpscalerMode::Off, context));
    assert_eq!(scene.overlay.as_ref().unwrap().subtitle_planes[0].rgba[0], 17);
    assert_eq!(scene.overlay.as_ref().unwrap().subtitle_alpha_planes[0].alpha[0], 23);
    assert_eq!(scene.danmaku.as_ref().unwrap().items.as_ptr(), items);

    let rgba = scene.overlay.as_ref().unwrap().subtitle_planes[0].rgba.as_ptr();
    plan.items[0].rect[0] = float(2.0);
    let context =
        RenderFrameContext::new(overlay.pts, 1).overlay(Some(&overlay)).danmaku(Some(&plan));
    assert!(!scene.matches(121, LumaUpscalerMode::Off, context));
    scene.update(121, LumaUpscalerMode::Off, context);
    assert!(scene.matches(121, LumaUpscalerMode::Off, context));
    assert_eq!(scene.overlay.as_ref().unwrap().subtitle_planes[0].rgba.as_ptr(), rgba);
    assert_eq!(scene.danmaku.as_ref().unwrap().items[0].rect[0], float(2.0));

    scene.update(121, LumaUpscalerMode::Off, RenderFrameContext::new(Duration::zero(), 2));
    assert!(scene.overlay.is_none() && scene.danmaku.is_none());
    assert!(scene.matches(
        121,
        LumaUpscalerMode::Off,
        RenderFrameContext::new(Duration::zero(), 2)
    ));
}

#[test]
fn flutter_scene_detects_danmaku_motion_and_visibility_changes() {
    let mut plan = DanmakuRenderPlan::empty(Duration::zero(), 1, DanmakuViewport::new(8, 8));
    plan.items.push(glyph());
    let scene = FlutterTextureScene::new(
        1,
        LumaUpscalerMode::Off,
        RenderFrameContext::new(Duration::zero(), 1).danmaku(Some(&plan)),
    );
    let matches = |plan: &DanmakuRenderPlan| {
        scene.matches(
            1,
            LumaUpscalerMode::Off,
            RenderFrameContext::new(Duration::zero(), 1).danmaku(Some(plan)),
        )
    };
    plan.media_time = Duration::from_secs(1);
    assert!(matches(&plan));
    plan.items[0].rect[0] = float(2.0);
    assert!(!matches(&plan));
    plan.items.clear();
    assert!(!matches(&plan));
}

#[test]
fn video_texture_format_maps_plane_srv_formats() {
    assert_eq!(
        D3d11VideoTextureFormat::from_dxgi(DxgiFormat::Nv12).unwrap().luma_srv(),
        DxgiFormat::R8Unorm
    );
    assert_eq!(
        D3d11VideoTextureFormat::from_dxgi(DxgiFormat::P010).unwrap().chroma_srv(),
        DxgiFormat::R16G16Unorm
    );
    assert!(D3d11VideoTextureFormat::from_dxgi(DxgiFormat::B8G8R8A8Unorm).is_none());
}

#[test]
fn d3d11_tex_rect_crops_padded_decoder_texture() {
    let rect = D3d11TexRect::visible_region(1920, 1080, 2048, 1088);

    assert_close(share(rect.right), 1920.0 / 2048.0);
    assert_close(share(rect.bottom), 1080.0 / 1088.0);
    let vertices = video_vertices(rect);
    assert_close(share(vertices[0].down), 1080.0 / 1088.0);
    assert_close(share(vertices[2].across), 1920.0 / 2048.0);
}

#[test]
fn d3d11_tex_rect_never_leaves_the_texture() {
    let rect = D3d11TexRect::visible_region(4096, 0, 2048, 0);
    assert_eq!(share(rect.right), 1.0);
    assert_eq!(share(rect.bottom), 1.0);
}

#[test]
fn d3d11_surface_extent_is_already_physical() {
    let metrics = SurfaceMetrics::new(960, 540, float(1.5));

    assert_eq!(metrics.physical_size(), (960, 540));
    assert_eq!(metrics.content_scale, float(1.5));
}

#[test]
fn d3d11_renderer_config_initializes_upscaler_mode() {
    let renderer =
        D3d11Renderer::with_config(OutputMode::Sdr, false, LumaUpscalerMode::ArtCnnC4F16);

    let stats = renderer.runtime_stats(report(LumaUpscalerBackendStatus::Building));
    assert_eq!(stats.upscaler_mode, LumaUpscalerMode::ArtCnnC4F16);
    assert_eq!(stats.upscaler_backend, LumaUpscalerBackendStatus::Building);
}

#[test]
fn renderer_stats_distinguish_direct_and_shared_zero_copy() {
    let mut renderer = D3d11Renderer::new();
    renderer.stats.hardware_video_frames = 3;
    renderer.stats.zero_copy_video_frames = 3;
    renderer.stats.direct_zero_copy_video_frames = 1;
    renderer.stats.shared_handle_video_frames = 2;
    renderer.stats.hdr_source_frames = 3;
    renderer.stats.hdr10_output_frames = 2;
    renderer.stats.sdr_tonemap_frames = 1;
    renderer.stats.hdr10_output_active = true;

    let stats = renderer.runtime_stats(report(LumaUpscalerBackendStatus::Off));
    assert_eq!(stats.hardware_video_frames, 3);
    assert_eq!(stats.zero_copy_video_frames, 3);
    assert_eq!(stats.direct_zero_copy_video_frames, 1);
    assert_eq!(stats.shared_handle_video_frames, 2);
    assert_eq!(stats.hdr_source_frames, 3);
    assert_eq!(stats.hdr10_output_frames, 2);
    assert_eq!(stats.sdr_tonemap_frames, 1);
    assert!(stats.hdr10_output_active);
}

#[test]
fn hdr10_output_mode_targets_bt2020_pq() {
    let target = D3d11OutputMode::Hdr10.target_color();

    assert_eq!(target.primaries, ColorPrimaries::Bt2020);
    assert_eq!(target.transfer, TransferFunction::Pq);
    assert_eq!(target.peak_nits, float(10_000.0));
    assert_eq!(target.reference_white_nits, float(203.0));
    assert_eq!(D3d11OutputMode::Hdr10.swapchain_format(), DxgiFormat::R10G10B10A2Unorm);
    assert_eq!(D3d11OutputMode::Hdr10.color_space(), DxgiColorSpace::RgbFullG2084NoneP2020);
    assert_eq!(D3d11OutputMode::default(), D3d11OutputMode::Sdr);
}

#[test]
fn hdr10_video_constants_request_scene_linear_output() {
    let constants = |mode: D3d11OutputMode| {
        constants_for_frame(
            pq(),
            D3d11VideoTextureFormat::P010,
            mode.target_color(),
            &exceeds,
            &gamut,
        )
    };

    assert_eq!(constants(D3d11OutputMode::Hdr10).scene_linear, 1);
    assert_eq!(constants(D3d11OutputMode::Sdr).scene_linear, 0);
}

#[test]
fn overlay_uniforms_enable_scene_linear_only_for_hdr10() {
    let quad = OverlayUniforms::rgba_plane(0, 0, 1, 1, 1, 1, &signed);
    let hdr10 = D3d11OverlayUniforms::for_target(quad, D3d11OutputMode::Hdr10.target_color());
    let sdr = D3d11OverlayUniforms::for_target(quad, D3d11OutputMode::Sdr.target_color());

    assert_eq!(hdr10.bytes().len(), 80);
    assert_eq!(hdr10.ui_nits[0], float(203.0));
    assert_eq!(hdr10.ui_nits[1], float(203.0));
    assert_eq!(sdr.ui_nits[1], float(0.0));
}

fn coordinate(value: u32) -> u16 {
    (f32::from_bits(value).clamp(0.0, 1.0) * 50_000.0).round() as u16
}

fn coordinates(value: Chromaticity) -> [u16; 2] {
    [coordinate(value.x), coordinate(value.y)]
}

#[test]
fn dxgi_hdr10_metadata_uses_source_mastering_values() {
    let point = |x: f32, y: f32| Chromaticity::new(float(x), float(y));
    let source = pq().hdr_metadata(
        Some(HdrMetadata::new(
            Some(MasteringDisplayMetadata {
                display_primaries: Some([
                    point(0.708, 0.292),
                    point(0.170, 0.797),
                    point(0.131, 0.046),
                ]),
                white_point: Some(point(0.3127, 0.3290)),
                min_luminance_nits: Some(float(0.005)),
                max_luminance_nits: Some(float(1000.0)),
            }),
            Some(ContentLightMetadata {
                max_content_light_level_nits: 4000,
                max_frame_average_light_level_nits: 450,
            }),
        )),
        &as_float,
    );

    let metadata = dxgi_hdr10_metadata(source);

    assert_eq!(coordinates(metadata.primaries.red), [35400, 14600]);
    assert_eq!(coordinates(metadata.primaries.green), [8500, 39850]);
    assert_eq!(coordinates(metadata.primaries.blue), [6550, 2300]);
    assert_eq!(coordinates(metadata.primaries.white), [15635, 16450]);
    assert_eq!(f32::from_bits(metadata.max_mastering_nits).round() as u32, 1000);
    assert_eq!((f32::from_bits(metadata.min_mastering_nits) * 10_000.0).round() as u32, 50);
    assert_eq!(metadata.max_content_light_level, LightLevel::Known { nits: 4000 });
    assert_eq!(metadata.max_frame_average_light_level, LightLevel::Known { nits: 450 });
}

#[test]
fn dxgi_hdr10_metadata_has_defaults() {
    let metadata = dxgi_hdr10_metadata(pq());
    assert_eq!(coordinates(metadata.primaries.red), [35400, 14600]);
    assert_eq!(metadata.min_mastering_nits, float(0.005));
    assert_eq!(metadata.max_content_light_level, LightLevel::ShareOfMastering { percent: 100 });
    assert_eq!(
        metadata.max_frame_average_light_level,
        LightLevel::ShareOfMastering { percent: 40 }
    );
    assert_eq!(clamp_u16(70_000), u16::MAX);
    assert_eq!(clamp_u16(7), 7);
}

#[test]
fn surfaces_of_other_platforms_are_refused() {
    let mut renderer = D3d11Renderer::new();
    assert_eq!(
        renderer.attach_surface(PlatformSurface::Metal { layer: 1 }),
        Err(D3d11SurfaceError::MetalNotSupported)
    );
    let android =
        WgpuSurfaceHandle::new(WgpuSurfaceKind::AndroidNativeWindow, 1, 0, 1, 1, float(1.0));
    assert_eq!(
        renderer.attach_surface(PlatformSurface::Wgpu { handle: android }),
        Err(D3d11SurfaceError::KindNotSupported { kind: WgpuSurfaceKind::AndroidNativeWindow })
    );
    let null = WgpuSurfaceHandle::new(WgpuSurfaceKind::WindowsHwnd, 0, 0, 1, 1, float(1.0));
    assert_eq!(
        renderer.attach_surface(PlatformSurface::Wgpu { handle: null }),
        Err(D3d11SurfaceError::NullWindow)
    );
    let other = FlutterTextureHandle {
        kind: FlutterTextureKind::Other,
        texture_id: 1,
        size: SurfaceMetrics::new(1, 1, float(1.0)),
    };
    assert_eq!(
        renderer.attach_surface(PlatformSurface::FlutterTexture { handle: other }),
        Err(D3d11SurfaceError::TextureKindNotSupported { kind: FlutterTextureKind::Other })
    );
    assert_eq!(
        renderer.resize_surface(SurfaceMetrics::new(1, 1, float(1.0))),
        Err(D3d11SurfaceError::NoSurface)
    );
}

#[test]
fn targets_are_made_step_by_step() {
    let mut renderer = D3d11Renderer::new();
    assert_eq!(renderer.begin_targets(), TargetStep::Unneeded);
    renderer.device_changed();
    renderer.attach_surface(window()).unwrap();
    assert_eq!(renderer.surface_readiness(), SurfaceReadiness::Rebuild);
    let steps = make_targets(&mut renderer);
    assert!(matches!(
        steps[0],
        TargetStep::CreateSwapchain { width: 1920, height: 1080, premultiplied: false, .. }
    ));
    assert_eq!(steps.last(), Some(&TargetStep::Done));
    assert_eq!(renderer.surface_readiness(), SurfaceReadiness::Ready);
    assert_eq!(renderer.resize_surface(SurfaceMetrics::new(640, 360, float(1.0))), Ok(true));
    assert!(matches!(
        renderer.begin_targets(),
        TargetStep::ResizeBuffers { width: 640, height: 360, .. }
    ));
}

#[test]
fn buffers_that_cannot_be_resized_are_replaced() {
    let mut renderer = ready_renderer(window());
    let resize = renderer.begin_targets();
    assert!(matches!(resize, TargetStep::ResizeBuffers { .. }));
    let create = renderer.targets_answered(resize, false);
    assert!(matches!(create, TargetStep::CreateSwapchain { .. }));
    assert_eq!(renderer.targets_answered(create, false), TargetStep::Failed);
}

#[test]
fn standard_dynamic_range_clears_the_metadata() {
    let mut renderer = ready_renderer(window());
    let resize = renderer.begin_targets();
    let configure = renderer.targets_answered(resize, true);
    let clear = renderer.targets_answered(configure, true);
    assert_eq!(clear, TargetStep::ClearHdrMetadata);
    assert_eq!(renderer.targets_answered(clear, false), TargetStep::CreateRenderTarget);
    assert_eq!(renderer.set_output_mode(D3d11OutputMode::Hdr10), ModeStep::Rebuild);
    let steps = make_targets(&mut renderer);
    assert!(!steps.contains(&TargetStep::ClearHdrMetadata));
    assert!(D3d11OutputMode::Sdr.clears_hdr_metadata());
    assert!(!D3d11OutputMode::Hdr10.clears_hdr_metadata());
}

#[test]
fn another_mode_retires_the_frame() {
    let mut renderer = ready_renderer(window());
    import(&mut renderer, D3d11OutputMode::Sdr);
    assert_eq!(renderer.set_output_mode(D3d11OutputMode::Hdr10), ModeStep::Rebuild);
    assert_eq!(renderer.rebuild_for_mode(false), TargetStep::Failed);
    assert!(renderer.current_video.is_some());
    let resize = renderer.rebuild_for_mode(true);
    assert_eq!(
        resize,
        TargetStep::ResizeBuffers { width: 1920, height: 1080, mode: D3d11OutputMode::Hdr10 }
    );
    assert!(renderer.current_video.is_none());
    let context = RenderFrameContext::new(Duration::zero(), 1);
    assert_eq!(renderer.render_step(context), D3d11RenderStep::NoFrame);
}

#[test]
fn rendering_asks_for_what_is_missing() {
    let context = RenderFrameContext::new(Duration::zero(), 1);
    let mut renderer = D3d11Renderer::new();
    assert_eq!(renderer.render_step(context), D3d11RenderStep::NoFrame);
    assert_eq!(renderer.conclude_render(context, 0), Some(false));
    import(&mut renderer, D3d11OutputMode::Sdr);
    assert_eq!(renderer.render_step(context), D3d11RenderStep::CreateDevice);
    renderer.device_changed();
    assert_eq!(renderer.render_step(context), D3d11RenderStep::NoSurface);
    renderer.attach_surface(flutter()).unwrap();
    assert_eq!(renderer.render_step(context), D3d11RenderStep::Rebuild);
    assert_eq!(renderer.conclude_render(context, 0), None);
    make_targets(&mut renderer);
    assert_eq!(renderer.stats().rendered_frames, 0);
    assert_eq!(renderer.render_step(context), D3d11RenderStep::Draw);
    assert_eq!(renderer.conclude_render(context, 2), Some(true));
    assert_eq!(renderer.stats().rendered_frames, 1);
    assert_eq!(renderer.stats().danmaku_items, 2);
    assert_eq!(renderer.render_step(context), D3d11RenderStep::Reuse);
    assert_eq!(renderer.conclude_render(context, 2), Some(true));
    assert_eq!(renderer.stats().rendered_frames, 1);
    assert_eq!(renderer.stats().danmaku_items, 2);
}

#[test]
fn linear_light_is_encoded_for_the_whole_surface() {
    let mut renderer = D3d11Renderer::new();
    assert!(renderer.encode_constants().is_none());
    renderer.device_changed();
    renderer.attach_surface(window()).unwrap();
    assert_eq!(renderer.set_output_mode(D3d11OutputMode::Hdr10), ModeStep::Rebuild);
    make_targets(&mut renderer);
    import(&mut renderer, D3d11OutputMode::Hdr10);
    let frame = renderer.current_video.unwrap().constants;
    assert_eq!(frame.scene_linear, 1);
    let plan = renderer.encode_constants().unwrap();
    assert_eq!(plan.constants.scene_linear, 0);
    assert_eq!(plan.constants.nits, frame.nits);
    assert_eq!(plan.texture_scales, [Share { numerator: 1, denominator: 1 }; 4]);
    assert_eq!((plan.viewport_width, plan.viewport_height), (1920, 1080));
    assert_eq!(plan.vertices, video_vertices(D3d11TexRect::full()));
    renderer.resize_surface(SurfaceMetrics::new(0, 0, float(1.0))).unwrap();
    let plan = renderer.encode_constants().unwrap();
    assert_eq!((plan.viewport_width, plan.viewport_height), (1, 1));
}

#[test]
fn flutter_textures_are_standard_dynamic_range() {
    let mut renderer = ready_renderer(flutter());
    assert_eq!(renderer.set_output_mode(D3d11OutputMode::Hdr10), ModeStep::Unchanged);
    assert_eq!(
        renderer.begin_selection(true, true),
        SelectStep::SetMode { mode: D3d11OutputMode::Sdr }
    );
}

#[test]
fn failed_hdr10_output_is_not_tried_again() {
    let mut renderer = ready_renderer(window());
    let step = renderer.begin_selection(true, true);
    assert_eq!(step, SelectStep::SetMode { mode: D3d11OutputMode::Hdr10 });
    let metadata = renderer.selection_answered(step, true, true);
    assert_eq!(metadata, SelectStep::SetMetadata);
    let fallback = renderer.selection_answered(metadata, true, false);
    assert_eq!(fallback, SelectStep::SetMode { mode: D3d11OutputMode::Sdr });
    assert_eq!(
        renderer.selection_answered(fallback, true, true),
        SelectStep::Selected { mode: D3d11OutputMode::Sdr }
    );
    assert_eq!(renderer.stats().hdr10_metadata_failures, 1);
    assert_eq!(renderer.stats().sdr_tonemap_frames, 1);
    assert_eq!(
        renderer.begin_selection(true, true),
        SelectStep::SetMode { mode: D3d11OutputMode::Sdr }
    );
}

#[test]
fn decoder_textures_are_checked() {
    assert_eq!(decoder_texture().layout(), Ok(D3d11VideoTextureFormat::P010));
    let odd = DxgiFormat::Other { code: 99 };
    assert_eq!(
        DecoderTexture { format: odd, ..decoder_texture() }.layout(),
        Err(ImportError::UnsupportedFormat { format: odd })
    );
    assert_eq!(
        DecoderTexture { array_index: 4, ..decoder_texture() }.layout(),
        Err(ImportError::IndexOutOfBounds { index: 4, size: 4 })
    );
}

#[test]
fn frames_are_routed_and_drawn() {
    let mut renderer = ready_renderer(window());
    assert_eq!(renderer.route_player_frame(false, false), D3d11FrameRoute::Software);
    assert_eq!(renderer.route_player_frame(false, true), D3d11FrameRoute::NotImportable);
    assert_eq!(renderer.route_player_frame(true, true), D3d11FrameRoute::Texture);
    import(&mut renderer, D3d11OutputMode::Sdr);
    let plan = renderer.plan_draw(1920, LumaUpscalerBackendStatus::Off).unwrap();
    assert_eq!(plan.target, SceneTarget::Surface);
    assert!(!plan.upscale);
    assert_eq!(renderer.draw_constants(true).unwrap().input_mode & 0xff, 2);
    let whole = Share { numerator: 1, denominator: 1 };
    let scales = renderer.texture_scales(true).unwrap();
    assert_eq!(scales[0], whole);
    assert_close(share(scales[2]), 1920.0 / 2048.0);
    assert_close(share(renderer.texture_scales(false).unwrap()[1]), 1080.0 / 1088.0);
    let context = RenderFrameContext::new(Duration::zero(), 1);
    renderer.frame_rendered(context, 3);
    assert_eq!(renderer.stats().rendered_frames, 1);
    assert_eq!(renderer.stats().danmaku_items, 3);
    assert!(renderer.clear_current_frame());
    assert!(renderer.texture_scales(false).is_none());
}

#[test]
fn no_side_of_a_viewport_is_shorter_than_a_pixel() {
    let mut renderer = ready_renderer(window());
    import(&mut renderer, D3d11OutputMode::Sdr);
    let plan = renderer.plan_draw(1920, LumaUpscalerBackendStatus::Off).unwrap();
    assert_eq!(plan.device_viewport, plan.viewport);
    renderer.resize_surface(SurfaceMetrics::new(1, 4000, float(1.0))).unwrap();
    let plan = renderer.plan_draw(1920, LumaUpscalerBackendStatus::Off).unwrap();
    assert_eq!(plan.viewport.height, Pixels { numerator: 1080, denominator: 1920 });
    assert_eq!(plan.device_viewport.height, Pixels { numerator: 1, denominator: 1 });
    assert_eq!(plan.device_viewport.width, plan.viewport.width);
    assert_eq!(plan.device_viewport.y, plan.viewport.y);
}

#[test]
fn sizes_and_counters_are_checked_before_drawing() {
    let mut renderer = D3d11Renderer::new();
    assert!(renderer.stats().can_count());
    renderer.stats.danmaku_passes = u64::MAX;
    assert!(!renderer.stats().can_count());

    let mut frame = OverlayFrame {
        pts: Duration::zero(),
        viewport: OverlayViewport::new(8, 8),
        subtitle_planes: vec![SubtitleBitmapPlane::new(0, 0, 1 << 20, 1, vec![])],
        subtitle_alpha_planes: vec![],
        subtitle_changed: true,
    };
    assert!(overlay_is_addressable(&frame));
    frame.subtitle_planes[0].width = 1 << 30;
    assert!(!overlay_is_addressable(&frame));
    frame.subtitle_planes.clear();
    let wide = |height| {
        SubtitleAlphaBitmap::new(SubtitleBitmapPlacement::new(0, 0, 1 << 31, height), 1, 0, vec![])
    };
    frame.subtitle_alpha_planes = vec![wide(1), wide(0)];
    assert!(overlay_is_addressable(&frame));
    frame.subtitle_alpha_planes.push(wide(1));
    assert!(!overlay_is_addressable(&frame));

    let mut atlas = DanmakuGlyphAtlas {
        width: 1,
        height: 1,
        stride: usize::MAX,
        fill_alpha: vec![],
        outline_alpha: vec![],
        version: 1,
        update: None,
    };
    assert!(atlas.update_is_addressable());
    atlas.update = Some(DanmakuAtlasUpdate { from_version: 0, x: 0, y: 1, width: 1, height: 1 });
    assert!(atlas.update_is_addressable());
    atlas.update = Some(DanmakuAtlasUpdate { from_version: 0, x: 1, y: 1, width: 1, height: 1 });
    assert!(!atlas.update_is_addressable());
}

#[test]
fn drawing_needs_its_targets() {
    let mut renderer = D3d11Renderer::new();
    renderer.device_changed();
    renderer.attach_surface(window()).unwrap();
    import(&mut renderer, D3d11OutputMode::Sdr);
    assert_eq!(
        renderer.plan_draw(1, LumaUpscalerBackendStatus::Off).err(),
        Some(DrawError::NoRenderTarget)
    );
}

#[test]
fn an_idle_flutter_texture_is_published_again() {
    let mut renderer = ready_renderer(flutter());
    import(&mut renderer, D3d11OutputMode::Sdr);
    let context = RenderFrameContext::new(Duration::zero(), 1);
    assert!(!renderer.can_reuse_published(context));
    renderer.frame_rendered(context, 0);
    let later = RenderFrameContext::new(Duration::from_secs(3), 1);
    assert!(renderer.can_reuse_published(later));
    import(&mut renderer, D3d11OutputMode::Sdr);
    assert!(!renderer.can_reuse_published(later));
}

#[test]
fn overlays_and_comments_are_counted() {
    let mut renderer = ready_renderer(window());
    let overlay = OverlayFrame {
        pts: Duration::zero(),
        viewport: OverlayViewport::new(8, 8),
        subtitle_planes: vec![SubtitleBitmapPlane::new(0, 0, 1, 1, vec![255; 4])],
        subtitle_alpha_planes: vec![],
        subtitle_changed: true,
    };
    assert!(renderer.prepare_overlay(Some(&overlay)));
    assert!(!renderer.prepare_overlay(None));
    assert_eq!(renderer.stats().prepared_overlay_frames, 1);
    assert_eq!(renderer.stats().prepared_overlay_subtitle_planes, 1);

    let atlas = DanmakuGlyphAtlas {
        width: 2,
        height: 2,
        stride: 2,
        fill_alpha: vec![0; 4],
        outline_alpha: vec![0; 4],
        version: 1,
        update: None,
    };
    assert_eq!(renderer.prepare_danmaku_atlas(&atlas), AtlasAction::Upload);
    renderer.danmaku_atlas_uploaded(atlas.key());
    assert_eq!(renderer.prepare_danmaku_atlas(&atlas), AtlasAction::Reuse);
    let update = DanmakuAtlasUpdate { from_version: 1, x: 1, y: 2, width: 3, height: 4 };
    assert_eq!(update_box(update), UpdateBox { left: 1, top: 2, right: 4, bottom: 6 });
}

#[test]
fn the_wait_for_the_gpu_is_bounded() {
    assert_eq!(wait_for_gpu(true, Duration::from_secs(9)), GpuWait::Finished);
    assert_eq!(
        wait_for_gpu(false, Duration::from_millis(99)),
        GpuWait::AskAgain { after: Duration::from_millis(1) }
    );
    assert_eq!(wait_for_gpu(false, Duration::from_millis(100)), GpuWait::TimedOut);
    assert!(presented(PresentStatus::Presented));
    assert!(presented(PresentStatus::StillDrawing));
    assert!(!presented(PresentStatus::Failed));
}

#[test]
fn texts_for_the_platform() {
    assert_eq!(nul("vs_main"), b"vs_main\0".to_vec());
    assert_eq!(d3d_error("Map", "no memory"), "d3d11: Map failed: no memory");
}

#[test]
fn frames_shown_by_a_compositor_are_waited_for() {
    let mut windowed = ready_renderer(window());
    import(&mut windowed, D3d11OutputMode::Sdr);
    assert!(!windowed.needs_gpu_wait());
    assert!(!windowed.clears_after_resize());

    let mut renderer = ready_renderer(flutter());
    assert!(!renderer.needs_gpu_wait());
    assert!(renderer.clears_after_resize());
    import(&mut renderer, D3d11OutputMode::Sdr);
    assert!(renderer.needs_gpu_wait());
    assert!(!renderer.clears_after_resize());
    renderer.retire_current_video();
    assert!(renderer.current_video.is_none());
    assert!(!renderer.needs_gpu_wait());
}

#[test]
fn a_published_clear_is_not_repeated() {
    let mut renderer = ready_renderer(flutter());
    assert!(renderer.needs_clear());
    renderer.surface_cleared();
    assert!(!renderer.needs_clear());
    assert_eq!(renderer.stats().rendered_frames, 1);

    let mut windowed = ready_renderer(window());
    windowed.surface_cleared();
    assert!(windowed.needs_clear());
}

#[test]
fn overlays_are_drawn_for_the_mode_of_the_surface() {
    let mut renderer = ready_renderer(window());
    assert_eq!(renderer.overlay_target_color(), D3d11OutputMode::Sdr.target_color());
    renderer.set_output_mode(D3d11OutputMode::Hdr10);
    assert_eq!(renderer.overlay_target_color(), D3d11OutputMode::Hdr10.target_color());
    renderer.alpha_atlas_uploaded();
    assert_eq!(renderer.stats().overlay_alpha_atlas_uploads, 1);
}

#[test]
fn a_texture_of_another_device_moves_the_renderer() {
    let fresh = D3d11Renderer::new();
    assert!(fresh.switches_device(true));
    let mut renderer = ready_renderer(window());
    import(&mut renderer, D3d11OutputMode::Sdr);
    assert!(!renderer.switches_device(true));
    assert!(renderer.switches_device(false));
    renderer.leave_device();
    renderer.device_changed();
    assert!(renderer.current_video.is_none());
    assert!(renderer.danmaku_atlas_cache.is_none());
    assert!(!renderer.surface.unwrap().targets_ready());
}

#[test]
fn overlays_are_prepared_for_the_surface() {
    let mut renderer = ready_renderer(window());
    let plane = SubtitleBitmapPlane::new(1, 2, 1, 1, vec![1, 2, 3, 4]);
    let bitmap =
        SubtitleAlphaBitmap::new(SubtitleBitmapPlacement::new(3, 4, 2, 1), 2, 7, vec![9, 8]);
    let mut frame = OverlayFrame {
        pts: Duration::zero(),
        viewport: OverlayViewport::new(16, 8),
        subtitle_planes: vec![plane],
        subtitle_alpha_planes: vec![bitmap],
        subtitle_changed: true,
    };
    let rect = |_: usize| PlaneRect { x: 5, y: 6, width: 7, height: 8 };
    let color = |_: u32| [255, 0, 51, 255];
    let divide = |value: u32, by: u32| (value as f32 / by as f32).to_bits();

    assert!(renderer
        .prepare_overlay_draws(None, &rect, &color, &signed, &divide)
        .unwrap()
        .is_none());
    let draws = renderer
        .prepare_overlay_draws(Some(&frame), &rect, &color, &signed, &divide)
        .unwrap()
        .unwrap();
    assert_eq!(draws.planes.len(), 1);
    assert_eq!(draws.planes[0].bytes_per_row, 4);
    assert_eq!(draws.planes[0].constants.rect, [5.0, 6.0, 7.0, 8.0].map(float));
    assert_eq!(draws.planes[0].constants.overlay_mode, 0);
    assert_eq!(draws.atlas.unwrap().pixels, vec![9, 8]);
    assert_eq!(draws.bitmaps.len(), 1);
    assert_eq!(draws.bitmaps[0].rect, [3.0, 4.0, 2.0, 1.0].map(float));
    assert_eq!(draws.bitmaps[0].color, [1.0, 0.0, 0.2, 1.0].map(float));
    assert_eq!(draws.bitmaps[0].ui_nits, draws.planes[0].constants.ui_nits);
    assert_eq!(renderer.stats().prepared_overlay_frames, 1);
    assert_eq!(renderer.stats().prepared_overlay_subtitle_planes, 2);

    frame.subtitle_planes[0].rgba.push(0);
    assert_eq!(
        renderer
            .prepare_overlay_draws(Some(&frame), &rect, &color, &signed, &divide)
            .unwrap_err(),
        OverlayError::PlaneSize { index: 0, actual: 5, expected: 4 }
    );
    assert_eq!(renderer.stats().prepared_overlay_frames, 2);
}

#[test]
fn glyphs_are_prepared_layer_by_layer() {
    let renderer = ready_renderer(window());
    let plus = |left: u32, right: u32| (f32::from_bits(left) + f32::from_bits(right)).to_bits();
    let mut shadowed = glyph();
    shadowed.shadow_rgba[3] = float(1.0);
    shadowed.shadow_offset = [float(2.0), float(3.0)];
    let mut plan = DanmakuRenderPlan::empty(Duration::zero(), 0, DanmakuViewport::new(8, 4));
    assert!(renderer.prepare_danmaku_draws(None, &signed, &plus).unwrap().is_none());
    plan.items = vec![shadowed];
    assert!(renderer.prepare_danmaku_draws(Some(&plan), &signed, &plus).unwrap().is_none());
    plan.atlas = Some(DanmakuGlyphAtlas {
        width: 2,
        height: 1,
        stride: 2,
        fill_alpha: vec![1, 2],
        outline_alpha: vec![3, 4],
        version: 1,
        update: None,
    });
    let draws = renderer.prepare_danmaku_draws(Some(&plan), &signed, &plus).unwrap().unwrap();
    assert_eq!(draws.layers.len(), 2);
    assert_eq!(draws.constants[0].rect, [2.0, 3.0, 1.0, 1.0].map(float));
    assert_eq!(draws.constants[1].rect, [0.0, 0.0, 1.0, 1.0].map(float));
    assert_eq!(draws.constants[1].viewport, [8.0, 4.0].map(float));

    plan.atlas.as_mut().unwrap().fill_alpha.pop();
    assert_eq!(
        renderer.prepare_danmaku_draws(Some(&plan), &signed, &plus).unwrap_err(),
        DanmakuError::InvalidAtlas
    );
}
