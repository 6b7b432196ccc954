//! What the Direct3D 11 backend does with frames, surfaces and modes, stated of the
//! states that it is in.

use crate::color::{ColorPrimaries, TransferFunction};
use crate::float::at_least;
use crate::renderer::context::RenderFrameContext;
use crate::renderer::d3d11::draws::{danmaku_shown, overlay_shown};
use crate::renderer::d3d11::mode::{
    clamped, content_light_of, mastering_of, mastering_primaries, max_mastering, min_mastering,
    SelectStep,
};
use crate::renderer::d3d11::scene::{danmaku_kept, danmaku_taken, overlay_kept, overlay_taken};
use crate::renderer::d3d11::targets::{side, TargetStep};
use crate::renderer::d3d11::video::{
    constants_convert, corners, counted_planes, visible, D3d11RenderStep, D3d11TexRect,
    D3d11VideoTextureFormat, DecoderTexture, ImportError,
};
use crate::renderer::d3d11::{
    surface_of, AttachedSurface, D3d11OutputMode, D3d11Renderer, D3d11RendererStats,
    D3d11SurfaceError, DxgiFormat, UpscalerReport,
};
use crate::renderer::danmaku::{same_drawing, DanmakuRenderPlan};
use crate::renderer::frame::GamutRows;
use crate::renderer::overlay::{same_picture, OverlayFrame};
use crate::renderer::pipeline::{
    coordinates_of, LumaUpscalerMode, SourceColorState, TargetColorState, VideoUniforms,
};
use crate::renderer::stats::LumaUpscalerBackendStatus;
use crate::renderer::surface::{FlutterTextureKind, PlatformSurface, WgpuSurfaceKind};
use vstd::prelude::*;

verus! {

/// The video fills the screen, and the right way up. Each corner's place in the
/// texture follows from its place on the screen: the top of the screen shows the
/// texture's top, its bottom the bottom of what is visible, its left the texture's
/// left and its right the right of what is visible. The six corners are two triangles
/// of one winding that share a diagonal, and together they are as large as the
/// screen.
pub proof fn lemma_video_fills_the_screen_upright(rect: D3d11TexRect, i: int)
    requires
        rect.right.numerator > 0,
        rect.bottom.numerator > 0,
        0 <= i < 6,
    ensures
        ({
            let all = corners(rect);
            let at = all[i];
            &&& all.len() == 6
            &&& at.x == 1 || at.x == -1
            &&& at.y == 1 || at.y == -1
            &&& at.y == 1 <==> at.down.numerator == 0
            &&& at.y == -1 <==> at.down == rect.bottom
            &&& at.x == -1 <==> at.across.numerator == 0
            &&& at.x == 1 <==> at.across == rect.right
            &&& at.down.numerator == 0 ==> at.down.denominator == 1
            &&& at.across.numerator == 0 ==> at.across.denominator == 1
            &&& all[1] == all[4]
            &&& all[2] == all[3]
            &&& all[0].x == -all[5].x && all[0].y == -all[5].y
            &&& all[1].x == -all[2].x && all[1].y == -all[2].y
            &&& (all[1].x - all[0].x) * (all[2].y - all[0].y) - (all[2].x - all[0].x) * (all[1].y
                - all[0].y) == -4
            &&& (all[4].x - all[3].x) * (all[5].y - all[3].y) - (all[5].x - all[3].x) * (all[4].y
                - all[3].y) == -4
        }),
{
}

/// What is visible of a texture's side is the frame's length as far as the side
/// reaches, and one pixel at least.
pub proof fn lemma_visible_length_is_within_the_side(length: u32, side: u32)
    ensures
        1 <= length <= side ==> visible(length, side) == length,
        length > side >= 1 ==> visible(length, side) == side,
        length == 0 || side == 0 ==> visible(length, side) == 1,
        D3d11TexRect::whole().right.numerator == D3d11TexRect::whole().right.denominator,
        D3d11TexRect::whole().bottom.numerator == D3d11TexRect::whole().bottom.denominator,
        D3d11TexRect::whole().right.numerator > 0,
        D3d11TexRect::whole().bottom.numerator > 0,
{
}

/// A frame can be imported from an NV12 or a P010 texture, out of a slice that the
/// texture has. The format is looked at first.
pub proof fn lemma_nv12_and_p010_are_imported(texture: DecoderTexture)
    ensures
        ({
            let known = texture.format == DxgiFormat::Nv12 || texture.format == DxgiFormat::P010;
            let checked = texture.check();
            &&& !known ==> checked == Err::<D3d11VideoTextureFormat, ImportError>(
                ImportError::UnsupportedFormat { format: texture.format },
            )
            &&& known && texture.array_index >= texture.array_size ==> checked == Err::<
                D3d11VideoTextureFormat,
                ImportError,
            >(
                ImportError::IndexOutOfBounds {
                    index: texture.array_index,
                    size: texture.array_size,
                },
            )
            &&& texture.format == DxgiFormat::Nv12 && texture.array_index < texture.array_size
                ==> checked == Ok::<D3d11VideoTextureFormat, ImportError>(
                D3d11VideoTextureFormat::Nv12,
            )
            &&& texture.format == DxgiFormat::P010 && texture.array_index < texture.array_size
                ==> checked == Ok::<D3d11VideoTextureFormat, ImportError>(
                D3d11VideoTextureFormat::P010,
            )
        }),
{
}

/// The constants of a frame say that its samples have ten bits where they do, that the
/// scene stays linear where the target is PQ, and never that the output is extended.
pub proof fn lemma_constants_tell_depth_and_scene<
    G: Fn(ColorPrimaries, ColorPrimaries) -> GamutRows,
>(
    constants: VideoUniforms,
    source: SourceColorState,
    layout: D3d11VideoTextureFormat,
    target: TargetColorState,
    gamut: G,
)
    requires
        constants_convert(constants, source, layout, target, gamut),
    ensures
        layout == D3d11VideoTextureFormat::P010 ==> constants.is_p010 == 1,
        layout == D3d11VideoTextureFormat::Nv12 ==> constants.is_p010 == 0,
        target.transfer == TransferFunction::Pq ==> constants.scene_linear == 1,
        target.transfer != TransferFunction::Pq ==> constants.scene_linear == 0,
        constants.edr_output == 0,
        constants.nits@[0] == source.nominal_peak_nits,
        constants.nits@[1] == target.peak_nits,
        constants.nits@[2] == source.reference_white_nits,
        constants.nits@[3] == target.reference_white_nits,
{
}

/// What a render comes to: nothing without a frame, a device and then a surface
/// before anything is drawn, new targets where those of the surface are not complete,
/// and the picture that Flutter already shows where it is the same.
pub proof fn lemma_render_goes_step_by_step(
    renderer: D3d11Renderer,
    context: RenderFrameContext<'_>,
)
    ensures
        ({
            let step = renderer.next_render_step(context);
            let has_frame = renderer.current_video is Some;
            let has_surface = renderer.surface is Some;
            let surface = renderer.surface->0;
            let drawable = has_frame && renderer.has_device && has_surface && surface.ready();
            &&& step == D3d11RenderStep::NoFrame <==> !has_frame
            &&& step == D3d11RenderStep::CreateDevice <==> has_frame && !renderer.has_device
            &&& step == D3d11RenderStep::NoSurface <==> has_frame && renderer.has_device
                && !has_surface
            &&& step == D3d11RenderStep::Rebuild <==> has_frame && renderer.has_device
                && has_surface && !surface.ready()
            &&& step == D3d11RenderStep::Reuse <==> drawable && renderer.published_is_current(
                context,
            )
            &&& step == D3d11RenderStep::Draw <==> drawable && !renderer.published_is_current(
                context,
            )
            &&& D3d11RenderStep::NoFrame.shows() == Some(false)
            &&& D3d11RenderStep::Reuse.shows() == Some(true)
            &&& D3d11RenderStep::Draw.shows() == Some(true)
            &&& D3d11RenderStep::CreateDevice.shows() is None
            &&& D3d11RenderStep::NoSurface.shows() is None
            &&& D3d11RenderStep::Rebuild.shows() is None
        }),
{
}

/// A published picture is shown again only on a Flutter texture, and only as long as
/// the frame, its generation, the upscaler, the overlay and the comments are those
/// that it was drawn from.
pub proof fn lemma_published_picture_is_of_the_same_scene(
    renderer: D3d11Renderer,
    context: RenderFrameContext<'_>,
)
    requires
        renderer.published_is_current(context),
    ensures
        ({
            let scene = renderer.flutter_scene->0;
            &&& renderer.surface->0.flutter_texture
            &&& renderer.surface->0.published_texture
            &&& renderer.flutter_scene is Some
            &&& scene.frame_token == renderer.current_video->0.frame_token
            &&& scene.generation == context.generation
            &&& scene.upscaler == renderer.upscaler_mode
            &&& scene.overlay is Some <==> context.overlay is Some
            &&& scene.danmaku is Some <==> context.danmaku is Some
            &&& scene.overlay is Some ==> same_picture(scene.overlay->0@, (*context.overlay->0)@)
            &&& scene.danmaku is Some ==> same_drawing(scene.danmaku->0@, (*context.danmaku->0)@)
        }),
{
}

/// What is kept of an overlay or of comments is what is drawn now, or else is taken
/// anew as it is given.
pub proof fn lemma_scene_keeps_what_was_drawn(
    kept: OverlayFrame,
    overlay: OverlayFrame,
    kept_plan: DanmakuRenderPlan,
    plan: DanmakuRenderPlan,
)
    ensures
        overlay_kept(Some(kept), Some(&overlay)) <==> same_picture(kept@, overlay@),
        overlay_kept(None, None),
        !overlay_kept(Some(kept), None),
        !overlay_kept(None, Some(&overlay)),
        danmaku_kept(Some(kept_plan), Some(&plan)) <==> same_drawing(kept_plan@, plan@),
        danmaku_kept(None, None),
        !danmaku_kept(Some(kept_plan), None),
        !danmaku_kept(None, Some(&plan)),
        overlay_taken(Some(kept), Some(&overlay)) <==> kept@ == overlay@,
        overlay_taken(None, None),
        !overlay_taken(Some(kept), None),
        !overlay_taken(None, Some(&overlay)),
        danmaku_taken(Some(kept_plan), Some(&plan)) <==> kept_plan@ == plan@,
        danmaku_taken(None, None),
        !danmaku_taken(Some(kept_plan), None),
        !danmaku_taken(None, Some(&plan)),
{
}

/// A frame that is drawn is counted once, and the comments over it as one pass, where
/// there are any, of as many items as were drawn. A Flutter texture then shows that
/// frame, of that generation; other surfaces are as they were. Nothing else changes.
pub proof fn lemma_drawn_frame_is_counted_and_published(
    before: D3d11Renderer,
    context: RenderFrameContext<'_>,
    danmaku_draws: u64,
    after: D3d11Renderer,
)
    requires
        before.next_render_step(context) == D3d11RenderStep::Draw,
        before.render_concluded(context, danmaku_draws, after),
        before.stats.has_room(),
        before.stats.danmaku_items + danmaku_draws <= u64::MAX,
    ensures
        ({
            let surface = before.surface->0;
            let scene = after.flutter_scene->0;
            &&& after.stats.rendered_frames == before.stats.rendered_frames + 1
            &&& danmaku_draws > 0 ==> after.stats.danmaku_passes == before.stats.danmaku_passes + 1
            &&& danmaku_draws == 0 ==> after.stats.danmaku_passes == before.stats.danmaku_passes
            &&& after.stats.danmaku_items == before.stats.danmaku_items + danmaku_draws
            &&& after.stats == (D3d11RendererStats {
                rendered_frames: after.stats.rendered_frames,
                danmaku_passes: after.stats.danmaku_passes,
                danmaku_items: after.stats.danmaku_items,
                ..before.stats
            })
            &&& surface.flutter_texture ==> {
                &&& after.surface == Some(AttachedSurface { published_texture: true, ..surface })
                &&& after.flutter_scene is Some
                &&& scene.frame_token == before.current_video->0.frame_token
                &&& scene.generation == context.generation
                &&& scene.upscaler == before.upscaler_mode
                &&& scene.overlay is Some <==> context.overlay is Some
                &&& scene.danmaku is Some <==> context.danmaku is Some
            }
            &&& !surface.flutter_texture ==> after.surface == before.surface
                && after.flutter_scene == before.flutter_scene
            &&& after.current_video == before.current_video
            &&& after.has_device == before.has_device
            &&& after.next_frame_token == before.next_frame_token
            &&& after.danmaku_atlas_cache == before.danmaku_atlas_cache
            &&& after.requested_output_mode == before.requested_output_mode
            &&& after.video_has_alpha == before.video_has_alpha
            &&& after.upscaler_mode == before.upscaler_mode
            &&& after.hdr10_output_unavailable == before.hdr10_output_unavailable
        }),
{
}

/// What is drawn over a frame: an overlay that has a plane or a bitmap, and comments
/// that have a glyph and an atlas. All of an overlay's planes and bitmaps are counted.
pub proof fn lemma_empty_overlays_are_not_drawn(overlay: OverlayFrame, plan: DanmakuRenderPlan)
    ensures
        overlay_shown(Some(&overlay)) <==> overlay.subtitle_planes@.len() > 0
            || overlay.subtitle_alpha_planes@.len() > 0,
        !overlay_shown(None),
        danmaku_shown(Some(&plan)) <==> plan.items@.len() > 0 && plan.atlas is Some,
        !danmaku_shown(None),
        overlay.subtitle_planes@.len() + overlay.subtitle_alpha_planes@.len() <= usize::MAX
            ==> counted_planes(overlay) == overlay.subtitle_planes@.len()
            + overlay.subtitle_alpha_planes@.len(),
{
}

/// A surface can be drawn on once it has what its pictures go to, a texture for
/// Flutter and else a swap chain, and a render target; in HDR10 also the linear target
/// that the scene is drawn on and read from.
pub proof fn lemma_surface_is_ready_with_all_its_targets(surface: AttachedSurface)
    ensures
        ({
            let shown = (surface.flutter_texture && surface.output_texture) || (
            !surface.flutter_texture && surface.swapchain);
            let linear = surface.linear_render_target && surface.linear_shader_resource;
            &&& surface.output_mode == D3d11OutputMode::Sdr ==> (surface.ready() <==> shown
                && surface.render_target)
            &&& surface.output_mode == D3d11OutputMode::Hdr10 ==> (surface.ready() <==> shown
                && surface.render_target && linear)
        }),
{
}

/// The surfaces that can be attached: a window, by its handle or by composition, and a
/// texture of Flutter on Windows. A new surface is SDR, keeps its size and has nothing
/// made for it yet. A window that is not composed needs a handle.
pub proof fn lemma_windows_and_flutter_textures_attach(surface: PlatformSurface)
    ensures
        surface is Metal ==> surface_of(surface) == Err::<AttachedSurface, D3d11SurfaceError>(
            D3d11SurfaceError::MetalNotSupported,
        ),
        surface matches PlatformSurface::Wgpu { handle } ==> ({
            let composed = handle.output_capabilities.direct_composition;
            let windows = handle.kind == WgpuSurfaceKind::WindowsHwnd;
            &&& !windows ==> surface_of(surface) == Err::<AttachedSurface, D3d11SurfaceError>(
                D3d11SurfaceError::KindNotSupported { kind: handle.kind },
            )
            &&& windows && !composed && handle.raw_window == 0 ==> surface_of(surface) == Err::<
                AttachedSurface,
                D3d11SurfaceError,
            >(D3d11SurfaceError::NullWindow)
            &&& windows && (composed || handle.raw_window != 0) ==> {
                &&& surface_of(surface) matches Ok(attached)
                &&& attached.raw_window == handle.raw_window
                &&& attached.composition == composed
                &&& !attached.flutter_texture
                &&& attached.metrics == handle.size
            }
        }),
        surface matches PlatformSurface::FlutterTexture { handle } ==> ({
            let windows = handle.kind == FlutterTextureKind::WindowsTextureRegistrar;
            &&& !windows ==> surface_of(surface) == Err::<AttachedSurface, D3d11SurfaceError>(
                D3d11SurfaceError::TextureKindNotSupported { kind: handle.kind },
            )
            &&& windows ==> {
                &&& surface_of(surface) matches Ok(attached)
                &&& attached.raw_window == 0
                &&& !attached.composition
                &&& attached.flutter_texture
                &&& attached.metrics == handle.size
            }
        }),
        surface_of(surface) matches Ok(attached) ==> {
            &&& attached.output_mode == D3d11OutputMode::Sdr
            &&& !attached.swapchain
            &&& !attached.output_texture
            &&& !attached.published_texture
            &&& !attached.render_target
            &&& !attached.linear_render_target
            &&& !attached.linear_shader_resource
        },
{
}

/// Before a frame is let go the device is waited for where a compositor or Flutter may
/// still be reading it.
pub proof fn lemma_shared_pictures_are_waited_for(renderer: D3d11Renderer)
    ensures
        renderer.waits_before_retiring() <==> renderer.current_video is Some && renderer.has_device
            && renderer.surface is Some && (renderer.surface->0.composition
            || renderer.surface->0.flutter_texture),
{
}

/// What is told of the renderer are its own counts, each under its name, beside what
/// the upscaler tells of itself; one without a device is still being built.
pub proof fn lemma_report_tells_the_counts(renderer: D3d11Renderer, upscaler: UpscalerReport)
    ensures
        ({
            let told = renderer.runtime_report(upscaler);
            &&& told.surface_width == renderer.stats.surface_width
            &&& told.surface_height == renderer.stats.surface_height
            &&& told.rendered_frames == renderer.stats.rendered_frames
            &&& told.hardware_video_frames == renderer.stats.hardware_video_frames
            &&& told.zero_copy_video_frames == renderer.stats.zero_copy_video_frames
            &&& told.direct_zero_copy_video_frames == renderer.stats.direct_zero_copy_video_frames
            &&& told.shared_handle_video_frames == renderer.stats.shared_handle_video_frames
            &&& told.cpu_video_frame_fallbacks == renderer.stats.cpu_video_frame_fallbacks
            &&& told.hdr_source_frames == renderer.stats.hdr_source_frames
            &&& told.hdr10_output_frames == renderer.stats.hdr10_output_frames
            &&& told.sdr_tonemap_frames == renderer.stats.sdr_tonemap_frames
            &&& told.hdr10_metadata_updates == renderer.stats.hdr10_metadata_updates
            &&& told.hdr10_metadata_failures == renderer.stats.hdr10_metadata_failures
            &&& told.hdr10_output_failures == renderer.stats.hdr10_output_failures
            &&& told.hdr10_output_active == renderer.stats.hdr10_output_active
            &&& told.prepared_overlay_frames == renderer.stats.prepared_overlay_frames
            &&& told.prepared_overlay_subtitle_planes == renderer.stats.prepared_overlay_subtitle_planes
            &&& told.overlay_alpha_atlas_uploads == renderer.stats.overlay_alpha_atlas_uploads
            &&& told.overlay_alpha_atlas_reuses == renderer.stats.overlay_alpha_atlas_reuses
            &&& told.danmaku_passes == renderer.stats.danmaku_passes
            &&& told.attached == renderer.stats.attached
            &&& told.danmaku_draw_items == renderer.stats.danmaku_items
            &&& told.upscaler_mode == renderer.upscaler_mode
            &&& told.upscaler_fallbacks == upscaler.fallback_count
            &&& told.upscaled_frames == upscaler.upscaled_frames
            &&& told.last_upscaler_encode_duration == upscaler.last_encode_duration
            &&& renderer.upscaler_mode != LumaUpscalerMode::Off && !renderer.has_device
                ==> told.upscaler_backend == LumaUpscalerBackendStatus::Building
            &&& renderer.upscaler_mode == LumaUpscalerMode::Off || renderer.has_device
                ==> told.upscaler_backend == upscaler.status
            &&& told.offscreen_frames == 0
            &&& told.software_video_frames == 0
        }),
        ({
            let new = D3d11RendererStats::none_yet();
            &&& new.surface_width == 0
            &&& new.surface_height == 0
            &&& new.rendered_frames == 0
            &&& new.hardware_video_frames == 0
            &&& new.zero_copy_video_frames == 0
            &&& new.direct_zero_copy_video_frames == 0
            &&& new.shared_handle_video_frames == 0
            &&& new.cpu_video_frame_fallbacks == 0
            &&& new.hdr_source_frames == 0
            &&& new.hdr10_output_frames == 0
            &&& new.sdr_tonemap_frames == 0
            &&& new.hdr10_metadata_updates == 0
            &&& new.hdr10_metadata_failures == 0
            &&& new.hdr10_output_failures == 0
            &&& !new.hdr10_output_active
            &&& new.import_failures == 0
            &&& new.prepared_overlay_frames == 0
            &&& new.prepared_overlay_subtitle_planes == 0
            &&& new.overlay_alpha_atlas_uploads == 0
            &&& new.overlay_alpha_atlas_reuses == 0
            &&& new.danmaku_passes == 0
            &&& new.danmaku_items == 0
            &&& !new.attached
        }),
{
}

/// A mode's target: sRGB in BT.709 for SDR and PQ in BT.2020 for HDR10. What is drawn
/// over a frame has the target of the surface's mode, and SDR without a surface.
/// Flutter shows nothing but SDR.
pub proof fn lemma_modes_have_their_targets(renderer: D3d11Renderer, mode: D3d11OutputMode)
    ensures
        D3d11OutputMode::Sdr.target() == TargetColorState::of_sdr(ColorPrimaries::Bt709),
        D3d11OutputMode::Hdr10.target() == TargetColorState::of_hdr10(ColorPrimaries::Bt2020),
        renderer.surface is None ==> renderer.overlay_target() == TargetColorState::of_sdr(
            ColorPrimaries::Bt709,
        ),
        renderer.surface matches Some(surface) ==> renderer.overlay_target()
            == surface.output_mode.target(),
        renderer.surface matches Some(surface) && surface.flutter_texture
            ==> renderer.possible_mode(mode) == D3d11OutputMode::Sdr,
        renderer.surface is None || !renderer.surface->0.flutter_texture
            ==> renderer.possible_mode(mode) == mode,
{
}

/// HDR10 is tried for a PQ source without alpha on a window, with a device, as long as
/// it has not failed there.
pub proof fn lemma_hdr10_is_for_opaque_pq_on_windows(renderer: D3d11Renderer, source_is_pq: bool)
    ensures
        renderer.tries_hdr10(source_is_pq) <==> source_is_pq && !renderer.video_has_alpha
            && renderer.has_device && renderer.surface is Some
            && !renderer.surface->0.flutter_texture && !renderer.hdr10_output_unavailable,
{
}

/// How a mode is selected. HDR10 is selected once both the mode and its metadata were
/// set, and counts as an update and a frame of HDR10; where either fails the failure
/// is counted, HDR10 is given up and SDR is set instead. An HDR source that ends up in
/// SDR counts as tone mapped.
pub proof fn lemma_selection_counts_its_outcome(renderer: D3d11Renderer, source_is_hdr: bool)
    requires
        renderer.stats.has_room(),
    ensures
        ({
            let sdr = SelectStep::SetMode { mode: D3d11OutputMode::Sdr };
            let (after, next) = renderer.selection_answered_with(sdr, source_is_hdr, true);
            &&& next == (SelectStep::Selected { mode: D3d11OutputMode::Sdr })
            &&& after.stats.sdr_tonemap_frames == renderer.stats.sdr_tonemap_frames + (
            if source_is_hdr {
                1int
            } else {
                0
            })
            &&& after.hdr10_output_unavailable == renderer.hdr10_output_unavailable
            &&& renderer.selection_answered_with(sdr, source_is_hdr, false) == (
                renderer,
                SelectStep::Failed,
            )
        }),
        ({
            let hdr10 = SelectStep::SetMode { mode: D3d11OutputMode::Hdr10 };
            let (given_up, next) = renderer.selection_answered_with(hdr10, source_is_hdr, false);
            &&& renderer.selection_answered_with(hdr10, source_is_hdr, true) == (
                renderer,
                SelectStep::SetMetadata,
            )
            &&& next == (SelectStep::SetMode { mode: D3d11OutputMode::Sdr })
            &&& given_up.hdr10_output_unavailable
            &&& given_up.stats == (D3d11RendererStats {
                hdr10_output_failures: (renderer.stats.hdr10_output_failures + 1) as u64,
                ..renderer.stats
            })
        }),
        ({
            let told = SelectStep::SetMetadata;
            let (set, next) = renderer.selection_answered_with(told, source_is_hdr, true);
            let (given_up, instead) = renderer.selection_answered_with(told, source_is_hdr, false);
            &&& next == (SelectStep::Selected { mode: D3d11OutputMode::Hdr10 })
            &&& set.stats == (D3d11RendererStats {
                hdr10_metadata_updates: (renderer.stats.hdr10_metadata_updates + 1) as u64,
                hdr10_output_frames: (renderer.stats.hdr10_output_frames + 1) as u64,
                ..renderer.stats
            })
            &&& !set.hdr10_output_unavailable || renderer.hdr10_output_unavailable
            &&& instead == (SelectStep::SetMode { mode: D3d11OutputMode::Sdr })
            &&& given_up.hdr10_output_unavailable
            &&& given_up.stats == (D3d11RendererStats {
                hdr10_metadata_failures: (renderer.stats.hdr10_metadata_failures + 1) as u64,
                ..renderer.stats
            })
        }),
{
}

/// What an HDR10 display is told of the display that a source was mastered on is what
/// its metadata name: red, green and blue in this order, the white point, and the
/// brightest and the darkest level. Where they name none it is BT.2020 with its white
/// point, the source's peak but no less than 1000 nits, and 0.005 nits.
pub proof fn lemma_display_is_told_of_the_mastering(source: SourceColorState)
    ensures
        ({
            let mastered = source.hdr_metadata is Some
                && source.hdr_metadata->0.mastering_display is Some;
            let display = source.hdr_metadata->0.mastering_display->0;
            let standard = coordinates_of(ColorPrimaries::Bt2020);
            let told = mastering_primaries(source);
            &&& mastered && display.display_primaries is Some ==> {
                &&& told.red == display.display_primaries->0@[0]
                &&& told.green == display.display_primaries->0@[1]
                &&& told.blue == display.display_primaries->0@[2]
                &&& display.white_point is Some ==> told.white == display.white_point->0
                &&& display.white_point is None ==> told.white == standard.white
            }
            &&& !mastered || display.display_primaries is None ==> told == standard
            &&& mastered && display.max_luminance_nits is Some ==> max_mastering(source)
                == display.max_luminance_nits->0
            &&& !mastered || display.max_luminance_nits is None ==> max_mastering(source)
                == at_least(source.nominal_peak_nits, 0x447a_0000)
            &&& mastered && display.min_luminance_nits is Some ==> min_mastering(source)
                == display.min_luminance_nits->0
            &&& !mastered || display.min_luminance_nits is None ==> min_mastering(source)
                == 0x3ba3_d70a
        }),
        forall|level: u32| level <= 0xffff ==> #[trigger] clamped(level) == level,
        forall|level: u32| level > 0xffff ==> #[trigger] clamped(level) == 0xffff,
{
}

/// Making targets begins by letting go of those that there are, and of nothing else.
/// A texture for Flutter is made anew; a swap chain that there is is resized, and else
/// one is made, for the surface's size and mode, premultiplied where the video has
/// alpha and is composed. No side is shorter than a pixel.
pub proof fn lemma_targets_begin_with_the_surface(renderer: D3d11Renderer)
    ensures
        renderer.surface is None || !renderer.has_device ==> renderer.targets_begun() == (
            renderer,
            TargetStep::Unneeded,
        ),
        renderer.surface is Some && renderer.has_device ==> ({
            let before = renderer.surface->0;
            let (begun, step) = renderer.targets_begun();
            let after = begun.surface->0;
            &&& begun.surface is Some
            &&& !after.render_target && !after.output_texture && !after.published_texture
            &&& !after.linear_render_target && !after.linear_shader_resource
            &&& after.raw_window == before.raw_window
            &&& after.composition == before.composition
            &&& after.flutter_texture == before.flutter_texture
            &&& after.metrics == before.metrics
            &&& after.output_mode == before.output_mode
            &&& before.flutter_texture ==> !after.swapchain && step
                == (TargetStep::CreateFlutterTexture {
                width: side(before.metrics.width),
                height: side(before.metrics.height),
            })
            &&& !before.flutter_texture && before.swapchain ==> after.swapchain && step
                == (TargetStep::ResizeBuffers {
                width: side(before.metrics.width),
                height: side(before.metrics.height),
                mode: before.output_mode,
            })
            &&& !before.flutter_texture && !before.swapchain ==> !after.swapchain && step
                == (TargetStep::CreateSwapchain {
                width: side(before.metrics.width),
                height: side(before.metrics.height),
                mode: before.output_mode,
                composition: before.composition,
                premultiplied: before.composition && renderer.video_has_alpha,
            })
            &&& begun == (D3d11Renderer { surface: begun.surface, ..renderer })
        }),
        forall|length: u32| length > 0 ==> #[trigger] side(length) == length,
        side(0) == 1,
{
}

/// How making targets goes on. A swap chain that cannot be resized is replaced; any
/// other failure but that of taking metadata back ends it. Once a texture for Flutter,
/// or the targets of a swap chain, are there, the surface is told of with its size and
/// mode.
pub proof fn lemma_targets_are_made_step_by_step(
    renderer: D3d11Renderer,
    width: u32,
    height: u32,
    mode: D3d11OutputMode,
    composition: bool,
    premultiplied: bool,
)
    requires
        renderer.surface is Some,
    ensures
        ({
            let surface = renderer.surface->0;
            let resize = TargetStep::ResizeBuffers { width, height, mode };
            let create = TargetStep::CreateSwapchain {
                width,
                height,
                mode,
                composition,
                premultiplied,
            };
            let (dropped, instead) = renderer.targets_answered_with(resize, false);
            let (made, configure) = renderer.targets_answered_with(create, true);
            &&& renderer.targets_answered_with(resize, true) == (
                renderer,
                TargetStep::ConfigureColorSpace { mode },
            )
            &&& !dropped.surface->0.swapchain
            &&& instead == (TargetStep::CreateSwapchain {
                width: side(surface.metrics.width),
                height: side(surface.metrics.height),
                mode: surface.output_mode,
                composition: surface.composition,
                premultiplied: surface.composition && renderer.video_has_alpha,
            })
            &&& made == (D3d11Renderer {
                surface: Some(AttachedSurface { swapchain: true, ..surface }),
                ..renderer
            })
            &&& configure == (TargetStep::ConfigureColorSpace { mode })
            &&& renderer.targets_answered_with(create, false) == (renderer, TargetStep::Failed)
            &&& renderer.targets_answered_with(TargetStep::CreateRenderTarget, false) == (
                renderer,
                TargetStep::Failed,
            )
        }),
        ({
            let surface = renderer.surface->0;
            let texture = TargetStep::CreateFlutterTexture { width, height };
            let linear = TargetStep::CreateLinearTarget { width, height };
            let (shown, done) = renderer.targets_answered_with(texture, true);
            let (drawn, next) = renderer.targets_answered_with(
                TargetStep::CreateRenderTarget,
                true,
            );
            let (last, ended) = renderer.targets_answered_with(linear, true);
            &&& done == TargetStep::Done
            &&& shown.surface == Some(
                AttachedSurface {
                    output_texture: true,
                    render_target: true,
                    output_mode: D3d11OutputMode::Sdr,
                    ..surface
                },
            )
            &&& shown.stats == (D3d11RendererStats {
                surface_width: surface.metrics.width,
                surface_height: surface.metrics.height,
                hdr10_output_active: false,
                ..renderer.stats
            })
            &&& drawn.surface == Some(AttachedSurface { render_target: true, ..surface })
            &&& surface.output_mode == D3d11OutputMode::Sdr ==> {
                &&& next == TargetStep::Done
                &&& drawn.stats == (D3d11RendererStats {
                    surface_width: surface.metrics.width,
                    surface_height: surface.metrics.height,
                    hdr10_output_active: false,
                    ..renderer.stats
                })
            }
            &&& surface.output_mode == D3d11OutputMode::Hdr10 ==> {
                &&& next == (TargetStep::CreateLinearTarget {
                    width: side(surface.metrics.width),
                    height: side(surface.metrics.height),
                })
                &&& drawn.stats == renderer.stats
            }
            &&& ended == TargetStep::Done
            &&& last.surface == Some(
                AttachedSurface {
                    linear_render_target: true,
                    linear_shader_resource: true,
                    ..surface
                },
            )
            &&& last.stats.surface_width == surface.metrics.width
            &&& last.stats.surface_height == surface.metrics.height
            &&& last.stats.hdr10_output_active <==> surface.output_mode == D3d11OutputMode::Hdr10
        }),
{
}

/// What a source says of its light is found in its metadata, and nowhere without them.
pub proof fn lemma_light_is_told_by_the_metadata(source: SourceColorState)
    ensures
        source.hdr_metadata is None ==> mastering_of(source) is None && content_light_of(source)
            is None,
        source.hdr_metadata matches Some(metadata) ==> mastering_of(source)
            == metadata.mastering_display && content_light_of(source) == metadata.content_light,
{
}

} // verus!
