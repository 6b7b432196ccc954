//! What a renderer tells of its work.

use crate::renderer::output::sum_capped;
use crate::renderer::pipeline::LumaUpscalerMode;
use crate::time::Duration;
use vstd::prelude::*;

verus! {

#[derive(Debug, Clone, Copy, PartialEq, Eq, Structural)]
pub enum LumaUpscalerBackendStatus {
    Off,
    Building,
    Inactive,
    Scalar,
}

/// Counters and states of a renderer.
#[derive(Debug, Clone, Copy, PartialEq, Eq, Structural)]
pub struct RendererRuntimeStats {
    pub surface_width: u32,
    pub surface_height: u32,
    pub rendered_frames: u64,
    pub offscreen_frames: u64,
    pub prepared_overlay_frames: u64,
    pub prepared_overlay_subtitle_planes: u64,
    pub danmaku_passes: u64,
    pub danmaku_draw_items: u64,
    pub overlay_alpha_atlas_uploads: u64,
    pub overlay_alpha_atlas_reuses: u64,
    pub upscaler_mode: LumaUpscalerMode,
    pub upscaler_backend: LumaUpscalerBackendStatus,
    pub upscaler_fallbacks: u64,
    pub upscaled_frames: u64,
    pub last_upscaler_encode_duration: Duration,
    pub attached: bool,
    pub software_video_frames: u64,
    pub hardware_video_frames: u64,
    pub zero_copy_video_frames: u64,
    pub direct_zero_copy_video_frames: u64,
    pub shared_handle_video_frames: u64,
    pub cpu_video_frame_fallbacks: u64,
    pub hdr_source_frames: u64,
    pub hdr10_output_frames: u64,
    pub sdr_tonemap_frames: u64,
    pub hdr10_metadata_updates: u64,
    pub hdr10_metadata_failures: u64,
    pub hdr10_output_failures: u64,
    pub hdr10_output_active: bool,
}

impl RendererRuntimeStats {
    /// The statistics of a renderer that has done nothing.
    pub open spec fn none_yet() -> Self {
        RendererRuntimeStats {
            surface_width: 0,
            surface_height: 0,
            rendered_frames: 0,
            offscreen_frames: 0,
            prepared_overlay_frames: 0,
            prepared_overlay_subtitle_planes: 0,
            danmaku_passes: 0,
            danmaku_draw_items: 0,
            overlay_alpha_atlas_uploads: 0,
            overlay_alpha_atlas_reuses: 0,
            upscaler_mode: LumaUpscalerMode::Off,
            upscaler_backend: LumaUpscalerBackendStatus::Off,
            upscaler_fallbacks: 0,
            upscaled_frames: 0,
            last_upscaler_encode_duration: Duration::spanning(0),
            attached: false,
            software_video_frames: 0,
            hardware_video_frames: 0,
            zero_copy_video_frames: 0,
            direct_zero_copy_video_frames: 0,
            shared_handle_video_frames: 0,
            cpu_video_frame_fallbacks: 0,
            hdr_source_frames: 0,
            hdr10_output_frames: 0,
            sdr_tonemap_frames: 0,
            hdr10_metadata_updates: 0,
            hdr10_metadata_failures: 0,
            hdr10_output_failures: 0,
            hdr10_output_active: false,
        }
    }
}

impl Default for RendererRuntimeStats {
    fn default() -> (stats: Self)
        ensures
            stats == RendererRuntimeStats::none_yet(),
    {
        RendererRuntimeStats {
            surface_width: 0,
            surface_height: 0,
            rendered_frames: 0,
            offscreen_frames: 0,
            prepared_overlay_frames: 0,
            prepared_overlay_subtitle_planes: 0,
            danmaku_passes: 0,
            danmaku_draw_items: 0,
            overlay_alpha_atlas_uploads: 0,
            overlay_alpha_atlas_reuses: 0,
            upscaler_mode: LumaUpscalerMode::Off,
            upscaler_backend: LumaUpscalerBackendStatus::Off,
            upscaler_fallbacks: 0,
            upscaled_frames: 0,
            last_upscaler_encode_duration: Duration::zero(),
            attached: false,
            software_video_frames: 0,
            hardware_video_frames: 0,
            zero_copy_video_frames: 0,
            direct_zero_copy_video_frames: 0,
            shared_handle_video_frames: 0,
            cpu_video_frame_fallbacks: 0,
            hdr_source_frames: 0,
            hdr10_output_frames: 0,
            sdr_tonemap_frames: 0,
            hdr10_metadata_updates: 0,
            hdr10_metadata_failures: 0,
            hdr10_output_failures: 0,
            hdr10_output_active: false,
        }
    }
}

/// Statistics with the counters of a retired renderer added to their own.
pub open spec fn with_retired_stats(
    stats: RendererRuntimeStats,
    retired: RendererRuntimeStats,
) -> RendererRuntimeStats {
    RendererRuntimeStats {
        rendered_frames: sum_capped(stats.rendered_frames, retired.rendered_frames),
        offscreen_frames: sum_capped(stats.offscreen_frames, retired.offscreen_frames),
        prepared_overlay_frames: sum_capped(
            stats.prepared_overlay_frames,
            retired.prepared_overlay_frames,
        ),
        prepared_overlay_subtitle_planes: sum_capped(
            stats.prepared_overlay_subtitle_planes,
            retired.prepared_overlay_subtitle_planes,
        ),
        danmaku_passes: sum_capped(stats.danmaku_passes, retired.danmaku_passes),
        danmaku_draw_items: sum_capped(stats.danmaku_draw_items, retired.danmaku_draw_items),
        overlay_alpha_atlas_uploads: sum_capped(
            stats.overlay_alpha_atlas_uploads,
            retired.overlay_alpha_atlas_uploads,
        ),
        overlay_alpha_atlas_reuses: sum_capped(
            stats.overlay_alpha_atlas_reuses,
            retired.overlay_alpha_atlas_reuses,
        ),
        upscaler_fallbacks: sum_capped(stats.upscaler_fallbacks, retired.upscaler_fallbacks),
        upscaled_frames: sum_capped(stats.upscaled_frames, retired.upscaled_frames),
        software_video_frames: sum_capped(
            stats.software_video_frames,
            retired.software_video_frames,
        ),
        hardware_video_frames: sum_capped(
            stats.hardware_video_frames,
            retired.hardware_video_frames,
        ),
        zero_copy_video_frames: sum_capped(
            stats.zero_copy_video_frames,
            retired.zero_copy_video_frames,
        ),
        direct_zero_copy_video_frames: sum_capped(
            stats.direct_zero_copy_video_frames,
            retired.direct_zero_copy_video_frames,
        ),
        shared_handle_video_frames: sum_capped(
            stats.shared_handle_video_frames,
            retired.shared_handle_video_frames,
        ),
        cpu_video_frame_fallbacks: sum_capped(
            stats.cpu_video_frame_fallbacks,
            retired.cpu_video_frame_fallbacks,
        ),
        hdr_source_frames: sum_capped(stats.hdr_source_frames, retired.hdr_source_frames),
        hdr10_output_frames: sum_capped(stats.hdr10_output_frames, retired.hdr10_output_frames),
        sdr_tonemap_frames: sum_capped(stats.sdr_tonemap_frames, retired.sdr_tonemap_frames),
        hdr10_metadata_updates: sum_capped(
            stats.hdr10_metadata_updates,
            retired.hdr10_metadata_updates,
        ),
        hdr10_metadata_failures: sum_capped(
            stats.hdr10_metadata_failures,
            retired.hdr10_metadata_failures,
        ),
        hdr10_output_failures: sum_capped(
            stats.hdr10_output_failures,
            retired.hdr10_output_failures,
        ),
        ..stats
    }
}

/// Adds the counters of a retired renderer. The surface and every state stay
/// those of the current one.
pub fn add_retired_renderer_stats(target: &mut RendererRuntimeStats, retired: RendererRuntimeStats)
    ensures
        *final(target) == with_retired_stats(*old(target), retired),
{
    target.rendered_frames = target.rendered_frames.saturating_add(retired.rendered_frames);
    target.offscreen_frames = target.offscreen_frames.saturating_add(retired.offscreen_frames);
    target.prepared_overlay_frames = target.prepared_overlay_frames.saturating_add(
        retired.prepared_overlay_frames,
    );
    target.prepared_overlay_subtitle_planes =
    target.prepared_overlay_subtitle_planes.saturating_add(retired.prepared_overlay_subtitle_planes);
    target.danmaku_passes = target.danmaku_passes.saturating_add(retired.danmaku_passes);
    target.danmaku_draw_items = target.danmaku_draw_items.saturating_add(
        retired.danmaku_draw_items,
    );
    target.overlay_alpha_atlas_uploads = target.overlay_alpha_atlas_uploads.saturating_add(
        retired.overlay_alpha_atlas_uploads,
    );
    target.overlay_alpha_atlas_reuses = target.overlay_alpha_atlas_reuses.saturating_add(
        retired.overlay_alpha_atlas_reuses,
    );
    target.upscaler_fallbacks = target.upscaler_fallbacks.saturating_add(
        retired.upscaler_fallbacks,
    );
    target.upscaled_frames = target.upscaled_frames.saturating_add(retired.upscaled_frames);
    target.software_video_frames = target.software_video_frames.saturating_add(
        retired.software_video_frames,
    );
    target.hardware_video_frames = target.hardware_video_frames.saturating_add(
        retired.hardware_video_frames,
    );
    target.zero_copy_video_frames = target.zero_copy_video_frames.saturating_add(
        retired.zero_copy_video_frames,
    );
    target.direct_zero_copy_video_frames = target.direct_zero_copy_video_frames.saturating_add(
        retired.direct_zero_copy_video_frames,
    );
    target.shared_handle_video_frames = target.shared_handle_video_frames.saturating_add(
        retired.shared_handle_video_frames,
    );
    target.cpu_video_frame_fallbacks = target.cpu_video_frame_fallbacks.saturating_add(
        retired.cpu_video_frame_fallbacks,
    );
    target.hdr_source_frames = target.hdr_source_frames.saturating_add(retired.hdr_source_frames);
    target.hdr10_output_frames = target.hdr10_output_frames.saturating_add(
        retired.hdr10_output_frames,
    );
    target.sdr_tonemap_frames = target.sdr_tonemap_frames.saturating_add(
        retired.sdr_tonemap_frames,
    );
    target.hdr10_metadata_updates = target.hdr10_metadata_updates.saturating_add(
        retired.hdr10_metadata_updates,
    );
    target.hdr10_metadata_failures = target.hdr10_metadata_failures.saturating_add(
        retired.hdr10_metadata_failures,
    );
    target.hdr10_output_failures = target.hdr10_output_failures.saturating_add(
        retired.hdr10_output_failures,
    );
}

/// Adds the counters of a renderer that is being retired to those retired
/// before.
pub fn accumulate_retired_renderer_stats(
    retired: &mut RendererRuntimeStats,
    current: RendererRuntimeStats,
)
    ensures
        *final(retired) == with_retired_stats(*old(retired), current),
{
    add_retired_renderer_stats(retired, current);
}

/// Retiring two renderers one after the other reports the same as retiring
/// them in one step: no frame is lost or counted twice.
pub proof fn lemma_retired_stats_accumulate(
    current: RendererRuntimeStats,
    first: RendererRuntimeStats,
    second: RendererRuntimeStats,
)
    ensures
        with_retired_stats(with_retired_stats(current, first), second) == with_retired_stats(
            current,
            with_retired_stats(first, second),
        ),
{
}

/// What a retired renderer has counted is added to its successor's counts, each to
/// its own; nothing else of the retired renderer is taken over.
pub proof fn lemma_retired_counts_are_added(
    stats: RendererRuntimeStats,
    retired: RendererRuntimeStats,
)
    requires
        stats.rendered_frames + retired.rendered_frames <= u64::MAX,
        stats.offscreen_frames + retired.offscreen_frames <= u64::MAX,
        stats.prepared_overlay_frames + retired.prepared_overlay_frames <= u64::MAX,
        stats.prepared_overlay_subtitle_planes + retired.prepared_overlay_subtitle_planes
            <= u64::MAX,
        stats.danmaku_passes + retired.danmaku_passes <= u64::MAX,
        stats.danmaku_draw_items + retired.danmaku_draw_items <= u64::MAX,
        stats.overlay_alpha_atlas_uploads + retired.overlay_alpha_atlas_uploads <= u64::MAX,
        stats.overlay_alpha_atlas_reuses + retired.overlay_alpha_atlas_reuses <= u64::MAX,
        stats.upscaler_fallbacks + retired.upscaler_fallbacks <= u64::MAX,
        stats.upscaled_frames + retired.upscaled_frames <= u64::MAX,
        stats.software_video_frames + retired.software_video_frames <= u64::MAX,
        stats.hardware_video_frames + retired.hardware_video_frames <= u64::MAX,
        stats.zero_copy_video_frames + retired.zero_copy_video_frames <= u64::MAX,
        stats.direct_zero_copy_video_frames + retired.direct_zero_copy_video_frames <= u64::MAX,
        stats.shared_handle_video_frames + retired.shared_handle_video_frames <= u64::MAX,
        stats.cpu_video_frame_fallbacks + retired.cpu_video_frame_fallbacks <= u64::MAX,
        stats.hdr_source_frames + retired.hdr_source_frames <= u64::MAX,
        stats.hdr10_output_frames + retired.hdr10_output_frames <= u64::MAX,
        stats.sdr_tonemap_frames + retired.sdr_tonemap_frames <= u64::MAX,
        stats.hdr10_metadata_updates + retired.hdr10_metadata_updates <= u64::MAX,
        stats.hdr10_metadata_failures + retired.hdr10_metadata_failures <= u64::MAX,
        stats.hdr10_output_failures + retired.hdr10_output_failures <= u64::MAX,
    ensures
        ({
            let both = with_retired_stats(stats, retired);
            &&& both.rendered_frames == stats.rendered_frames + retired.rendered_frames
            &&& both.offscreen_frames == stats.offscreen_frames + retired.offscreen_frames
            &&& both.prepared_overlay_frames == stats.prepared_overlay_frames
                + retired.prepared_overlay_frames
            &&& both.prepared_overlay_subtitle_planes == stats.prepared_overlay_subtitle_planes
                + retired.prepared_overlay_subtitle_planes
            &&& both.danmaku_passes == stats.danmaku_passes + retired.danmaku_passes
            &&& both.danmaku_draw_items == stats.danmaku_draw_items + retired.danmaku_draw_items
            &&& both.overlay_alpha_atlas_uploads == stats.overlay_alpha_atlas_uploads
                + retired.overlay_alpha_atlas_uploads
            &&& both.overlay_alpha_atlas_reuses == stats.overlay_alpha_atlas_reuses
                + retired.overlay_alpha_atlas_reuses
            &&& both.upscaler_fallbacks == stats.upscaler_fallbacks + retired.upscaler_fallbacks
            &&& both.upscaled_frames == stats.upscaled_frames + retired.upscaled_frames
            &&& both.software_video_frames == stats.software_video_frames
                + retired.software_video_frames
            &&& both.hardware_video_frames == stats.hardware_video_frames
                + retired.hardware_video_frames
            &&& both.zero_copy_video_frames == stats.zero_copy_video_frames
                + retired.zero_copy_video_frames
            &&& both.direct_zero_copy_video_frames == stats.direct_zero_copy_video_frames
                + retired.direct_zero_copy_video_frames
            &&& both.shared_handle_video_frames == stats.shared_handle_video_frames
                + retired.shared_handle_video_frames
            &&& both.cpu_video_frame_fallbacks == stats.cpu_video_frame_fallbacks
                + retired.cpu_video_frame_fallbacks
            &&& both.hdr_source_frames == stats.hdr_source_frames + retired.hdr_source_frames
            &&& both.hdr10_output_frames == stats.hdr10_output_frames + retired.hdr10_output_frames
            &&& both.sdr_tonemap_frames == stats.sdr_tonemap_frames + retired.sdr_tonemap_frames
            &&& both.hdr10_metadata_updates == stats.hdr10_metadata_updates
                + retired.hdr10_metadata_updates
            &&& both.hdr10_metadata_failures == stats.hdr10_metadata_failures
                + retired.hdr10_metadata_failures
            &&& both.hdr10_output_failures == stats.hdr10_output_failures
                + retired.hdr10_output_failures
            &&& both == (RendererRuntimeStats {
                rendered_frames: both.rendered_frames,
                offscreen_frames: both.offscreen_frames,
                prepared_overlay_frames: both.prepared_overlay_frames,
                prepared_overlay_subtitle_planes: both.prepared_overlay_subtitle_planes,
                danmaku_passes: both.danmaku_passes,
                danmaku_draw_items: both.danmaku_draw_items,
                overlay_alpha_atlas_uploads: both.overlay_alpha_atlas_uploads,
                overlay_alpha_atlas_reuses: both.overlay_alpha_atlas_reuses,
                upscaler_fallbacks: both.upscaler_fallbacks,
                upscaled_frames: both.upscaled_frames,
                software_video_frames: both.software_video_frames,
                hardware_video_frames: both.hardware_video_frames,
                zero_copy_video_frames: both.zero_copy_video_frames,
                direct_zero_copy_video_frames: both.direct_zero_copy_video_frames,
                shared_handle_video_frames: both.shared_handle_video_frames,
                cpu_video_frame_fallbacks: both.cpu_video_frame_fallbacks,
                hdr_source_frames: both.hdr_source_frames,
                hdr10_output_frames: both.hdr10_output_frames,
                sdr_tonemap_frames: both.sdr_tonemap_frames,
                hdr10_metadata_updates: both.hdr10_metadata_updates,
                hdr10_metadata_failures: both.hdr10_metadata_failures,
                hdr10_output_failures: both.hdr10_output_failures,
                ..stats
            })
        }),
{
}

} // verus!
