//! The portable GPU backend: which device is asked for, what its surfaces
//! show, what is uploaded to it, and how a lost device is replaced.

use crate::renderer::output::{OutputHeadroomState, OutputMode, OutputRuntimeStatus};
use crate::renderer::pipeline::LumaUpscalerMode;
use crate::renderer::stats::{LumaUpscalerBackendStatus, RendererRuntimeStats};
use crate::renderer::surface::WgpuSurfaceHandle;
use crate::time::Duration;
use vstd::prelude::*;

pub mod backend;
pub mod device;
pub mod draw;
pub mod laws;
pub mod readback;
pub mod recovery;
pub mod surface;
pub mod upload;

use backend::Platform;
use device::DeviceOutcome;
use surface::AttachedSurface;
use upload::UploadedVideoFrame;

verus! {

/// Counters of the portable GPU backend.
#[derive(Debug, Clone, Copy, PartialEq, Eq, Structural)]
pub struct WgpuRendererStats {
    pub surface_width: u32,
    pub surface_height: u32,
    pub rendered_frames: u64,
    pub offscreen_frames: u64,
    pub software_video_frames: u64,
    pub hardware_video_frames: u64,
    pub zero_copy_video_frames: u64,
    pub shared_handle_video_frames: u64,
    pub cpu_video_frame_fallbacks: u64,
    pub hdr_source_frames: u64,
    pub sdr_tonemap_frames: u64,
    pub danmaku_passes: u64,
    pub danmaku_items: u64,
    pub attached: bool,
}

impl WgpuRendererStats {
    pub open spec fn none_yet() -> Self {
        WgpuRendererStats {
            surface_width: 0,
            surface_height: 0,
            rendered_frames: 0,
            offscreen_frames: 0,
            software_video_frames: 0,
            hardware_video_frames: 0,
            zero_copy_video_frames: 0,
            shared_handle_video_frames: 0,
            cpu_video_frame_fallbacks: 0,
            hdr_source_frames: 0,
            sdr_tonemap_frames: 0,
            danmaku_passes: 0,
            danmaku_items: 0,
            attached: false,
        }
    }
}

impl WgpuRendererStats {
    /// Whether another frame of a shared buffer can be counted.
    pub open spec fn has_room_for_shared_buffer(self) -> bool {
        &&& self.hardware_video_frames < u64::MAX
        &&& self.zero_copy_video_frames < u64::MAX
        &&& self.shared_handle_video_frames < u64::MAX
    }

    /// No counter is about to overflow.
    pub open spec fn has_room(self) -> bool {
        &&& self.rendered_frames < u64::MAX
        &&& self.offscreen_frames < u64::MAX
        &&& self.software_video_frames < u64::MAX
        &&& self.hardware_video_frames < u64::MAX
        &&& self.zero_copy_video_frames < u64::MAX
        &&& self.shared_handle_video_frames < u64::MAX
        &&& self.cpu_video_frame_fallbacks < u64::MAX
        &&& self.hdr_source_frames < u64::MAX
        &&& self.sdr_tonemap_frames < u64::MAX
        &&& self.danmaku_passes < u64::MAX
    }

    /// Whether no counter is about to overflow.
    pub fn can_count(&self) -> (room: bool)
        ensures
            room == self.has_room(),
    {
        self.rendered_frames < u64::MAX
            && self.offscreen_frames < u64::MAX
            && self.software_video_frames < u64::MAX
            && self.hardware_video_frames < u64::MAX
            && self.zero_copy_video_frames < u64::MAX
            && self.shared_handle_video_frames < u64::MAX
            && self.cpu_video_frame_fallbacks < u64::MAX
            && self.hdr_source_frames < u64::MAX
            && self.sdr_tonemap_frames < u64::MAX
            && self.danmaku_passes < u64::MAX
    }
}

impl Default for WgpuRendererStats {
    fn default() -> (stats: Self)
        ensures
            stats == WgpuRendererStats::none_yet(),
    {
        WgpuRendererStats {
            surface_width: 0,
            surface_height: 0,
            rendered_frames: 0,
            offscreen_frames: 0,
            software_video_frames: 0,
            hardware_video_frames: 0,
            zero_copy_video_frames: 0,
            shared_handle_video_frames: 0,
            cpu_video_frame_fallbacks: 0,
            hdr_source_frames: 0,
            sdr_tonemap_frames: 0,
            danmaku_passes: 0,
            danmaku_items: 0,
            attached: false,
        }
    }
}

/// What is known of the upscaler that runs on the device.
#[derive(Debug, Clone, Copy, PartialEq, Eq, Structural)]
pub struct UpscalerReport {
    pub status: LumaUpscalerBackendStatus,
    pub fallback_count: u64,
    pub upscaled_frames: u64,
    pub last_encode_duration: Duration,
}

/// The state of the portable GPU backend, without the objects of the device.
#[derive(Debug, Clone, Copy)]
pub struct WgpuRenderer {
    pub platform: Platform,
    /// The candidate that the device came from.
    pub candidate_index: usize,
    /// The device shares buffers with the platform's decoders.
    pub interop: bool,
    pub supports_16bit_norm: bool,
    pub output_mode: OutputMode,
    pub video_has_alpha: bool,
    pub surface: Option<AttachedSurface>,
    pub output_status: OutputRuntimeStatus,
    pub output_headroom: OutputHeadroomState,
    pub current_video: Option<UploadedVideoFrame>,
    pub current_video_visible: bool,
    /// The number of the last upload.
    pub upload_serial: u64,
    pub upscaler_mode: LumaUpscalerMode,
    /// The frame that the upscaler has failed on.
    pub upscaler_failed_frame_token: Option<u64>,
    pub stats: WgpuRendererStats,
}

impl WgpuRenderer {
    pub open spec fn of_device(
        platform: Platform,
        device: DeviceOutcome,
        output_mode: OutputMode,
        video_has_alpha: bool,
    ) -> Self {
        WgpuRenderer {
            platform,
            candidate_index: device.candidate_index,
            interop: device.interop,
            supports_16bit_norm: device.supports_16bit_norm,
            output_mode,
            video_has_alpha,
            surface: None,
            output_status: OutputRuntimeStatus::of_request(output_mode),
            output_headroom: OutputHeadroomState::unknown(),
            current_video: None,
            current_video_visible: false,
            upload_serial: 0,
            upscaler_mode: LumaUpscalerMode::Off,
            upscaler_failed_frame_token: None,
            stats: WgpuRendererStats::none_yet(),
        }
    }

    /// A renderer on a fresh device.
    pub fn new(
        platform: Platform,
        device: DeviceOutcome,
        output_mode: OutputMode,
        video_has_alpha: bool,
    ) -> (renderer: Self)
        ensures
            renderer == WgpuRenderer::of_device(platform, device, output_mode, video_has_alpha),
            renderer.well_formed(),
    {
        WgpuRenderer {
            platform,
            candidate_index: device.candidate_index,
            interop: device.interop,
            supports_16bit_norm: device.supports_16bit_norm,
            output_mode,
            video_has_alpha,
            surface: None,
            output_status: OutputRuntimeStatus::requested(output_mode),
            output_headroom: OutputHeadroomState::default(),
            current_video: None,
            current_video_visible: false,
            upload_serial: 0,
            upscaler_mode: LumaUpscalerMode::Off,
            upscaler_failed_frame_token: None,
            stats: WgpuRendererStats::default(),
        }
    }

    /// The statistics speak of the surface that is attached.
    pub open spec fn well_formed(self) -> bool {
        &&& self.stats.attached <==> self.surface is Some
        &&& self.surface matches Some(attached) ==> self.stats.surface_width
            == attached.config.width && self.stats.surface_height == attached.config.height
    }

    /// The surface that is attached.
    pub fn surface(&self) -> (handle: Option<WgpuSurfaceHandle>)
        ensures
            handle == match self.surface {
                Some(attached) => Some(attached.handle),
                None => None,
            },
    {
        match self.surface {
            Some(attached) => Some(attached.handle),
            None => None,
        }
    }

    /// Whether the device has 16-bit normalised textures, which ten-bit video
    /// needs.
    pub fn supports_16bit_norm(&self) -> (supported: bool)
        ensures
            supported == self.supports_16bit_norm,
    {
        self.supports_16bit_norm
    }

    pub fn stats(&self) -> (stats: WgpuRendererStats)
        ensures
            stats == self.stats,
    {
        self.stats
    }

    pub fn output_status(&self) -> (status: OutputRuntimeStatus)
        ensures
            status == self.output_status,
    {
        self.output_status
    }

    pub open spec fn runtime_report(self, upscaler: UpscalerReport) -> RendererRuntimeStats {
        RendererRuntimeStats {
            surface_width: self.stats.surface_width,
            surface_height: self.stats.surface_height,
            rendered_frames: self.stats.rendered_frames,
            offscreen_frames: self.stats.offscreen_frames,
            danmaku_passes: self.stats.danmaku_passes,
            danmaku_draw_items: self.stats.danmaku_items,
            upscaler_mode: self.upscaler_mode,
            upscaler_backend: upscaler.status,
            upscaler_fallbacks: upscaler.fallback_count,
            upscaled_frames: upscaler.upscaled_frames,
            last_upscaler_encode_duration: upscaler.last_encode_duration,
            attached: self.stats.attached,
            software_video_frames: self.stats.software_video_frames,
            hardware_video_frames: self.stats.hardware_video_frames,
            zero_copy_video_frames: self.stats.zero_copy_video_frames,
            shared_handle_video_frames: self.stats.shared_handle_video_frames,
            cpu_video_frame_fallbacks: self.stats.cpu_video_frame_fallbacks,
            hdr_source_frames: self.stats.hdr_source_frames,
            sdr_tonemap_frames: self.stats.sdr_tonemap_frames,
            ..RendererRuntimeStats::none_yet()
        }
    }

    /// What every backend tells: what this one does not count stays zero.
    pub fn runtime_stats(&self, upscaler: UpscalerReport) -> (stats: RendererRuntimeStats)
        ensures
            stats == self.runtime_report(upscaler),
    {
        let mut stats: RendererRuntimeStats = RendererRuntimeStats::default();
        stats.surface_width = self.stats.surface_width;
        stats.surface_height = self.stats.surface_height;
        stats.rendered_frames = self.stats.rendered_frames;
        stats.offscreen_frames = self.stats.offscreen_frames;
        stats.danmaku_passes = self.stats.danmaku_passes;
        stats.danmaku_draw_items = self.stats.danmaku_items;
        stats.upscaler_mode = self.upscaler_mode;
        stats.upscaler_backend = upscaler.status;
        stats.upscaler_fallbacks = upscaler.fallback_count;
        stats.upscaled_frames = upscaler.upscaled_frames;
        stats.last_upscaler_encode_duration = upscaler.last_encode_duration;
        stats.attached = self.stats.attached;
        stats.software_video_frames = self.stats.software_video_frames;
        stats.hardware_video_frames = self.stats.hardware_video_frames;
        stats.zero_copy_video_frames = self.stats.zero_copy_video_frames;
        stats.shared_handle_video_frames = self.stats.shared_handle_video_frames;
        stats.cpu_video_frame_fallbacks = self.stats.cpu_video_frame_fallbacks;
        stats.hdr_source_frames = self.stats.hdr_source_frames;
        stats.sdr_tonemap_frames = self.stats.sdr_tonemap_frames;
        stats
    }
}

} // verus!
