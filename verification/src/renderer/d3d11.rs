//! The Direct3D 11 backend: its surfaces and output modes, the frames it
//! imports, and what it has published.

use crate::renderer::d3d11::scene::FlutterTextureScene;
use crate::renderer::d3d11::video::ImportedVideoFrame;
use crate::renderer::danmaku::DanmakuAtlasCache;
use crate::renderer::output::{
    ActiveOutputEncoding, OutputFallbackReason, OutputMode, OutputRuntimeStatus,
    OutputSurfaceFormat,
};
use crate::renderer::pipeline::{LumaUpscalerMode, TargetColorState};
use crate::renderer::stats::{LumaUpscalerBackendStatus, RendererRuntimeStats};
use crate::renderer::surface::{
    FlutterTextureKind, PlatformSurface, SurfaceMetrics, WgpuSurfaceKind,
};
use crate::renderer::wgpu::UpscalerReport;
use crate::color::ColorPrimaries;
use crate::float::{FloatBits, ONE};
use vstd::prelude::*;

pub mod draws;
pub mod laws;
pub mod mode;
pub mod scene;
pub mod targets;
pub mod video;

verus! {

/// Counters of the Direct3D 11 backend.
#[derive(Debug, Clone, Copy, PartialEq, Eq, Structural)]
pub struct D3d11RendererStats {
    pub surface_width: u32,
    pub surface_height: u32,
    pub rendered_frames: u64,
    pub hardware_video_frames: u64,
    pub zero_copy_video_frames: u64,
    pub direct_zero_copy_video_frames: u64,
    pub shared_handle_video_frames: u64,
    pub cpu_video_frame_fallbacks: u64,
    pub hdr_source_frames: u64,
    pub hdr10_output_frames: u64,
    pub sdr_tonemap_frames: u64,
    pub hdr10_metadata_updates: u64,
    pub hdr10_metadata_failures: u64,
    pub hdr10_output_failures: u64,
    pub hdr10_output_active: bool,
    pub import_failures: u64,
    pub prepared_overlay_frames: u64,
    pub prepared_overlay_subtitle_planes: u64,
    pub overlay_alpha_atlas_uploads: u64,
    pub overlay_alpha_atlas_reuses: u64,
    pub danmaku_passes: u64,
    pub danmaku_items: u64,
    pub attached: bool,
}

impl D3d11RendererStats {
    pub open spec fn none_yet() -> Self {
        D3d11RendererStats {
            surface_width: 0,
            surface_height: 0,
            rendered_frames: 0,
            hardware_video_frames: 0,
            zero_copy_video_frames: 0,
            direct_zero_copy_video_frames: 0,
            shared_handle_video_frames: 0,
            cpu_video_frame_fallbacks: 0,
            hdr_source_frames: 0,
            hdr10_output_frames: 0,
            sdr_tonemap_frames: 0,
            hdr10_metadata_updates: 0,
            hdr10_metadata_failures: 0,
            hdr10_output_failures: 0,
            hdr10_output_active: false,
            import_failures: 0,
            prepared_overlay_frames: 0,
            prepared_overlay_subtitle_planes: 0,
            overlay_alpha_atlas_uploads: 0,
            overlay_alpha_atlas_reuses: 0,
            danmaku_passes: 0,
            danmaku_items: 0,
            attached: false,
        }
    }

    /// No counter that grows by one is about to overflow.
    pub open spec fn has_room(self) -> bool {
        &&& self.rendered_frames < u64::MAX
        &&& self.hardware_video_frames < u64::MAX
        &&& self.zero_copy_video_frames < u64::MAX
        &&& self.direct_zero_copy_video_frames < u64::MAX
        &&& self.cpu_video_frame_fallbacks < u64::MAX
        &&& self.hdr_source_frames < u64::MAX
        &&& self.hdr10_output_frames < u64::MAX
        &&& self.sdr_tonemap_frames < u64::MAX
        &&& self.hdr10_metadata_updates < u64::MAX
        &&& self.hdr10_metadata_failures < u64::MAX
        &&& self.hdr10_output_failures < u64::MAX
        &&& self.prepared_overlay_frames < u64::MAX
        &&& self.overlay_alpha_atlas_uploads < u64::MAX
        &&& self.overlay_alpha_atlas_reuses < u64::MAX
        &&& self.danmaku_passes < u64::MAX
    }

    /// Whether no counter is about to overflow.
    pub fn can_count(&self) -> (room: bool)
        ensures
            room == self.has_room(),
    {
        self.rendered_frames < u64::MAX
            && self.hardware_video_frames < u64::MAX
            && self.zero_copy_video_frames < u64::MAX
            && self.direct_zero_copy_video_frames < u64::MAX
            && self.cpu_video_frame_fallbacks < u64::MAX
            && self.hdr_source_frames < u64::MAX
            && self.hdr10_output_frames < u64::MAX
            && self.sdr_tonemap_frames < u64::MAX
            && self.hdr10_metadata_updates < u64::MAX
            && self.hdr10_metadata_failures < u64::MAX
            && self.hdr10_output_failures < u64::MAX
            && self.prepared_overlay_frames < u64::MAX
            && self.overlay_alpha_atlas_uploads < u64::MAX
            && self.overlay_alpha_atlas_reuses < u64::MAX
            && self.danmaku_passes < u64::MAX
    }
}

impl Default for D3d11RendererStats {
    fn default() -> (stats: Self)
        ensures
            stats == D3d11RendererStats::none_yet(),
    {
        D3d11RendererStats {
            surface_width: 0,
            surface_height: 0,
            rendered_frames: 0,
            hardware_video_frames: 0,
            zero_copy_video_frames: 0,
            direct_zero_copy_video_frames: 0,
            shared_handle_video_frames: 0,
            cpu_video_frame_fallbacks: 0,
            hdr_source_frames: 0,
            hdr10_output_frames: 0,
            sdr_tonemap_frames: 0,
            hdr10_metadata_updates: 0,
            hdr10_metadata_failures: 0,
            hdr10_output_failures: 0,
            hdr10_output_active: false,
            import_failures: 0,
            prepared_overlay_frames: 0,
            prepared_overlay_subtitle_planes: 0,
            overlay_alpha_atlas_uploads: 0,
            overlay_alpha_atlas_reuses: 0,
            danmaku_passes: 0,
            danmaku_items: 0,
            attached: false,
        }
    }
}

/// The formats of textures and of their planes.
#[derive(Debug, Clone, Copy, PartialEq, Eq, Structural)]
pub enum DxgiFormat {
    B8G8R8A8Unorm,
    R10G10B10A2Unorm,
    Nv12,
    P010,
    R8Unorm,
    R8G8Unorm,
    R16Unorm,
    R16G16Unorm,
    /// Any other format, by its number.
    Other { code: u32 },
}

/// The colour space of a swap chain.
#[derive(Debug, Clone, Copy, PartialEq, Eq, Structural)]
pub enum DxgiColorSpace {
    RgbFullG22NoneP709,
    RgbFullG2084NoneP2020,
}

#[derive(Debug, Clone, Copy, PartialEq, Eq, Structural)]
pub enum D3d11OutputMode {
    Sdr,
    Hdr10,
}

impl Default for D3d11OutputMode {
    fn default() -> (mode: Self)
        ensures
            mode == D3d11OutputMode::Sdr,
    {
        D3d11OutputMode::Sdr
    }
}

impl D3d11OutputMode {
    pub fn swapchain_format(self) -> (format: DxgiFormat)
        ensures
            format == match self {
                D3d11OutputMode::Sdr => DxgiFormat::B8G8R8A8Unorm,
                D3d11OutputMode::Hdr10 => DxgiFormat::R10G10B10A2Unorm,
            },
    {
        match self {
            D3d11OutputMode::Sdr => DxgiFormat::B8G8R8A8Unorm,
            D3d11OutputMode::Hdr10 => DxgiFormat::R10G10B10A2Unorm,
        }
    }

    pub fn color_space(self) -> (space: DxgiColorSpace)
        ensures
            space == match self {
                D3d11OutputMode::Sdr => DxgiColorSpace::RgbFullG22NoneP709,
                D3d11OutputMode::Hdr10 => DxgiColorSpace::RgbFullG2084NoneP2020,
            },
    {
        match self {
            D3d11OutputMode::Sdr => DxgiColorSpace::RgbFullG22NoneP709,
            D3d11OutputMode::Hdr10 => DxgiColorSpace::RgbFullG2084NoneP2020,
        }
    }

    /// Whether a display must not go by what it was told of an earlier source.
    pub fn clears_hdr_metadata(self) -> (clears: bool)
        ensures
            clears == (self == D3d11OutputMode::Sdr),
    {
        self == D3d11OutputMode::Sdr
    }

    pub open spec fn target(self) -> TargetColorState {
        match self {
            D3d11OutputMode::Sdr => TargetColorState::of_sdr(ColorPrimaries::Bt709),
            D3d11OutputMode::Hdr10 => TargetColorState::of_hdr10(ColorPrimaries::Bt2020),
        }
    }

    /// The colours that frames are converted to, whatever their source.
    pub fn target_color(self) -> (target: TargetColorState)
        ensures
            target == self.target(),
    {
        match self {
            D3d11OutputMode::Sdr => TargetColorState::sdr(ColorPrimaries::Bt709),
            D3d11OutputMode::Hdr10 => TargetColorState::hdr10(ColorPrimaries::Bt2020),
        }
    }
}

/// A surface that frames are presented on, and which of its resources exist.
#[derive(Debug, Clone, Copy, PartialEq, Eq, Structural)]
pub struct AttachedSurface {
    pub raw_window: u64,
    pub composition: bool,
    pub flutter_texture: bool,
    pub metrics: SurfaceMetrics,
    pub output_mode: D3d11OutputMode,
    pub swapchain: bool,
    pub output_texture: bool,
    /// A finished picture that Flutter may show; it is never drawn on again.
    pub published_texture: bool,
    pub render_target: bool,
    pub linear_render_target: bool,
    pub linear_shader_resource: bool,
}

impl AttachedSurface {
    pub open spec fn ready(self) -> bool {
        &&& if self.flutter_texture {
            self.output_texture
        } else {
            self.swapchain
        }
        &&& self.render_target
        &&& self.output_mode == D3d11OutputMode::Hdr10 ==> self.linear_render_target
            && self.linear_shader_resource
    }

    /// Whether a frame can be drawn on the surface.
    pub fn targets_ready(&self) -> (ready: bool)
        ensures
            ready == self.ready(),
    {
        (if self.flutter_texture {
            self.output_texture
        } else {
            self.swapchain
        }) && self.render_target && (self.output_mode != D3d11OutputMode::Hdr10 || (
        self.linear_render_target && self.linear_shader_resource))
    }
}

/// Why a surface cannot be attached or used.
#[derive(Debug, Clone, Copy, PartialEq, Eq, Structural)]
pub enum D3d11SurfaceError {
    KindNotSupported { kind: WgpuSurfaceKind },
    NullWindow,
    TextureKindNotSupported { kind: FlutterTextureKind },
    MetalNotSupported,
    NoSurface,
}

/// The state of the Direct3D 11 backend, without the objects of the device.
#[derive(Debug)]
pub struct D3d11Renderer {
    /// There is a device.
    pub has_device: bool,
    pub surface: Option<AttachedSurface>,
    pub current_video: Option<ImportedVideoFrame>,
    pub flutter_scene: Option<FlutterTextureScene>,
    pub danmaku_atlas_cache: Option<DanmakuAtlasCache>,
    pub requested_output_mode: OutputMode,
    pub video_has_alpha: bool,
    pub upscaler_mode: LumaUpscalerMode,
    pub next_frame_token: u64,
    /// HDR10 output has failed on this surface and is not tried again.
    pub hdr10_output_unavailable: bool,
    pub stats: D3d11RendererStats,
}

/// The headroom of HDR10 output: 10000 nits over reference white at 203.
pub const HDR10_HEADROOM: FloatBits = 0x4245_0b5a;

/// The surface that a handle becomes.
pub open spec fn surface_of(surface: PlatformSurface) -> Result<
    AttachedSurface,
    D3d11SurfaceError,
> {
    let blank = |raw_window: u64, composition: bool, flutter: bool, metrics: SurfaceMetrics|
        AttachedSurface {
            raw_window,
            composition,
            flutter_texture: flutter,
            metrics,
            output_mode: D3d11OutputMode::Sdr,
            swapchain: false,
            output_texture: false,
            published_texture: false,
            render_target: false,
            linear_render_target: false,
            linear_shader_resource: false,
        };
    match surface {
        PlatformSurface::Wgpu { handle } => if handle.kind != WgpuSurfaceKind::WindowsHwnd {
            Err(D3d11SurfaceError::KindNotSupported { kind: handle.kind })
        } else if !handle.output_capabilities.direct_composition && handle.raw_window == 0 {
            Err(D3d11SurfaceError::NullWindow)
        } else {
            Ok(
                blank(
                    handle.raw_window,
                    handle.output_capabilities.direct_composition,
                    false,
                    handle.size,
                ),
            )
        },
        PlatformSurface::FlutterTexture { handle } => if handle.kind
            == FlutterTextureKind::WindowsTextureRegistrar {
            Ok(blank(0, false, true, handle.size))
        } else {
            Err(D3d11SurfaceError::TextureKindNotSupported { kind: handle.kind })
        },
        PlatformSurface::Metal { .. } => Err(D3d11SurfaceError::MetalNotSupported),
    }
}

impl D3d11Renderer {
    /// A renderer without a device.
    pub fn with_config(
        requested_output_mode: OutputMode,
        video_has_alpha: bool,
        upscaler_mode: LumaUpscalerMode,
    ) -> (renderer: Self)
        ensures
            renderer == (D3d11Renderer {
                has_device: false,
                surface: None,
                current_video: None,
                flutter_scene: None,
                danmaku_atlas_cache: None,
                requested_output_mode,
                video_has_alpha,
                upscaler_mode,
                next_frame_token: 0,
                hdr10_output_unavailable: false,
                stats: D3d11RendererStats::none_yet(),
            }),
    {
        D3d11Renderer {
            has_device: false,
            surface: None,
            current_video: None,
            flutter_scene: None,
            danmaku_atlas_cache: None,
            requested_output_mode,
            video_has_alpha,
            upscaler_mode,
            next_frame_token: 0,
            hdr10_output_unavailable: false,
            stats: D3d11RendererStats::default(),
        }
    }

    /// A renderer with default options.
    pub fn new() -> (renderer: Self)
        ensures
            renderer.requested_output_mode == OutputMode::Sdr,
            !renderer.video_has_alpha,
            renderer.upscaler_mode == LumaUpscalerMode::Off,
            !renderer.has_device,
            renderer.surface is None,
            renderer.current_video is None,
            renderer.flutter_scene is None,
            renderer.danmaku_atlas_cache is None,
            renderer.next_frame_token == 0,
            !renderer.hdr10_output_unavailable,
            renderer.stats == D3d11RendererStats::none_yet(),
    {
        D3d11Renderer::with_config(OutputMode::Sdr, false, LumaUpscalerMode::Off)
    }

    pub fn stats(&self) -> (stats: D3d11RendererStats)
        ensures
            stats == self.stats,
    {
        self.stats
    }

    /// Whether the device has to finish before the current frame goes. Surfaces
    /// that a compositor reads need that; plain windows do not.
    pub open spec fn waits_before_retiring(self) -> bool {
        &&& self.current_video is Some
        &&& self.surface matches Some(surface) && (surface.composition || surface.flutter_texture)
        &&& self.has_device
    }

    pub fn needs_gpu_wait(&self) -> (wait: bool)
        ensures
            wait == self.waits_before_retiring(),
    {
        let compositor: bool = match self.surface {
            Some(surface) => surface.composition || surface.flutter_texture,
            None => false,
        };
        self.current_video.is_some() && compositor && self.has_device
    }

    /// The current frame goes, once the device has finished where it had to.
    pub fn retire_current_video(&mut self)
        ensures
            *final(self) == (D3d11Renderer { current_video: None, ..*old(self) }),
    {
        self.current_video = None;
    }

    /// A surface is attached. Its resources are made next.
    pub fn attach_surface(&mut self, surface: PlatformSurface) -> (attached: Result<
        (),
        D3d11SurfaceError,
    >)
        ensures
            match surface_of(surface) {
                Err(error) => attached == Err::<(), D3d11SurfaceError>(error) && *final(self)
                    == *old(self),
                Ok(fresh) => {
                    &&& attached == Ok::<(), D3d11SurfaceError>(())
                    &&& *final(self) == (D3d11Renderer {
                        surface: Some(fresh),
                        hdr10_output_unavailable: false,
                        stats: D3d11RendererStats { attached: true, ..old(self).stats },
                        ..*old(self)
                    })
                },
            },
    {
        let (raw_window, composition, flutter_texture, metrics) = match surface {
            PlatformSurface::Wgpu { handle } => {
                if handle.kind != WgpuSurfaceKind::WindowsHwnd {
                    return Err(D3d11SurfaceError::KindNotSupported { kind: handle.kind });
                }
                let composition: bool = handle.output_capabilities.direct_composition;
                if !composition && handle.raw_window == 0 {
                    return Err(D3d11SurfaceError::NullWindow);
                }
                (handle.raw_window, composition, false, handle.size)
            },
            PlatformSurface::FlutterTexture { handle } => {
                if handle.kind != FlutterTextureKind::WindowsTextureRegistrar {
                    return Err(D3d11SurfaceError::TextureKindNotSupported { kind: handle.kind });
                }
                (0u64, false, true, handle.size)
            },
            PlatformSurface::Metal { .. } => {
                return Err(D3d11SurfaceError::MetalNotSupported);
            },
        };
        self.surface =
        Some(
            AttachedSurface {
                raw_window,
                composition,
                flutter_texture,
                metrics,
                output_mode: D3d11OutputMode::Sdr,
                swapchain: false,
                output_texture: false,
                published_texture: false,
                render_target: false,
                linear_render_target: false,
                linear_shader_resource: false,
            },
        );
        self.hdr10_output_unavailable = false;
        self.stats.attached = true;
        Ok(())
    }

    /// The surface is gone. The current frame has been retired before.
    pub fn detach_surface(&mut self)
        ensures
            *final(self) == (D3d11Renderer {
                current_video: None,
                surface: None,
                danmaku_atlas_cache: None,
                stats: D3d11RendererStats {
                    attached: false,
                    surface_width: 0,
                    surface_height: 0,
                    ..old(self).stats
                },
                ..*old(self)
            }),
    {
        self.current_video = None;
        self.surface = None;
        self.danmaku_atlas_cache = None;
        self.stats.attached = false;
        self.stats.surface_width = 0;
        self.stats.surface_height = 0;
    }

    /// The surface has another extent. Answers whether its resources have to
    /// be made anew, which gives HDR10 output another chance.
    pub fn resize_surface(&mut self, metrics: SurfaceMetrics) -> (rebuild: Result<
        bool,
        D3d11SurfaceError,
    >)
        ensures
            match old(self).surface {
                None => rebuild == Err::<bool, D3d11SurfaceError>(D3d11SurfaceError::NoSurface)
                    && *final(self) == *old(self),
                Some(surface) => {
                    let same = surface.metrics.width == metrics.width && surface.metrics.height
                        == metrics.height;
                    &&& rebuild == Ok::<bool, D3d11SurfaceError>(!same)
                    &&& *final(self) == (D3d11Renderer {
                        surface: Some(AttachedSurface { metrics, ..surface }),
                        hdr10_output_unavailable: if same {
                            old(self).hdr10_output_unavailable
                        } else {
                            false
                        },
                        ..*old(self)
                    })
                },
            },
    {
        let mut surface: AttachedSurface = match self.surface {
            Some(surface) => surface,
            None => {
                return Err(D3d11SurfaceError::NoSurface);
            },
        };
        let same: bool = surface.metrics.width == metrics.width && surface.metrics.height
            == metrics.height;
        surface.metrics = metrics;
        self.surface = Some(surface);
        if !same {
            self.hdr10_output_unavailable = false;
        }
        Ok(!same)
    }

    /// Whether a surface that was resized has to be cleared: a texture without
    /// a frame would be published empty.
    pub fn clears_after_resize(&self) -> (clears: bool)
        ensures
            clears == ((self.surface matches Some(surface) && surface.flutter_texture)
                && self.current_video is None),
    {
        let flutter: bool = match self.surface {
            Some(surface) => surface.flutter_texture,
            None => false,
        };
        flutter && self.current_video.is_none()
    }

    /// The current frame is cleared. Answers whether the surface is too.
    pub fn clear_current_frame(&mut self) -> (clear_surface: bool)
        ensures
            clear_surface == (old(self).surface is Some),
            *final(self) == (D3d11Renderer {
                current_video: None,
                danmaku_atlas_cache: None,
                ..*old(self)
            }),
    {
        self.current_video = None;
        self.danmaku_atlas_cache = None;
        self.surface.is_some()
    }

    pub open spec fn runtime_report(self, upscaler: UpscalerReport) -> RendererRuntimeStats {
        RendererRuntimeStats {
            surface_width: self.stats.surface_width,
            surface_height: self.stats.surface_height,
            rendered_frames: self.stats.rendered_frames,
            attached: self.stats.attached,
            prepared_overlay_frames: self.stats.prepared_overlay_frames,
            prepared_overlay_subtitle_planes: self.stats.prepared_overlay_subtitle_planes,
            danmaku_passes: self.stats.danmaku_passes,
            danmaku_draw_items: self.stats.danmaku_items,
            overlay_alpha_atlas_uploads: self.stats.overlay_alpha_atlas_uploads,
            overlay_alpha_atlas_reuses: self.stats.overlay_alpha_atlas_reuses,
            hardware_video_frames: self.stats.hardware_video_frames,
            zero_copy_video_frames: self.stats.zero_copy_video_frames,
            direct_zero_copy_video_frames: self.stats.direct_zero_copy_video_frames,
            shared_handle_video_frames: self.stats.shared_handle_video_frames,
            cpu_video_frame_fallbacks: self.stats.cpu_video_frame_fallbacks,
            hdr_source_frames: self.stats.hdr_source_frames,
            hdr10_output_frames: self.stats.hdr10_output_frames,
            sdr_tonemap_frames: self.stats.sdr_tonemap_frames,
            hdr10_metadata_updates: self.stats.hdr10_metadata_updates,
            hdr10_metadata_failures: self.stats.hdr10_metadata_failures,
            hdr10_output_failures: self.stats.hdr10_output_failures,
            hdr10_output_active: self.stats.hdr10_output_active,
            upscaler_mode: self.upscaler_mode,
            upscaler_backend: if self.upscaler_mode != LumaUpscalerMode::Off && !self.has_device {
                LumaUpscalerBackendStatus::Building
            } else {
                upscaler.status
            },
            upscaler_fallbacks: upscaler.fallback_count,
            upscaled_frames: upscaler.upscaled_frames,
            last_upscaler_encode_duration: upscaler.last_encode_duration,
            ..RendererRuntimeStats::none_yet()
        }
    }

    /// What every backend tells. An upscaler that waits for its device counts
    /// as being built.
    pub fn runtime_stats(&self, upscaler: UpscalerReport) -> (stats: RendererRuntimeStats)
        ensures
            stats == self.runtime_report(upscaler),
    {
        let mut stats: RendererRuntimeStats = RendererRuntimeStats::default();
        stats.surface_width = self.stats.surface_width;
        stats.surface_height = self.stats.surface_height;
        stats.rendered_frames = self.stats.rendered_frames;
        stats.attached = self.stats.attached;
        stats.prepared_overlay_frames = self.stats.prepared_overlay_frames;
        stats.prepared_overlay_subtitle_planes = self.stats.prepared_overlay_subtitle_planes;
        stats.danmaku_passes = self.stats.danmaku_passes;
        stats.danmaku_draw_items = self.stats.danmaku_items;
        stats.overlay_alpha_atlas_uploads = self.stats.overlay_alpha_atlas_uploads;
        stats.overlay_alpha_atlas_reuses = self.stats.overlay_alpha_atlas_reuses;
        stats.hardware_video_frames = self.stats.hardware_video_frames;
        stats.zero_copy_video_frames = self.stats.zero_copy_video_frames;
        stats.direct_zero_copy_video_frames = self.stats.direct_zero_copy_video_frames;
        stats.shared_handle_video_frames = self.stats.shared_handle_video_frames;
        stats.cpu_video_frame_fallbacks = self.stats.cpu_video_frame_fallbacks;
        stats.hdr_source_frames = self.stats.hdr_source_frames;
        stats.hdr10_output_frames = self.stats.hdr10_output_frames;
        stats.sdr_tonemap_frames = self.stats.sdr_tonemap_frames;
        stats.hdr10_metadata_updates = self.stats.hdr10_metadata_updates;
        stats.hdr10_metadata_failures = self.stats.hdr10_metadata_failures;
        stats.hdr10_output_failures = self.stats.hdr10_output_failures;
        stats.hdr10_output_active = self.stats.hdr10_output_active;
        stats.upscaler_mode = self.upscaler_mode;
        stats.upscaler_backend =
        if self.upscaler_mode.is_enabled() && !self.has_device {
            LumaUpscalerBackendStatus::Building
        } else {
            upscaler.status
        };
        stats.upscaler_fallbacks = upscaler.fallback_count;
        stats.upscaled_frames = upscaler.upscaled_frames;
        stats.last_upscaler_encode_duration = upscaler.last_encode_duration;
        stats
    }

    /// What is to be told of the output.
    pub fn output_status(&self) -> (status: OutputRuntimeStatus)
        ensures
            status == (OutputRuntimeStatus {
                requested_mode: self.requested_output_mode,
                active_encoding: if self.stats.hdr10_output_active {
                    ActiveOutputEncoding::Hdr10Pq
                } else {
                    ActiveOutputEncoding::SdrSrgb
                },
                surface_format: if self.stats.hdr10_output_active {
                    OutputSurfaceFormat::TenBitUnorm
                } else {
                    OutputSurfaceFormat::EightBitUnorm
                },
                native_data_space: -1i32,
                requested_headroom: self.requested_output_mode.requested_headroom(),
                active_headroom: if self.stats.hdr10_output_active {
                    HDR10_HEADROOM
                } else {
                    ONE
                },
                active_headroom_known: self.stats.attached,
                extended_linear_active: false,
                fallback_reason: OutputFallbackReason::NotNeeded,
                fallback_count: self.stats.hdr10_output_failures,
                data_space_failures: self.stats.hdr10_output_failures,
                headroom_updates: self.stats.hdr10_metadata_updates,
                extended_linear_frames: 0,
            }),
            self.stats.hdr10_output_active ==> status.active_headroom == 0x4245_0b5a,
            !self.stats.hdr10_output_active ==> status.active_headroom == 0x3f80_0000,
    {
        let hdr10: bool = self.stats.hdr10_output_active;
        OutputRuntimeStatus {
            requested_mode: self.requested_output_mode,
            active_encoding: if hdr10 {
                ActiveOutputEncoding::Hdr10Pq
            } else {
                ActiveOutputEncoding::SdrSrgb
            },
            surface_format: if hdr10 {
                OutputSurfaceFormat::TenBitUnorm
            } else {
                OutputSurfaceFormat::EightBitUnorm
            },
            native_data_space: -1,
            requested_headroom: self.requested_output_mode.headroom(),
            active_headroom: if hdr10 {
                HDR10_HEADROOM
            } else {
                ONE
            },
            active_headroom_known: self.stats.attached,
            extended_linear_active: false,
            fallback_reason: OutputFallbackReason::NotNeeded,
            fallback_count: self.stats.hdr10_output_failures,
            data_space_failures: self.stats.hdr10_output_failures,
            headroom_updates: self.stats.hdr10_metadata_updates,
            extended_linear_frames: 0,
        }
    }
}

} // verus!
