//! Surfaces that an embedder hands over.

use crate::float::FloatBits;
use crate::renderer::output::{OutputFallbackReason, SurfaceOutputCapabilities};
use vstd::prelude::*;

verus! {

/// The extent of a surface. Width and height are physical pixels; the content
/// scale says how many of them one logical pixel has.
#[derive(Debug, Clone, Copy, PartialEq, Eq, Structural)]
pub struct SurfaceMetrics {
    pub width: u32,
    pub height: u32,
    pub content_scale: FloatBits,
}

impl SurfaceMetrics {
    pub fn new(width: u32, height: u32, content_scale: FloatBits) -> (metrics: Self)
        ensures
            metrics == (SurfaceMetrics { width, height, content_scale }),
    {
        SurfaceMetrics { width, height, content_scale }
    }

    /// The extent in physical pixels, whatever the content scale.
    pub fn physical_size(&self) -> (size: (u32, u32))
        ensures
            size == (self.width, self.height),
    {
        (self.width, self.height)
    }
}

#[derive(Debug, Clone, Copy, PartialEq, Eq, Structural)]
pub enum WgpuSurfaceKind {
    MacOsCaMetalLayer,
    WindowsHwnd,
    AndroidNativeWindow,
    OhosNativeWindow,
}

/// A native window for the portable GPU backend.
#[derive(Debug, Clone, Copy, PartialEq, Eq, Structural)]
pub struct WgpuSurfaceHandle {
    pub kind: WgpuSurfaceKind,
    pub raw_window: u64,
    pub raw_display: u64,
    pub size: SurfaceMetrics,
    pub output_capabilities: SurfaceOutputCapabilities,
}

impl WgpuSurfaceHandle {
    /// A window of which nothing is known but its extent.
    pub fn new(
        kind: WgpuSurfaceKind,
        raw_window: u64,
        raw_display: u64,
        width: u32,
        height: u32,
        content_scale: FloatBits,
    ) -> (handle: Self)
        ensures
            handle.kind == kind,
            handle.raw_window == raw_window,
            handle.raw_display == raw_display,
            handle.size == (SurfaceMetrics { width, height, content_scale }),
            handle.output_capabilities == (SurfaceOutputCapabilities {
                extended_linear: false,
                direct_composition: false,
                desired_headroom: 0,
                fallback_reason: OutputFallbackReason::NotNeeded,
            }),
    {
        WgpuSurfaceHandle {
            kind,
            raw_window,
            raw_display,
            size: SurfaceMetrics::new(width, height, content_scale),
            output_capabilities: SurfaceOutputCapabilities {
                extended_linear: false,
                direct_composition: false,
                desired_headroom: 0,
                fallback_reason: OutputFallbackReason::NotNeeded,
            },
        }
    }

    pub fn metrics(&self) -> (metrics: SurfaceMetrics)
        ensures
            metrics == self.size,
    {
        self.size
    }

    /// The window has another extent.
    pub fn resize(&mut self, metrics: SurfaceMetrics)
        ensures
            *final(self) == (WgpuSurfaceHandle { size: metrics, ..*old(self) }),
    {
        self.size = metrics;
    }
}

#[derive(Debug, Clone, Copy, PartialEq, Eq, Structural)]
pub enum FlutterTextureKind {
    WindowsTextureRegistrar,
    Other,
}

/// A texture that Flutter composites.
#[derive(Debug, Clone, Copy, PartialEq, Eq, Structural)]
pub struct FlutterTextureHandle {
    pub kind: FlutterTextureKind,
    pub texture_id: i64,
    pub size: SurfaceMetrics,
}

/// A surface that an embedder attaches.
#[derive(Debug, Clone, Copy, PartialEq, Eq, Structural)]
pub enum PlatformSurface {
    Metal { layer: u64 },
    Wgpu { handle: WgpuSurfaceHandle },
    FlutterTexture { handle: FlutterTextureHandle },
}

} // verus!
