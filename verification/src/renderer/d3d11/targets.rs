//! Making the resources that a surface is drawn with.

use crate::renderer::d3d11::{
    AttachedSurface, D3d11OutputMode, D3d11Renderer, D3d11RendererStats,
};
use vstd::prelude::*;

verus! {

/// What is to be made next.
#[derive(Debug, Clone, Copy, PartialEq, Eq, Structural)]
pub enum TargetStep {
    /// Nothing can be made without a surface and a device.
    Unneeded,
    CreateFlutterTexture { width: u32, height: u32 },
    /// The swap chain is kept, so that what a compositor was given stays valid.
    ResizeBuffers { width: u32, height: u32, mode: D3d11OutputMode },
    CreateSwapchain {
        width: u32,
        height: u32,
        mode: D3d11OutputMode,
        composition: bool,
        premultiplied: bool,
    },
    ConfigureColorSpace { mode: D3d11OutputMode },
    /// What the display was told of a source is taken back; a display that
    /// cannot be told so is drawn on all the same.
    ClearHdrMetadata,
    CreateRenderTarget,
    CreateLinearTarget { width: u32, height: u32 },
    Done,
    Failed,
}

/// A side of at least one pixel.
pub open spec fn side(length: u32) -> u32 {
    if length == 0 {
        1
    } else {
        length
    }
}

pub(crate) fn at_least_one(length: u32) -> (raised: u32)
    ensures
        raised == side(length),
{
    if length == 0 {
        1
    } else {
        length
    }
}

impl AttachedSurface {
    /// The surface without what refers to its current buffers.
    pub open spec fn released(self) -> Self {
        AttachedSurface {
            render_target: false,
            output_texture: false,
            published_texture: false,
            linear_render_target: false,
            linear_shader_resource: false,
            ..self
        }
    }

    pub open spec fn create_step(self, has_alpha: bool) -> TargetStep {
        TargetStep::CreateSwapchain {
            width: side(self.metrics.width),
            height: side(self.metrics.height),
            mode: self.output_mode,
            composition: self.composition,
            premultiplied: self.composition && has_alpha,
        }
    }

    fn creation(&self, has_alpha: bool) -> (step: TargetStep)
        ensures
            step == self.create_step(has_alpha),
    {
        TargetStep::CreateSwapchain {
            width: at_least_one(self.metrics.width),
            height: at_least_one(self.metrics.height),
            mode: self.output_mode,
            composition: self.composition,
            premultiplied: self.composition && has_alpha,
        }
    }
}

impl D3d11Renderer {
    pub open spec fn with_surface(self, surface: AttachedSurface) -> Self {
        D3d11Renderer { surface: Some(surface), ..self }
    }

    /// The renderer once all of a surface's resources exist.
    pub open spec fn with_targets(self, surface: AttachedSurface) -> Self {
        D3d11Renderer {
            surface: Some(surface),
            stats: D3d11RendererStats {
                surface_width: surface.metrics.width,
                surface_height: surface.metrics.height,
                hdr10_output_active: surface.output_mode == D3d11OutputMode::Hdr10,
                ..self.stats
            },
            ..self
        }
    }

    /// What is made first. What refers to the current buffers is released
    /// before.
    pub open spec fn targets_begun(self) -> (Self, TargetStep) {
        match self.surface {
            Some(surface) if self.has_device => {
                let released = surface.released();
                if surface.flutter_texture {
                    (
                        self.with_surface(AttachedSurface { swapchain: false, ..released }),
                        TargetStep::CreateFlutterTexture {
                            width: side(surface.metrics.width),
                            height: side(surface.metrics.height),
                        },
                    )
                } else if surface.swapchain {
                    (
                        self.with_surface(released),
                        TargetStep::ResizeBuffers {
                            width: side(surface.metrics.width),
                            height: side(surface.metrics.height),
                            mode: surface.output_mode,
                        },
                    )
                } else {
                    (self.with_surface(released), released.create_step(self.video_has_alpha))
                }
            },
            _ => (self, TargetStep::Unneeded),
        }
    }

    /// The state in which a step is taken.
    pub open spec fn at_step(self, step: TargetStep) -> bool {
        match step {
            TargetStep::Unneeded => self.surface is None || !self.has_device,
            TargetStep::Failed => true,
            _ => {
                &&& self.has_device
                &&& self.surface is Some
                &&& {
                    let surface = self.surface->0;
                    match step {
                        TargetStep::CreateFlutterTexture { .. } => surface.flutter_texture
                            && !surface.swapchain,
                        TargetStep::ResizeBuffers { mode, .. } => !surface.flutter_texture
                            && surface.swapchain && mode == surface.output_mode,
                        TargetStep::CreateSwapchain { mode, .. } => !surface.flutter_texture
                            && !surface.swapchain && mode == surface.output_mode,
                        TargetStep::ConfigureColorSpace { mode } => !surface.flutter_texture
                            && surface.swapchain && mode == surface.output_mode,
                        TargetStep::ClearHdrMetadata => !surface.flutter_texture
                            && surface.swapchain && surface.output_mode == D3d11OutputMode::Sdr,
                        TargetStep::CreateRenderTarget => !surface.flutter_texture
                            && surface.swapchain,
                        TargetStep::CreateLinearTarget { .. } => !surface.flutter_texture
                            && surface.swapchain && surface.render_target && surface.output_mode
                            == D3d11OutputMode::Hdr10,
                        _ => surface.ready(),
                    }
                }
            },
        }
    }

    /// What follows from a step that succeeded or failed.
    pub open spec fn targets_answered_with(self, step: TargetStep, succeeded: bool) -> (
        Self,
        TargetStep,
    ) {
        let surface = self.surface->0;
        match step {
            TargetStep::ResizeBuffers { mode, .. } => if succeeded {
                (self, TargetStep::ConfigureColorSpace { mode })
            } else {
                let dropped = AttachedSurface { swapchain: false, ..surface };
                (self.with_surface(dropped), dropped.create_step(self.video_has_alpha))
            },
            TargetStep::ClearHdrMetadata => (self, TargetStep::CreateRenderTarget),
            _ => if !succeeded {
                (self, TargetStep::Failed)
            } else {
                match step {
                    TargetStep::CreateFlutterTexture { .. } => (
                        self.with_targets(
                            AttachedSurface {
                                output_texture: true,
                                render_target: true,
                                output_mode: D3d11OutputMode::Sdr,
                                ..surface
                            },
                        ),
                        TargetStep::Done,
                    ),
                    TargetStep::CreateSwapchain { mode, .. } => (
                        self.with_surface(AttachedSurface { swapchain: true, ..surface }),
                        TargetStep::ConfigureColorSpace { mode },
                    ),
                    TargetStep::ConfigureColorSpace { mode } => (
                        self,
                        if mode == D3d11OutputMode::Sdr {
                            TargetStep::ClearHdrMetadata
                        } else {
                            TargetStep::CreateRenderTarget
                        },
                    ),
                    TargetStep::CreateRenderTarget => {
                        let drawn = AttachedSurface { render_target: true, ..surface };
                        if surface.output_mode == D3d11OutputMode::Hdr10 {
                            (
                                self.with_surface(drawn),
                                TargetStep::CreateLinearTarget {
                                    width: side(surface.metrics.width),
                                    height: side(surface.metrics.height),
                                },
                            )
                        } else {
                            (self.with_targets(drawn), TargetStep::Done)
                        }
                    },
                    TargetStep::CreateLinearTarget { .. } => (
                        self.with_targets(
                            AttachedSurface {
                                linear_render_target: true,
                                linear_shader_resource: true,
                                ..surface
                            },
                        ),
                        TargetStep::Done,
                    ),
                    _ => (self, step),
                }
            },
        }
    }

    fn finish_targets(&mut self, surface: AttachedSurface)
        ensures
            *final(self) == old(self).with_targets(surface),
    {
        self.surface = Some(surface);
        self.stats.surface_width = surface.metrics.width;
        self.stats.surface_height = surface.metrics.height;
        self.stats.hdr10_output_active = surface.output_mode == D3d11OutputMode::Hdr10;
    }

    /// Whether a decoder's texture moves the renderer to another device: textures
    /// are not shared across devices.
    pub fn switches_device(&self, same_device: bool) -> (switches: bool)
        ensures
            switches == !(self.has_device && same_device),
    {
        !(self.has_device && same_device)
    }

    /// The device is left for that of a decoder's texture: the frame and the
    /// atlas textures that belong to it go.
    pub fn leave_device(&mut self)
        ensures
            *final(self) == (D3d11Renderer {
                current_video: None,
                danmaku_atlas_cache: None,
                ..*old(self)
            }),
    {
        self.retire_current_video();
        self.danmaku_atlas_cache = None;
    }

    /// A device came or went. The swap chain and the texture of another device
    /// cannot be kept.
    pub fn device_changed(&mut self)
        ensures
            *final(self) == (D3d11Renderer {
                has_device: true,
                surface: match old(self).surface {
                    Some(surface) if old(self).has_device => Some(
                        AttachedSurface { swapchain: false, ..surface.released() },
                    ),
                    kept => kept,
                },
                ..*old(self)
            }),
    {
        if self.has_device {
            if let Some(attached) = self.surface {
                let mut surface: AttachedSurface = attached;
                surface.render_target = false;
                surface.output_texture = false;
                surface.published_texture = false;
                surface.linear_render_target = false;
                surface.linear_shader_resource = false;
                surface.swapchain = false;
                self.surface = Some(surface);
            }
        }
        self.has_device = true;
    }

    /// Starts making a surface's resources.
    pub fn begin_targets(&mut self) -> (step: TargetStep)
        ensures
            (*final(self), step) == old(self).targets_begun(),
            final(self).at_step(step),
    {
        let mut surface: AttachedSurface = match self.surface {
            Some(surface) => surface,
            None => {
                return TargetStep::Unneeded;
            },
        };
        if !self.has_device {
            return TargetStep::Unneeded;
        }
        surface.render_target = false;
        surface.output_texture = false;
        surface.published_texture = false;
        surface.linear_render_target = false;
        surface.linear_shader_resource = false;
        let width: u32 = at_least_one(surface.metrics.width);
        let height: u32 = at_least_one(surface.metrics.height);
        let step: TargetStep = if surface.flutter_texture {
            surface.swapchain = false;
            TargetStep::CreateFlutterTexture { width, height }
        } else if surface.swapchain {
            TargetStep::ResizeBuffers { width, height, mode: surface.output_mode }
        } else {
            surface.creation(self.video_has_alpha)
        };
        self.surface = Some(surface);
        step
    }

    /// Takes in whether a step succeeded. Buffers that cannot be resized are
    /// answered with a new swap chain, and metadata that cannot be cleared are
    /// left; any other failure ends the making.
    pub fn targets_answered(&mut self, step: TargetStep, succeeded: bool) -> (next: TargetStep)
        requires
            old(self).at_step(step),
            step != TargetStep::Unneeded,
            step != TargetStep::Done,
            step != TargetStep::Failed,
        ensures
            (*final(self), next) == old(self).targets_answered_with(step, succeeded),
            final(self).at_step(next),
            next != TargetStep::Unneeded,
    {
        let mut surface: AttachedSurface = match self.surface {
            Some(surface) => surface,
            None => {
                return TargetStep::Failed;
            },
        };
        if let TargetStep::ResizeBuffers { mode, .. } = step {
            if succeeded {
                return TargetStep::ConfigureColorSpace { mode };
            }
            surface.swapchain = false;
            self.surface = Some(surface);
            return surface.creation(self.video_has_alpha);
        }
        if let TargetStep::ClearHdrMetadata = step {
            return TargetStep::CreateRenderTarget;
        }
        if !succeeded {
            return TargetStep::Failed;
        }
        match step {
            TargetStep::CreateFlutterTexture { .. } => {
                surface.output_texture = true;
                surface.render_target = true;
                surface.output_mode = D3d11OutputMode::Sdr;
                self.finish_targets(surface);
                TargetStep::Done
            },
            TargetStep::CreateSwapchain { mode, .. } => {
                surface.swapchain = true;
                self.surface = Some(surface);
                TargetStep::ConfigureColorSpace { mode }
            },
            TargetStep::ConfigureColorSpace { mode } => {
                if mode.clears_hdr_metadata() {
                    TargetStep::ClearHdrMetadata
                } else {
                    TargetStep::CreateRenderTarget
                }
            },
            TargetStep::CreateRenderTarget => {
                surface.render_target = true;
                if surface.output_mode == D3d11OutputMode::Hdr10 {
                    self.surface = Some(surface);
                    TargetStep::CreateLinearTarget {
                        width: at_least_one(surface.metrics.width),
                        height: at_least_one(surface.metrics.height),
                    }
                } else {
                    self.finish_targets(surface);
                    TargetStep::Done
                }
            },
            TargetStep::CreateLinearTarget { .. } => {
                surface.linear_render_target = true;
                surface.linear_shader_resource = true;
                self.finish_targets(surface);
                TargetStep::Done
            },
            _ => step,
        }
    }
}

/// Once the making is done, the surface can be drawn on.
pub proof fn lemma_finished_targets_are_ready(renderer: D3d11Renderer)
    requires
        renderer.at_step(TargetStep::Done),
    ensures
        renderer.surface is Some,
        renderer.surface->0.ready(),
{
}

/// Making a surface's resources draws nothing: no frame is counted, and the
/// current one stays.
pub proof fn lemma_making_targets_counts_no_frame(
    renderer: D3d11Renderer,
    step: TargetStep,
    succeeded: bool,
)
    ensures
        ({
            let begun = renderer.targets_begun().0;
            let answered = renderer.targets_answered_with(step, succeeded).0;
            &&& begun.stats == renderer.stats
            &&& begun.current_video == renderer.current_video
            &&& answered.stats.rendered_frames == renderer.stats.rendered_frames
            &&& answered.current_video == renderer.current_video
        }),
{
}

/// A swap chain's render target is made right after its colour space was set in
/// HDR10, and in standard dynamic range after the display's metadata were
/// cleared, whether that succeeded or not.
pub proof fn lemma_sdr_targets_clear_metadata(
    renderer: D3d11Renderer,
    mode: D3d11OutputMode,
    cleared: bool,
)
    requires
        renderer.at_step(TargetStep::ConfigureColorSpace { mode }),
    ensures
        ({
            let (after, step) = renderer.targets_answered_with(
                TargetStep::ConfigureColorSpace { mode },
                true,
            );
            if mode == D3d11OutputMode::Sdr {
                &&& step == TargetStep::ClearHdrMetadata
                &&& after.targets_answered_with(step, cleared) == (
                    renderer,
                    TargetStep::CreateRenderTarget,
                )
            } else {
                (after, step) == (renderer, TargetStep::CreateRenderTarget)
            }
        }),
{
}

/// A surface that shows a Flutter texture never leaves standard dynamic range
/// and has no swap chain.
pub proof fn lemma_flutter_targets_stay_sdr(renderer: D3d11Renderer)
    requires
        renderer.has_device,
        renderer.surface is Some,
        renderer.surface->0.flutter_texture,
    ensures
        ({
            let (begun, step) = renderer.targets_begun();
            let (done, last) = begun.targets_answered_with(step, true);
            &&& step is CreateFlutterTexture
            &&& last == TargetStep::Done
            &&& done.surface->0.output_mode == D3d11OutputMode::Sdr
            &&& !done.surface->0.swapchain
            &&& !done.stats.hdr10_output_active
        }),
{
}

} // verus!
