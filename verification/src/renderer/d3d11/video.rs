//! Frames of the Direct3D decoder: how they are imported, drawn and published.

use crate::color::{ColorPrimaries, TransferFunction};
use crate::float::FloatBits;
use crate::renderer::context::RenderFrameContext;
use crate::renderer::d3d11::scene::{
    danmaku_kept, danmaku_taken, lemma_drawn_scene_matches, overlay_kept, overlay_taken, proper,
    FlutterTextureScene,
};
use crate::renderer::d3d11::targets::{at_least_one, side, TargetStep};
use crate::renderer::d3d11::{
    AttachedSurface, D3d11OutputMode, D3d11Renderer, D3d11RendererStats, DxgiFormat,
};
use crate::renderer::danmaku::{
    AtlasAction, AtlasKey, DanmakuAtlasCache, DanmakuAtlasUpdate, DanmakuGlyphAtlas,
};
use crate::renderer::frame::{converts, is_gamut, uniforms_for, GamutRows};
use crate::renderer::overlay::{plane_count, OverlayFrame};
use crate::renderer::pipeline::{
    flag, is_exceeds, with_base_mode, with_packed_alpha, LumaUpscalerMode, SourceColorState,
    TargetColorState, VideoUniforms,
};
use crate::renderer::presentation::{aspect_fit, aspect_fit_viewport, PresentationRect};
use crate::renderer::stats::LumaUpscalerBackendStatus;
use crate::time::{Duration, NANOS_PER_MILLI};
use vstd::prelude::*;
use vstd::string::{StringExecFns, StringSliceAdditionalSpecFns};

verus! {

/// The layouts of decoded textures.
#[derive(Debug, Clone, Copy, PartialEq, Eq, Structural)]
pub enum D3d11VideoTextureFormat {
    Nv12,
    P010,
}

impl D3d11VideoTextureFormat {
    pub open spec fn of(format: DxgiFormat) -> Option<Self> {
        match format {
            DxgiFormat::Nv12 => Some(D3d11VideoTextureFormat::Nv12),
            DxgiFormat::P010 => Some(D3d11VideoTextureFormat::P010),
            _ => None,
        }
    }

    pub fn from_dxgi(format: DxgiFormat) -> (layout: Option<Self>)
        ensures
            layout == D3d11VideoTextureFormat::of(format),
    {
        match format {
            DxgiFormat::Nv12 => Some(D3d11VideoTextureFormat::Nv12),
            DxgiFormat::P010 => Some(D3d11VideoTextureFormat::P010),
            _ => None,
        }
    }

    /// The format in which the luma plane is read.
    pub fn luma_srv(self) -> (format: DxgiFormat)
        ensures
            format == match self {
                D3d11VideoTextureFormat::Nv12 => DxgiFormat::R8Unorm,
                D3d11VideoTextureFormat::P010 => DxgiFormat::R16Unorm,
            },
    {
        match self {
            D3d11VideoTextureFormat::Nv12 => DxgiFormat::R8Unorm,
            D3d11VideoTextureFormat::P010 => DxgiFormat::R16Unorm,
        }
    }

    /// The format in which the chroma plane is read.
    pub fn chroma_srv(self) -> (format: DxgiFormat)
        ensures
            format == match self {
                D3d11VideoTextureFormat::Nv12 => DxgiFormat::R8G8Unorm,
                D3d11VideoTextureFormat::P010 => DxgiFormat::R16G16Unorm,
            },
    {
        match self {
            D3d11VideoTextureFormat::Nv12 => DxgiFormat::R8G8Unorm,
            D3d11VideoTextureFormat::P010 => DxgiFormat::R16G16Unorm,
        }
    }
}

/// A share of a texture's side, from nothing to all of it.
#[derive(Debug, Clone, Copy, PartialEq, Eq, Structural)]
pub struct Share {
    pub numerator: u32,
    pub denominator: u32,
}

/// The part of a texture, from its upper left corner, that a frame fills.
#[derive(Debug, Clone, Copy, PartialEq, Eq, Structural)]
pub struct D3d11TexRect {
    pub right: Share,
    pub bottom: Share,
}

/// How much of a texture's side is visible: at least one, and not more than the
/// side.
pub open spec fn visible(length: u32, side: u32) -> u32 {
    let whole = if side == 0 {
        1u32
    } else {
        side
    };
    let wanted = if length == 0 {
        1u32
    } else {
        length
    };
    if wanted <= whole {
        wanted
    } else {
        whole
    }
}

fn visible_length(length: u32, side: u32) -> (shown: u32)
    ensures
        shown == visible(length, side),
{
    let whole: u32 = if side == 0 {
        1
    } else {
        side
    };
    let wanted: u32 = if length == 0 {
        1
    } else {
        length
    };
    if wanted <= whole {
        wanted
    } else {
        whole
    }
}

fn share_of(length: u32, side: u32) -> (share: Share)
    ensures
        share.numerator == visible(length, side),
        share.denominator == if side == 0 {
            1
        } else {
            side as int
        },
        0 < share.numerator <= share.denominator,
{
    Share {
        numerator: visible_length(length, side),
        denominator: if side == 0 {
            1
        } else {
            side
        },
    }
}

impl D3d11TexRect {
    pub open spec fn whole() -> Self {
        let all = Share { numerator: 1, denominator: 1 };
        D3d11TexRect { right: all, bottom: all }
    }

    /// A whole texture.
    pub fn full() -> (rect: Self)
        ensures
            rect == D3d11TexRect::whole(),
    {
        let all: Share = Share { numerator: 1, denominator: 1 };
        D3d11TexRect { right: all, bottom: all }
    }

    /// The part of a decoder's texture that a frame fills; decoders pad their
    /// textures.
    pub fn visible_region(
        visible_width: u32,
        visible_height: u32,
        texture_width: u32,
        texture_height: u32,
    ) -> (rect: Self)
        ensures
            rect.right.numerator == visible(visible_width, texture_width),
            rect.right.denominator == if texture_width == 0 {
                1
            } else {
                texture_width as int
            },
            rect.bottom.numerator == visible(visible_height, texture_height),
            rect.bottom.denominator == if texture_height == 0 {
                1
            } else {
                texture_height as int
            },
            0 < rect.right.numerator <= rect.right.denominator,
            0 < rect.bottom.numerator <= rect.bottom.denominator,
    {
        D3d11TexRect {
            right: share_of(visible_width, texture_width),
            bottom: share_of(visible_height, texture_height),
        }
    }
}

/// A corner of the quad that video is drawn on: which side of the screen it is
/// on, and where in the texture.
#[derive(Debug, Clone, Copy, PartialEq, Eq, Structural)]
pub struct VideoVertex {
    pub x: i32,
    pub y: i32,
    pub across: Share,
    pub down: Share,
}

pub open spec fn corner(rect: D3d11TexRect, right: bool, top: bool) -> VideoVertex {
    VideoVertex {
        x: if right {
            1
        } else {
            -1i32
        },
        y: if top {
            1
        } else {
            -1i32
        },
        across: if right {
            rect.right
        } else {
            Share { numerator: 0, denominator: 1 }
        },
        down: if top {
            Share { numerator: 0, denominator: 1 }
        } else {
            rect.bottom
        },
    }
}

fn vertex(rect: D3d11TexRect, right: bool, top: bool) -> (vertex: VideoVertex)
    ensures
        vertex == corner(rect, right, top),
{
    let nothing: Share = Share { numerator: 0, denominator: 1 };
    VideoVertex {
        x: if right {
            1
        } else {
            -1
        },
        y: if top {
            1
        } else {
            -1
        },
        across: if right {
            rect.right
        } else {
            nothing
        },
        down: if top {
            nothing
        } else {
            rect.bottom
        },
    }
}

/// The corners of two triangles that cover the screen.
pub open spec fn corners(rect: D3d11TexRect) -> Seq<VideoVertex> {
    seq![
        corner(rect, false, false),
        corner(rect, false, true),
        corner(rect, true, false),
        corner(rect, true, false),
        corner(rect, false, true),
        corner(rect, true, true),
    ]
}

/// Two triangles that cover the screen. The texture's top is the screen's.
pub fn video_vertices(rect: D3d11TexRect) -> (vertices: [VideoVertex; 6])
    ensures
        vertices@ == corners(rect),
        forall|i: int|
            0 <= i < 6 ==> {
                let at = #[trigger] vertices@[i];
                &&& at.x == 1 || at.x == -1
                &&& at.y == 1 || at.y == -1
                &&& at.y == 1 ==> at.down.numerator == 0
                &&& at.y == -1 ==> at.down == rect.bottom
                &&& at.x == -1 ==> at.across.numerator == 0
                &&& at.x == 1 ==> at.across == rect.right
            },
{
    [
        vertex(rect, false, false),
        vertex(rect, false, true),
        vertex(rect, true, false),
        vertex(rect, true, false),
        vertex(rect, false, true),
        vertex(rect, true, true),
    ]
}

/// The frame that is drawn.
#[derive(Debug, Clone, Copy)]
pub struct ImportedVideoFrame {
    pub width: u32,
    pub height: u32,
    pub tex_rect: D3d11TexRect,
    pub array_index: u32,
    pub frame_token: u64,
    pub constants: VideoUniforms,
}

/// A texture of the decoder.
#[derive(Debug, Clone, Copy, PartialEq, Eq, Structural)]
pub struct DecoderTexture {
    pub format: DxgiFormat,
    pub width: u32,
    pub height: u32,
    pub array_size: u32,
    /// The slice that holds the frame.
    pub array_index: u32,
    pub frame_width: u32,
    pub frame_height: u32,
}

/// Why a frame cannot be imported.
#[derive(Debug, Clone, Copy, PartialEq, Eq, Structural)]
pub enum ImportError {
    UnsupportedFormat { format: DxgiFormat },
    IndexOutOfBounds { index: u32, size: u32 },
}

impl DecoderTexture {
    pub open spec fn check(self) -> Result<D3d11VideoTextureFormat, ImportError> {
        match D3d11VideoTextureFormat::of(self.format) {
            None => Err(ImportError::UnsupportedFormat { format: self.format }),
            Some(layout) => if self.array_index >= self.array_size {
                Err(
                    ImportError::IndexOutOfBounds {
                        index: self.array_index,
                        size: self.array_size,
                    },
                )
            } else {
                Ok(layout)
            },
        }
    }

    /// Whether the texture can be imported, and its layout.
    pub fn layout(&self) -> (layout: Result<D3d11VideoTextureFormat, ImportError>)
        ensures
            layout == self.check(),
    {
        let layout: D3d11VideoTextureFormat = match D3d11VideoTextureFormat::from_dxgi(
            self.format,
        ) {
            Some(layout) => layout,
            None => {
                return Err(ImportError::UnsupportedFormat { format: self.format });
            },
        };
        if self.array_index >= self.array_size {
            return Err(
                ImportError::IndexOutOfBounds { index: self.array_index, size: self.array_size },
            );
        }
        Ok(layout)
    }
}

/// Whether constants draw a source on a target: in the light of the scene where
/// the target is PQ, so that overlays can be composited first.
pub open spec fn constants_convert<G: Fn(ColorPrimaries, ColorPrimaries) -> GamutRows>(
    constants: VideoUniforms,
    source: SourceColorState,
    layout: D3d11VideoTextureFormat,
    target: TargetColorState,
    gamut: G,
) -> bool {
    &&& converts(constants, source, target, false, gamut)
    &&& constants.is_p010 == flag(layout == D3d11VideoTextureFormat::P010)
    &&& constants.scene_linear == flag(target.transfer == TransferFunction::Pq)
}

/// The constants that draw a source on a target.
pub fn constants_for_frame<
    E: Fn(FloatBits, FloatBits, FloatBits) -> bool,
    G: Fn(ColorPrimaries, ColorPrimaries) -> GamutRows,
>(
    source: SourceColorState,
    layout: D3d11VideoTextureFormat,
    target: TargetColorState,
    exceeds: &E,
    gamut: &G,
) -> (constants: VideoUniforms)
    requires
        is_exceeds(*exceeds),
        is_gamut(*gamut),
    ensures
        constants_convert(constants, source, layout, target, *gamut),
        constants.input_mode == 0,
{
    let uniforms: VideoUniforms = uniforms_for(
        source,
        target,
        layout == D3d11VideoTextureFormat::P010,
        false,
        exceeds,
        gamut,
    );
    if target.transfer == TransferFunction::Pq {
        uniforms.scene_linear_output()
    } else {
        uniforms
    }
}

/// What is drawn on.
#[derive(Debug, Clone, Copy, PartialEq, Eq, Structural)]
pub enum SceneTarget {
    /// The surface itself.
    Surface,
    /// A target in linear light, which is encoded for the surface afterwards.
    Linear,
}

/// How the current frame is drawn.
#[derive(Debug, Clone, Copy)]
pub struct D3d11DrawPlan {
    /// Where the frame stands.
    pub viewport: PresentationRect,
    /// What the frame and the subtitles are drawn on: the viewport, with no side
    /// shorter than a pixel.
    pub device_viewport: PresentationRect,
    /// The frame is upscaled first.
    pub upscale: bool,
    pub target: SceneTarget,
    /// The target is cleared to nothing instead of black.
    pub clear_transparent: bool,
    pub danmaku_width: u32,
    pub danmaku_height: u32,
}

/// Why a frame cannot be drawn.
#[derive(Debug, Clone, Copy, PartialEq, Eq, Structural)]
pub enum DrawError {
    NoRenderTarget,
    NoLinearRenderTarget,
    NoLinearShaderResource,
}

/// Whether there is something to draw on.
#[derive(Debug, Clone, Copy, PartialEq, Eq, Structural)]
pub enum SurfaceReadiness {
    NoSurface,
    /// The surface's resources have to be made.
    Rebuild,
    Ready,
}

/// What is to be done next to render the current frame.
#[derive(Debug, Clone, Copy, PartialEq, Eq, Structural)]
pub enum D3d11RenderStep {
    /// There is no frame.
    NoFrame,
    CreateDevice,
    /// There is nothing to draw on.
    NoSurface,
    /// The surface's resources have to be made.
    Rebuild,
    /// Flutter shows already what would be drawn.
    Reuse,
    Draw,
}

impl D3d11RenderStep {
    /// Whether the frame is shown once the step is done; nothing is known while
    /// something else has to be made first.
    pub open spec fn shows(self) -> Option<bool> {
        match self {
            D3d11RenderStep::NoFrame => Some(false),
            D3d11RenderStep::Reuse | D3d11RenderStep::Draw => Some(true),
            _ => None,
        }
    }
}

/// How what was drawn in linear light is encoded for the surface.
#[derive(Debug, Clone, Copy)]
pub struct D3d11EncodePlan {
    pub constants: VideoUniforms,
    /// The target in linear light has no padding.
    pub texture_scales: [Share; 4],
    /// The viewport starts at the upper left corner.
    pub viewport_width: u32,
    pub viewport_height: u32,
    pub vertices: [VideoVertex; 6],
}

/// What a decoder has produced, as far as it matters here.
#[derive(Debug, Clone, Copy, PartialEq, Eq, Structural)]
pub enum D3d11FrameRoute {
    /// The decoder's texture is imported.
    Texture,
    /// A hardware frame of another kind.
    NotImportable,
    /// A software frame, which this backend does not upload.
    Software,
}

impl D3d11Renderer {
    /// Chooses the way of a decoded frame and counts those that have none.
    pub fn route_player_frame(&mut self, is_d3d11va: bool, has_hw_frames_context: bool) -> (route:
        D3d11FrameRoute)
        requires
            old(self).stats.has_room(),
        ensures
            route == if is_d3d11va {
                D3d11FrameRoute::Texture
            } else if has_hw_frames_context {
                D3d11FrameRoute::NotImportable
            } else {
                D3d11FrameRoute::Software
            },
            *final(self) == (D3d11Renderer {
                stats: D3d11RendererStats {
                    hardware_video_frames: (old(self).stats.hardware_video_frames + flag(
                        route == D3d11FrameRoute::NotImportable,
                    )) as u64,
                    cpu_video_frame_fallbacks: (old(self).stats.cpu_video_frame_fallbacks + flag(
                        route == D3d11FrameRoute::Software,
                    )) as u64,
                    ..old(self).stats
                },
                ..*old(self)
            }),
    {
        if is_d3d11va {
            D3d11FrameRoute::Texture
        } else if has_hw_frames_context {
            self.stats.hardware_video_frames = self.stats.hardware_video_frames + 1;
            D3d11FrameRoute::NotImportable
        } else {
            self.stats.cpu_video_frame_fallbacks = self.stats.cpu_video_frame_fallbacks + 1;
            D3d11FrameRoute::Software
        }
    }

    /// A frame's planes can be read: it is given a number and counted, and is
    /// ready to become the current frame.
    pub fn frame_created<
        E: Fn(FloatBits, FloatBits, FloatBits) -> bool,
        G: Fn(ColorPrimaries, ColorPrimaries) -> GamutRows,
    >(
        &mut self,
        texture: DecoderTexture,
        layout: D3d11VideoTextureFormat,
        source: SourceColorState,
        mode: D3d11OutputMode,
        exceeds: &E,
        gamut: &G,
    ) -> (imported: ImportedVideoFrame)
        requires
            is_exceeds(*exceeds),
            is_gamut(*gamut),
            old(self).stats.has_room(),
        ensures
            imported.width == visible(texture.frame_width, texture.width),
            imported.height == visible(texture.frame_height, texture.height),
            imported.tex_rect.right.numerator == imported.width,
            imported.tex_rect.right.denominator == if texture.width == 0 {
                1
            } else {
                texture.width as int
            },
            imported.tex_rect.bottom.numerator == imported.height,
            imported.tex_rect.bottom.denominator == if texture.height == 0 {
                1
            } else {
                texture.height as int
            },
            imported.array_index == texture.array_index,
            imported.frame_token == old(self).next_frame_token,
            constants_convert(imported.constants, source, layout, mode.target(), *gamut),
            imported.constants.input_mode == with_packed_alpha(0, old(self).video_has_alpha),
            *final(self) == (D3d11Renderer {
                next_frame_token: if old(self).next_frame_token < u64::MAX {
                    (old(self).next_frame_token + 1) as u64
                } else {
                    0
                },
                stats: D3d11RendererStats {
                    hardware_video_frames: (old(self).stats.hardware_video_frames + 1) as u64,
                    zero_copy_video_frames: (old(self).stats.zero_copy_video_frames + 1) as u64,
                    direct_zero_copy_video_frames: (old(self).stats.direct_zero_copy_video_frames
                        + 1) as u64,
                    ..old(self).stats
                },
                ..*old(self)
            }),
    {
        let width: u32 = visible_length(texture.frame_width, texture.width);
        let height: u32 = visible_length(texture.frame_height, texture.height);
        let frame_token: u64 = self.next_frame_token;
        self.next_frame_token =
        if frame_token < u64::MAX {
            frame_token + 1
        } else {
            0
        };
        self.stats.hardware_video_frames = self.stats.hardware_video_frames + 1;
        self.stats.zero_copy_video_frames = self.stats.zero_copy_video_frames + 1;
        self.stats.direct_zero_copy_video_frames = self.stats.direct_zero_copy_video_frames + 1;
        ImportedVideoFrame {
            width,
            height,
            tex_rect: D3d11TexRect::visible_region(width, height, texture.width, texture.height),
            array_index: texture.array_index,
            frame_token,
            constants: constants_for_frame(
                source,
                layout,
                mode.target_color(),
                exceeds,
                gamut,
            ).packed_alpha_right(self.video_has_alpha),
        }
    }

    /// An imported frame becomes the current one; the one before has been
    /// retired.
    pub fn frame_imported(&mut self, imported: ImportedVideoFrame)
        ensures
            *final(self) == (D3d11Renderer { current_video: Some(imported), ..*old(self) }),
    {
        self.current_video = Some(imported);
    }

    /// Whether there is something to draw on.
    pub fn surface_readiness(&self) -> (readiness: SurfaceReadiness)
        ensures
            readiness == match self.surface {
                None => SurfaceReadiness::NoSurface,
                Some(surface) => if surface.ready() {
                    SurfaceReadiness::Ready
                } else {
                    SurfaceReadiness::Rebuild
                },
            },
    {
        match self.surface {
            None => SurfaceReadiness::NoSurface,
            Some(surface) => {
                if surface.targets_ready() {
                    SurfaceReadiness::Ready
                } else {
                    SurfaceReadiness::Rebuild
                }
            },
        }
    }

    /// Whether what Flutter shows is what would be drawn.
    pub open spec fn published_is_current(self, context: RenderFrameContext<'_>) -> bool {
        &&& self.surface matches Some(surface) && surface.flutter_texture
            && surface.published_texture
        &&& self.current_video is Some
        &&& self.flutter_scene matches Some(scene) && scene.same_scene(
            self.current_video->0.frame_token,
            self.upscaler_mode,
            context,
        )
    }

    /// Whether nothing has to be drawn, because Flutter shows it already.
    pub fn can_reuse_published(&self, context: RenderFrameContext<'_>) -> (reuse: bool)
        ensures
            reuse == self.published_is_current(context),
    {
        let published: bool = match self.surface {
            Some(surface) => surface.flutter_texture && surface.published_texture,
            None => false,
        };
        if !published {
            return false;
        }
        match (&self.flutter_scene, self.current_video) {
            (Some(scene), Some(video)) => scene.matches(
                video.frame_token,
                self.upscaler_mode,
                context,
            ),
            _ => false,
        }
    }

    /// What is to be done next to render the current frame.
    pub open spec fn next_render_step(self, context: RenderFrameContext<'_>) -> D3d11RenderStep {
        if self.current_video is None {
            D3d11RenderStep::NoFrame
        } else if !self.has_device {
            D3d11RenderStep::CreateDevice
        } else {
            match self.surface {
                None => D3d11RenderStep::NoSurface,
                Some(surface) => if !surface.ready() {
                    D3d11RenderStep::Rebuild
                } else if self.published_is_current(context) {
                    D3d11RenderStep::Reuse
                } else {
                    D3d11RenderStep::Draw
                },
            }
        }
    }

    /// Decides what is to be done next to render the current frame. Without a
    /// frame nothing is needed, not even a device.
    pub fn render_step(&self, context: RenderFrameContext<'_>) -> (step: D3d11RenderStep)
        ensures
            step == self.next_render_step(context),
    {
        if self.current_video.is_none() {
            return D3d11RenderStep::NoFrame;
        }
        if !self.has_device {
            return D3d11RenderStep::CreateDevice;
        }
        match self.surface_readiness() {
            SurfaceReadiness::NoSurface => D3d11RenderStep::NoSurface,
            SurfaceReadiness::Rebuild => D3d11RenderStep::Rebuild,
            SurfaceReadiness::Ready => {
                if self.can_reuse_published(context) {
                    D3d11RenderStep::Reuse
                } else {
                    D3d11RenderStep::Draw
                }
            },
        }
    }

    /// The renderer once a render has come to its end: a frame that was drawn is
    /// counted and kept, and otherwise nothing changes.
    pub open spec fn render_concluded(
        self,
        context: RenderFrameContext<'_>,
        danmaku_draws: u64,
        after: Self,
    ) -> bool {
        if self.next_render_step(context) == D3d11RenderStep::Draw {
            self.drawn_and_presented(context, danmaku_draws, after)
        } else {
            after == self
        }
    }

    /// Ends a render whose step was carried out, and answers whether the frame
    /// is shown. Where a device or a surface has to be made first there is no
    /// answer yet.
    pub fn conclude_render(&mut self, context: RenderFrameContext<'_>, danmaku_draws: u64) -> (shown:
        Option<bool>)
        requires
            old(self).stats.has_room(),
            old(self).stats.danmaku_items + danmaku_draws <= u64::MAX,
        ensures
            shown == old(self).next_render_step(context).shows(),
            old(self).render_concluded(context, danmaku_draws, *final(self)),
    {
        match self.render_step(context) {
            D3d11RenderStep::NoFrame => Some(false),
            D3d11RenderStep::Reuse => Some(true),
            D3d11RenderStep::Draw => {
                self.frame_rendered(context, danmaku_draws);
                Some(true)
            },
            _ => None,
        }
    }

    /// Plans how the current frame is drawn. The logical width is the frame's
    /// without the alpha that may be packed beside it.
    pub fn plan_draw(&self, logical_width: u32, upscaler: LumaUpscalerBackendStatus) -> (plan:
        Result<D3d11DrawPlan, DrawError>)
        requires
            self.surface is Some,
            self.current_video is Some,
            self.current_video->0.height > 0,
            logical_width > 0,
        ensures
            ({
                let surface = self.surface->0;
                let video = self.current_video->0;
                let hdr10 = surface.output_mode == D3d11OutputMode::Hdr10;
                let viewport = aspect_fit(
                    logical_width,
                    video.height,
                    surface.metrics.width,
                    surface.metrics.height,
                );
                match plan {
                    Err(DrawError::NoRenderTarget) => !surface.render_target,
                    Err(DrawError::NoLinearRenderTarget) => surface.render_target && hdr10
                        && !surface.linear_render_target,
                    Err(DrawError::NoLinearShaderResource) => surface.render_target && hdr10
                        && surface.linear_render_target && !surface.linear_shader_resource,
                    Ok(plan) => {
                        &&& surface.render_target
                        &&& hdr10 ==> surface.linear_render_target
                            && surface.linear_shader_resource
                        &&& plan.viewport == viewport
                        &&& plan.device_viewport == viewport.drawable()
                        &&& plan.upscale <==> (!self.video_has_alpha && self.upscaler_mode
                            != LumaUpscalerMode::Off && upscaler
                            == LumaUpscalerBackendStatus::Scalar && viewport.width.numerator
                            > video.width * viewport.width.denominator)
                        &&& plan.target == if hdr10 {
                            SceneTarget::Linear
                        } else {
                            SceneTarget::Surface
                        }
                        &&& plan.clear_transparent == self.video_has_alpha
                        &&& plan.danmaku_width == if surface.metrics.width == 0 {
                            1
                        } else {
                            surface.metrics.width as int
                        }
                        &&& plan.danmaku_height == if surface.metrics.height == 0 {
                            1
                        } else {
                            surface.metrics.height as int
                        }
                    },
                }
            }),
    {
        let (surface, video) = match (self.surface, self.current_video) {
            (Some(surface), Some(video)) => (surface, video),
            _ => {
                return Err(DrawError::NoRenderTarget);
            },
        };
        if !surface.render_target {
            return Err(DrawError::NoRenderTarget);
        }
        let hdr10: bool = surface.output_mode == D3d11OutputMode::Hdr10;
        if hdr10 && !surface.linear_render_target {
            return Err(DrawError::NoLinearRenderTarget);
        }
        if hdr10 && !surface.linear_shader_resource {
            return Err(DrawError::NoLinearShaderResource);
        }
        let viewport: PresentationRect = aspect_fit_viewport(
            logical_width,
            video.height,
            surface.metrics.width,
            surface.metrics.height,
        );
        proof {
            assert(0 <= video.width * viewport.width.denominator <= u128::MAX)
                by (nonlinear_arith)
                requires
                    0 <= video.width <= u32::MAX,
                    0 <= viewport.width.denominator <= u64::MAX,
            ;
        }
        let larger: bool = viewport.width.numerator as u128 > video.width as u128
            * viewport.width.denominator as u128;
        Ok(
            D3d11DrawPlan {
                viewport,
                device_viewport: viewport.device_viewport(),
                upscale: !self.video_has_alpha && self.upscaler_mode.is_enabled() && upscaler
                    == LumaUpscalerBackendStatus::Scalar && larger,
                target: if hdr10 {
                    SceneTarget::Linear
                } else {
                    SceneTarget::Surface
                },
                clear_transparent: self.video_has_alpha,
                danmaku_width: if surface.metrics.width == 0 {
                    1
                } else {
                    surface.metrics.width
                },
                danmaku_height: if surface.metrics.height == 0 {
                    1
                } else {
                    surface.metrics.height
                },
            },
        )
    }

    /// The constants that the current frame is drawn with.
    pub fn draw_constants(&self, upscaled: bool) -> (constants: Option<VideoUniforms>)
        ensures
            constants == match self.current_video {
                None => None,
                Some(video) => Some(
                    if upscaled {
                        VideoUniforms {
                            input_mode: with_base_mode(video.constants.input_mode, 2),
                            ..video.constants
                        }
                    } else {
                        video.constants
                    },
                ),
            },
    {
        match self.current_video {
            None => None,
            Some(video) => {
                if upscaled {
                    Some(video.constants.packed_d2s_luma_input())
                } else {
                    Some(video.constants)
                }
            },
        }
    }

    /// The shares of the luma and of the chroma texture that are shown, across
    /// and down. An upscaled luma texture has no padding.
    pub fn texture_scales(&self, upscaled: bool) -> (scales: Option<[Share; 4]>)
        ensures
            match self.current_video {
                None => scales is None,
                Some(video) => {
                    let whole = Share { numerator: 1, denominator: 1 };
                    let rect = video.tex_rect;
                    &&& scales is Some
                    &&& scales->0@ == if upscaled {
                        seq![whole, whole, rect.right, rect.bottom]
                    } else {
                        seq![rect.right, rect.bottom, rect.right, rect.bottom]
                    }
                },
            },
    {
        match self.current_video {
            None => None,
            Some(video) => {
                let whole: Share = Share { numerator: 1, denominator: 1 };
                let rect: D3d11TexRect = video.tex_rect;
                let scales: [Share; 4] = if upscaled {
                    [whole, whole, rect.right, rect.bottom]
                } else {
                    [rect.right, rect.bottom, rect.right, rect.bottom]
                };
                Some(scales)
            },
        }
    }

    /// How what was drawn in linear light is encoded for the surface: with the
    /// frame's constants, but no longer for the light of the scene.
    pub fn encode_constants(&self) -> (plan: Option<D3d11EncodePlan>)
        ensures
            match (self.surface, self.current_video) {
                (Some(surface), Some(video)) => {
                    let whole = Share { numerator: 1, denominator: 1 };
                    &&& plan is Some
                    &&& plan->0.constants == (VideoUniforms { scene_linear: 0, ..video.constants })
                    &&& plan->0.texture_scales@ == seq![whole, whole, whole, whole]
                    &&& plan->0.viewport_width == side(surface.metrics.width)
                    &&& plan->0.viewport_height == side(surface.metrics.height)
                    &&& plan->0.vertices@ == corners(D3d11TexRect::whole())
                },
                _ => plan is None,
            },
    {
        match (self.surface, self.current_video) {
            (Some(surface), Some(video)) => {
                let whole: Share = Share { numerator: 1, denominator: 1 };
                Some(
                    D3d11EncodePlan {
                        constants: VideoUniforms { scene_linear: 0, ..video.constants },
                        texture_scales: [whole, whole, whole, whole],
                        viewport_width: at_least_one(surface.metrics.width),
                        viewport_height: at_least_one(surface.metrics.height),
                        vertices: video_vertices(D3d11TexRect::full()),
                    },
                )
            },
            _ => None,
        }
    }

    /// An overlay is prepared for drawing: it is counted with its planes, unless
    /// it has none. Answers whether it is drawn.
    pub fn prepare_overlay(&mut self, overlay: Option<&OverlayFrame>) -> (drawn: bool)
        requires
            old(self).stats.has_room(),
            overlay matches Some(frame) ==> old(self).stats.prepared_overlay_subtitle_planes
                + frame.subtitle_planes@.len() + frame.subtitle_alpha_planes@.len() <= u64::MAX,
        ensures
            drawn == (overlay matches Some(frame) && (frame.subtitle_planes@.len() > 0
                || frame.subtitle_alpha_planes@.len() > 0)),
            *final(self) == if drawn {
                D3d11Renderer {
                    stats: D3d11RendererStats {
                        prepared_overlay_frames: (old(self).stats.prepared_overlay_frames
                            + 1) as u64,
                        prepared_overlay_subtitle_planes: (
                        old(self).stats.prepared_overlay_subtitle_planes
                            + counted_planes(*overlay->0)) as u64,
                        ..old(self).stats
                    },
                    ..*old(self)
                }
            } else {
                *old(self)
            },
    {
        match overlay {
            None => false,
            Some(frame) => {
                if frame.subtitle_planes.len() == 0 && frame.subtitle_alpha_planes.len() == 0 {
                    return false;
                }
                self.stats.prepared_overlay_frames = self.stats.prepared_overlay_frames + 1;
                self.stats.prepared_overlay_subtitle_planes =
                self.stats.prepared_overlay_subtitle_planes + plane_count(frame) as u64;
                true
            },
        }
    }

    /// The atlas of an overlay's alpha bitmaps was uploaded.
    pub fn alpha_atlas_uploaded(&mut self)
        requires
            old(self).stats.has_room(),
        ensures
            *final(self) == (D3d11Renderer {
                stats: D3d11RendererStats {
                    overlay_alpha_atlas_uploads: (old(self).stats.overlay_alpha_atlas_uploads
                        + 1) as u64,
                    ..old(self).stats
                },
                ..*old(self)
            }),
    {
        self.stats.overlay_alpha_atlas_uploads = self.stats.overlay_alpha_atlas_uploads + 1;
    }

    /// The textures of an atlas are brought up to date. A new texture has to be
    /// made before it is kept.
    pub fn prepare_danmaku_atlas(&mut self, atlas: &DanmakuGlyphAtlas) -> (action: AtlasAction)
        requires
            old(self).stats.has_room(),
            atlas.update matches Some(update) ==> update.y * atlas.stride + update.x <= usize::MAX,
        ensures
            action == crate::renderer::danmaku::atlas_action(
                old(self).danmaku_atlas_cache,
                *atlas,
            ),
            *final(self) == match action {
                AtlasAction::Reuse => D3d11Renderer {
                    stats: D3d11RendererStats {
                        overlay_alpha_atlas_reuses: (old(self).stats.overlay_alpha_atlas_reuses
                            + 1) as u64,
                        ..old(self).stats
                    },
                    ..*old(self)
                },
                AtlasAction::Update { .. } => D3d11Renderer {
                    danmaku_atlas_cache: Some(DanmakuAtlasCache { key: atlas@.key }),
                    stats: D3d11RendererStats {
                        overlay_alpha_atlas_uploads: (old(self).stats.overlay_alpha_atlas_uploads
                            + 1) as u64,
                        overlay_alpha_atlas_reuses: (old(self).stats.overlay_alpha_atlas_reuses
                            + 1) as u64,
                        ..old(self).stats
                    },
                    ..*old(self)
                },
                AtlasAction::Upload => *old(self),
            },
    {
        let mut cache: Option<DanmakuAtlasCache> = self.danmaku_atlas_cache;
        let action: AtlasAction = crate::renderer::danmaku::prepare_danmaku_atlas(
            &mut cache,
            atlas,
        );
        match action {
            AtlasAction::Reuse => {
                self.stats.overlay_alpha_atlas_reuses = self.stats.overlay_alpha_atlas_reuses + 1;
            },
            AtlasAction::Update { .. } => {
                self.danmaku_atlas_cache = cache;
                self.stats.overlay_alpha_atlas_uploads = self.stats.overlay_alpha_atlas_uploads + 1;
                self.stats.overlay_alpha_atlas_reuses = self.stats.overlay_alpha_atlas_reuses + 1;
            },
            AtlasAction::Upload => {},
        }
        action
    }

    /// New textures of an atlas were made.
    pub fn danmaku_atlas_uploaded(&mut self, key: AtlasKey)
        requires
            old(self).stats.has_room(),
        ensures
            *final(self) == (D3d11Renderer {
                danmaku_atlas_cache: Some(DanmakuAtlasCache { key }),
                stats: D3d11RendererStats {
                    overlay_alpha_atlas_uploads: (old(self).stats.overlay_alpha_atlas_uploads
                        + 1) as u64,
                    ..old(self).stats
                },
                ..*old(self)
            }),
    {
        self.stats.overlay_alpha_atlas_uploads = self.stats.overlay_alpha_atlas_uploads + 1;
        self.danmaku_atlas_cache = Some(DanmakuAtlasCache { key });
    }

    /// The renderer once the current frame was drawn and presented. What Flutter
    /// shows is a finished copy of it, and what it was drawn from is kept.
    pub open spec fn drawn_and_presented(
        self,
        context: RenderFrameContext<'_>,
        danmaku_draws: u64,
        after: Self,
    ) -> bool {
        let surface = self.surface->0;
        let video = self.current_video->0;
        &&& after.stats == (D3d11RendererStats {
            rendered_frames: (self.stats.rendered_frames + 1) as u64,
            danmaku_passes: (self.stats.danmaku_passes + flag(danmaku_draws > 0)) as u64,
            danmaku_items: (self.stats.danmaku_items + danmaku_draws) as u64,
            ..self.stats
        })
        &&& if surface.flutter_texture {
            let scene = after.flutter_scene->0;
            let kept_overlay = match self.flutter_scene {
                Some(before) => overlay_kept(before.overlay, context.overlay),
                None => false,
            };
            let kept_danmaku = match self.flutter_scene {
                Some(before) => danmaku_kept(before.danmaku, context.danmaku),
                None => false,
            };
            &&& after.surface == Some(AttachedSurface { published_texture: true, ..surface })
            &&& after.flutter_scene is Some
            &&& scene.frame_token == video.frame_token
            &&& scene.generation == context.generation
            &&& scene.upscaler == self.upscaler_mode
            &&& if kept_overlay {
                scene.overlay == self.flutter_scene->0.overlay
            } else {
                overlay_taken(scene.overlay, context.overlay)
            }
            &&& if kept_danmaku {
                scene.danmaku == self.flutter_scene->0.danmaku
            } else {
                danmaku_taken(scene.danmaku, context.danmaku)
            }
        } else {
            after.surface == self.surface && after.flutter_scene == self.flutter_scene
        }
        &&& after.has_device == self.has_device
        &&& after.current_video == self.current_video
        &&& after.danmaku_atlas_cache == self.danmaku_atlas_cache
        &&& after.requested_output_mode == self.requested_output_mode
        &&& after.video_has_alpha == self.video_has_alpha
        &&& after.upscaler_mode == self.upscaler_mode
        &&& after.next_frame_token == self.next_frame_token
        &&& after.hdr10_output_unavailable == self.hdr10_output_unavailable
    }

    /// The current frame was drawn and presented.
    pub fn frame_rendered(&mut self, context: RenderFrameContext<'_>, danmaku_draws: u64)
        requires
            old(self).stats.has_room(),
            old(self).stats.danmaku_items + danmaku_draws <= u64::MAX,
            old(self).surface is Some,
            old(self).current_video is Some,
        ensures
            old(self).drawn_and_presented(context, danmaku_draws, *final(self)),
    {
        if let (Some(attached), Some(video)) = (self.surface, self.current_video) {
            let mut surface: AttachedSurface = attached;
            if surface.flutter_texture {
                surface.published_texture = true;
                self.surface = Some(surface);
                let mut scene: Option<FlutterTextureScene> = None;
                std::mem::swap(&mut scene, &mut self.flutter_scene);
                let updated: FlutterTextureScene = match scene {
                    Some(before) => {
                        let mut scene: FlutterTextureScene = before;
                        scene.update(video.frame_token, self.upscaler_mode, context);
                        scene
                    },
                    None => FlutterTextureScene::new(
                        video.frame_token,
                        self.upscaler_mode,
                        context,
                    ),
                };
                self.flutter_scene = Some(updated);
            }
        }
        self.stats.rendered_frames = self.stats.rendered_frames + 1;
        if danmaku_draws > 0 {
            self.stats.danmaku_passes = self.stats.danmaku_passes + 1;
            self.stats.danmaku_items = self.stats.danmaku_items + danmaku_draws;
        }
    }

    /// Whether a surface has to be cleared: what Flutter shows without a frame
    /// is cleared already.
    pub fn needs_clear(&self) -> (clear: bool)
        ensures
            clear == !((self.surface matches Some(surface) && surface.flutter_texture
                && surface.published_texture) && self.flutter_scene is None),
    {
        let published: bool = match self.surface {
            Some(surface) => surface.flutter_texture && surface.published_texture,
            None => false,
        };
        !(published && self.flutter_scene.is_none())
    }

    /// The surface was cleared and presented.
    pub fn surface_cleared(&mut self)
        requires
            old(self).stats.has_room(),
        ensures
            *final(self) == (D3d11Renderer {
                surface: match old(self).surface {
                    Some(surface) if surface.flutter_texture => Some(
                        AttachedSurface { published_texture: true, ..surface },
                    ),
                    kept => kept,
                },
                flutter_scene: None,
                stats: D3d11RendererStats {
                    rendered_frames: (old(self).stats.rendered_frames + 1) as u64,
                    ..old(self).stats
                },
                ..*old(self)
            }),
    {
        if let Some(attached) = self.surface {
            if attached.flutter_texture {
                let mut surface: AttachedSurface = attached;
                surface.published_texture = true;
                self.surface = Some(surface);
            }
        }
        self.flutter_scene = None;
        self.stats.rendered_frames = self.stats.rendered_frames + 1;
    }
}

/// A render answers that nothing is shown exactly where there is no frame. It
/// counts a frame exactly where it draws one: what Flutter shows already is
/// shown, but not counted again.
pub proof fn lemma_render_counts_what_it_draws(
    before: D3d11Renderer,
    context: RenderFrameContext<'_>,
    danmaku_draws: u64,
    after: D3d11Renderer,
)
    requires
        before.stats.has_room(),
        before.render_concluded(context, danmaku_draws, after),
    ensures
        ({
            let step = before.next_render_step(context);
            &&& step.shows() == Some(false) <==> before.current_video is None
            &&& step != D3d11RenderStep::Draw ==> after.stats == before.stats
            &&& step == D3d11RenderStep::Draw ==> after.stats.rendered_frames
                == before.stats.rendered_frames + 1
            &&& after.current_video == before.current_video
        }),
{
}

/// What Flutter was given is not drawn a second time: rendering the same thing
/// again shows it and changes nothing.
pub proof fn lemma_drawn_frame_is_reused(
    before: D3d11Renderer,
    context: RenderFrameContext<'_>,
    danmaku_draws: u64,
    after: D3d11Renderer,
)
    requires
        before.next_render_step(context) == D3d11RenderStep::Draw,
        before.surface->0.flutter_texture,
        before.render_concluded(context, danmaku_draws, after),
        context.danmaku matches Some(plan) ==> forall|i: int|
            0 <= i < plan.items@.len() ==> #[trigger] proper(plan.items@[i]),
    ensures
        after.next_render_step(context) == D3d11RenderStep::Reuse,
{
    let scene = after.flutter_scene->0;
    let video = before.current_video->0;
    let kept = match before.flutter_scene {
        Some(kept) => kept,
        None => scene,
    };
    lemma_drawn_scene_matches(kept, scene, video.frame_token, before.upscaler_mode, context);
}

/// Once a surface's resources are made, a render comes to its end.
pub proof fn lemma_finished_targets_are_rendered_on(
    renderer: D3d11Renderer,
    context: RenderFrameContext<'_>,
)
    requires
        renderer.at_step(TargetStep::Done),
    ensures
        renderer.next_render_step(context).shows() == Some(renderer.current_video is Some),
{
}

/// The planes that an overlay is counted with.
pub open spec fn counted_planes(frame: OverlayFrame) -> int {
    if frame.subtitle_planes@.len() + frame.subtitle_alpha_planes@.len() <= usize::MAX {
        (frame.subtitle_planes@.len() + frame.subtitle_alpha_planes@.len()) as int
    } else {
        usize::MAX as int
    }
}

/// The part of a texture that an update writes.
#[derive(Debug, Clone, Copy, PartialEq, Eq, Structural)]
pub struct UpdateBox {
    pub left: u32,
    pub top: u32,
    pub right: u32,
    pub bottom: u32,
}

pub fn update_box(update: DanmakuAtlasUpdate) -> (region: UpdateBox)
    ensures
        region.left == update.x,
        region.top == update.y,
        region.right == if update.x + update.width <= u32::MAX {
            update.x + update.width
        } else {
            u32::MAX as int
        },
        region.bottom == if update.y + update.height <= u32::MAX {
            update.y + update.height
        } else {
            u32::MAX as int
        },
{
    UpdateBox {
        left: update.x,
        top: update.y,
        right: update.x.saturating_add(update.width),
        bottom: update.y.saturating_add(update.height),
    }
}

/// What is to be done while the device finishes.
#[derive(Debug, Clone, Copy, PartialEq, Eq, Structural)]
pub enum GpuWait {
    Finished,
    /// The device is asked again after this time.
    AskAgain { after: Duration },
    /// The current frame is kept.
    TimedOut,
}

/// How long the device may take to hand a frame to a compositor.
pub const GPU_HANDOFF_TIMEOUT_MILLIS: u64 = 100;

/// Waits for the device, asked once a millisecond.
pub fn wait_for_gpu(complete: bool, elapsed: Duration) -> (wait: GpuWait)
    ensures
        match wait {
            GpuWait::Finished => complete,
            GpuWait::TimedOut => !complete && elapsed@ >= GPU_HANDOFF_TIMEOUT_MILLIS
                * NANOS_PER_MILLI,
            GpuWait::AskAgain { after } => !complete && elapsed@ < GPU_HANDOFF_TIMEOUT_MILLIS
                * NANOS_PER_MILLI && after@ == NANOS_PER_MILLI,
        },
        wait == GpuWait::TimedOut <==> !complete && elapsed@ >= 100_000_000,
        wait matches GpuWait::AskAgain { after } ==> after@ == 1_000_000,
{
    if complete {
        return GpuWait::Finished;
    }
    if elapsed.as_nanos() >= Duration::from_millis(GPU_HANDOFF_TIMEOUT_MILLIS).as_nanos() {
        return GpuWait::TimedOut;
    }
    GpuWait::AskAgain { after: Duration::from_millis(1) }
}

/// What a swap chain answers when a frame is presented.
#[derive(Debug, Clone, Copy, PartialEq, Eq, Structural)]
pub enum PresentStatus {
    Presented,
    /// The queue is full.
    StillDrawing,
    Failed,
}

/// Whether a presentation is in order. One that finds the queue full is
/// dropped: the window must stay responsive.
pub fn presented(status: PresentStatus) -> (ok: bool)
    ensures
        ok == (status != PresentStatus::Failed),
{
    status != PresentStatus::Failed
}

/// A text with the zero that ends it.
pub fn nul(value: &str) -> (bytes: Vec<u8>)
    ensures
        bytes@ == value.spec_bytes().push(0u8),
{
    let text: &[u8] = value.as_bytes();
    let mut bytes: Vec<u8> = Vec::new();
    let mut i: usize = 0;
    while i < text.len()
        invariant
            i <= text@.len(),
            bytes@ == text@.take(i as int),
        decreases text@.len() - i,
    {
        bytes.push(text[i]);
        assert(bytes@ =~= text@.take(i + 1));
        i = i + 1;
    }
    assert(text@.take(i as int) =~= text@);
    bytes.push(0);
    bytes
}

/// The text of a call that failed.
pub fn d3d_error(operation: &str, message: &str) -> (text: String)
    ensures
        text@ == "d3d11: "@ + operation@ + " failed: "@ + message@,
{
    let mut text: String = "d3d11: ".to_owned();
    text.append(operation);
    text.append(" failed: ");
    text.append(message);
    text
}

} // verus!
