//! Drawing the current frame: where it stands, whether it is upscaled, what is
//! drawn over it, and what is counted.

use crate::color::ColorPrimaries;
use crate::float::FloatBits;
use crate::renderer::context::RenderFrameContext;
use crate::renderer::danmaku::{plan_fits, DanmakuRenderPlan};
use crate::renderer::frame::{is_gamut, GamutRows};
use crate::renderer::output::{sum_capped, OutputDescription, OutputRuntimeStatus};
use crate::renderer::overlay::overlay_has_planes;
use crate::renderer::pipeline::{
    is_exceeds, with_base_mode, LumaUpscalerMode, VideoUniforms,
};
use crate::renderer::presentation::{aspect_fit, aspect_fit_viewport, PresentationRect};
use crate::renderer::stats::LumaUpscalerBackendStatus;
use crate::renderer::wgpu::readback::{aligned, lemma_aligned};
use crate::renderer::wgpu::upload::UploadedVideoFrame;
use crate::renderer::wgpu::{WgpuRenderer, WgpuRendererStats};
use vstd::arithmetic::div_mod::{lemma_fundamental_div_mod, lemma_fundamental_div_mod_converse};
use vstd::arithmetic::mul::{lemma_mul_inequality, lemma_mul_is_distributive_add_other_way};
use vstd::prelude::*;

verus! {

/// What the upscaler reads.
#[derive(Debug, Clone, Copy, PartialEq, Eq, Structural)]
pub enum UpscalerInput {
    PlanarLuma,
    NonlinearRgb,
}

/// How the current frame is drawn.
#[derive(Debug, Clone, Copy)]
pub struct DrawPlan {
    pub viewport: PresentationRect,
    pub uniforms: VideoUniforms,
    pub frame_token: u64,
    /// What is upscaled first, where anything is.
    pub upscale: Option<UpscalerInput>,
    /// The target is cleared to nothing instead of black.
    pub clear_transparent: bool,
}

/// Whether a length in pixels is greater than a whole number of them.
pub open spec fn wider(rect: PresentationRect, width: u32) -> bool {
    rect.width.numerator > width * rect.width.denominator
}

/// What came of an upscaling.
#[derive(Debug, Clone, Copy, PartialEq, Eq, Structural)]
pub enum UpscaleOutcome {
    /// The device has reported an error, or the upscaler could not encode the
    /// frame or commit its output.
    Failed,
    /// The frame was upscaled.
    Upscaled { input: UpscalerInput },
    /// There was nothing to do.
    Nothing,
}

impl WgpuRenderer {
    /// Whether the current frame is upscaled before it is drawn: it has to be
    /// drawn larger than it is, and the upscaler not to have failed on it.
    pub open spec fn upscales(
        self,
        video: UploadedVideoFrame,
        viewport: PresentationRect,
        status: LumaUpscalerBackendStatus,
    ) -> bool {
        &&& !self.video_has_alpha
        &&& self.upscaler_mode != LumaUpscalerMode::Off
        &&& status == LumaUpscalerBackendStatus::Scalar
        &&& wider(viewport, video.width)
        &&& self.upscaler_failed_frame_token != Some(video.frame_token)
    }

    /// Plans how the current frame is drawn. The logical width is the frame's
    /// without the alpha that may be packed beside it.
    pub fn plan_draw<
        E: Fn(FloatBits, FloatBits, FloatBits) -> bool,
        G: Fn(ColorPrimaries, ColorPrimaries) -> GamutRows,
    >(
        &self,
        logical_width: u32,
        target_width: u32,
        target_height: u32,
        output: OutputDescription,
        upscaler: LumaUpscalerBackendStatus,
        exceeds: &E,
        gamut: &G,
    ) -> (plan: Option<DrawPlan>)
        requires
            is_exceeds(*exceeds),
            is_gamut(*gamut),
            logical_width > 0,
            self.current_video matches Some(video) ==> video.height > 0,
        ensures
            match (self.current_video, plan) {
                (None, None) => true,
                (Some(video), Some(plan)) => {
                    &&& plan.viewport == aspect_fit(
                        logical_width,
                        video.height,
                        target_width,
                        target_height,
                    )
                    &&& video.shows(output, *gamut, plan.uniforms)
                    &&& plan.frame_token == video.frame_token
                    &&& plan.clear_transparent == self.video_has_alpha
                    &&& plan.upscale == if self.upscales(video, plan.viewport, upscaler) {
                        Some(
                            if video.is_rgb {
                                UpscalerInput::NonlinearRgb
                            } else {
                                UpscalerInput::PlanarLuma
                            },
                        )
                    } else {
                        None
                    }
                },
                _ => false,
            },
    {
        let video: UploadedVideoFrame = match self.current_video {
            Some(video) => video,
            None => {
                return None;
            },
        };
        let viewport: PresentationRect = aspect_fit_viewport(
            logical_width,
            video.height,
            target_width,
            target_height,
        );
        let failed: bool = match self.upscaler_failed_frame_token {
            Some(token) => token == video.frame_token,
            None => false,
        };
        proof {
            assert(0 <= video.width * viewport.width.denominator <= u128::MAX)
                by (nonlinear_arith)
                requires
                    0 <= video.width <= u32::MAX,
                    0 <= viewport.width.denominator <= u64::MAX,
            ;
        }
        let larger: bool = viewport.width.numerator as u128 > video.width as u128
            * viewport.width.denominator as u128;
        let upscale: Option<UpscalerInput> = if !self.video_has_alpha
            && self.upscaler_mode.is_enabled() && upscaler == LumaUpscalerBackendStatus::Scalar
            && larger && !failed {
            Some(
                if video.is_rgb {
                    UpscalerInput::NonlinearRgb
                } else {
                    UpscalerInput::PlanarLuma
                },
            )
        } else {
            None
        };
        Some(
            DrawPlan {
                viewport,
                uniforms: video.uniforms_for_output(output, exceeds, gamut),
                frame_token: video.frame_token,
                upscale,
                clear_transparent: self.video_has_alpha,
            },
        )
    }

    /// Takes in what came of an upscaling. A frame that the upscaler has failed
    /// on is drawn as it is and not tried again.
    pub fn upscale_finished(&mut self, plan: DrawPlan, outcome: UpscaleOutcome) -> (uniforms:
        VideoUniforms)
        ensures
            uniforms == match outcome {
                UpscaleOutcome::Upscaled { input: UpscalerInput::PlanarLuma } => VideoUniforms {
                    input_mode: with_base_mode(plan.uniforms.input_mode, 2),
                    ..plan.uniforms
                },
                UpscaleOutcome::Upscaled { input: UpscalerInput::NonlinearRgb } => VideoUniforms {
                    input_mode: with_base_mode(plan.uniforms.input_mode, 3),
                    ..plan.uniforms
                },
                _ => plan.uniforms,
            },
            *final(self) == (WgpuRenderer {
                upscaler_failed_frame_token: match outcome {
                    UpscaleOutcome::Failed => Some(plan.frame_token),
                    UpscaleOutcome::Upscaled { .. } => None,
                    UpscaleOutcome::Nothing => old(self).upscaler_failed_frame_token,
                },
                ..*old(self)
            }),
    {
        match outcome {
            UpscaleOutcome::Failed => {
                self.upscaler_failed_frame_token = Some(plan.frame_token);
                plan.uniforms
            },
            UpscaleOutcome::Upscaled { input } => {
                self.upscaler_failed_frame_token = None;
                match input {
                    UpscalerInput::PlanarLuma => plan.uniforms.packed_d2s_luma_input(),
                    UpscalerInput::NonlinearRgb => plan.uniforms.packed_d2s_rgb_detail_input(),
                }
            },
            UpscaleOutcome::Nothing => plan.uniforms,
        }
    }

    /// Another upscaler is asked for. Answers whether the device's has to be
    /// switched: it has not where it already does what is asked.
    pub fn set_luma_upscaler(
        &mut self,
        mode: LumaUpscalerMode,
        device_mode: LumaUpscalerMode,
        status: LumaUpscalerBackendStatus,
    ) -> (switch: bool)
        ensures
            switch == upscaler_switch_needed(old(self).upscaler_mode, mode, device_mode, status),
            *final(self) == if switch {
                WgpuRenderer {
                    upscaler_mode: mode,
                    upscaler_failed_frame_token: None,
                    ..*old(self)
                }
            } else {
                *old(self)
            },
    {
        let wanted: LumaUpscalerBackendStatus = if mode.is_enabled() {
            LumaUpscalerBackendStatus::Scalar
        } else {
            LumaUpscalerBackendStatus::Off
        };
        if mode == self.upscaler_mode && device_mode == mode && status == wanted {
            return false;
        }
        self.upscaler_mode = mode;
        self.upscaler_failed_frame_token = None;
        true
    }
}

/// Whether the device's upscaler does not yet do what is asked.
pub open spec fn upscaler_switch_needed(
    current: LumaUpscalerMode,
    mode: LumaUpscalerMode,
    device_mode: LumaUpscalerMode,
    status: LumaUpscalerBackendStatus,
) -> bool {
    let wanted = if mode == LumaUpscalerMode::Off {
        LumaUpscalerBackendStatus::Off
    } else {
        LumaUpscalerBackendStatus::Scalar
    };
    mode != current || device_mode != mode || status != wanted
}

/// A frame that the upscaler has failed on is not upscaled again.
pub proof fn lemma_failed_frame_is_not_upscaled_again(
    renderer: WgpuRenderer,
    video: UploadedVideoFrame,
    viewport: PresentationRect,
    status: LumaUpscalerBackendStatus,
)
    requires
        renderer.upscaler_failed_frame_token == Some(video.frame_token),
    ensures
        !renderer.upscales(video, viewport, status),
{
}

/// What is to be drawn on the surface.
#[derive(Debug, Clone, Copy)]
pub enum RenderDecision<'a> {
    /// There is no frame, or nothing to show it on.
    NothingToShow,
    /// A surface frame is to be acquired and drawn on.
    Draw { danmaku: Option<&'a DanmakuRenderPlan>, overlays: bool },
}

/// The comments that are drawn over a frame of a context.
pub open spec fn fitting_danmaku<'a>(
    context: RenderFrameContext<'a>,
    width: Option<u32>,
    height: Option<u32>,
) -> Option<&'a DanmakuRenderPlan> {
    match context.danmaku {
        Some(plan) if plan_fits(plan@, context.generation, width, height) => Some(plan),
        _ => None,
    }
}

fn filter_danmaku<'a>(
    context: RenderFrameContext<'a>,
    width: Option<u32>,
    height: Option<u32>,
) -> (danmaku: Option<&'a DanmakuRenderPlan>)
    ensures
        danmaku == fitting_danmaku(context, width, height),
{
    match context.danmaku {
        Some(plan) => {
            if plan.fits(context.generation, width, height) {
                Some(plan)
            } else {
                None
            }
        },
        None => None,
    }
}

/// A side of the output where it is known.
pub open spec fn known_side(side: u32) -> Option<u32> {
    if side == 0 {
        None
    } else {
        Some(side)
    }
}

/// Whether anything is drawn over a frame.
pub open spec fn has_overlays(
    context: RenderFrameContext<'_>,
    danmaku: Option<&DanmakuRenderPlan>,
) -> bool {
    ||| (context.overlay matches Some(overlay) && (overlay.subtitle_planes@.len() > 0
        || overlay.subtitle_alpha_planes@.len() > 0))
    ||| (danmaku matches Some(plan) && plan.items@.len() > 0)
}

fn needs_overlay_pipeline(
    context: RenderFrameContext<'_>,
    danmaku: Option<&DanmakuRenderPlan>,
) -> (needed: bool)
    ensures
        needed == has_overlays(context, danmaku),
{
    let planes: bool = match context.overlay {
        Some(overlay) => overlay_has_planes(overlay),
        None => false,
    };
    let comments: bool = match danmaku {
        Some(plan) => !plan.is_empty(),
        None => false,
    };
    planes || comments
}

/// The sides of the target that a test frame is drawn on without a surface.
pub const TEST_FRAME_SIDE: u32 = 16;

/// Where a test frame goes.
#[derive(Debug, Clone, Copy, PartialEq, Eq, Structural)]
pub enum TestFrameTarget {
    Surface,
    Offscreen { width: u32, height: u32 },
}

/// Why a frame is not captured.
#[derive(Debug, Clone, Copy, PartialEq, Eq, Structural)]
pub enum CaptureError {
    ZeroSize,
}

/// The counters once a frame was drawn.
pub open spec fn drawn_stats(
    stats: WgpuRendererStats,
    danmaku_draws: u64,
    offscreen: bool,
) -> WgpuRendererStats {
    WgpuRendererStats {
        rendered_frames: (stats.rendered_frames + 1) as u64,
        offscreen_frames: if offscreen {
            (stats.offscreen_frames + 1) as u64
        } else {
            stats.offscreen_frames
        },
        danmaku_passes: if danmaku_draws > 0 {
            (stats.danmaku_passes + 1) as u64
        } else {
            stats.danmaku_passes
        },
        danmaku_items: (stats.danmaku_items + danmaku_draws) as u64,
        ..stats
    }
}

impl WgpuRenderer {
    /// Whether there is a frame to show.
    pub open spec fn has_frame(self) -> bool {
        self.current_video_visible && self.current_video is Some
    }

    /// Decides what is drawn on the surface. Comments that were made for
    /// another generation or size are left out.
    pub fn plan_render<'a>(&self, context: RenderFrameContext<'a>) -> (decision: RenderDecision<'a>)
        ensures
            decision == if self.has_frame() && self.surface is Some {
                let danmaku = fitting_danmaku(
                    context,
                    known_side(context.output_width),
                    known_side(context.output_height),
                );
                RenderDecision::Draw { danmaku, overlays: has_overlays(context, danmaku) }
            } else {
                RenderDecision::NothingToShow
            },
    {
        if !self.current_video_visible || self.current_video.is_none() || self.surface.is_none() {
            return RenderDecision::NothingToShow;
        }
        let width: Option<u32> = if context.output_width == 0 {
            None
        } else {
            Some(context.output_width)
        };
        let height: Option<u32> = if context.output_height == 0 {
            None
        } else {
            Some(context.output_height)
        };
        let danmaku: Option<&'a DanmakuRenderPlan> = filter_danmaku(context, width, height);
        let overlays: bool = needs_overlay_pipeline(context, danmaku);
        RenderDecision::Draw { danmaku, overlays }
    }

    /// Decides what is captured. Comments have to be made for exactly the
    /// captured size; a capture without a frame is nothing.
    pub fn plan_capture<'a>(
        &self,
        context: RenderFrameContext<'a>,
        width: u32,
        height: u32,
    ) -> (decision: Result<RenderDecision<'a>, CaptureError>)
        ensures
            decision == if !self.has_frame() {
                Ok::<RenderDecision<'a>, CaptureError>(RenderDecision::NothingToShow)
            } else if width == 0 || height == 0 {
                Err::<RenderDecision<'a>, CaptureError>(CaptureError::ZeroSize)
            } else {
                let danmaku = fitting_danmaku(context, Some(width), Some(height));
                Ok::<RenderDecision<'a>, CaptureError>(
                    RenderDecision::Draw { danmaku, overlays: has_overlays(context, danmaku) },
                )
            },
    {
        if !self.current_video_visible || self.current_video.is_none() {
            return Ok(RenderDecision::NothingToShow);
        }
        if width == 0 || height == 0 {
            return Err(CaptureError::ZeroSize);
        }
        let danmaku: Option<&'a DanmakuRenderPlan> = filter_danmaku(
            context,
            Some(width),
            Some(height),
        );
        let overlays: bool = needs_overlay_pipeline(context, danmaku);
        Ok(RenderDecision::Draw { danmaku, overlays })
    }

    /// A frame was presented on the surface.
    pub fn frame_presented(&mut self, extended_linear: bool, danmaku_draws: u64)
        requires
            old(self).stats.has_room(),
            old(self).stats.danmaku_items + danmaku_draws <= u64::MAX,
        ensures
            *final(self) == (WgpuRenderer {
                stats: drawn_stats(old(self).stats, danmaku_draws, false),
                output_status: if extended_linear {
                    OutputRuntimeStatus {
                        extended_linear_frames: sum_capped(
                            old(self).output_status.extended_linear_frames,
                            1,
                        ),
                        ..old(self).output_status
                    }
                } else {
                    old(self).output_status
                },
                ..*old(self)
            }),
    {
        self.stats.rendered_frames = self.stats.rendered_frames + 1;
        if extended_linear {
            self.output_status.extended_linear_frames =
            self.output_status.extended_linear_frames.saturating_add(1);
        }
        if danmaku_draws > 0 {
            self.stats.danmaku_passes = self.stats.danmaku_passes + 1;
            self.stats.danmaku_items = self.stats.danmaku_items + danmaku_draws;
        }
    }

    /// A frame was drawn on a target without a surface.
    pub fn frame_captured(&mut self, danmaku_draws: u64)
        requires
            old(self).stats.has_room(),
            old(self).stats.danmaku_items + danmaku_draws <= u64::MAX,
        ensures
            *final(self) == (WgpuRenderer {
                stats: drawn_stats(old(self).stats, danmaku_draws, true),
                ..*old(self)
            }),
    {
        self.stats.rendered_frames = self.stats.rendered_frames + 1;
        self.stats.offscreen_frames = self.stats.offscreen_frames + 1;
        if danmaku_draws > 0 {
            self.stats.danmaku_passes = self.stats.danmaku_passes + 1;
            self.stats.danmaku_items = self.stats.danmaku_items + danmaku_draws;
        }
    }

    /// Decides what is drawn on a target of the frame's own size. Whether the
    /// frame is shown on a surface does not matter.
    pub fn render_current_offscreen(&self) -> (plan: Result<Option<(u32, u32)>, CaptureError>)
        ensures
            plan == match self.current_video {
                None => Ok::<Option<(u32, u32)>, CaptureError>(None),
                Some(video) => if video.width == 0 || video.height == 0 {
                    Err::<Option<(u32, u32)>, CaptureError>(CaptureError::ZeroSize)
                } else {
                    Ok::<Option<(u32, u32)>, CaptureError>(Some((video.width, video.height)))
                },
            },
    {
        match self.current_video {
            None => Ok(None),
            Some(video) => {
                if video.width == 0 || video.height == 0 {
                    return Err(CaptureError::ZeroSize);
                }
                Ok(Some((video.width, video.height)))
            },
        }
    }

    /// Whether a target of this size can be cleared.
    pub fn clear_offscreen(&self, width: u32, height: u32) -> (plan: Result<(), CaptureError>)
        ensures
            plan == if width == 0 || height == 0 {
                Err::<(), CaptureError>(CaptureError::ZeroSize)
            } else {
                Ok::<(), CaptureError>(())
            },
    {
        if width == 0 || height == 0 {
            return Err(CaptureError::ZeroSize);
        }
        Ok(())
    }

    /// A target without a surface was cleared and read back.
    pub fn offscreen_cleared(&mut self)
        requires
            old(self).stats.has_room(),
        ensures
            *final(self) == (WgpuRenderer {
                stats: WgpuRendererStats {
                    offscreen_frames: (old(self).stats.offscreen_frames + 1) as u64,
                    ..old(self).stats
                },
                ..*old(self)
            }),
    {
        self.stats.offscreen_frames = self.stats.offscreen_frames + 1;
    }

    /// Where a test frame goes: to the surface, or else to a small target
    /// without one.
    pub fn render_test_frame(&self) -> (target: TestFrameTarget)
        ensures
            target == if self.surface is Some {
                TestFrameTarget::Surface
            } else {
                TestFrameTarget::Offscreen { width: TEST_FRAME_SIDE, height: TEST_FRAME_SIDE }
            },
            self.surface is None ==> target == (TestFrameTarget::Offscreen {
                width: 16,
                height: 16,
            }),
    {
        if self.surface.is_some() {
            TestFrameTarget::Surface
        } else {
            TestFrameTarget::Offscreen { width: TEST_FRAME_SIDE, height: TEST_FRAME_SIDE }
        }
    }

    /// A single colour was shown: the cleared surface was presented, or a test
    /// frame was drawn.
    pub fn clear_presented(&mut self)
        requires
            old(self).stats.has_room(),
        ensures
            *final(self) == (WgpuRenderer {
                stats: WgpuRendererStats {
                    rendered_frames: (old(self).stats.rendered_frames + 1) as u64,
                    ..old(self).stats
                },
                ..*old(self)
            }),
    {
        self.stats.rendered_frames = self.stats.rendered_frames + 1;
    }

    /// The decoder is about to be reopened. The frame lives in textures of the
    /// renderer, so it stays visible and can be captured.
    pub fn preserve_current_frame_for_transition(&mut self)
        ensures
            *final(self) == *old(self),
    {
    }

    /// Another track is about to be selected; the frame stays as above.
    pub fn preserve_current_frame_for_track_transition(&mut self)
        ensures
            *final(self) == *old(self),
    {
    }

    /// The current frame is dropped. Answers whether the surface is to be
    /// cleared.
    pub fn clear_current_frame(&mut self) -> (clear_surface: bool)
        ensures
            clear_surface == (old(self).surface is Some),
            *final(self) == (WgpuRenderer {
                current_video: None,
                current_video_visible: false,
                ..*old(self)
            }),
            !final(self).has_frame(),
    {
        self.current_video_visible = false;
        self.current_video = None;
        self.surface.is_some()
    }
}

/// Records of one size, laid out so that each begins at a multiple of the
/// device's alignment.
#[derive(Debug)]
pub struct UniformBatch {
    pub stride: usize,
    pub bytes: Vec<u8>,
    /// Where each record begins.
    pub offsets: Vec<u32>,
}

/// Why records cannot be laid out.
#[derive(Debug, Clone, Copy, PartialEq, Eq, Structural)]
pub enum UniformBatchError {
    /// The buffer would be larger than memory.
    SizeOverflow,
    /// A record would begin beyond what an offset can say.
    OffsetOverflow { offset: usize },
}

/// The byte at an index of a batch: a record's, or padding.
pub open spec fn batch_byte(records: Seq<Vec<u8>>, size: int, stride: int, index: int) -> u8 {
    if index % stride < size {
        records[index / stride]@[index % stride]
    } else {
        0
    }
}

/// Lays out records of `size` bytes, each beginning at a multiple of
/// `alignment`, with zeros between them.
pub fn batch_uniforms(records: &Vec<Vec<u8>>, size: usize, alignment: u32) -> (batch: Result<
    UniformBatch,
    UniformBatchError,
>)
    requires
        size > 0,
        size + alignment <= usize::MAX,
        forall|i: int| 0 <= i < records@.len() ==> (#[trigger] records@[i])@.len() == size,
    ensures
        ({
            let step = if alignment == 0 {
                1
            } else {
                alignment as int
            };
            let stride = aligned(size as int, step);
            let count = records@.len();
            match batch {
                Err(UniformBatchError::SizeOverflow) => stride * count > usize::MAX,
                Err(UniformBatchError::OffsetOverflow { offset }) => {
                    &&& stride * count <= usize::MAX
                    &&& offset > u32::MAX
                    &&& offset as int % stride == 0
                    &&& offset as int / stride < count
                    &&& offset - stride <= u32::MAX
                },
                Ok(batch) => {
                    &&& batch.stride == stride
                    &&& batch.bytes@ == Seq::new(
                        (stride * count) as nat,
                        |k: int| batch_byte(records@, size as int, stride, k),
                    )
                    &&& batch.offsets@.len() == count
                    &&& forall|i: int|
                        0 <= i < count ==> #[trigger] batch.offsets@[i] == i * stride
                },
            }
        }),
{
    let step: usize = if alignment == 0 {
        1
    } else {
        alignment as usize
    };
    proof {
        lemma_aligned(size as int, step as int);
        lemma_fundamental_div_mod((size + step - 1) as int, step as int);
    }
    let stride: usize = ((size + (step - 1)) / step) * step;
    let count: usize = records.len();
    let total: usize = match stride.checked_mul(count) {
        Some(total) => total,
        None => {
            return Err(UniformBatchError::SizeOverflow);
        },
    };
    let mut bytes: Vec<u8> = vec![0u8; total];
    let mut record: usize = 0;
    let mut start: usize = 0;
    proof {
        assert(stride * count == count * stride) by (nonlinear_arith);
        assert(0 * stride == 0) by (nonlinear_arith);
        assert forall|k: int| 0 <= k < total implies #[trigger] bytes@[k] == if k / (stride as int)
            < 0 {
            batch_byte(records@, size as int, stride as int, k)
        } else {
            0
        } by {
            lemma_place(k, stride as int, count as int);
        }
    }
    while record < count
        invariant
            0 < size <= stride,
            count == records@.len(),
            total == count * stride,
            record <= count,
            start == record * stride,
            bytes@.len() == total,
            forall|i: int| 0 <= i < records@.len() ==> (#[trigger] records@[i])@.len() == size,
            forall|k: int|
                0 <= k < total ==> #[trigger] bytes@[k] == if k / (stride as int) < record {
                    batch_byte(records@, size as int, stride as int, k)
                } else {
                    0
                },
        decreases count - record,
    {
        proof {
            lemma_mul_is_distributive_add_other_way(stride as int, record as int, 1);
            lemma_mul_inequality((record + 1) as int, count as int, stride as int);
        }
        let source: &Vec<u8> = &records[record];
        let mut column: usize = 0;
        while column < size
            invariant
                0 < size <= stride,
                count == records@.len(),
                total == count * stride,
                record < count,
                start == record * stride,
                start + stride <= total,
                bytes@.len() == total,
                source@ == records@[record as int]@,
                source@.len() == size,
                column <= size,
                forall|k: int|
                    0 <= k < total ==> #[trigger] bytes@[k] == if k / (stride as int) < record || (k
                        / (stride as int) == record && k % (stride as int) < column) {
                        batch_byte(records@, size as int, stride as int, k)
                    } else {
                        0
                    },
            decreases size - column,
        {
            let ghost before = bytes@;
            let at: usize = start + column;
            bytes.set(at, source[column]);
            proof {
                lemma_fundamental_div_mod_converse(
                    at as int,
                    stride as int,
                    record as int,
                    column as int,
                );
                assert forall|k: int| 0 <= k < total implies #[trigger] bytes@[k] == if k / (
                stride as int) < record || (k / (stride as int) == record && k % (stride as int)
                    < column + 1) {
                    batch_byte(records@, size as int, stride as int, k)
                } else {
                    0
                } by {
                    lemma_place(k, stride as int, count as int);
                    if k != at {
                        assert(bytes@[k] == before[k]);
                    }
                }
            }
            column = column + 1;
        }
        proof {
            assert forall|k: int| 0 <= k < total implies #[trigger] bytes@[k] == if k / (
            stride as int) < record + 1 {
                batch_byte(records@, size as int, stride as int, k)
            } else {
                0
            } by {
                lemma_place(k, stride as int, count as int);
            }
        }
        record = record + 1;
        start = start + stride;
    }
    assert(bytes@ =~= Seq::new(
        (stride * count) as nat,
        |k: int| batch_byte(records@, size as int, stride as int, k),
    )) by {
        assert forall|k: int| 0 <= k < total implies #[trigger] bytes@[k] == batch_byte(
            records@,
            size as int,
            stride as int,
            k,
        ) by {
            lemma_place(k, stride as int, count as int);
        }
    }
    let mut offsets: Vec<u32> = Vec::new();
    let mut index: usize = 0;
    let mut offset: usize = 0;
    while index < count
        invariant
            0 < size <= stride,
            total == count * stride,
            total == stride * count,
            index <= count,
            count == records@.len(),
            offset == index * stride,
            stride == aligned(size as int, step as int),
            step == if alignment == 0 {
                1
            } else {
                alignment as int
            },
            offsets@.len() == index,
            forall|i: int| 0 <= i < index ==> #[trigger] offsets@[i] == i * stride,
            index > 0 ==> (index - 1) * stride <= u32::MAX,
        decreases count - index,
    {
        if offset > u32::MAX as usize {
            proof {
                lemma_fundamental_div_mod_converse(offset as int, stride as int, index as int, 0);
                lemma_mul_is_distributive_add_other_way(stride as int, (index - 1) as int, 1);
            }
            return Err(UniformBatchError::OffsetOverflow { offset });
        }
        proof {
            lemma_mul_is_distributive_add_other_way(stride as int, index as int, 1);
            lemma_mul_inequality((index + 1) as int, count as int, stride as int);
        }
        offsets.push(offset as u32);
        index = index + 1;
        offset = offset + stride;
    }
    Ok(UniformBatch { stride, bytes, offsets })
}

/// An index of a batch is in one of its records or the padding behind it.
proof fn lemma_place(index: int, stride: int, count: int)
    requires
        0 <= index < count * stride,
        stride > 0,
    ensures
        0 <= index / stride < count,
        0 <= index % stride < stride,
        index == (index / stride) * stride + index % stride,
{
    lemma_fundamental_div_mod(index, stride);
    assert((index / stride) * stride == stride * (index / stride)) by (nonlinear_arith);
    assert(0 <= index / stride < count) by (nonlinear_arith)
        requires
            index == stride * (index / stride) + index % stride,
            0 <= index % stride < stride,
            0 <= index < count * stride,
            stride > 0,
    ;
}

} // verus!
