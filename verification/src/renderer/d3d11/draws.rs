//! What is drawn over a frame, in the layout of the Direct3D shaders.

use crate::float::FloatBits;
use crate::renderer::d3d11::video::counted_planes;
use crate::renderer::d3d11::{D3d11Renderer, D3d11RendererStats};
use crate::renderer::danmaku::{DanmakuRenderPlan, GlyphDraw, GlyphLayer};
use crate::renderer::draws::{
    draws_glyphs, glyph_quads, overlay_addressable, prepare_overlay_draws, prepares_overlay,
    DanmakuError, OverlayDraws, OverlayError, PlaneRect,
};
use crate::renderer::output::OutputDescription;
use crate::renderer::overlay::{AlphaAtlas, OverlayFrame};
use crate::renderer::pipeline::TargetColorState;
use crate::renderer::quad::{
    is_conversion, is_division, is_sum, ui_nits, D3d11OverlayUniforms, OverlayUniforms,
};
use vstd::prelude::*;

verus! {

/// A subtitle plane that is uploaded and drawn.
#[derive(Debug, Clone, Copy)]
pub struct D3d11PlaneDraw {
    pub plane: usize,
    pub bytes_per_row: u32,
    pub constants: D3d11OverlayUniforms,
}

/// What an overlay is drawn with.
#[derive(Debug)]
pub struct D3d11OverlayDraws {
    pub planes: Vec<D3d11PlaneDraw>,
    pub atlas: Option<AlphaAtlas>,
    pub bitmaps: Vec<D3d11OverlayUniforms>,
}

/// The layers of glyphs that are drawn, with the constants of each.
#[derive(Debug)]
pub struct D3d11DanmakuDraws {
    pub layers: Vec<GlyphDraw>,
    pub constants: Vec<D3d11OverlayUniforms>,
}

/// `constants` shows `quad` on a target.
pub open spec fn shows_quad(
    constants: D3d11OverlayUniforms,
    quad: OverlayUniforms,
    target: TargetColorState,
) -> bool {
    &&& constants.rect == quad.rect
    &&& constants.tex_rect == quad.tex_rect
    &&& constants.viewport == quad.viewport
    &&& constants.overlay_mode == quad.overlay_mode
    &&& constants.reserved0 == 0
    &&& constants.color == quad.color
    &&& constants.ui_nits@ == ui_nits(target)
}

/// `constants` shows quads on a target, one for one.
pub open spec fn shows_quads(
    constants: Seq<D3d11OverlayUniforms>,
    quads: Seq<OverlayUniforms>,
    target: TargetColorState,
) -> bool {
    &&& constants.len() == quads.len()
    &&& forall|k: int|
        0 <= k < quads.len() ==> shows_quad(#[trigger] constants[k], quads[k], target)
}

/// `draws` shows on a target what `plain` is drawn with.
pub open spec fn shows_overlay(
    draws: D3d11OverlayDraws,
    plain: OverlayDraws,
    target: TargetColorState,
) -> bool {
    &&& draws.planes@.len() == plain.planes@.len()
    &&& forall|k: int|
        0 <= k < plain.planes@.len() ==> {
            &&& (#[trigger] draws.planes@[k]).plane == plain.planes@[k].plane
            &&& draws.planes@[k].bytes_per_row == plain.planes@[k].bytes_per_row
            &&& shows_quad(draws.planes@[k].constants, plain.planes@[k].uniforms, target)
        }
    &&& draws.atlas == plain.atlas
    &&& shows_quads(draws.bitmaps@, plain.bitmaps@, target)
}

/// Quads for a target, one for one.
fn quads_for_target(quads: &Vec<OverlayUniforms>, target: TargetColorState) -> (constants: Vec<
    D3d11OverlayUniforms,
>)
    ensures
        shows_quads(constants@, quads@, target),
{
    let mut constants: Vec<D3d11OverlayUniforms> = Vec::new();
    let mut k: usize = 0;
    while k < quads.len()
        invariant
            k <= quads@.len(),
            constants@.len() == k,
            forall|j: int|
                0 <= j < k ==> shows_quad(#[trigger] constants@[j], quads@[j], target),
        decreases quads@.len() - k,
    {
        constants.push(D3d11OverlayUniforms::for_target(quads[k], target));
        k = k + 1;
    }
    constants
}

/// An overlay has something that may be drawn.
pub open spec fn overlay_shown(overlay: Option<&OverlayFrame>) -> bool {
    overlay matches Some(frame) && (frame.subtitle_planes@.len() > 0
        || frame.subtitle_alpha_planes@.len() > 0)
}

/// A plan has glyphs that may be drawn.
pub open spec fn danmaku_shown(plan: Option<&DanmakuRenderPlan>) -> bool {
    plan matches Some(plan) && plan.items@.len() > 0 && plan.atlas is Some
}

/// `draws` shows the glyphs of a plan on a target, layer by layer.
pub open spec fn shows_glyphs<
    C: Fn(i64) -> FloatBits,
    A: Fn(FloatBits, FloatBits) -> FloatBits,
>(
    draws: D3d11DanmakuDraws,
    plan: DanmakuRenderPlan,
    as_float: C,
    plus: A,
    target: TargetColorState,
) -> bool {
    exists|quads: Seq<OverlayUniforms>|
        {
            &&& #[trigger] draws_glyphs(plan, false, as_float, plus, draws.layers@, quads)
            &&& shows_quads(draws.constants@, quads, target)
        }
}

impl D3d11Renderer {
    /// Counts an overlay and prepares what it is drawn with. One that cannot be
    /// drawn is counted too.
    pub fn prepare_overlay_draws<
        C: Fn(i64) -> FloatBits,
        D: Fn(u32, u32) -> FloatBits,
        R: Fn(usize) -> PlaneRect,
        L: Fn(u32) -> [u8; 4],
    >(
        &mut self,
        overlay: Option<&OverlayFrame>,
        scaled_rect: &R,
        color_of: &L,
        as_float: &C,
        divide: &D,
    ) -> (draws: Result<Option<D3d11OverlayDraws>, OverlayError>)
        requires
            old(self).stats.has_room(),
            overlay matches Some(frame) ==> {
                &&& overlay_addressable(*frame)
                &&& old(self).stats.prepared_overlay_subtitle_planes
                    + frame.subtitle_planes@.len() + frame.subtitle_alpha_planes@.len()
                    <= u64::MAX
            },
            is_conversion(*as_float),
            is_division(*divide),
            forall|plane: usize| #[trigger] scaled_rect.requires((plane,)),
            forall|color: u32| #[trigger] color_of.requires((color,)),
        ensures
            draws matches Ok(None) <==> !overlay_shown(overlay),
            !overlay_shown(overlay) ==> *final(self) == *old(self),
            overlay_shown(overlay) ==> {
                &&& *final(self) == (D3d11Renderer {
                    stats: D3d11RendererStats {
                        prepared_overlay_frames: (old(self).stats.prepared_overlay_frames
                            + 1) as u64,
                        prepared_overlay_subtitle_planes: (
                        old(self).stats.prepared_overlay_subtitle_planes
                            + counted_planes(*overlay->0)) as u64,
                        ..old(self).stats
                    },
                    ..*old(self)
                })
                &&& exists|plain: Result<OverlayDraws, OverlayError>|
                    {
                        &&& #[trigger] prepares_overlay(
                            *overlay->0,
                            false,
                            *scaled_rect,
                            *color_of,
                            *as_float,
                            *divide,
                            plain,
                        )
                        &&& match draws {
                            Ok(Some(draws)) => plain is Ok && shows_overlay(
                                draws,
                                plain->Ok_0,
                                old(self).overlay_target(),
                            ),
                            Ok(None) => false,
                            Err(error) => plain is Err && plain->Err_0 == error,
                        }
                    }
            },
    {
        if !self.prepare_overlay(overlay) {
            return Ok(None);
        }
        let frame: &OverlayFrame = match overlay {
            Some(frame) => frame,
            None => {
                return Ok(None);
            },
        };
        let target: TargetColorState = self.overlay_target_color();
        let prepared: Result<OverlayDraws, OverlayError> = prepare_overlay_draws(
            frame,
            OutputDescription::sdr(),
            scaled_rect,
            color_of,
            as_float,
            divide,
        );
        match prepared {
            Err(error) => Err(error),
            Ok(prepared) => {
                let mut planes: Vec<D3d11PlaneDraw> = Vec::new();
                let mut k: usize = 0;
                while k < prepared.planes.len()
                    invariant
                        k <= prepared.planes@.len(),
                        planes@.len() == k,
                        forall|j: int|
                            0 <= j < k ==> {
                                &&& (#[trigger] planes@[j]).plane == prepared.planes@[j].plane
                                &&& planes@[j].bytes_per_row == prepared.planes@[j].bytes_per_row
                                &&& shows_quad(
                                    planes@[j].constants,
                                    prepared.planes@[j].uniforms,
                                    target,
                                )
                            },
                    decreases prepared.planes@.len() - k,
                {
                    planes.push(
                        D3d11PlaneDraw {
                            plane: prepared.planes[k].plane,
                            bytes_per_row: prepared.planes[k].bytes_per_row,
                            constants: D3d11OverlayUniforms::for_target(
                                prepared.planes[k].uniforms,
                                target,
                            ),
                        },
                    );
                    k = k + 1;
                }
                let bitmaps: Vec<D3d11OverlayUniforms> = quads_for_target(
                    &prepared.bitmaps,
                    target,
                );
                Ok(Some(D3d11OverlayDraws { planes, atlas: prepared.atlas, bitmaps }))
            },
        }
    }

    /// Prepares what comments are drawn with. Without an atlas or without glyphs
    /// there is nothing to draw.
    pub fn prepare_danmaku_draws<
        C: Fn(i64) -> FloatBits,
        A: Fn(FloatBits, FloatBits) -> FloatBits,
    >(&self, plan: Option<&DanmakuRenderPlan>, as_float: &C, plus: &A) -> (draws: Result<
        Option<D3d11DanmakuDraws>,
        DanmakuError,
    >)
        requires
            is_conversion(*as_float),
            is_sum(*plus),
        ensures
            draws matches Ok(None) <==> !danmaku_shown(plan),
            draws matches Err(error) ==> error == DanmakuError::InvalidAtlas && danmaku_shown(plan)
                && !plan->0.atlas->0.valid(),
            draws matches Ok(Some(draws)) ==> {
                &&& danmaku_shown(plan) && plan->0.atlas->0.valid()
                &&& shows_glyphs(draws, *plan->0, *as_float, *plus, self.overlay_target())
                &&& forall|k: int|
                    0 <= k < draws.layers@.len() ==> (#[trigger] draws.constants@[k]).color == match draws.layers@[k].layer {
                        GlyphLayer::Fill => plan->0.items@[draws.layers@[k].item as int].color_rgba,
                        GlyphLayer::Outline => plan->0.items@[draws.layers@[k].item as int].outline_rgba,
                        GlyphLayer::Shadow => plan->0.items@[draws.layers@[k].item as int].shadow_rgba,
                    }
            },
    {
        let plan: &DanmakuRenderPlan = match plan {
            Some(plan) => plan,
            None => {
                return Ok(None);
            },
        };
        if plan.is_empty() {
            return Ok(None);
        }
        match &plan.atlas {
            None => {
                return Ok(None);
            },
            Some(atlas) => {
                if !atlas.is_valid() {
                    return Err(DanmakuError::InvalidAtlas);
                }
            },
        }
        let (layers, quads): (Vec<GlyphDraw>, Vec<OverlayUniforms>) = glyph_quads(
            plan,
            OutputDescription::sdr(),
            as_float,
            plus,
        );
        let constants: Vec<D3d11OverlayUniforms> = quads_for_target(
            &quads,
            self.overlay_target_color(),
        );
        let draws: D3d11DanmakuDraws = D3d11DanmakuDraws { layers, constants };
        assert(draws_glyphs(*plan, false, *as_float, *plus, draws.layers@, quads@));
        Ok(Some(draws))
    }
}

} // verus!
