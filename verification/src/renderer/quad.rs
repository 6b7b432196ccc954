//! Uniforms of the quads that overlays are drawn with.

use crate::color::TransferFunction;
use crate::float::{at_least, larger_of, FloatBits, ONE, ZERO};
use crate::renderer::danmaku::{DanmakuGlyphInstance, DanmakuViewport, GlyphLayer};
use crate::renderer::output::OutputDescription;
use crate::renderer::pipeline::{flag, TargetColorState, NITS_100};
use vstd::prelude::*;

verus! {

/// `as_float` accepts everything and depends on its argument alone.
pub open spec fn is_conversion<C: Fn(i64) -> FloatBits>(as_float: C) -> bool {
    &&& forall|value: i64| #[trigger] as_float.requires((value,))
    &&& forall|value: i64, first: FloatBits, second: FloatBits|
        #[trigger] as_float.ensures((value,), first) && #[trigger] as_float.ensures(
            (value,),
            second,
        ) ==> first == second
}

/// The number that `as_float` gives for a whole number.
pub open spec fn float_of<C: Fn(i64) -> FloatBits>(as_float: C, value: i64) -> FloatBits {
    choose|bits: FloatBits| as_float.ensures((value,), bits)
}

/// `divide` accepts a divisor that is not zero, and depends on its arguments
/// alone.
pub open spec fn is_division<D: Fn(u32, u32) -> FloatBits>(divide: D) -> bool {
    &&& forall|value: u32, by: u32| by > 0 ==> #[trigger] divide.requires((value, by))
    &&& forall|value: u32, by: u32, first: FloatBits, second: FloatBits|
        #[trigger] divide.ensures((value, by), first) && #[trigger] divide.ensures(
            (value, by),
            second,
        ) ==> first == second
}

/// The quotient that `divide` gives.
pub open spec fn quotient<D: Fn(u32, u32) -> FloatBits>(divide: D, value: u32, by: u32) -> FloatBits {
    choose|bits: FloatBits| divide.ensures((value, by), bits)
}

/// The largest value of a colour channel.
pub const CHANNEL_MAX: u32 = 255;

/// A side that is divided by.
pub open spec fn at_least_one(side: u32) -> u32 {
    if side == 0 {
        1
    } else {
        side
    }
}

fn one_or(side: u32) -> (raised: u32)
    ensures
        raised == at_least_one(side),
{
    if side == 0 {
        1
    } else {
        side
    }
}

/// The uniforms of one overlay quad.
#[derive(Debug, Clone, Copy, PartialEq, Eq)]
pub struct OverlayUniforms {
    pub rect: [FloatBits; 4],
    pub tex_rect: [FloatBits; 4],
    pub viewport: [FloatBits; 2],
    /// 0 samples straight RGBA; 1 samples coverage and tints it.
    pub overlay_mode: u32,
    /// 1 where the output is extended linear.
    pub output_encoding: u32,
    pub color: [FloatBits; 4],
}

/// Where a bitmap stands in its atlas.
#[derive(Debug, Clone, Copy, PartialEq, Eq, Structural)]
pub struct AtlasSpot {
    pub x: u32,
    pub atlas_width: u32,
    pub atlas_height: u32,
}

impl OverlayUniforms {
    /// A straight RGBA plane at a rectangle of the viewport.
    pub fn rgba_plane<C: Fn(i64) -> FloatBits>(
        x: i32,
        y: i32,
        width: u32,
        height: u32,
        viewport_width: u32,
        viewport_height: u32,
        as_float: &C,
    ) -> (uniforms: Self)
        requires
            is_conversion(*as_float),
        ensures
            uniforms.rect@ == seq![
                float_of(*as_float, x as i64),
                float_of(*as_float, y as i64),
                float_of(*as_float, width as i64),
                float_of(*as_float, height as i64),
            ],
            uniforms.tex_rect@ == seq![ZERO, ZERO, ONE, ONE],
            uniforms.viewport@ == seq![
                float_of(*as_float, at_least_one(viewport_width) as i64),
                float_of(*as_float, at_least_one(viewport_height) as i64),
            ],
            uniforms.overlay_mode == 0,
            uniforms.output_encoding == 0,
            uniforms.color@ == seq![ONE, ONE, ONE, ONE],
    {
        OverlayUniforms {
            rect: [as_float(x as i64), as_float(y as i64), as_float(width as i64), as_float(
                height as i64,
            )],
            tex_rect: [ZERO, ZERO, ONE, ONE],
            viewport: [as_float(one_or(viewport_width) as i64), as_float(
                one_or(viewport_height) as i64,
            )],
            overlay_mode: 0,
            output_encoding: 0,
            color: [ONE, ONE, ONE, ONE],
        }
    }

    /// Coverage from an atlas of bitmaps, tinted with a colour whose channels
    /// go up to 255.
    pub fn alpha_atlas<C: Fn(i64) -> FloatBits, D: Fn(u32, u32) -> FloatBits>(
        color: [u8; 4],
        x: i32,
        y: i32,
        width: u32,
        height: u32,
        spot: AtlasSpot,
        viewport_width: u32,
        viewport_height: u32,
        as_float: &C,
        divide: &D,
    ) -> (uniforms: Self)
        requires
            is_conversion(*as_float),
            is_division(*divide),
        ensures
            uniforms.rect@ == seq![
                float_of(*as_float, x as i64),
                float_of(*as_float, y as i64),
                float_of(*as_float, width as i64),
                float_of(*as_float, height as i64),
            ],
            uniforms.tex_rect@ == seq![
                quotient(*divide, spot.x, at_least_one(spot.atlas_width)),
                ZERO,
                quotient(*divide, width, at_least_one(spot.atlas_width)),
                quotient(*divide, height, at_least_one(spot.atlas_height)),
            ],
            uniforms.viewport@ == seq![
                float_of(*as_float, at_least_one(viewport_width) as i64),
                float_of(*as_float, at_least_one(viewport_height) as i64),
            ],
            uniforms.overlay_mode == 1,
            uniforms.output_encoding == 0,
            uniforms.color@ == seq![
                quotient(*divide, color@[0] as u32, CHANNEL_MAX),
                quotient(*divide, color@[1] as u32, CHANNEL_MAX),
                quotient(*divide, color@[2] as u32, CHANNEL_MAX),
                quotient(*divide, color@[3] as u32, CHANNEL_MAX),
            ],
    {
        let atlas_width: u32 = one_or(spot.atlas_width);
        let atlas_height: u32 = one_or(spot.atlas_height);
        OverlayUniforms {
            rect: [as_float(x as i64), as_float(y as i64), as_float(width as i64), as_float(
                height as i64,
            )],
            tex_rect: [
                divide(spot.x, atlas_width),
                ZERO,
                divide(width, atlas_width),
                divide(height, atlas_height),
            ],
            viewport: [as_float(one_or(viewport_width) as i64), as_float(
                one_or(viewport_height) as i64,
            )],
            overlay_mode: 1,
            output_encoding: 0,
            color: [
                divide(color[0] as u32, CHANNEL_MAX),
                divide(color[1] as u32, CHANNEL_MAX),
                divide(color[2] as u32, CHANNEL_MAX),
                divide(color[3] as u32, CHANNEL_MAX),
            ],
        }
    }

    /// Coverage from a glyph atlas, tinted with a colour.
    pub fn alpha_atlas_rect<C: Fn(i64) -> FloatBits>(
        color: [FloatBits; 4],
        rect: [FloatBits; 4],
        tex_rect: [FloatBits; 4],
        viewport_width: u32,
        viewport_height: u32,
        as_float: &C,
    ) -> (uniforms: Self)
        requires
            is_conversion(*as_float),
        ensures
            uniforms.rect == rect,
            uniforms.tex_rect == tex_rect,
            uniforms.viewport@ == seq![
                float_of(*as_float, at_least_one(viewport_width) as i64),
                float_of(*as_float, at_least_one(viewport_height) as i64),
            ],
            uniforms.overlay_mode == 1,
            uniforms.output_encoding == 0,
            uniforms.color == color,
    {
        OverlayUniforms {
            rect,
            tex_rect,
            viewport: [as_float(one_or(viewport_width) as i64), as_float(
                one_or(viewport_height) as i64,
            )],
            overlay_mode: 1,
            output_encoding: 0,
            color,
        }
    }

    /// The quad for an output.
    pub fn for_output(self, output: OutputDescription) -> (uniforms: Self)
        ensures
            uniforms == (OverlayUniforms {
                output_encoding: flag(output.extended_linear),
                ..self
            }),
    {
        let output_encoding: u32 = if output.extended_linear {
            1
        } else {
            0
        };
        OverlayUniforms { output_encoding, ..self }
    }
}

/// `plus` accepts everything and depends on its arguments alone.
pub open spec fn is_sum<A: Fn(FloatBits, FloatBits) -> FloatBits>(plus: A) -> bool {
    &&& forall|left: FloatBits, right: FloatBits| #[trigger] plus.requires((left, right))
    &&& forall|left: FloatBits, right: FloatBits, first: FloatBits, second: FloatBits|
        #[trigger] plus.ensures((left, right), first) && #[trigger] plus.ensures(
            (left, right),
            second,
        ) ==> first == second
}

/// The sum that `plus` gives.
pub open spec fn sum<A: Fn(FloatBits, FloatBits) -> FloatBits>(
    plus: A,
    left: FloatBits,
    right: FloatBits,
) -> FloatBits {
    choose|bits: FloatBits| plus.ensures((left, right), bits)
}

/// The colour of a glyph's layer.
pub open spec fn layer_color(item: DanmakuGlyphInstance, layer: GlyphLayer) -> [FloatBits; 4] {
    match layer {
        GlyphLayer::Shadow => item.shadow_rgba,
        GlyphLayer::Outline => item.outline_rgba,
        GlyphLayer::Fill => item.color_rgba,
    }
}

/// Where a glyph's layer stands: a shadow is moved by its offset.
pub open spec fn layer_rect<A: Fn(FloatBits, FloatBits) -> FloatBits>(
    item: DanmakuGlyphInstance,
    layer: GlyphLayer,
    plus: A,
) -> Seq<FloatBits> {
    if layer == GlyphLayer::Shadow {
        seq![
            sum(plus, item.rect@[0], item.shadow_offset@[0]),
            sum(plus, item.rect@[1], item.shadow_offset@[1]),
            item.rect@[2],
            item.rect@[3],
        ]
    } else {
        item.rect@
    }
}

/// The quad of a glyph's layer.
pub fn glyph_quad<C: Fn(i64) -> FloatBits, A: Fn(FloatBits, FloatBits) -> FloatBits>(
    item: &DanmakuGlyphInstance,
    layer: GlyphLayer,
    viewport: DanmakuViewport,
    as_float: &C,
    plus: &A,
) -> (uniforms: OverlayUniforms)
    requires
        is_conversion(*as_float),
        is_sum(*plus),
    ensures
        uniforms.color == layer_color(*item, layer),
        layer == GlyphLayer::Fill ==> uniforms.color == item.color_rgba,
        layer == GlyphLayer::Outline ==> uniforms.color == item.outline_rgba,
        layer == GlyphLayer::Shadow ==> uniforms.color == item.shadow_rgba,
        uniforms.rect@ == layer_rect(*item, layer, *plus),
        uniforms.tex_rect == item.tex_rect,
        uniforms.viewport@ == seq![
            float_of(*as_float, at_least_one(viewport.width) as i64),
            float_of(*as_float, at_least_one(viewport.height) as i64),
        ],
        uniforms.overlay_mode == 1,
        uniforms.output_encoding == 0,
{
    let color: [FloatBits; 4] = match layer {
        GlyphLayer::Shadow => item.shadow_rgba,
        GlyphLayer::Outline => item.outline_rgba,
        GlyphLayer::Fill => item.color_rgba,
    };
    let rect: [FloatBits; 4] = if layer == GlyphLayer::Shadow {
        [
            plus(item.rect[0], item.shadow_offset[0]),
            plus(item.rect[1], item.shadow_offset[1]),
            item.rect[2],
            item.rect[3],
        ]
    } else {
        item.rect
    };
    OverlayUniforms::alpha_atlas_rect(
        color,
        rect,
        item.tex_rect,
        viewport.width,
        viewport.height,
        as_float,
    )
}

/// The luminance of interface white, and how bright it is in the scene where
/// the scene is linear.
pub open spec fn ui_nits(target: TargetColorState) -> Seq<FloatBits> {
    if target.transfer == TransferFunction::Pq {
        let white = at_least(target.reference_white_nits, ONE);
        seq![white, white, ZERO, ZERO]
    } else {
        seq![NITS_100, ZERO, ZERO, ZERO]
    }
}

pub fn overlay_ui_nits(target: TargetColorState) -> (nits: [FloatBits; 4])
    ensures
        nits@ == ui_nits(target),
{
    if target.transfer == TransferFunction::Pq {
        let white: FloatBits = larger_of(target.reference_white_nits, ONE);
        [white, white, ZERO, ZERO]
    } else {
        [NITS_100, ZERO, ZERO, ZERO]
    }
}

/// The uniforms of one overlay quad on Direct3D.
#[derive(Debug, Clone, Copy, PartialEq, Eq)]
pub struct D3d11OverlayUniforms {
    pub rect: [FloatBits; 4],
    pub tex_rect: [FloatBits; 4],
    pub viewport: [FloatBits; 2],
    pub overlay_mode: u32,
    pub reserved0: u32,
    pub color: [FloatBits; 4],
    pub ui_nits: [FloatBits; 4],
}

impl D3d11OverlayUniforms {
    /// A quad for a target.
    pub fn for_target(quad: OverlayUniforms, target: TargetColorState) -> (uniforms: Self)
        ensures
            uniforms.rect == quad.rect,
            uniforms.tex_rect == quad.tex_rect,
            uniforms.viewport == quad.viewport,
            uniforms.overlay_mode == quad.overlay_mode,
            uniforms.reserved0 == 0,
            uniforms.color == quad.color,
            uniforms.ui_nits@ == ui_nits(target),
    {
        D3d11OverlayUniforms {
            rect: quad.rect,
            tex_rect: quad.tex_rect,
            viewport: quad.viewport,
            overlay_mode: quad.overlay_mode,
            reserved0: 0,
            color: quad.color,
            ui_nits: overlay_ui_nits(target),
        }
    }
}

} // verus!
