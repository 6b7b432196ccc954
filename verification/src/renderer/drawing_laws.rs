//! What is drawn over a frame, stated of the planes, bitmaps and glyphs that are
//! drawn.

use crate::color::TransferFunction;
use crate::float::{at_least, same_number, FloatBits};
use crate::renderer::d3d11::draws::{
    shows_glyphs, shows_overlay, shows_quads, D3d11DanmakuDraws, D3d11OverlayDraws,
};
use crate::renderer::danmaku::{
    atlas_action, glyph_layers, plan_fits, plan_layers, same_drawing, AtlasAction,
    DanmakuAtlasCache, DanmakuGlyphAtlas, DanmakuGlyphInstance, DanmakuRenderPlan,
    DanmakuViewport, GlyphDraw, GlyphLayer, PlanView,
};
use crate::renderer::draws::{
    drawn_planes, draws_bitmap, draws_glyphs, holds_bitmaps, is_bitmap_quad, is_glyph_quad,
    is_plane_quad, plane_fits, prepares_overlay, OverlayDraws, OverlayError, PlaneRect,
};
use crate::renderer::overlay::{
    atlas_height, atlas_pixel, atlas_placements, atlas_width, same_picture, AlphaAtlas,
    OverlayFrame, OverlayView, OverlayViewport, SubtitleAlphaBitmap, SubtitleBitmapPlacement,
    SubtitleBitmapPlane,
};
use crate::renderer::pipeline::TargetColorState;
use crate::renderer::quad::{
    at_least_one, float_of, is_conversion, is_division, is_sum, layer_color, layer_rect, quotient,
    sum, ui_nits, AtlasSpot, OverlayUniforms,
};
use vstd::prelude::*;

verus! {

/// Numbers are converted, divided and added by the operations that were handed in.
pub proof fn lemma_numbers_come_from_the_operations<
    C: Fn(i64) -> FloatBits,
    D: Fn(u32, u32) -> FloatBits,
    A: Fn(FloatBits, FloatBits) -> FloatBits,
>(
    as_float: C,
    divide: D,
    plus: A,
    value: i64,
    left: u32,
    right: u32,
    converted: FloatBits,
    divided: FloatBits,
    added: FloatBits,
)
    requires
        is_conversion(as_float),
        is_division(divide),
        is_sum(plus),
        as_float.ensures((value,), converted),
        divide.ensures((left, right), divided),
        plus.ensures((left, right), added),
    ensures
        float_of(as_float, value) == converted,
        quotient(divide, left, right) == divided,
        sum(plus, left, right) == added,
{
}

/// The fill of a glyph has the glyph's own colour, its outline the outline's and its
/// shadow the shadow's. The shadow is moved by its offset, across and down; the
/// others stand where the glyph does, and none changes its size or what it samples.
pub proof fn lemma_glyph_quads_have_the_glyphs_colors<
    C: Fn(i64) -> FloatBits,
    A: Fn(FloatBits, FloatBits) -> FloatBits,
>(
    plan: DanmakuRenderPlan,
    extended_linear: bool,
    as_float: C,
    plus: A,
    layers: Seq<GlyphDraw>,
    quads: Seq<OverlayUniforms>,
    k: int,
    across: FloatBits,
    down: FloatBits,
)
    requires
        draws_glyphs(plan, extended_linear, as_float, plus, layers, quads),
        is_sum(plus),
        0 <= k < layers.len(),
        ({
            let item = plan.items@[layers[k].item as int];
            &&& plus.ensures((item.rect@[0], item.shadow_offset@[0]), across)
            &&& plus.ensures((item.rect@[1], item.shadow_offset@[1]), down)
        }),
    ensures
        ({
            let item = plan.items@[layers[k].item as int];
            let layer = layers[k].layer;
            let quad = quads[k];
            &&& layer == GlyphLayer::Fill ==> quad.color == item.color_rgba
            &&& layer == GlyphLayer::Outline ==> quad.color == item.outline_rgba
            &&& layer == GlyphLayer::Shadow ==> quad.color == item.shadow_rgba
            &&& layer == GlyphLayer::Shadow ==> quad.rect@[0] == across
            &&& layer == GlyphLayer::Shadow ==> quad.rect@[1] == down
            &&& layer != GlyphLayer::Shadow ==> quad.rect@[0] == item.rect@[0]
            &&& layer != GlyphLayer::Shadow ==> quad.rect@[1] == item.rect@[1]
            &&& quad.rect@[2] == item.rect@[2]
            &&& quad.rect@[3] == item.rect@[3]
            &&& quad.tex_rect == item.tex_rect
            &&& quad.overlay_mode == 1
            &&& quad.output_encoding == if extended_linear {
                1u32
            } else {
                0u32
            }
            &&& plan.viewport.width > 0 ==> quad.viewport@[0] == float_of(
                as_float,
                plan.viewport.width as i64,
            )
            &&& plan.viewport.height > 0 ==> quad.viewport@[1] == float_of(
                as_float,
                plan.viewport.height as i64,
            )
            &&& quads.len() == layers.len()
        }),
{
}

/// Glyphs that differ in the colour of a layer are drawn differently in that layer.
pub proof fn lemma_glyph_colors_show<
    C: Fn(i64) -> FloatBits,
    A: Fn(FloatBits, FloatBits) -> FloatBits,
>(
    left: DanmakuGlyphInstance,
    right: DanmakuGlyphInstance,
    left_quad: OverlayUniforms,
    right_quad: OverlayUniforms,
    layer: GlyphLayer,
    viewport: DanmakuViewport,
    extended_linear: bool,
    as_float: C,
    plus: A,
)
    requires
        is_glyph_quad(left_quad, left, layer, viewport, extended_linear, as_float, plus),
        is_glyph_quad(right_quad, right, layer, viewport, extended_linear, as_float, plus),
    ensures
        layer == GlyphLayer::Fill && left.color_rgba != right.color_rgba ==> left_quad
            != right_quad,
        layer == GlyphLayer::Outline && left.outline_rgba != right.outline_rgba ==> left_quad
            != right_quad,
        layer == GlyphLayer::Shadow && left.shadow_rgba != right.shadow_rgba ==> left_quad
            != right_quad,
        layer == GlyphLayer::Fill && (DanmakuGlyphInstance {
            color_rgba: right.color_rgba,
            ..left
        }) == right ==> left_quad.rect@ == right_quad.rect@,
{
}

/// What a single layer of a glyph looks like: its own colour, and for the shadow alone
/// a place that is moved.
pub proof fn lemma_layers_look_like_the_glyph<A: Fn(FloatBits, FloatBits) -> FloatBits>(
    item: DanmakuGlyphInstance,
    plus: A,
    across: FloatBits,
    down: FloatBits,
)
    requires
        is_sum(plus),
        plus.ensures((item.rect@[0], item.shadow_offset@[0]), across),
        plus.ensures((item.rect@[1], item.shadow_offset@[1]), down),
    ensures
        layer_color(item, GlyphLayer::Fill) == item.color_rgba,
        layer_color(item, GlyphLayer::Outline) == item.outline_rgba,
        layer_color(item, GlyphLayer::Shadow) == item.shadow_rgba,
        layer_rect(item, GlyphLayer::Fill, plus) == item.rect@,
        layer_rect(item, GlyphLayer::Outline, plus) == item.rect@,
        layer_rect(item, GlyphLayer::Shadow, plus) == seq![
            across,
            down,
            item.rect@[2],
            item.rect@[3],
        ],
{
}

/// A glyph is filled last, above its outline, which is above its shadow. The outline
/// and the shadow are drawn where their alpha is above zero, and only there.
pub proof fn lemma_glyph_layers_from_the_shadow_up(item: DanmakuGlyphInstance)
    ensures
        ({
            let layers = glyph_layers(item);
            let shadow = 0 < item.shadow_rgba@[3] <= 0x7f80_0000;
            let outline = 0 < item.outline_rgba@[3] <= 0x7f80_0000;
            &&& shadow && outline ==> layers == seq![
                GlyphLayer::Shadow,
                GlyphLayer::Outline,
                GlyphLayer::Fill,
            ]
            &&& shadow && !outline ==> layers == seq![GlyphLayer::Shadow, GlyphLayer::Fill]
            &&& !shadow && outline ==> layers == seq![GlyphLayer::Outline, GlyphLayer::Fill]
            &&& !shadow && !outline ==> layers == seq![GlyphLayer::Fill]
        }),
{
}

/// Glyphs are drawn in the order of the plan, each with all of its layers before the
/// next: the layers of a longer plan are those of the shorter, then those of the
/// glyph that was added.
pub proof fn lemma_glyphs_are_drawn_in_order(
    items: Seq<DanmakuGlyphInstance>,
    item: DanmakuGlyphInstance,
)
    requires
        items.len() < usize::MAX,
    ensures
        ({
            let before = plan_layers(items);
            let added = glyph_layers(item);
            let after = plan_layers(items.push(item));
            &&& after.len() == before.len() + added.len()
            &&& after.take(before.len() as int) == before
            &&& forall|k: int|
                0 <= k < added.len() ==> (#[trigger] added[k]) == after[before.len() + k].layer
                    && after[before.len() + k].item == items.len()
        }),
        plan_layers(Seq::empty()).len() == 0,
{
    assert(items.push(item).drop_last() =~= items);
    let before = plan_layers(items);
    let after = plan_layers(items.push(item));
    assert(after.take(before.len() as int) =~= before);
}

/// On Direct3D too the fill has the glyph's own colour, the outline the outline's and
/// the shadow the shadow's, at the glyph's place, beside the brightness of white.
pub proof fn lemma_d3d11_glyphs_have_the_glyphs_colors<
    C: Fn(i64) -> FloatBits,
    A: Fn(FloatBits, FloatBits) -> FloatBits,
>(
    draws: D3d11DanmakuDraws,
    plan: DanmakuRenderPlan,
    as_float: C,
    plus: A,
    target: TargetColorState,
    k: int,
)
    requires
        shows_glyphs(draws, plan, as_float, plus, target),
        0 <= k < draws.layers@.len(),
    ensures
        ({
            let item = plan.items@[draws.layers@[k].item as int];
            let layer = draws.layers@[k].layer;
            let constants = draws.constants@[k];
            &&& layer == GlyphLayer::Fill ==> constants.color == item.color_rgba
            &&& layer == GlyphLayer::Outline ==> constants.color == item.outline_rgba
            &&& layer == GlyphLayer::Shadow ==> constants.color == item.shadow_rgba
            &&& layer != GlyphLayer::Shadow ==> constants.rect@ == item.rect@
            &&& constants.tex_rect == item.tex_rect
            &&& constants.overlay_mode == 1
            &&& constants.ui_nits@ == ui_nits(target)
            &&& draws.constants@.len() == draws.layers@.len()
        }),
{
    let quads = choose|quads: Seq<OverlayUniforms>|
        {
            &&& #[trigger] draws_glyphs(plan, false, as_float, plus, draws.layers@, quads)
            &&& shows_quads(draws.constants@, quads, target)
        };
    assert(is_glyph_quad(
        quads[k],
        plan.items@[draws.layers@[k].item as int],
        draws.layers@[k].layer,
        plan.viewport,
        false,
        as_float,
        plus,
    ));
}

/// Interface white is as bright as the target's white where the target is PQ, one nit
/// at least, and the scene that it is drawn over is linear there; otherwise white is
/// 100 nits and the scene is not.
pub proof fn lemma_interface_white_is_the_targets(target: TargetColorState)
    ensures
        target.transfer == TransferFunction::Pq ==> ui_nits(target)[0] == at_least(
            target.reference_white_nits,
            0x3f80_0000,
        ) && ui_nits(target)[1] == ui_nits(target)[0],
        target.transfer != TransferFunction::Pq ==> ui_nits(target)[0] == 0x42c8_0000 && ui_nits(
            target,
        )[1] == 0,
        ui_nits(target)[2] == 0,
        ui_nits(target)[3] == 0,
        ui_nits(target).len() == 4,
{
}

/// A subtitle plane is drawn at its place on the viewport, whole, and untinted: its
/// texture from corner to corner, its colours times one.
pub proof fn lemma_planes_are_drawn_whole<C: Fn(i64) -> FloatBits>(
    quad: OverlayUniforms,
    rect: PlaneRect,
    viewport: OverlayViewport,
    extended_linear: bool,
    as_float: C,
)
    requires
        is_plane_quad(quad, rect, viewport, extended_linear, as_float),
        viewport.width > 0,
        viewport.height > 0,
    ensures
        quad.rect@[0] == float_of(as_float, rect.x as i64),
        quad.rect@[1] == float_of(as_float, rect.y as i64),
        quad.rect@[2] == float_of(as_float, rect.width as i64),
        quad.rect@[3] == float_of(as_float, rect.height as i64),
        quad.tex_rect@[0] == 0 && quad.tex_rect@[1] == 0,
        quad.tex_rect@[2] == 0x3f80_0000 && quad.tex_rect@[3] == 0x3f80_0000,
        quad.viewport@[0] == float_of(as_float, viewport.width as i64),
        quad.viewport@[1] == float_of(as_float, viewport.height as i64),
        quad.overlay_mode == 0,
        quad.output_encoding == if extended_linear {
            1u32
        } else {
            0u32
        },
        forall|i: int| 0 <= i < 4 ==> #[trigger] quad.color@[i] == 0x3f80_0000,
{
}

/// An alpha bitmap is drawn at its place in its own size, from its own columns of the
/// atlas and from the atlas's top row, tinted with its colour, whose channels go up
/// to 255.
pub proof fn lemma_bitmaps_are_drawn_from_their_columns<
    C: Fn(i64) -> FloatBits,
    D: Fn(u32, u32) -> FloatBits,
>(
    quad: OverlayUniforms,
    color: [u8; 4],
    placement: SubtitleBitmapPlacement,
    spot: AtlasSpot,
    viewport: OverlayViewport,
    extended_linear: bool,
    as_float: C,
    divide: D,
)
    requires
        is_bitmap_quad(
            quad,
            color,
            placement,
            spot,
            viewport,
            extended_linear,
            as_float,
            divide,
        ),
        viewport.width > 0,
        viewport.height > 0,
        spot.atlas_width > 0,
        spot.atlas_height > 0,
    ensures
        quad.rect@[0] == float_of(as_float, placement.x as i64),
        quad.rect@[1] == float_of(as_float, placement.y as i64),
        quad.rect@[2] == float_of(as_float, placement.width as i64),
        quad.rect@[3] == float_of(as_float, placement.height as i64),
        quad.tex_rect@[0] == quotient(divide, spot.x, spot.atlas_width),
        quad.tex_rect@[1] == 0,
        quad.tex_rect@[2] == quotient(divide, placement.width, spot.atlas_width),
        quad.tex_rect@[3] == quotient(divide, placement.height, spot.atlas_height),
        quad.viewport@[0] == float_of(as_float, viewport.width as i64),
        quad.viewport@[1] == float_of(as_float, viewport.height as i64),
        quad.overlay_mode == 1,
        quad.output_encoding == if extended_linear {
            1u32
        } else {
            0u32
        },
        forall|i: int|
            0 <= i < 4 ==> #[trigger] quad.color@[i] == quotient(divide, color@[i] as u32, 255),
{
    assert forall|i: int| 0 <= i < 4 implies #[trigger] quad.color@[i] == quotient(
        divide,
        color@[i] as u32,
        255,
    ) by {
        assert(i == 0 || i == 1 || i == 2 || i == 3);
    }
}

/// The planes that are drawn are those that have an area, in their order, each once.
pub proof fn lemma_planes_with_an_area_are_drawn(planes: Seq<SubtitleBitmapPlane>)
    requires
        planes.len() <= usize::MAX,
    ensures
        ({
            let drawn = drawn_planes(planes);
            &&& forall|k: int|
                0 <= k < drawn.len() ==> (#[trigger] drawn[k]) < planes.len()
                    && planes[drawn[k] as int].width > 0 && planes[drawn[k] as int].height > 0
            &&& forall|j: int, k: int| 0 <= j < k < drawn.len() ==> drawn[j] < drawn[k]
            &&& forall|i: int|
                0 <= i < planes.len() && (#[trigger] planes[i]).width > 0 && planes[i].height > 0
                    ==> drawn.contains(i as usize)
        }),
    decreases planes.len(),
{
    if planes.len() > 0 {
        let fewer = planes.drop_last();
        lemma_planes_with_an_area_are_drawn(fewer);
        let before = drawn_planes(fewer);
        let drawn = drawn_planes(planes);
        let last = planes.len() - 1;
        assert forall|k: int| 0 <= k < drawn.len() implies (#[trigger] drawn[k]) < planes.len()
            && planes[drawn[k] as int].width > 0 && planes[drawn[k] as int].height > 0 by {
            if k < before.len() {
                assert(drawn[k] == before[k]);
                assert(fewer[before[k] as int] == planes[before[k] as int]);
            }
        }
        assert forall|j: int, k: int| 0 <= j < k < drawn.len() implies drawn[j] < drawn[k] by {
            assert(drawn[j] == before[j]);
            assert(before[j] < fewer.len());
            if k < before.len() {
                assert(drawn[k] == before[k]);
            }
        }
        assert forall|i: int|
            0 <= i < planes.len() && (#[trigger] planes[i]).width > 0 && planes[i].height
                > 0 implies drawn.contains(i as usize) by {
            if i < last {
                assert(fewer[i] == planes[i]);
                assert(before.contains(i as usize));
                let k = choose|k: int| 0 <= k < before.len() && before[k] == i as usize;
                assert(drawn[k] == i as usize);
            } else {
                assert(drawn[drawn.len() - 1] == i as usize);
            }
        }
    }
}

/// An overlay is drawn only where every plane has four bytes for each of its pixels.
/// What is drawn are the planes that have an area, with rows of four bytes a pixel,
/// and the bitmaps of the atlas, each where it was placed.
pub proof fn lemma_overlay_draws_what_it_holds<
    C: Fn(i64) -> FloatBits,
    D: Fn(u32, u32) -> FloatBits,
    R: Fn(usize) -> PlaneRect,
    L: Fn(u32) -> [u8; 4],
>(
    frame: OverlayFrame,
    extended_linear: bool,
    scaled_rect: R,
    color_of: L,
    as_float: C,
    divide: D,
    draws: OverlayDraws,
    k: int,
)
    requires
        prepares_overlay(
            frame,
            extended_linear,
            scaled_rect,
            color_of,
            as_float,
            divide,
            Ok::<OverlayDraws, OverlayError>(draws),
        ),
    ensures
        forall|i: int|
            0 <= i < frame.subtitle_planes@.len() ==> {
                let plane = #[trigger] frame.subtitle_planes@[i];
                plane.width == 0 || plane.height == 0 || plane.rgba@.len() == plane.width
                    * plane.height * 4
            },
        draws.planes@.len() == drawn_planes(frame.subtitle_planes@).len(),
        0 <= k < draws.planes@.len() ==> {
            let plane = drawn_planes(frame.subtitle_planes@)[k];
            &&& draws.planes@[k].plane == plane
            &&& draws.planes@[k].bytes_per_row == 4 * frame.subtitle_planes@[plane as int].width
            &&& exists|rect: PlaneRect|
                {
                    &&& #[trigger] scaled_rect.ensures((plane,), rect)
                    &&& is_plane_quad(
                        draws.planes@[k].uniforms,
                        rect,
                        frame.viewport,
                        extended_linear,
                        as_float,
                    )
                }
        },
        draws.atlas is None ==> draws.bitmaps@.len() == 0,
        draws.atlas matches Some(atlas) ==> atlas.placements@ == atlas_placements(
            frame.subtitle_alpha_planes@,
        ) && draws.bitmaps@.len() == atlas.placements@.len(),
        draws.atlas is Some && 0 <= k < draws.bitmaps@.len() ==> {
            let place = draws.atlas->0.placements@[k];
            let bitmap = frame.subtitle_alpha_planes@[place.index as int];
            exists|color: [u8; 4]|
                {
                    &&& #[trigger] color_of.ensures((bitmap.color_rgba,), color)
                    &&& is_bitmap_quad(
                        draws.bitmaps@[k],
                        color,
                        bitmap.placement,
                        AtlasSpot {
                            x: place.atlas_x as u32,
                            atlas_width: draws.atlas->0.width as u32,
                            atlas_height: draws.atlas->0.height as u32,
                        },
                        frame.viewport,
                        extended_linear,
                        as_float,
                        divide,
                    )
                }
        },
{
    assert forall|i: int| 0 <= i < frame.subtitle_planes@.len() implies {
        let plane = #[trigger] frame.subtitle_planes@[i];
        plane.width == 0 || plane.height == 0 || plane.rgba@.len() == plane.width * plane.height
            * 4
    } by {
        assert(plane_fits(frame.subtitle_planes@[i]));
    }
    if draws.atlas is Some && 0 <= k < draws.bitmaps@.len() {
        let atlas = draws.atlas->0;
        assert(draws_bitmap(
            draws.bitmaps@[k],
            frame,
            atlas.placements@[k],
            extended_linear,
            color_of,
            as_float,
            divide,
        ));
        assert(atlas.width as u32 == atlas_width(frame.subtitle_alpha_planes@) as u32);
        assert(atlas.height as u32 == atlas_height(frame.subtitle_alpha_planes@) as u32);
    }
}

/// On Direct3D an overlay is drawn from the same atlas, with the same planes and
/// quads: each at its place, in its mode and colour.
pub proof fn lemma_d3d11_overlay_draws_the_same(
    draws: D3d11OverlayDraws,
    plain: OverlayDraws,
    target: TargetColorState,
    k: int,
)
    requires
        shows_overlay(draws, plain, target),
    ensures
        draws.atlas == plain.atlas,
        draws.planes@.len() == plain.planes@.len(),
        draws.bitmaps@.len() == plain.bitmaps@.len(),
        0 <= k < plain.planes@.len() ==> ({
            let drawn = draws.planes@[k];
            &&& drawn.plane == plain.planes@[k].plane
            &&& drawn.bytes_per_row == plain.planes@[k].bytes_per_row
            &&& drawn.constants.rect == plain.planes@[k].uniforms.rect
            &&& drawn.constants.tex_rect == plain.planes@[k].uniforms.tex_rect
            &&& drawn.constants.viewport == plain.planes@[k].uniforms.viewport
            &&& drawn.constants.overlay_mode == plain.planes@[k].uniforms.overlay_mode
            &&& drawn.constants.color == plain.planes@[k].uniforms.color
            &&& drawn.constants.ui_nits@ == ui_nits(target)
        }),
        0 <= k < plain.bitmaps@.len() ==> ({
            let drawn = draws.bitmaps@[k];
            &&& drawn.rect == plain.bitmaps@[k].rect
            &&& drawn.tex_rect == plain.bitmaps@[k].tex_rect
            &&& drawn.viewport == plain.bitmaps@[k].viewport
            &&& drawn.overlay_mode == plain.bitmaps@[k].overlay_mode
            &&& drawn.color == plain.bitmaps@[k].color
            &&& drawn.ui_nits@ == ui_nits(target)
        }),
{
    if 0 <= k < plain.bitmaps@.len() {
        assert(draws.bitmaps@[k].rect == plain.bitmaps@[k].rect);
    }
}

/// The bitmaps of an atlas stand side by side in their order, the first at the left
/// edge and each where the one before it ends, and the atlas is as wide as all of
/// them: one more with an area adds its width, at the end, and one without adds
/// nothing.
pub proof fn lemma_atlas_grows_bitmap_by_bitmap(
    bitmaps: Seq<SubtitleAlphaBitmap>,
    bitmap: SubtitleAlphaBitmap,
)
    requires
        bitmaps.len() < usize::MAX,
        atlas_width(bitmaps) <= usize::MAX,
    ensures
        ({
            let more = bitmaps.push(bitmap);
            let has_area = bitmap.placement.width > 0 && bitmap.placement.height > 0;
            let places = atlas_placements(more);
            &&& has_area ==> atlas_width(more) == atlas_width(bitmaps) + bitmap.placement.width
            &&& !has_area ==> atlas_width(more) == atlas_width(bitmaps)
            &&& atlas_height(more) >= atlas_height(bitmaps)
            &&& has_area ==> atlas_height(more) >= bitmap.placement.height
            &&& atlas_height(more) == atlas_height(bitmaps) || (has_area && atlas_height(more)
                == bitmap.placement.height)
            &&& has_area ==> places.len() == atlas_placements(bitmaps).len() + 1
            &&& has_area ==> places.drop_last() == atlas_placements(bitmaps)
            &&& has_area ==> places.last().index == bitmaps.len()
            &&& has_area ==> places.last().atlas_x == atlas_width(bitmaps)
            &&& !has_area ==> places == atlas_placements(bitmaps)
        }),
        atlas_width(Seq::empty()) == 0,
        atlas_height(Seq::empty()) == 0,
        atlas_placements(Seq::empty()).len() == 0,
{
    let more = bitmaps.push(bitmap);
    assert(more.drop_last() =~= bitmaps);
    assert(more.last() == bitmap);
    if !bitmap.empty() {
        assert(atlas_placements(more).drop_last() =~= atlas_placements(bitmaps));
    }
}

/// Below the rows of a bitmap its columns of the atlas are clear.
pub proof fn lemma_atlas_is_clear_below_a_bitmap(
    bitmaps: Seq<SubtitleAlphaBitmap>,
    bitmap: SubtitleAlphaBitmap,
    column: int,
    row: int,
)
    requires
        0 <= column < bitmap.placement.width,
        row >= bitmap.placement.height > 0,
    ensures
        atlas_pixel(bitmaps.push(bitmap), atlas_width(bitmaps) + column, row) == 0,
{
    assert(bitmaps.push(bitmap).drop_last() =~= bitmaps);
}

/// A bitmap is valid where its rows are as wide as it is and its bytes reach to the
/// end of the last row; then every pixel of it has a byte.
pub proof fn lemma_valid_bitmap_covers_its_pixels(bitmap: SubtitleAlphaBitmap, column: int, row: int)
    ensures
        bitmap.valid() <==> bitmap.stride >= bitmap.placement.width && (bitmap.placement.height
            == 0 || bitmap.alpha@.len() >= (bitmap.placement.height - 1) * bitmap.stride
            + bitmap.placement.width),
        bitmap.empty() <==> bitmap.placement.width == 0 || bitmap.placement.height == 0,
        bitmap.valid() && 0 <= column < bitmap.placement.width && 0 <= row
            < bitmap.placement.height ==> 0 <= row * bitmap.stride + column < bitmap.alpha@.len(),
{
    if bitmap.valid() && 0 <= column < bitmap.placement.width && 0 <= row
        < bitmap.placement.height {
        assert(0 <= row * bitmap.stride <= (bitmap.placement.height - 1) * bitmap.stride)
            by (nonlinear_arith)
            requires
                0 <= row <= bitmap.placement.height - 1,
                bitmap.stride >= 0,
        ;
    }
}

/// Whether a picture has changed rests on what is seen of it: its viewport, its
/// planes and its bitmaps, and not on its time.
pub proof fn lemma_picture_is_what_is_seen(left: OverlayView, right: OverlayView)
    ensures
        same_picture(left, left),
        same_picture(left, right) ==> same_picture(right, left),
        left.viewport != right.viewport ==> !same_picture(left, right),
        left.subtitle_planes != right.subtitle_planes ==> !same_picture(left, right),
        left.subtitle_alpha_planes != right.subtitle_alpha_planes ==> !same_picture(left, right),
        (OverlayView { pts: right.pts, subtitle_changed: right.subtitle_changed, ..left })
            == right ==> same_picture(left, right),
{
}

/// Comments are drawn as before only where the viewport, the atlas and every number
/// of every glyph are the same, whatever their times; a number that has changed has
/// them drawn anew.
pub proof fn lemma_changed_comments_are_drawn_anew(
    left: PlanView,
    right: PlanView,
    index: int,
    number: int,
)
    requires
        0 <= index < left.items.len(),
        left.items.len() == right.items.len(),
        0 <= number < 4,
    ensures
        left.viewport != right.viewport ==> !same_drawing(left, right),
        left.atlas != right.atlas ==> !same_drawing(left, right),
        ({
            let one = left.items[index];
            let other = right.items[index];
            &&& one.item_id != other.item_id ==> !same_drawing(left, right)
            &&& !same_number(one.rect@[number], other.rect@[number]) ==> !same_drawing(left, right)
            &&& !same_number(one.tex_rect@[number], other.tex_rect@[number]) ==> !same_drawing(
                left,
                right,
            )
            &&& !same_number(one.color_rgba@[number], other.color_rgba@[number]) ==> !same_drawing(
                left,
                right,
            )
            &&& !same_number(one.outline_rgba@[number], other.outline_rgba@[number]) ==>
                !same_drawing(left, right)
            &&& !same_number(one.shadow_rgba@[number], other.shadow_rgba@[number]) ==>
                !same_drawing(left, right)
            &&& number < 2 && !same_number(
                one.shadow_offset@[number],
                other.shadow_offset@[number],
            ) ==> !same_drawing(left, right)
        }),
        same_drawing(left, right) ==> same_drawing(
            PlanView { media_time: right.media_time, generation: right.generation, ..left },
            right,
        ),
{
    if same_drawing(left, right) {
        let one = left.items[index];
        let other = right.items[index];
        assert(one.same(other));
        assert(same_number(one.rect@[number], other.rect@[number]));
        assert(same_number(one.tex_rect@[number], other.tex_rect@[number]));
        assert(same_number(one.color_rgba@[number], other.color_rgba@[number]));
        assert(same_number(one.outline_rgba@[number], other.outline_rgba@[number]));
        assert(same_number(one.shadow_rgba@[number], other.shadow_rgba@[number]));
        if number < 2 {
            assert(one.shadow_offset@.len() == 2);
            assert(same_number(one.shadow_offset@[number], other.shadow_offset@[number]));
        }
    }
}

/// Comments are drawn for the generation that they were made for and, as far as the
/// target's sides are known, at those sides.
pub proof fn lemma_comments_fit_their_frame(
    plan: PlanView,
    generation: u64,
    width: Option<u32>,
    height: Option<u32>,
)
    ensures
        plan.generation != generation ==> !plan_fits(plan, generation, width, height),
        width is Some && plan.viewport.width != width->0 ==> !plan_fits(
            plan,
            generation,
            width,
            height,
        ),
        height is Some && plan.viewport.height != height->0 ==> !plan_fits(
            plan,
            generation,
            width,
            height,
        ),
        plan_fits(plan, plan.generation, Some(plan.viewport.width), Some(plan.viewport.height)),
        plan_fits(plan, plan.generation, None, None),
{
}

/// What becomes of a glyph atlas: it is reused where it is the one in use, updated
/// where it says how it differs from the one in use and is of its size, from the byte
/// where the update begins, and otherwise uploaded whole.
pub proof fn lemma_atlas_is_reused_updated_or_uploaded(
    cache: DanmakuAtlasCache,
    atlas: DanmakuGlyphAtlas,
)
    ensures
        ({
            let same_size = atlas.width == cache.key.width && atlas.height == cache.key.height
                && atlas.stride == cache.key.stride;
            let action = atlas_action(Some(cache), atlas);
            let in_use = same_size && atlas.version == cache.key.version;
            let follows = same_size && atlas.update is Some && atlas.update->0.from_version
                == cache.key.version;
            &&& in_use <==> action == AtlasAction::Reuse
            &&& !in_use && follows ==> {
                &&& action matches AtlasAction::Update { update, offset }
                &&& update == atlas.update->0
                &&& update.y * atlas.stride + update.x <= usize::MAX ==> offset == update.y
                    * atlas.stride + update.x
            }
            &&& !in_use && !follows ==> action == AtlasAction::Upload
        }),
        atlas_action(None, atlas) == AtlasAction::Upload,
{
}

/// A packed atlas has its rows one after the other, from the top, each as wide as the
/// atlas.
pub proof fn lemma_atlas_pixels_are_row_after_row(
    atlas: AlphaAtlas,
    bitmaps: Seq<SubtitleAlphaBitmap>,
    column: int,
    row: int,
)
    requires
        holds_bitmaps(atlas, bitmaps),
        0 <= column < atlas.width,
        0 <= row < atlas.height,
    ensures
        atlas.width == atlas_width(bitmaps),
        atlas.height == atlas_height(bitmaps),
        atlas.placements@ == atlas_placements(bitmaps),
        atlas.pixels@.len() == atlas.width * atlas.height,
        0 <= row * atlas.width + column < atlas.pixels@.len(),
        atlas.pixels@[row * atlas.width + column] == atlas_pixel(bitmaps, column, row),
{
    let width = atlas.width as int;
    let height = atlas.height as int;
    assert(0 <= row * width + column < width * height) by (nonlinear_arith)
        requires
            0 <= column < width,
            0 <= row < height,
    ;
    vstd::arithmetic::div_mod::lemma_fundamental_div_mod_converse(
        row * width + column,
        width,
        row,
        column,
    );
}

/// An overlay that cannot be drawn is refused for its first plane that does not have
/// four bytes for each of its pixels, with the bytes that it has and should have; and
/// where there is none, for the first bitmap that does not cover its rows.
pub proof fn lemma_overlays_are_refused_for_the_first_misfit<
    C: Fn(i64) -> FloatBits,
    D: Fn(u32, u32) -> FloatBits,
    R: Fn(usize) -> PlaneRect,
    L: Fn(u32) -> [u8; 4],
>(
    frame: OverlayFrame,
    extended_linear: bool,
    scaled_rect: R,
    color_of: L,
    as_float: C,
    divide: D,
    error: OverlayError,
)
    requires
        prepares_overlay(
            frame,
            extended_linear,
            scaled_rect,
            color_of,
            as_float,
            divide,
            Err::<OverlayDraws, OverlayError>(error),
        ),
    ensures
        error matches OverlayError::PlaneSize { index, actual, expected } ==> ({
            let plane = frame.subtitle_planes@[index as int];
            &&& index < frame.subtitle_planes@.len()
            &&& plane.width > 0 && plane.height > 0
            &&& actual == plane.rgba@.len()
            &&& expected == plane.width * plane.height * 4
            &&& actual != expected
            &&& forall|i: int|
                0 <= i < index ==> {
                    let earlier = #[trigger] frame.subtitle_planes@[i];
                    earlier.width == 0 || earlier.height == 0 || earlier.rgba@.len()
                        == earlier.width * earlier.height * 4
                }
        }),
        error matches OverlayError::AlphaBitmap { index } ==> ({
            let bitmaps = frame.subtitle_alpha_planes@;
            &&& index < bitmaps.len()
            &&& !bitmaps[index as int].empty()
            &&& !bitmaps[index as int].valid()
            &&& forall|i: int|
                0 <= i < index ==> (#[trigger] bitmaps[i]).empty() || bitmaps[i].valid()
        }),
{
    if let OverlayError::PlaneSize { index, actual, expected } = error {
        assert forall|i: int| 0 <= i < index implies {
            let earlier = #[trigger] frame.subtitle_planes@[i];
            earlier.width == 0 || earlier.height == 0 || earlier.rgba@.len() == earlier.width
                * earlier.height * 4
        } by {
            assert(plane_fits(frame.subtitle_planes@[i]));
        }
    }
}

/// A glyph atlas is valid where its rows are as wide as it is and both its fill and its
/// outline reach to the end of the last row.
pub proof fn lemma_valid_glyph_atlas_covers_its_pixels(atlas: DanmakuGlyphAtlas)
    ensures
        ({
            let end = if atlas.height == 0 {
                0
            } else {
                (atlas.height - 1) * atlas.stride + atlas.width
            };
            atlas.valid() <==> atlas.stride >= atlas.width && atlas.fill_alpha@.len() >= end
                && atlas.outline_alpha@.len() >= end
        }),
{
}

/// A viewport or an atlas without a side is taken to have one of one pixel, so that
/// nothing is divided by zero.
pub proof fn lemma_missing_side_is_one_pixel(side: u32)
    ensures
        at_least_one(0) == 1,
        side > 0 ==> at_least_one(side) == side,
{
}

} // verus!
