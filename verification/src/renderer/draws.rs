//! What is drawn over a frame: subtitle planes, alpha bitmaps from one atlas,
//! and the glyphs of comments.

use crate::float::{FloatBits, ONE, ZERO};
use crate::renderer::danmaku::{
    glyph_draws, plan_layers, DanmakuGlyphInstance, DanmakuRenderPlan, DanmakuViewport, GlyphDraw,
    GlyphLayer,
};
use crate::renderer::layout::{
    batch_overlays, batch_refused, batch_stride, holds_quads, OVERLAY_BYTES,
};
use crate::renderer::output::OutputDescription;
use crate::renderer::overlay::{
    atlas_height, atlas_placements, atlas_pixel, atlas_width, check_rgba_plane, drawable,
    lemma_prefix_fits, pack_alpha_atlas, AlphaAtlas, AtlasPlacement, OverlayFrame, OverlayViewport, PlaneCheck,
    SubtitleAlphaBitmap, SubtitleBitmapPlane, SubtitleBitmapPlacement,
};
use crate::renderer::pipeline::flag;
use crate::renderer::quad::{
    at_least_one, float_of, glyph_quad, is_conversion, is_division, is_sum, layer_color,
    layer_rect, quotient, AtlasSpot, OverlayUniforms, CHANNEL_MAX,
};
use crate::renderer::wgpu::draw::{UniformBatch, UniformBatchError};
use vstd::prelude::*;

verus! {

/// Where a plane is shown on the viewport.
#[derive(Debug, Clone, Copy, PartialEq, Eq, Structural)]
pub struct PlaneRect {
    pub x: i32,
    pub y: i32,
    pub width: u32,
    pub height: u32,
}

/// A subtitle plane that is uploaded and drawn.
#[derive(Debug, Clone, Copy)]
pub struct PlaneDraw {
    pub plane: usize,
    pub bytes_per_row: u32,
    pub uniforms: OverlayUniforms,
}

/// What an overlay is drawn with: its planes, and the quads of its alpha
/// bitmaps beside the atlas that they sample.
#[derive(Debug)]
pub struct OverlayDraws {
    pub planes: Vec<PlaneDraw>,
    pub atlas: Option<AlphaAtlas>,
    pub bitmaps: Vec<OverlayUniforms>,
}

/// Why an overlay cannot be drawn.
#[derive(Debug, Clone, Copy, PartialEq, Eq, Structural)]
pub enum OverlayError {
    /// A plane does not have the bytes that it should.
    PlaneSize { index: usize, actual: usize, expected: usize },
    /// The bytes of a bitmap do not cover its rows.
    AlphaBitmap { index: usize },
}

/// A plane without an area is not drawn.
pub open spec fn plane_empty(plane: SubtitleBitmapPlane) -> bool {
    plane.width == 0 || plane.height == 0
}

/// A plane that is drawn has the bytes that it should.
pub open spec fn plane_fits(plane: SubtitleBitmapPlane) -> bool {
    plane_empty(plane) || plane.rgba@.len() == plane.width * plane.height * 4
}

/// The sizes of a plane are within what a machine can address.
pub open spec fn plane_addressable(plane: SubtitleBitmapPlane) -> bool {
    &&& plane.width * plane.height * 4 <= usize::MAX
    &&& plane.width * 4 <= u32::MAX
}

/// The planes that are drawn, in order.
pub open spec fn drawn_planes(planes: Seq<SubtitleBitmapPlane>) -> Seq<usize>
    decreases planes.len(),
{
    if planes.len() == 0 {
        Seq::empty()
    } else if plane_empty(planes.last()) {
        drawn_planes(planes.drop_last())
    } else {
        drawn_planes(planes.drop_last()).push((planes.len() - 1) as usize)
    }
}

/// The quad of a plane that is shown at `rect`.
pub open spec fn is_plane_quad<C: Fn(i64) -> FloatBits>(
    quad: OverlayUniforms,
    rect: PlaneRect,
    viewport: OverlayViewport,
    extended_linear: bool,
    as_float: C,
) -> bool {
    &&& quad.rect@ == seq![
        float_of(as_float, rect.x as i64),
        float_of(as_float, rect.y as i64),
        float_of(as_float, rect.width as i64),
        float_of(as_float, rect.height as i64),
    ]
    &&& quad.tex_rect@ == seq![ZERO, ZERO, ONE, ONE]
    &&& quad.viewport@ == seq![
        float_of(as_float, at_least_one(viewport.width) as i64),
        float_of(as_float, at_least_one(viewport.height) as i64),
    ]
    &&& quad.overlay_mode == 0
    &&& quad.output_encoding == flag(extended_linear)
    &&& quad.color@ == seq![ONE, ONE, ONE, ONE]
}

/// The quad of an alpha bitmap that stands at `spot` of its atlas.
pub open spec fn is_bitmap_quad<C: Fn(i64) -> FloatBits, D: Fn(u32, u32) -> FloatBits>(
    quad: OverlayUniforms,
    color: [u8; 4],
    placement: SubtitleBitmapPlacement,
    spot: AtlasSpot,
    viewport: OverlayViewport,
    extended_linear: bool,
    as_float: C,
    divide: D,
) -> bool {
    &&& quad.rect@ == seq![
        float_of(as_float, placement.x as i64),
        float_of(as_float, placement.y as i64),
        float_of(as_float, placement.width as i64),
        float_of(as_float, placement.height as i64),
    ]
    &&& quad.tex_rect@ == seq![
        quotient(divide, spot.x, at_least_one(spot.atlas_width)),
        ZERO,
        quotient(divide, placement.width, at_least_one(spot.atlas_width)),
        quotient(divide, placement.height, at_least_one(spot.atlas_height)),
    ]
    &&& quad.viewport@ == seq![
        float_of(as_float, at_least_one(viewport.width) as i64),
        float_of(as_float, at_least_one(viewport.height) as i64),
    ]
    &&& quad.overlay_mode == 1
    &&& quad.output_encoding == flag(extended_linear)
    &&& quad.color@ == seq![
        quotient(divide, color@[0] as u32, CHANNEL_MAX),
        quotient(divide, color@[1] as u32, CHANNEL_MAX),
        quotient(divide, color@[2] as u32, CHANNEL_MAX),
        quotient(divide, color@[3] as u32, CHANNEL_MAX),
    ]
}

/// `draw` shows the plane at `plane` where `scaled_rect` puts it.
pub open spec fn draws_plane<C: Fn(i64) -> FloatBits, R: Fn(usize) -> PlaneRect>(
    draw: PlaneDraw,
    frame: OverlayFrame,
    plane: usize,
    extended_linear: bool,
    scaled_rect: R,
    as_float: C,
) -> bool {
    &&& draw.plane == plane
    &&& draw.bytes_per_row == frame.subtitle_planes@[plane as int].width * 4
    &&& exists|rect: PlaneRect|
        {
            &&& #[trigger] scaled_rect.ensures((plane,), rect)
            &&& is_plane_quad(draw.uniforms, rect, frame.viewport, extended_linear, as_float)
        }
}

/// `quad` shows the bitmap of `place` in the colour that `color_of` gives it.
pub open spec fn draws_bitmap<
    C: Fn(i64) -> FloatBits,
    D: Fn(u32, u32) -> FloatBits,
    L: Fn(u32) -> [u8; 4],
>(
    quad: OverlayUniforms,
    frame: OverlayFrame,
    place: AtlasPlacement,
    extended_linear: bool,
    color_of: L,
    as_float: C,
    divide: D,
) -> bool {
    let bitmaps = frame.subtitle_alpha_planes@;
    let bitmap = bitmaps[place.index as int];
    let spot = AtlasSpot {
        x: place.atlas_x as u32,
        atlas_width: atlas_width(bitmaps) as u32,
        atlas_height: atlas_height(bitmaps) as u32,
    };
    exists|color: [u8; 4]|
        {
            &&& #[trigger] color_of.ensures((bitmap.color_rgba,), color)
            &&& is_bitmap_quad(
                quad,
                color,
                bitmap.placement,
                spot,
                frame.viewport,
                extended_linear,
                as_float,
                divide,
            )
        }
}

/// The sizes of an overlay are within what a machine can address.
pub open spec fn overlay_addressable(frame: OverlayFrame) -> bool {
    let bitmaps = frame.subtitle_alpha_planes@;
    &&& forall|i: int|
        0 <= i < frame.subtitle_planes@.len() ==> plane_addressable(
            #[trigger] frame.subtitle_planes@[i],
        )
    &&& atlas_width(bitmaps) <= u32::MAX
    &&& atlas_width(bitmaps) * atlas_height(bitmaps) <= usize::MAX
}

/// Whether the sizes of a plane are within what a machine can address.
fn plane_is_addressable(plane: &SubtitleBitmapPlane) -> (addressable: bool)
    ensures
        addressable == plane_addressable(*plane),
{
    proof {
        assert(0 <= plane.width * plane.height <= 0xffff_ffff * 0xffff_ffff) by (nonlinear_arith)
            requires
                0 <= plane.width <= 0xffff_ffff,
                0 <= plane.height <= 0xffff_ffff,
        ;
    }
    let pixels: u128 = plane.width as u128 * plane.height as u128;
    pixels * 4 <= usize::MAX as u128 && plane.width as u64 * 4 <= u32::MAX as u64
}

/// Whether the sizes of an overlay are within what a machine can address.
pub fn overlay_is_addressable(frame: &OverlayFrame) -> (addressable: bool)
    ensures
        addressable == overlay_addressable(*frame),
{
    let planes: usize = frame.subtitle_planes.len();
    let mut i: usize = 0;
    while i < planes
        invariant
            i <= planes == frame.subtitle_planes@.len(),
            forall|j: int| 0 <= j < i ==> plane_addressable(#[trigger] frame.subtitle_planes@[j]),
        decreases planes - i,
    {
        if !plane_is_addressable(&frame.subtitle_planes[i]) {
            assert(!plane_addressable(frame.subtitle_planes@[i as int]));
            return false;
        }
        i = i + 1;
    }
    let ghost bitmaps = frame.subtitle_alpha_planes@;
    let count: usize = frame.subtitle_alpha_planes.len();
    let mut width: u64 = 0;
    let mut height: u64 = 0;
    let mut k: usize = 0;
    while k < count
        invariant
            k <= count == bitmaps.len(),
            bitmaps == frame.subtitle_alpha_planes@,
            width == atlas_width(bitmaps.take(k as int)),
            height == atlas_height(bitmaps.take(k as int)),
            width <= u32::MAX,
            height <= u32::MAX,
        decreases count - k,
    {
        let placement: SubtitleBitmapPlacement = frame.subtitle_alpha_planes[k].placement;
        assert(bitmaps.take(k + 1).drop_last() =~= bitmaps.take(k as int));
        assert(bitmaps.take(k + 1).last() == bitmaps[k as int]);
        if placement.width > 0 && placement.height > 0 {
            width = width + placement.width as u64;
            if placement.height as u64 > height {
                height = placement.height as u64;
            }
        }
        k = k + 1;
        if width > u32::MAX as u64 {
            proof {
                lemma_prefix_fits(bitmaps, k as int);
            }
            return false;
        }
    }
    proof {
        assert(bitmaps.take(count as int) =~= bitmaps);
        assert(0 <= width * height <= 0xffff_ffff * 0xffff_ffff) by (nonlinear_arith)
            requires
                0 <= width <= 0xffff_ffff,
                0 <= height <= 0xffff_ffff,
        ;
    }
    width * height <= usize::MAX as u64
}

/// Draws the planes of an overlay that have an area, each where `scaled_rect`
/// puts it. The first plane that does not have its bytes is reported.
fn prepare_plane_draws<C: Fn(i64) -> FloatBits, R: Fn(usize) -> PlaneRect>(
    frame: &OverlayFrame,
    output: OutputDescription,
    scaled_rect: &R,
    as_float: &C,
) -> (draws: Result<Vec<PlaneDraw>, OverlayError>)
    requires
        overlay_addressable(*frame),
        is_conversion(*as_float),
        forall|plane: usize| #[trigger] scaled_rect.requires((plane,)),
    ensures
        match draws {
            Ok(draws) => {
                let drawn = drawn_planes(frame.subtitle_planes@);
                &&& forall|i: int|
                    0 <= i < frame.subtitle_planes@.len() ==> plane_fits(
                        #[trigger] frame.subtitle_planes@[i],
                    )
                &&& draws@.len() == drawn.len()
                &&& forall|k: int|
                    0 <= k < drawn.len() ==> draws_plane(
                        #[trigger] draws@[k],
                        *frame,
                        drawn[k],
                        output.extended_linear,
                        *scaled_rect,
                        *as_float,
                    )
            },
            Err(error) => is_first_misfit(frame.subtitle_planes@, error),
        },
{
    let mut draws: Vec<PlaneDraw> = Vec::new();
    let mut i: usize = 0;
    assert(frame.subtitle_planes@.take(0) =~= Seq::empty());
    while i < frame.subtitle_planes.len()
        invariant
            i <= frame.subtitle_planes@.len(),
            overlay_addressable(*frame),
            is_conversion(*as_float),
            forall|plane: usize| #[trigger] scaled_rect.requires((plane,)),
            forall|j: int| 0 <= j < i ==> plane_fits(#[trigger] frame.subtitle_planes@[j]),
            draws@.len() == drawn_planes(frame.subtitle_planes@.take(i as int)).len(),
            forall|k: int|
                0 <= k < draws@.len() ==> draws_plane(
                    #[trigger] draws@[k],
                    *frame,
                    drawn_planes(frame.subtitle_planes@.take(i as int))[k],
                    output.extended_linear,
                    *scaled_rect,
                    *as_float,
                ),
        decreases frame.subtitle_planes@.len() - i,
    {
        let plane: &SubtitleBitmapPlane = &frame.subtitle_planes[i];
        let ghost before = draws@;
        let ghost shorter = drawn_planes(frame.subtitle_planes@.take(i as int));
        proof {
            let longer = frame.subtitle_planes@.take(i + 1);
            assert(longer.drop_last() =~= frame.subtitle_planes@.take(i as int));
            assert(longer.last() == *plane);
            assert(plane_addressable(frame.subtitle_planes@[i as int]));
            assert(0 <= plane.width * plane.height * 4) by (nonlinear_arith)
                requires
                    plane.width >= 0,
                    plane.height >= 0,
            ;
        }
        let _available: usize = plane.rgba.len();
        match check_rgba_plane(plane) {
            PlaneCheck::Skip => {},
            PlaneCheck::WrongSize { actual, expected } => {
                assert(actual == _available);
                return Err(OverlayError::PlaneSize { index: i, actual, expected });
            },
            PlaneCheck::Draw { bytes_per_row } => {
                let rect: PlaneRect = scaled_rect(i);
                let uniforms: OverlayUniforms = OverlayUniforms::rgba_plane(
                    rect.x,
                    rect.y,
                    rect.width,
                    rect.height,
                    frame.viewport.width,
                    frame.viewport.height,
                    as_float,
                ).for_output(output);
                let draw: PlaneDraw = PlaneDraw { plane: i, bytes_per_row, uniforms };
                assert(draws_plane(
                    draw,
                    *frame,
                    i,
                    output.extended_linear,
                    *scaled_rect,
                    *as_float,
                ));
                draws.push(draw);
                assert forall|k: int| 0 <= k < draws@.len() implies draws_plane(
                    #[trigger] draws@[k],
                    *frame,
                    shorter.push(i)[k],
                    output.extended_linear,
                    *scaled_rect,
                    *as_float,
                ) by {
                    if k < before.len() {
                        assert(draws@[k] == before[k]);
                    }
                }
            },
        }
        i = i + 1;
    }
    assert(frame.subtitle_planes@.take(i as int) =~= frame.subtitle_planes@);
    Ok(draws)
}

/// `error` reports the first plane that does not have its bytes.
pub open spec fn is_first_misfit(planes: Seq<SubtitleBitmapPlane>, error: OverlayError) -> bool {
    error matches OverlayError::PlaneSize { index, actual, expected } && {
        &&& index < planes.len()
        &&& !plane_fits(planes[index as int])
        &&& actual == planes[index as int].rgba@.len()
        &&& expected == planes[index as int].width * planes[index as int].height * 4
        &&& forall|i: int| 0 <= i < index ==> plane_fits(#[trigger] planes[i])
    }
}

/// `draws` is what an overlay is drawn with, or the first of its planes and
/// bitmaps that does not have its bytes.
pub open spec fn prepares_overlay<
    C: Fn(i64) -> FloatBits,
    D: Fn(u32, u32) -> FloatBits,
    R: Fn(usize) -> PlaneRect,
    L: Fn(u32) -> [u8; 4],
>(
    frame: OverlayFrame,
    extended_linear: bool,
    scaled_rect: R,
    color_of: L,
    as_float: C,
    divide: D,
    draws: Result<OverlayDraws, OverlayError>,
) -> bool {
    let bitmaps = frame.subtitle_alpha_planes@;
    let planes_fit = forall|i: int|
        0 <= i < frame.subtitle_planes@.len() ==> plane_fits(#[trigger] frame.subtitle_planes@[i]);
    match draws {
        Ok(draws) => {
            let drawn = drawn_planes(frame.subtitle_planes@);
            &&& planes_fit
            &&& draws.planes@.len() == drawn.len()
            &&& forall|k: int|
                0 <= k < drawn.len() ==> draws_plane(
                    #[trigger] draws.planes@[k],
                    frame,
                    drawn[k],
                    extended_linear,
                    scaled_rect,
                    as_float,
                )
            &&& match draws.atlas {
                None => (atlas_width(bitmaps) == 0 || atlas_height(bitmaps) == 0)
                    && draws.bitmaps@.len() == 0,
                Some(atlas) => {
                    &&& drawable(bitmaps, bitmaps.len() as int)
                    &&& holds_bitmaps(atlas, bitmaps)
                    &&& draws.bitmaps@.len() == atlas.placements@.len()
                    &&& forall|k: int|
                        0 <= k < draws.bitmaps@.len() ==> draws_bitmap(
                            #[trigger] draws.bitmaps@[k],
                            frame,
                            atlas.placements@[k],
                            extended_linear,
                            color_of,
                            as_float,
                            divide,
                        )
                },
            }
        },
        Err(OverlayError::AlphaBitmap { index }) => {
            &&& planes_fit
            &&& index < bitmaps.len()
            &&& !bitmaps[index as int].empty()
            &&& !bitmaps[index as int].valid()
            &&& drawable(bitmaps, index as int)
        },
        Err(error) => is_first_misfit(frame.subtitle_planes@, error),
    }
}

/// Prepares what an overlay is drawn with. Planes are checked first, in order,
/// then the alpha bitmaps; the first that does not have its bytes is reported.
/// `scaled_rect` says where a plane is shown and `color_of` what colour a
/// bitmap's number stands for.
pub fn prepare_overlay_draws<
    C: Fn(i64) -> FloatBits,
    D: Fn(u32, u32) -> FloatBits,
    R: Fn(usize) -> PlaneRect,
    L: Fn(u32) -> [u8; 4],
>(
    frame: &OverlayFrame,
    output: OutputDescription,
    scaled_rect: &R,
    color_of: &L,
    as_float: &C,
    divide: &D,
) -> (draws: Result<OverlayDraws, OverlayError>)
    requires
        overlay_addressable(*frame),
        is_conversion(*as_float),
        is_division(*divide),
        forall|plane: usize| #[trigger] scaled_rect.requires((plane,)),
        forall|color: u32| #[trigger] color_of.requires((color,)),
    ensures
        prepares_overlay(
            *frame,
            output.extended_linear,
            *scaled_rect,
            *color_of,
            *as_float,
            *divide,
            draws,
        ),
{
    let planes: Vec<PlaneDraw> = match prepare_plane_draws(frame, output, scaled_rect, as_float) {
        Ok(planes) => planes,
        Err(error) => {
            return Err(error);
        },
    };
    proof {
        lemma_atlas_is_wide_enough(frame.subtitle_alpha_planes@);
    }
    let atlas: AlphaAtlas = match pack_alpha_atlas(&frame.subtitle_alpha_planes) {
        Ok(Some(atlas)) => atlas,
        Ok(None) => {
            return Ok(OverlayDraws { planes, atlas: None, bitmaps: Vec::new() });
        },
        Err(invalid) => {
            return Err(OverlayError::AlphaBitmap { index: invalid.index });
        },
    };
    let mut bitmaps: Vec<OverlayUniforms> = Vec::new();
    let mut k: usize = 0;
    while k < atlas.placements.len()
        invariant
            k <= atlas.placements@.len(),
            bitmaps@.len() == k,
            overlay_addressable(*frame),
            is_conversion(*as_float),
            is_division(*divide),
            forall|color: u32| #[trigger] color_of.requires((color,)),
            holds_bitmaps(atlas, frame.subtitle_alpha_planes@),
            atlas_height(frame.subtitle_alpha_planes@) <= u32::MAX,
            forall|j: int|
                0 <= j < k ==> draws_bitmap(
                    #[trigger] bitmaps@[j],
                    *frame,
                    atlas.placements@[j],
                    output.extended_linear,
                    *color_of,
                    *as_float,
                    *divide,
                ),
        decreases atlas.placements@.len() - k,
    {
        let place: AtlasPlacement = atlas.placements[k];
        let _count: usize = frame.subtitle_alpha_planes.len();
        proof {
            lemma_placement_is_of_a_bitmap(frame.subtitle_alpha_planes@, k as int);
        }
        let bitmap: &SubtitleAlphaBitmap = &frame.subtitle_alpha_planes[place.index];
        let color: [u8; 4] = color_of(bitmap.color_rgba);
        let spot: AtlasSpot = AtlasSpot {
            x: place.atlas_x as u32,
            atlas_width: atlas.width as u32,
            atlas_height: atlas.height as u32,
        };
        let uniforms: OverlayUniforms = OverlayUniforms::alpha_atlas(
            color,
            bitmap.placement.x,
            bitmap.placement.y,
            bitmap.placement.width,
            bitmap.placement.height,
            spot,
            frame.viewport.width,
            frame.viewport.height,
            as_float,
            divide,
        ).for_output(output);
        assert(draws_bitmap(
            uniforms,
            *frame,
            place,
            output.extended_linear,
            *color_of,
            *as_float,
            *divide,
        ));
        bitmaps.push(uniforms);
        k = k + 1;
    }
    Ok(OverlayDraws { planes, atlas: Some(atlas), bitmaps })
}

/// `atlas` is the bitmaps packed side by side.
pub open spec fn holds_bitmaps(atlas: AlphaAtlas, bitmaps: Seq<SubtitleAlphaBitmap>) -> bool {
    &&& atlas.width == atlas_width(bitmaps)
    &&& atlas.height == atlas_height(bitmaps)
    &&& atlas.placements@ == atlas_placements(bitmaps)
    &&& atlas.pixels@ == Seq::new(
        (atlas.width * atlas.height) as nat,
        |k: int| atlas_pixel(bitmaps, k % atlas.width as int, k / atlas.width as int),
    )
}

/// An atlas is never taller than a bitmap can be.
proof fn lemma_atlas_is_wide_enough(bitmaps: Seq<SubtitleAlphaBitmap>)
    ensures
        atlas_height(bitmaps) <= u32::MAX,
    decreases bitmaps.len(),
{
    if bitmaps.len() > 0 {
        lemma_atlas_is_wide_enough(bitmaps.drop_last());
    }
}

/// Every place in an atlas is that of one of its bitmaps.
proof fn lemma_placement_is_of_a_bitmap(bitmaps: Seq<SubtitleAlphaBitmap>, k: int)
    requires
        bitmaps.len() <= usize::MAX,
        0 <= k < atlas_placements(bitmaps).len(),
    ensures
        atlas_placements(bitmaps)[k].index < bitmaps.len(),
    decreases bitmaps.len(),
{
    if bitmaps.len() > 0 {
        let rest = atlas_placements(bitmaps.drop_last());
        if k < rest.len() {
            lemma_placement_is_of_a_bitmap(bitmaps.drop_last(), k);
        }
    }
}

/// What comments are drawn with: the layers of their glyphs, the quad of each,
/// and the buffer that holds the quads.
#[derive(Debug)]
pub struct DanmakuDraws {
    pub layers: Vec<GlyphDraw>,
    pub quads: Vec<OverlayUniforms>,
    pub batch: UniformBatch,
}

/// Why comments cannot be drawn.
#[derive(Debug, Clone, Copy, PartialEq, Eq, Structural)]
pub enum DanmakuError {
    /// The coverages of the atlas do not hold its rows.
    InvalidAtlas,
    Batch { error: UniformBatchError },
}

/// The quad of a glyph's layer.
pub open spec fn is_glyph_quad<
    C: Fn(i64) -> FloatBits,
    A: Fn(FloatBits, FloatBits) -> FloatBits,
>(
    quad: OverlayUniforms,
    item: DanmakuGlyphInstance,
    layer: GlyphLayer,
    viewport: DanmakuViewport,
    extended_linear: bool,
    as_float: C,
    plus: A,
) -> bool {
    &&& quad.color == layer_color(item, layer)
    &&& quad.rect@ == layer_rect(item, layer, plus)
    &&& quad.tex_rect == item.tex_rect
    &&& quad.viewport@ == seq![
        float_of(as_float, at_least_one(viewport.width) as i64),
        float_of(as_float, at_least_one(viewport.height) as i64),
    ]
    &&& quad.overlay_mode == 1
    &&& quad.output_encoding == flag(extended_linear)
}

/// The layers of a plan's glyphs, each with its quad.
pub open spec fn draws_glyphs<
    C: Fn(i64) -> FloatBits,
    A: Fn(FloatBits, FloatBits) -> FloatBits,
>(
    plan: DanmakuRenderPlan,
    extended_linear: bool,
    as_float: C,
    plus: A,
    layers: Seq<GlyphDraw>,
    quads: Seq<OverlayUniforms>,
) -> bool {
    &&& layers == plan_layers(plan.items@)
    &&& quads.len() == layers.len()
    &&& forall|k: int|
        0 <= k < layers.len() ==> is_glyph_quad(
            #[trigger] quads[k],
            plan.items@[layers[k].item as int],
            layers[k].layer,
            plan.viewport,
            extended_linear,
            as_float,
            plus,
        )
}

/// The quads of a plan's glyphs, layer by layer.
pub fn glyph_quads<C: Fn(i64) -> FloatBits, A: Fn(FloatBits, FloatBits) -> FloatBits>(
    plan: &DanmakuRenderPlan,
    output: OutputDescription,
    as_float: &C,
    plus: &A,
) -> (drawn: (Vec<GlyphDraw>, Vec<OverlayUniforms>))
    requires
        is_conversion(*as_float),
        is_sum(*plus),
    ensures
        draws_glyphs(*plan, output.extended_linear, *as_float, *plus, drawn.0@, drawn.1@),
        forall|k: int|
            0 <= k < drawn.0@.len() ==> (#[trigger] drawn.1@[k]).color == match drawn.0@[k].layer {
                GlyphLayer::Fill => plan.items@[drawn.0@[k].item as int].color_rgba,
                GlyphLayer::Outline => plan.items@[drawn.0@[k].item as int].outline_rgba,
                GlyphLayer::Shadow => plan.items@[drawn.0@[k].item as int].shadow_rgba,
            },
{
    let layers: Vec<GlyphDraw> = glyph_draws(&plan.items);
    let mut quads: Vec<OverlayUniforms> = Vec::new();
    let mut k: usize = 0;
    while k < layers.len()
        invariant
            is_conversion(*as_float),
            is_sum(*plus),
            k <= layers@.len(),
            quads@.len() == k,
            layers@ == plan_layers(plan.items@),
            forall|j: int|
                0 <= j < k ==> is_glyph_quad(
                    #[trigger] quads@[j],
                    plan.items@[layers@[j].item as int],
                    layers@[j].layer,
                    plan.viewport,
                    output.extended_linear,
                    *as_float,
                    *plus,
                ),
        decreases layers@.len() - k,
    {
        let draw: GlyphDraw = layers[k];
        let _count: usize = plan.items.len();
        proof {
            lemma_layer_is_of_a_glyph(plan.items@, k as int);
        }
        let quad: OverlayUniforms = glyph_quad(
            &plan.items[draw.item],
            draw.layer,
            plan.viewport,
            as_float,
            plus,
        ).for_output(output);
        quads.push(quad);
        k = k + 1;
    }
    (layers, quads)
}

/// Prepares what comments are drawn with. Without an atlas or without glyphs
/// there is nothing to draw.
pub fn prepare_danmaku_draws<
    C: Fn(i64) -> FloatBits,
    A: Fn(FloatBits, FloatBits) -> FloatBits,
>(
    plan: &DanmakuRenderPlan,
    output: OutputDescription,
    alignment: u32,
    as_float: &C,
    plus: &A,
) -> (draws: Result<Option<DanmakuDraws>, DanmakuError>)
    requires
        is_conversion(*as_float),
        is_sum(*plus),
        OVERLAY_BYTES + alignment <= usize::MAX,
        OVERLAY_BYTES * plan_layers(plan.items@).len() <= usize::MAX,
    ensures
        ({
            let layers = plan_layers(plan.items@);
            let stride = batch_stride(alignment);
            match draws {
                Err(DanmakuError::InvalidAtlas) => plan.atlas is Some && !plan.atlas->0.valid(),
                Err(DanmakuError::Batch { error }) => {
                    &&& plan.atlas is Some && plan.atlas->0.valid()
                    &&& layers.len() > 0
                    &&& batch_refused(error, stride, layers.len())
                },
                Ok(None) => plan.atlas is None || (plan.atlas->0.valid() && layers.len() == 0),
                Ok(Some(draws)) => {
                    &&& plan.atlas is Some && plan.atlas->0.valid()
                    &&& layers.len() > 0
                    &&& draws_glyphs(
                        *plan,
                        output.extended_linear,
                        *as_float,
                        *plus,
                        draws.layers@,
                        draws.quads@,
                    )
                    &&& draws.batch.stride == stride
                    &&& draws.batch.bytes@.len() == stride * layers.len()
                    &&& draws.batch.offsets@.len() == layers.len()
                    &&& forall|k: int|
                        0 <= k < layers.len() ==> #[trigger] draws.batch.offsets@[k] == k * stride
                    &&& exists|little_endian: bool| #[trigger]
                        holds_quads(draws.batch.bytes@, draws.quads@, stride, little_endian)
                },
            }
        }),
        draws matches Ok(Some(draws)) ==> forall|k: int|
            0 <= k < draws.layers@.len() ==> (#[trigger] draws.quads@[k]).color
                == match draws.layers@[k].layer {
                GlyphLayer::Fill => plan.items@[draws.layers@[k].item as int].color_rgba,
                GlyphLayer::Outline => plan.items@[draws.layers@[k].item as int].outline_rgba,
                GlyphLayer::Shadow => plan.items@[draws.layers@[k].item as int].shadow_rgba,
            },
{
    match &plan.atlas {
        None => {
            return Ok(None);
        },
        Some(atlas) => {
            if !atlas.is_valid() {
                return Err(DanmakuError::InvalidAtlas);
            }
        },
    }
    let (layers, quads): (Vec<GlyphDraw>, Vec<OverlayUniforms>) = glyph_quads(
        plan,
        output,
        as_float,
        plus,
    );
    if layers.len() == 0 {
        return Ok(None);
    }
    match batch_overlays(&quads, alignment) {
        Ok(batch) => Ok(Some(DanmakuDraws { layers, quads, batch })),
        Err(error) => Err(DanmakuError::Batch { error }),
    }
}

/// Every layer is that of one of the plan's glyphs.
proof fn lemma_layer_is_of_a_glyph(items: Seq<DanmakuGlyphInstance>, k: int)
    requires
        items.len() <= usize::MAX,
        0 <= k < plan_layers(items).len(),
    ensures
        plan_layers(items)[k].item < items.len(),
    decreases items.len(),
{
    if items.len() > 0 {
        let rest = plan_layers(items.drop_last());
        if k < rest.len() {
            lemma_layer_is_of_a_glyph(items.drop_last(), k);
        }
    }
}

} // verus!
