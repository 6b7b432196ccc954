//! Danmaku: glyph atlases, the plan that is drawn over a frame, and the layers
//! that a glyph is drawn in.

use crate::float::{equal, is_above, same_number, FloatBits, INFINITY, ZERO};
use crate::renderer::overlay::{bitmap_span, copy_bytes, same_bytes};
use crate::time::Duration;
use vstd::prelude::*;

verus! {

#[derive(Debug, Clone, Copy, PartialEq, Eq, Structural)]
pub struct DanmakuViewport {
    pub width: u32,
    pub height: u32,
}

impl DanmakuViewport {
    pub fn new(width: u32, height: u32) -> (viewport: Self)
        ensures
            viewport == (DanmakuViewport { width, height }),
    {
        DanmakuViewport { width, height }
    }
}

/// The part of an atlas that differs from an earlier version.
#[derive(Debug, Clone, Copy, PartialEq, Eq, Structural)]
pub struct DanmakuAtlasUpdate {
    pub from_version: u64,
    pub x: u32,
    pub y: u32,
    pub width: u32,
    pub height: u32,
}

/// The version and the layout of an atlas: what a texture of it is kept under.
#[derive(Debug, Clone, Copy, PartialEq, Eq, Structural)]
pub struct AtlasKey {
    pub version: u64,
    pub width: u32,
    pub height: u32,
    pub stride: usize,
}

/// Glyph coverage, once filled and once as outlines.
#[derive(Debug, Clone, PartialEq, Eq)]
pub struct DanmakuGlyphAtlas {
    pub width: u32,
    pub height: u32,
    pub stride: usize,
    pub fill_alpha: Vec<u8>,
    pub outline_alpha: Vec<u8>,
    pub version: u64,
    pub update: Option<DanmakuAtlasUpdate>,
}

/// An atlas by its contents.
#[verifier::ext_equal]
pub struct AtlasView {
    pub key: AtlasKey,
    pub fill_alpha: Seq<u8>,
    pub outline_alpha: Seq<u8>,
    pub update: Option<DanmakuAtlasUpdate>,
}

impl View for DanmakuGlyphAtlas {
    type V = AtlasView;

    open spec fn view(&self) -> AtlasView {
        AtlasView {
            key: AtlasKey {
                version: self.version,
                width: self.width,
                height: self.height,
                stride: self.stride,
            },
            fill_alpha: self.fill_alpha@,
            outline_alpha: self.outline_alpha@,
            update: self.update,
        }
    }
}

impl DanmakuGlyphAtlas {
    pub fn key(&self) -> (key: AtlasKey)
        ensures
            key == self@.key,
    {
        AtlasKey {
            version: self.version,
            width: self.width,
            height: self.height,
            stride: self.stride,
        }
    }

    /// Whether the first byte of an update can be addressed.
    pub fn update_is_addressable(&self) -> (addressable: bool)
        ensures
            addressable == (self.update matches Some(update) ==> update.y * self.stride + update.x
                <= usize::MAX),
    {
        match self.update {
            None => true,
            Some(update) => {
                proof {
                    assert(0 <= update.y * self.stride <= 0xffff_ffff * 0xffff_ffff_ffff_ffff)
                        by (nonlinear_arith)
                        requires
                            0 <= update.y <= 0xffff_ffff,
                            0 <= self.stride <= 0xffff_ffff_ffff_ffff,
                    ;
                }
                update.y as u128 * self.stride as u128 + update.x as u128 <= usize::MAX as u128
            },
        }
    }

    /// Both coverages hold all of the atlas's rows.
    pub open spec fn valid(self) -> bool {
        &&& self.stride >= self.width
        &&& self.fill_alpha@.len() >= bitmap_span(self.width, self.height, self.stride)
        &&& self.outline_alpha@.len() >= bitmap_span(self.width, self.height, self.stride)
    }

    pub fn is_valid(&self) -> (valid: bool)
        ensures
            valid == self.valid(),
    {
        if self.stride < self.width as usize {
            return false;
        }
        let fill: usize = self.fill_alpha.len();
        let outline: usize = self.outline_alpha.len();
        if self.height == 0 {
            return true;
        }
        let rows: usize = (self.height - 1) as usize;
        match rows.checked_mul(self.stride) {
            Some(bytes) => match bytes.checked_add(self.width as usize) {
                Some(span) => fill >= span && outline >= span,
                None => false,
            },
            None => false,
        }
    }

    /// The update that leads from a texture of another version to this atlas:
    /// the layout has to be the same, and the update to start from it.
    pub open spec fn update_from(self, cached: AtlasKey) -> Option<DanmakuAtlasUpdate> {
        match self.update {
            Some(update) if update.from_version == cached.version && self.width == cached.width
                && self.height == cached.height && self.stride == cached.stride => Some(update),
            _ => None,
        }
    }

    pub fn incremental_update_from(&self, cached: AtlasKey) -> (update: Option<DanmakuAtlasUpdate>)
        ensures
            update == self.update_from(cached),
    {
        match self.update {
            Some(update) => {
                if update.from_version == cached.version && self.width == cached.width
                    && self.height == cached.height && self.stride == cached.stride {
                    Some(update)
                } else {
                    None
                }
            },
            None => None,
        }
    }

    fn same_as(&self, other: &DanmakuGlyphAtlas) -> (same: bool)
        ensures
            same == (self@ == other@),
    {
        let same_update: bool = match (self.update, other.update) {
            (Some(a), Some(b)) => a == b,
            (None, None) => true,
            _ => false,
        };
        let same: bool = self.version == other.version && self.width == other.width && self.height
            == other.height && self.stride == other.stride && same_update && same_bytes(
            &self.fill_alpha,
            &other.fill_alpha,
        ) && same_bytes(&self.outline_alpha, &other.outline_alpha);
        same
    }

    fn duplicate(&self) -> (copy: DanmakuGlyphAtlas)
        ensures
            copy@ == self@,
    {
        DanmakuGlyphAtlas {
            width: self.width,
            height: self.height,
            stride: self.stride,
            fill_alpha: copy_bytes(&self.fill_alpha),
            outline_alpha: copy_bytes(&self.outline_alpha),
            version: self.version,
            update: self.update,
        }
    }
}

/// One glyph of a comment.
#[derive(Debug, Clone, Copy, PartialEq, Eq)]
pub struct DanmakuGlyphInstance {
    pub item_id: u64,
    pub rect: [FloatBits; 4],
    pub tex_rect: [FloatBits; 4],
    pub color_rgba: [FloatBits; 4],
    pub outline_rgba: [FloatBits; 4],
    pub shadow_rgba: [FloatBits; 4],
    pub shadow_offset: [FloatBits; 2],
}

/// Whether lists of numbers are the same.
pub open spec fn same_numbers(left: Seq<FloatBits>, right: Seq<FloatBits>) -> bool {
    &&& left.len() == right.len()
    &&& forall|i: int| 0 <= i < left.len() ==> #[trigger] same_number(left[i], right[i])
}

fn equal_four(left: &[FloatBits; 4], right: &[FloatBits; 4]) -> (same: bool)
    ensures
        same == same_numbers(left@, right@),
{
    let mut i: usize = 0;
    while i < 4
        invariant
            i <= 4,
            left@.len() == 4,
            right@.len() == 4,
            forall|j: int| 0 <= j < i ==> #[trigger] same_number(left@[j], right@[j]),
        decreases 4 - i,
    {
        if !equal(left[i], right[i]) {
            assert(!same_number(left@[i as int], right@[i as int]));
            return false;
        }
        i = i + 1;
    }
    true
}

impl DanmakuGlyphInstance {
    /// Whether another glyph looks the same.
    pub open spec fn same(self, other: Self) -> bool {
        &&& self.item_id == other.item_id
        &&& same_numbers(self.rect@, other.rect@)
        &&& same_numbers(self.tex_rect@, other.tex_rect@)
        &&& same_numbers(self.color_rgba@, other.color_rgba@)
        &&& same_numbers(self.outline_rgba@, other.outline_rgba@)
        &&& same_numbers(self.shadow_rgba@, other.shadow_rgba@)
        &&& same_numbers(self.shadow_offset@, other.shadow_offset@)
    }

    fn equals(&self, other: &Self) -> (same: bool)
        ensures
            same == self.same(*other),
    {
        let offset_same: bool = equal(self.shadow_offset[0], other.shadow_offset[0]) && equal(
            self.shadow_offset[1],
            other.shadow_offset[1],
        );
        proof {
            let left = self.shadow_offset@;
            let right = other.shadow_offset@;
            assert(same_number(left[0], right[0]) && same_number(left[1], right[1])
                <==> same_numbers(left, right)) by {
                if same_number(left[0], right[0]) && same_number(left[1], right[1]) {
                    assert forall|i: int| 0 <= i < left.len() implies #[trigger] same_number(
                        left[i],
                        right[i],
                    ) by {
                        assert(i == 0 || i == 1);
                    }
                }
            }
        }
        self.item_id == other.item_id && equal_four(&self.rect, &other.rect) && equal_four(
            &self.tex_rect,
            &other.tex_rect,
        ) && equal_four(&self.color_rgba, &other.color_rgba) && equal_four(
            &self.outline_rgba,
            &other.outline_rgba,
        ) && equal_four(&self.shadow_rgba, &other.shadow_rgba) && offset_same
    }
}

/// The comments that are drawn over a frame.
#[derive(Debug, Clone, PartialEq, Eq)]
pub struct DanmakuRenderPlan {
    pub media_time: Duration,
    pub generation: u64,
    pub viewport: DanmakuViewport,
    pub atlas: Option<DanmakuGlyphAtlas>,
    pub items: Vec<DanmakuGlyphInstance>,
}

/// A plan by its contents.
#[verifier::ext_equal]
pub struct PlanView {
    pub media_time: Duration,
    pub generation: u64,
    pub viewport: DanmakuViewport,
    pub atlas: Option<AtlasView>,
    pub items: Seq<DanmakuGlyphInstance>,
}

impl View for DanmakuRenderPlan {
    type V = PlanView;

    open spec fn view(&self) -> PlanView {
        PlanView {
            media_time: self.media_time,
            generation: self.generation,
            viewport: self.viewport,
            atlas: match self.atlas {
                Some(atlas) => Some(atlas@),
                None => None,
            },
            items: self.items@,
        }
    }
}

/// Whether two plans draw the same, whatever their times.
pub open spec fn same_drawing(left: PlanView, right: PlanView) -> bool {
    &&& left.viewport == right.viewport
    &&& left.atlas == right.atlas
    &&& left.items.len() == right.items.len()
    &&& forall|i: int| 0 <= i < left.items.len() ==> #[trigger] left.items[i].same(right.items[i])
}

impl DanmakuRenderPlan {
    /// A plan without comments.
    pub fn empty(media_time: Duration, generation: u64, viewport: DanmakuViewport) -> (plan: Self)
        ensures
            plan@ == (PlanView {
                media_time,
                generation,
                viewport,
                atlas: None,
                items: Seq::empty(),
            }),
    {
        DanmakuRenderPlan { media_time, generation, viewport, atlas: None, items: Vec::new() }
    }

    pub fn is_empty(&self) -> (empty: bool)
        ensures
            empty == (self.items@.len() == 0),
    {
        self.items.len() == 0
    }

    /// Whether another plan draws the same, whatever its time.
    pub fn draws_like(&self, other: &DanmakuRenderPlan) -> (same: bool)
        ensures
            same == same_drawing(self@, other@),
    {
        let same_atlas: bool = match (&self.atlas, &other.atlas) {
            (Some(a), Some(b)) => a.same_as(b),
            (None, None) => true,
            _ => false,
        };
        if self.viewport != other.viewport || !same_atlas || self.items.len()
            != other.items.len() {
            return false;
        }
        let mut i: usize = 0;
        while i < self.items.len()
            invariant
                i <= self.items@.len(),
                self.items@.len() == other.items@.len(),
                forall|j: int| 0 <= j < i ==> #[trigger] self.items@[j].same(other.items@[j]),
            decreases self.items@.len() - i,
        {
            if !self.items[i].equals(&other.items[i]) {
                assert(!self@.items[i as int].same(other@.items[i as int]));
                return false;
            }
            i = i + 1;
        }
        true
    }

    /// A plan of the same contents.
    pub fn duplicate(&self) -> (copy: DanmakuRenderPlan)
        ensures
            copy@ == self@,
    {
        let mut items: Vec<DanmakuGlyphInstance> = Vec::with_capacity(self.items.len());
        let mut i: usize = 0;
        while i < self.items.len()
            invariant
                i <= self.items@.len(),
                items@ == self.items@.take(i as int),
            decreases self.items@.len() - i,
        {
            items.push(self.items[i]);
            assert(items@ =~= self.items@.take(i + 1));
            i = i + 1;
        }
        assert(self.items@.take(i as int) =~= self.items@);
        let atlas: Option<DanmakuGlyphAtlas> = match &self.atlas {
            Some(atlas) => Some(atlas.duplicate()),
            None => None,
        };
        DanmakuRenderPlan {
            media_time: self.media_time,
            generation: self.generation,
            viewport: self.viewport,
            atlas,
            items,
        }
    }

    /// Whether the plan was made for the frame that is drawn: its generation,
    /// and its size where the frame's is known.
    pub fn fits(&self, generation: u64, width: Option<u32>, height: Option<u32>) -> (fits: bool)
        ensures
            fits == plan_fits(self@, generation, width, height),
    {
        let width_fits: bool = match width {
            Some(width) => self.viewport.width == width,
            None => true,
        };
        let height_fits: bool = match height {
            Some(height) => self.viewport.height == height,
            None => true,
        };
        self.generation == generation && width_fits && height_fits
    }
}

pub open spec fn plan_fits(
    plan: PlanView,
    generation: u64,
    width: Option<u32>,
    height: Option<u32>,
) -> bool {
    &&& plan.generation == generation
    &&& width matches Some(width) ==> plan.viewport.width == width
    &&& height matches Some(height) ==> plan.viewport.height == height
}

/// What is to be done so that a texture holds an atlas.
#[derive(Debug, Clone, Copy, PartialEq, Eq, Structural)]
pub enum AtlasAction {
    /// The texture holds it already.
    Reuse,
    /// A part of the texture is written, beginning at this byte of the atlas.
    Update { update: DanmakuAtlasUpdate, offset: usize },
    /// A new texture is made.
    Upload,
}

/// The texture of an atlas that is kept from frame to frame.
#[derive(Debug, Clone, Copy, PartialEq, Eq, Structural)]
pub struct DanmakuAtlasCache {
    pub key: AtlasKey,
}

impl DanmakuAtlasCache {
    /// Whether the texture holds the atlas.
    pub fn can_reuse_for(&self, atlas: &DanmakuGlyphAtlas) -> (reuse: bool)
        ensures
            reuse == (self.key == atlas@.key),
    {
        self.key == atlas.key()
    }
}

/// What is to be done so that a texture holds an atlas.
pub open spec fn atlas_action(
    cache: Option<DanmakuAtlasCache>,
    atlas: DanmakuGlyphAtlas,
) -> AtlasAction {
    match cache {
        None => AtlasAction::Upload,
        Some(cache) => if cache.key == atlas@.key {
            AtlasAction::Reuse
        } else {
            match atlas.update_from(cache.key) {
                Some(update) => AtlasAction::Update {
                    update,
                    offset: (update.y * atlas.stride + update.x) as usize,
                },
                None => AtlasAction::Upload,
            }
        },
    }
}

/// Brings the texture of an atlas up to date: reused where it holds the atlas,
/// written in part where an update leads there, and else made anew.
pub fn prepare_danmaku_atlas(
    cache: &mut Option<DanmakuAtlasCache>,
    atlas: &DanmakuGlyphAtlas,
) -> (action: AtlasAction)
    requires
        atlas.update matches Some(update) ==> update.y * atlas.stride + update.x <= usize::MAX,
    ensures
        action == atlas_action(*old(cache), *atlas),
        *final(cache) == Some(DanmakuAtlasCache { key: atlas@.key }),
{
    let mut action: AtlasAction = AtlasAction::Upload;
    if let Some(kept) = *cache {
        if kept.can_reuse_for(atlas) {
            return AtlasAction::Reuse;
        }
        if let Some(update) = atlas.incremental_update_from(kept.key) {
            proof {
                assert(0 <= update.y * atlas.stride) by (nonlinear_arith)
                    requires
                        update.y >= 0,
                        atlas.stride >= 0,
                ;
            }
            action =
            AtlasAction::Update {
                update,
                offset: update.y as usize * atlas.stride + update.x as usize,
            };
        }
    }
    *cache = Some(DanmakuAtlasCache { key: atlas.key() });
    action
}

/// An atlas that was prepared once is reused as long as it stays the same.
pub proof fn lemma_prepared_atlas_is_reused(atlas: DanmakuGlyphAtlas)
    ensures
        atlas_action(Some(DanmakuAtlasCache { key: atlas@.key }), atlas) == AtlasAction::Reuse,
{
}

/// The two coverages of an atlas.
#[derive(Debug, Clone, Copy, PartialEq, Eq, Structural)]
pub enum DanmakuAtlasTexture {
    Fill,
    Outline,
}

/// A layer that a glyph is drawn in.
#[derive(Debug, Clone, Copy, PartialEq, Eq, Structural)]
pub enum GlyphLayer {
    /// The outline in the shadow's colour, moved by the shadow's offset.
    Shadow,
    Outline,
    Fill,
}

impl GlyphLayer {
    /// The coverage that a layer is drawn with.
    pub fn texture(self) -> (texture: DanmakuAtlasTexture)
        ensures
            texture == if self == GlyphLayer::Fill {
                DanmakuAtlasTexture::Fill
            } else {
                DanmakuAtlasTexture::Outline
            },
    {
        if self == GlyphLayer::Fill {
            DanmakuAtlasTexture::Fill
        } else {
            DanmakuAtlasTexture::Outline
        }
    }
}

/// A layer of the glyph at an index of the plan.
#[derive(Debug, Clone, Copy, PartialEq, Eq, Structural)]
pub struct GlyphDraw {
    pub item: usize,
    pub layer: GlyphLayer,
}

/// The layers of one glyph, the lowest first. Shadows and outlines that cannot
/// be seen are left out.
pub open spec fn glyph_layers(item: DanmakuGlyphInstance) -> Seq<GlyphLayer> {
    let shadow = if is_above(item.shadow_rgba@[3], ZERO) {
        seq![GlyphLayer::Shadow]
    } else {
        seq![]
    };
    let outline = if is_above(item.outline_rgba@[3], ZERO) {
        seq![GlyphLayer::Outline]
    } else {
        seq![]
    };
    shadow + outline + seq![GlyphLayer::Fill]
}

/// The layers of a plan's glyphs, glyph after glyph.
pub open spec fn plan_layers(items: Seq<DanmakuGlyphInstance>) -> Seq<GlyphDraw>
    decreases items.len(),
{
    if items.len() == 0 {
        Seq::empty()
    } else {
        let item = (items.len() - 1) as usize;
        plan_layers(items.drop_last()) + glyph_layers(items.last()).map_values(
            |layer: GlyphLayer| GlyphDraw { item, layer },
        )
    }
}

/// The layers in which a plan's glyphs are drawn.
pub fn glyph_draws(items: &Vec<DanmakuGlyphInstance>) -> (draws: Vec<GlyphDraw>)
    ensures
        draws@ == plan_layers(items@),
{
    let mut draws: Vec<GlyphDraw> = Vec::new();
    let mut i: usize = 0;
    assert(items@.take(0) =~= Seq::empty());
    while i < items.len()
        invariant
            i <= items@.len(),
            draws@ == plan_layers(items@.take(i as int)),
        decreases items@.len() - i,
    {
        let item: DanmakuGlyphInstance = items[i];
        let ghost before = draws@;
        let shadow: FloatBits = item.shadow_rgba[3];
        let outline: FloatBits = item.outline_rgba[3];
        if ZERO < shadow && shadow <= INFINITY {
            draws.push(GlyphDraw { item: i, layer: GlyphLayer::Shadow });
        }
        if ZERO < outline && outline <= INFINITY {
            draws.push(GlyphDraw { item: i, layer: GlyphLayer::Outline });
        }
        draws.push(GlyphDraw { item: i, layer: GlyphLayer::Fill });
        proof {
            let longer = items@.take(i + 1);
            assert(longer.drop_last() =~= items@.take(i as int));
            assert(longer.last() == item);
            let layers = glyph_layers(item);
            let mapped = layers.map_values(|layer: GlyphLayer| GlyphDraw { item: i, layer });
            assert(draws@ =~= before + mapped);
            assert(plan_layers(longer) =~= before + mapped);
        }
        i = i + 1;
    }
    assert(items@.take(i as int) =~= items@);
    draws
}

/// Every glyph is filled, so no plan with glyphs is drawn as nothing.
pub proof fn lemma_every_glyph_is_drawn(items: Seq<DanmakuGlyphInstance>, index: int)
    requires
        0 <= index < items.len(),
        items.len() <= usize::MAX,
    ensures
        plan_layers(items).contains(GlyphDraw { item: index as usize, layer: GlyphLayer::Fill }),
    decreases items.len(),
{
    let wanted = GlyphDraw { item: index as usize, layer: GlyphLayer::Fill };
    let last = (items.len() - 1) as usize;
    let rest = plan_layers(items.drop_last());
    let layers = glyph_layers(items.last());
    let mapped = layers.map_values(|layer: GlyphLayer| GlyphDraw { item: last, layer });
    assert(plan_layers(items) == rest + mapped);
    if index == items.len() - 1 {
        assert(layers[layers.len() - 1] == GlyphLayer::Fill);
        assert(mapped[layers.len() - 1] == wanted);
        assert((rest + mapped)[rest.len() + layers.len() - 1] == wanted);
    } else {
        lemma_every_glyph_is_drawn(items.drop_last(), index);
        let at = rest.index_of(wanted);
        assert((rest + mapped)[at] == wanted);
    }
}

} // verus!
