//! Overlays: subtitle planes, alpha coverage bitmaps and the atlas that packs
//! them.

use crate::time::Duration;
use vstd::arithmetic::div_mod::{lemma_fundamental_div_mod, lemma_fundamental_div_mod_converse};
use vstd::arithmetic::mul::{
    lemma_mul_inequality, lemma_mul_is_commutative, lemma_mul_is_distributive_add_other_way,
};
use vstd::prelude::*;

verus! {

#[derive(Debug, Clone, Copy, PartialEq, Eq, Structural)]
pub struct OverlayViewport {
    pub width: u32,
    pub height: u32,
}

impl OverlayViewport {
    pub fn new(width: u32, height: u32) -> (viewport: Self)
        ensures
            viewport == (OverlayViewport { width, height }),
    {
        OverlayViewport { width, height }
    }
}

/// A straight RGBA subtitle plane.
#[derive(Debug, Clone, PartialEq, Eq)]
pub struct SubtitleBitmapPlane {
    pub x: i32,
    pub y: i32,
    pub width: u32,
    pub height: u32,
    pub rgba: Vec<u8>,
}

impl SubtitleBitmapPlane {
    pub fn new(x: i32, y: i32, width: u32, height: u32, rgba: Vec<u8>) -> (plane: Self)
        ensures
            plane == (SubtitleBitmapPlane { x, y, width, height, rgba }),
    {
        SubtitleBitmapPlane { x, y, width, height, rgba }
    }
}

/// A subtitle plane by its contents.
#[verifier::ext_equal]
pub struct PlaneView {
    pub x: i32,
    pub y: i32,
    pub width: u32,
    pub height: u32,
    pub rgba: Seq<u8>,
}

impl View for SubtitleBitmapPlane {
    type V = PlaneView;

    open spec fn view(&self) -> PlaneView {
        PlaneView {
            x: self.x,
            y: self.y,
            width: self.width,
            height: self.height,
            rgba: self.rgba@,
        }
    }
}

#[derive(Debug, Clone, Copy, PartialEq, Eq, Structural)]
pub struct SubtitleBitmapPlacement {
    pub x: i32,
    pub y: i32,
    pub width: u32,
    pub height: u32,
}

impl SubtitleBitmapPlacement {
    pub fn new(x: i32, y: i32, width: u32, height: u32) -> (placement: Self)
        ensures
            placement == (SubtitleBitmapPlacement { x, y, width, height }),
    {
        SubtitleBitmapPlacement { x, y, width, height }
    }
}

/// An alpha coverage bitmap that is tinted with one colour.
#[derive(Debug, Clone, PartialEq, Eq)]
pub struct SubtitleAlphaBitmap {
    pub placement: SubtitleBitmapPlacement,
    /// Bytes from one row to the next.
    pub stride: usize,
    pub color_rgba: u32,
    pub alpha: Vec<u8>,
}

/// The bytes that the rows of a bitmap span.
pub open spec fn bitmap_span(width: u32, height: u32, stride: usize) -> int {
    if height == 0 {
        0
    } else {
        (height - 1) * stride + width
    }
}

impl SubtitleAlphaBitmap {
    pub fn new(
        placement: SubtitleBitmapPlacement,
        stride: usize,
        color_rgba: u32,
        alpha: Vec<u8>,
    ) -> (bitmap: Self)
        ensures
            bitmap == (SubtitleAlphaBitmap { placement, stride, color_rgba, alpha }),
    {
        SubtitleAlphaBitmap { placement, stride, color_rgba, alpha }
    }

    pub open spec fn empty(self) -> bool {
        self.placement.width == 0 || self.placement.height == 0
    }

    /// Every row lies within the bitmap's bytes and rows do not overlap.
    pub open spec fn valid(self) -> bool {
        &&& self.stride >= self.placement.width
        &&& self.alpha@.len() >= bitmap_span(
            self.placement.width,
            self.placement.height,
            self.stride,
        )
    }

    pub fn is_empty(&self) -> (empty: bool)
        ensures
            empty == self.empty(),
    {
        self.placement.width == 0 || self.placement.height == 0
    }

    /// The bytes that the bitmap needs, or `None` where no buffer holds that
    /// many.
    pub fn required_len(&self) -> (len: Option<usize>)
        ensures
            match len {
                Some(len) => len == bitmap_span(
                    self.placement.width,
                    self.placement.height,
                    self.stride,
                ),
                None => bitmap_span(self.placement.width, self.placement.height, self.stride)
                    > usize::MAX,
            },
    {
        if self.placement.height == 0 {
            return Some(0);
        }
        let rows: usize = (self.placement.height - 1) as usize;
        match rows.checked_mul(self.stride) {
            Some(bytes) => bytes.checked_add(self.placement.width as usize),
            None => None,
        }
    }

    pub fn is_valid(&self) -> (valid: bool)
        ensures
            valid == self.valid(),
    {
        if self.stride < self.placement.width as usize {
            return false;
        }
        let actual: usize = self.alpha.len();
        match self.required_len() {
            Some(len) => actual >= len,
            None => false,
        }
    }
}

/// An alpha coverage bitmap by its contents.
#[verifier::ext_equal]
pub struct AlphaBitmapView {
    pub placement: SubtitleBitmapPlacement,
    pub stride: usize,
    pub color_rgba: u32,
    pub alpha: Seq<u8>,
}

impl View for SubtitleAlphaBitmap {
    type V = AlphaBitmapView;

    open spec fn view(&self) -> AlphaBitmapView {
        AlphaBitmapView {
            placement: self.placement,
            stride: self.stride,
            color_rgba: self.color_rgba,
            alpha: self.alpha@,
        }
    }
}

/// What is composited over a video frame at some media time.
#[derive(Debug, Clone, PartialEq, Eq)]
pub struct OverlayFrame {
    pub pts: Duration,
    pub viewport: OverlayViewport,
    pub subtitle_planes: Vec<SubtitleBitmapPlane>,
    pub subtitle_alpha_planes: Vec<SubtitleAlphaBitmap>,
    pub subtitle_changed: bool,
}

/// The planes of an overlay by their contents.
pub open spec fn plane_views(planes: Seq<SubtitleBitmapPlane>) -> Seq<PlaneView> {
    Seq::new(planes.len(), |i: int| planes[i]@)
}

/// The alpha bitmaps of an overlay by their contents.
pub open spec fn alpha_views(bitmaps: Seq<SubtitleAlphaBitmap>) -> Seq<AlphaBitmapView> {
    Seq::new(bitmaps.len(), |i: int| bitmaps[i]@)
}

/// An overlay frame by its contents.
#[verifier::ext_equal]
pub struct OverlayView {
    pub pts: Duration,
    pub viewport: OverlayViewport,
    pub subtitle_planes: Seq<PlaneView>,
    pub subtitle_alpha_planes: Seq<AlphaBitmapView>,
    pub subtitle_changed: bool,
}

impl View for OverlayFrame {
    type V = OverlayView;

    open spec fn view(&self) -> OverlayView {
        OverlayView {
            pts: self.pts,
            viewport: self.viewport,
            subtitle_planes: plane_views(self.subtitle_planes@),
            subtitle_alpha_planes: alpha_views(self.subtitle_alpha_planes@),
            subtitle_changed: self.subtitle_changed,
        }
    }
}

/// Whether two overlays look the same, whatever their times.
pub open spec fn same_picture(left: OverlayView, right: OverlayView) -> bool {
    &&& left.viewport == right.viewport
    &&& left.subtitle_planes == right.subtitle_planes
    &&& left.subtitle_alpha_planes == right.subtitle_alpha_planes
}

/// Whether two byte strings are equal.
pub fn same_bytes(left: &Vec<u8>, right: &Vec<u8>) -> (same: bool)
    ensures
        same == (left@ == right@),
{
    if left.len() != right.len() {
        return false;
    }
    let mut i: usize = 0;
    while i < left.len()
        invariant
            i <= left@.len(),
            left@.len() == right@.len(),
            forall|j: int| 0 <= j < i ==> left@[j] == right@[j],
        decreases left@.len() - i,
    {
        if left[i] != right[i] {
            return false;
        }
        i = i + 1;
    }
    assert(left@ =~= right@);
    true
}

/// A copy of a byte string.
pub fn copy_bytes(bytes: &Vec<u8>) -> (copy: Vec<u8>)
    ensures
        copy@ == bytes@,
{
    let mut copy: Vec<u8> = Vec::with_capacity(bytes.len());
    let mut i: usize = 0;
    while i < bytes.len()
        invariant
            i <= bytes@.len(),
            copy@ == bytes@.take(i as int),
        decreases bytes@.len() - i,
    {
        copy.push(bytes[i]);
        assert(copy@ =~= bytes@.take(i + 1));
        i = i + 1;
    }
    assert(bytes@.take(i as int) =~= bytes@);
    copy
}

fn same_planes(left: &Vec<SubtitleBitmapPlane>, right: &Vec<SubtitleBitmapPlane>) -> (same: bool)
    ensures
        same == (plane_views(left@) == plane_views(right@)),
{
    if left.len() != right.len() {
        assert(plane_views(left@).len() != plane_views(right@).len());
        return false;
    }
    let mut i: usize = 0;
    while i < left.len()
        invariant
            i <= left@.len(),
            left@.len() == right@.len(),
            forall|j: int| 0 <= j < i ==> plane_views(left@)[j] == plane_views(right@)[j],
        decreases left@.len() - i,
    {
        let a: &SubtitleBitmapPlane = &left[i];
        let b: &SubtitleBitmapPlane = &right[i];
        let same: bool = a.x == b.x && a.y == b.y && a.width == b.width && a.height == b.height
            && same_bytes(&a.rgba, &b.rgba);
        assert(same == (a@ == b@));
        if !same {
            assert(plane_views(left@)[i as int] != plane_views(right@)[i as int]);
            return false;
        }
        i = i + 1;
    }
    assert(plane_views(left@) =~= plane_views(right@));
    true
}

fn same_alpha_bitmaps(left: &Vec<SubtitleAlphaBitmap>, right: &Vec<SubtitleAlphaBitmap>) -> (same:
    bool)
    ensures
        same == (alpha_views(left@) == alpha_views(right@)),
{
    if left.len() != right.len() {
        assert(alpha_views(left@).len() != alpha_views(right@).len());
        return false;
    }
    let mut i: usize = 0;
    while i < left.len()
        invariant
            i <= left@.len(),
            left@.len() == right@.len(),
            forall|j: int| 0 <= j < i ==> alpha_views(left@)[j] == alpha_views(right@)[j],
        decreases left@.len() - i,
    {
        let a: &SubtitleAlphaBitmap = &left[i];
        let b: &SubtitleAlphaBitmap = &right[i];
        let same: bool = a.placement == b.placement && a.stride == b.stride && a.color_rgba
            == b.color_rgba && same_bytes(&a.alpha, &b.alpha);
        assert(same == (a@ == b@));
        if !same {
            assert(alpha_views(left@)[i as int] != alpha_views(right@)[i as int]);
            return false;
        }
        i = i + 1;
    }
    assert(alpha_views(left@) =~= alpha_views(right@));
    true
}

impl OverlayFrame {
    /// Whether another overlay looks the same, whatever its time.
    pub fn looks_like(&self, other: &OverlayFrame) -> (same: bool)
        ensures
            same == same_picture(self@, other@),
    {
        self.viewport == other.viewport && same_planes(
            &self.subtitle_planes,
            &other.subtitle_planes,
        ) && same_alpha_bitmaps(&self.subtitle_alpha_planes, &other.subtitle_alpha_planes)
    }

    /// An overlay of the same contents.
    pub fn duplicate(&self) -> (copy: OverlayFrame)
        ensures
            copy@ == self@,
    {
        let mut subtitle_planes: Vec<SubtitleBitmapPlane> = Vec::new();
        let mut i: usize = 0;
        while i < self.subtitle_planes.len()
            invariant
                i <= self.subtitle_planes@.len(),
                plane_views(subtitle_planes@) == plane_views(self.subtitle_planes@).take(i as int),
            decreases self.subtitle_planes@.len() - i,
        {
            let plane: &SubtitleBitmapPlane = &self.subtitle_planes[i];
            let ghost before = subtitle_planes@;
            assert(plane_views(before).len() == i);
            subtitle_planes.push(
                SubtitleBitmapPlane {
                    x: plane.x,
                    y: plane.y,
                    width: plane.width,
                    height: plane.height,
                    rgba: copy_bytes(&plane.rgba),
                },
            );
            proof {
                assert forall|j: int| 0 <= j < i implies plane_views(subtitle_planes@)[j]
                    == plane_views(self.subtitle_planes@)[j] by {
                    assert(plane_views(before)[j] == plane_views(self.subtitle_planes@).take(
                        i as int,
                    )[j]);
                }
                assert(subtitle_planes@[i as int]@ == plane@);
                assert(plane_views(subtitle_planes@) =~= plane_views(self.subtitle_planes@).take(
                    i + 1,
                ));
            }
            i = i + 1;
        }
        let mut subtitle_alpha_planes: Vec<SubtitleAlphaBitmap> = Vec::new();
        let mut k: usize = 0;
        while k < self.subtitle_alpha_planes.len()
            invariant
                k <= self.subtitle_alpha_planes@.len(),
                alpha_views(subtitle_alpha_planes@) == alpha_views(
                    self.subtitle_alpha_planes@,
                ).take(k as int),
            decreases self.subtitle_alpha_planes@.len() - k,
        {
            let bitmap: &SubtitleAlphaBitmap = &self.subtitle_alpha_planes[k];
            let ghost before = subtitle_alpha_planes@;
            assert(alpha_views(before).len() == k);
            subtitle_alpha_planes.push(
                SubtitleAlphaBitmap {
                    placement: bitmap.placement,
                    stride: bitmap.stride,
                    color_rgba: bitmap.color_rgba,
                    alpha: copy_bytes(&bitmap.alpha),
                },
            );
            proof {
                assert forall|j: int| 0 <= j < k implies alpha_views(subtitle_alpha_planes@)[j]
                    == alpha_views(self.subtitle_alpha_planes@)[j] by {
                    assert(alpha_views(before)[j] == alpha_views(self.subtitle_alpha_planes@).take(
                        k as int,
                    )[j]);
                }
                assert(subtitle_alpha_planes@[k as int]@ == bitmap@);
                assert(alpha_views(subtitle_alpha_planes@) =~= alpha_views(
                    self.subtitle_alpha_planes@,
                ).take(k + 1));
            }
            k = k + 1;
        }
        let copy: OverlayFrame = OverlayFrame {
            pts: self.pts,
            viewport: self.viewport,
            subtitle_planes,
            subtitle_alpha_planes,
            subtitle_changed: self.subtitle_changed,
        };
        assert(copy@ =~= self@);
        copy
    }
}

pub fn overlay_has_planes(frame: &OverlayFrame) -> (has_planes: bool)
    ensures
        has_planes <==> frame.subtitle_planes@.len() > 0 || frame.subtitle_alpha_planes@.len() > 0,
{
    frame.subtitle_planes.len() > 0 || frame.subtitle_alpha_planes.len() > 0
}

/// The planes that an overlay frame brings, counted as they are prepared.
pub fn plane_count(frame: &OverlayFrame) -> (count: usize)
    ensures
        count == if frame.subtitle_planes@.len() + frame.subtitle_alpha_planes@.len()
            <= usize::MAX {
            (frame.subtitle_planes@.len() + frame.subtitle_alpha_planes@.len()) as int
        } else {
            usize::MAX as int
        },
{
    frame.subtitle_planes.len().saturating_add(frame.subtitle_alpha_planes.len())
}

/// What is to be done with an RGBA plane.
#[derive(Debug, Clone, Copy, PartialEq, Eq, Structural)]
pub enum PlaneCheck {
    /// There is nothing to draw.
    Skip,
    /// The plane is drawn with this many bytes per row.
    Draw { bytes_per_row: u32 },
    /// The plane does not have the bytes that it should.
    WrongSize { actual: usize, expected: usize },
}

/// Holds an RGBA plane's bytes against its size.
pub fn check_rgba_plane(plane: &SubtitleBitmapPlane) -> (check: PlaneCheck)
    requires
        plane.width * plane.height * 4 <= usize::MAX,
        plane.width * 4 <= u32::MAX,
    ensures
        check == if plane.width == 0 || plane.height == 0 {
            PlaneCheck::Skip
        } else if plane.rgba@.len() != plane.width * plane.height * 4 {
            PlaneCheck::WrongSize {
                actual: plane.rgba@.len() as usize,
                expected: (plane.width * plane.height * 4) as usize,
            }
        } else {
            PlaneCheck::Draw { bytes_per_row: (plane.width * 4) as u32 }
        },
{
    if plane.width == 0 || plane.height == 0 {
        return PlaneCheck::Skip;
    }
    proof {
        assert(plane.width * plane.height <= plane.width * plane.height * 4) by (nonlinear_arith)
            requires
                plane.width >= 0,
                plane.height >= 0,
        ;
    }
    let expected: usize = plane.width as usize * plane.height as usize * 4;
    if plane.rgba.len() != expected {
        return PlaneCheck::WrongSize { actual: plane.rgba.len(), expected };
    }
    PlaneCheck::Draw { bytes_per_row: plane.width * 4 }
}

/// The width of the atlas that holds the bitmaps side by side.
pub open spec fn atlas_width(bitmaps: Seq<SubtitleAlphaBitmap>) -> nat
    decreases bitmaps.len(),
{
    if bitmaps.len() == 0 {
        0
    } else if bitmaps.last().empty() {
        atlas_width(bitmaps.drop_last())
    } else {
        atlas_width(bitmaps.drop_last()) + bitmaps.last().placement.width as nat
    }
}

/// The height of the atlas: that of its tallest bitmap.
pub open spec fn atlas_height(bitmaps: Seq<SubtitleAlphaBitmap>) -> nat
    decreases bitmaps.len(),
{
    if bitmaps.len() == 0 {
        0
    } else {
        let rest = atlas_height(bitmaps.drop_last());
        if bitmaps.last().empty() || bitmaps.last().placement.height <= rest {
            rest
        } else {
            bitmaps.last().placement.height as nat
        }
    }
}

/// The byte of the atlas at a column and a row: that of the bitmap that
/// stands there, and nothing below it.
pub open spec fn atlas_pixel(bitmaps: Seq<SubtitleAlphaBitmap>, column: int, row: int) -> u8
    decreases bitmaps.len(),
{
    if bitmaps.len() == 0 {
        0
    } else {
        let last = bitmaps.last();
        let left = atlas_width(bitmaps.drop_last());
        if !last.empty() && left <= column < left + last.placement.width {
            if row < last.placement.height {
                last.alpha@[row * last.stride + (column - left)]
            } else {
                0
            }
        } else {
            atlas_pixel(bitmaps.drop_last(), column, row)
        }
    }
}

/// Whether the first `count` bitmaps are empty or valid.
pub open spec fn drawable(bitmaps: Seq<SubtitleAlphaBitmap>, count: int) -> bool {
    forall|i: int| 0 <= i < count ==> #[trigger] bitmaps[i].empty() || bitmaps[i].valid()
}

/// A bitmap and the column of the atlas at which it begins.
#[derive(Debug, Clone, Copy, PartialEq, Eq, Structural)]
pub struct AtlasPlacement {
    pub index: usize,
    pub atlas_x: usize,
}

/// The places of the bitmaps in the atlas, in order, without the empty ones.
pub open spec fn atlas_placements(bitmaps: Seq<SubtitleAlphaBitmap>) -> Seq<AtlasPlacement>
    decreases bitmaps.len(),
{
    if bitmaps.len() == 0 {
        Seq::empty()
    } else if bitmaps.last().empty() {
        atlas_placements(bitmaps.drop_last())
    } else {
        atlas_placements(bitmaps.drop_last()).push(
            AtlasPlacement {
                index: (bitmaps.len() - 1) as usize,
                atlas_x: atlas_width(bitmaps.drop_last()) as usize,
            },
        )
    }
}

/// Alpha bitmaps packed side by side.
#[derive(Debug)]
pub struct AlphaAtlas {
    pub width: usize,
    pub height: usize,
    /// Rows of `width` bytes, top to bottom.
    pub pixels: Vec<u8>,
    pub placements: Vec<AtlasPlacement>,
}

/// A bitmap whose bytes do not cover its rows.
#[derive(Debug, Clone, Copy, PartialEq, Eq, Structural)]
pub struct InvalidAlphaBitmap {
    pub index: usize,
}

/// A prefix of the bitmaps is never wider or taller than all of them.
pub(crate) proof fn lemma_prefix_fits(bitmaps: Seq<SubtitleAlphaBitmap>, count: int)
    requires
        0 <= count <= bitmaps.len(),
    ensures
        atlas_width(bitmaps.take(count)) <= atlas_width(bitmaps),
        atlas_height(bitmaps.take(count)) <= atlas_height(bitmaps),
    decreases bitmaps.len() - count,
{
    if count < bitmaps.len() {
        lemma_prefix_fits(bitmaps, count + 1);
        assert(bitmaps.take(count + 1).drop_last() =~= bitmaps.take(count));
    } else {
        assert(bitmaps.take(count) =~= bitmaps);
    }
}

/// A bitmap is never taller than the atlas that it is in, and ends within it.
proof fn lemma_bitmap_fits(bitmaps: Seq<SubtitleAlphaBitmap>, index: int)
    requires
        0 <= index < bitmaps.len(),
        !bitmaps[index].empty(),
    ensures
        bitmaps[index].placement.height <= atlas_height(bitmaps),
        atlas_width(bitmaps.take(index)) + bitmaps[index].placement.width == atlas_width(
            bitmaps.take(index + 1),
        ),
        atlas_width(bitmaps.take(index + 1)) <= atlas_width(bitmaps),
{
    assert(bitmaps.take(index + 1).drop_last() =~= bitmaps.take(index));
    assert(bitmaps.take(index + 1).last() == bitmaps[index]);
    lemma_prefix_fits(bitmaps, index + 1);
}

/// A flat index in rows of `width` is its row and its column.
proof fn lemma_flat_index(row: int, column: int, width: int)
    requires
        0 <= column < width,
        0 <= row,
    ensures
        (row * width + column) / width == row,
        (row * width + column) % width == column,
{
    lemma_fundamental_div_mod_converse(row * width + column, width, row, column);
}

/// A flat index below `rows * width` is in one of the rows.
proof fn lemma_flat_row(index: int, rows: int, width: int)
    requires
        0 <= index < rows * width,
        width > 0,
    ensures
        0 <= index / width < rows,
        0 <= index % width < width,
        index == (index / width) * width + index % width,
{
    lemma_fundamental_div_mod(index, width);
    lemma_mul_is_commutative(index / width, width);
    assert(0 <= index / width < rows) by (nonlinear_arith)
        requires
            index == width * (index / width) + index % width,
            0 <= index % width < width,
            0 <= index < rows * width,
            width > 0,
    ;
}

/// Packs alpha coverage bitmaps side by side. Nothing comes of bitmaps that
/// are all empty; the first one whose bytes do not cover its rows is reported.
pub fn pack_alpha_atlas(bitmaps: &Vec<SubtitleAlphaBitmap>) -> (atlas: Result<
    Option<AlphaAtlas>,
    InvalidAlphaBitmap,
>)
    requires
        atlas_width(bitmaps@) <= usize::MAX,
        atlas_width(bitmaps@) * atlas_height(bitmaps@) <= usize::MAX,
    ensures
        match atlas {
            Ok(None) => atlas_width(bitmaps@) == 0 || atlas_height(bitmaps@) == 0,
            Ok(Some(atlas)) => {
                &&& atlas_width(bitmaps@) > 0 && atlas_height(bitmaps@) > 0
                &&& drawable(bitmaps@, bitmaps@.len() as int)
                &&& atlas.width == atlas_width(bitmaps@)
                &&& atlas.height == atlas_height(bitmaps@)
                &&& atlas.placements@ == atlas_placements(bitmaps@)
                &&& atlas.pixels@ == Seq::new(
                    (atlas.width * atlas.height) as nat,
                    |k: int| atlas_pixel(bitmaps@, k % atlas.width as int, k / atlas.width as int),
                )
            },
            Err(invalid) => {
                &&& atlas_width(bitmaps@) > 0 && atlas_height(bitmaps@) > 0
                &&& invalid.index < bitmaps@.len()
                &&& !bitmaps@[invalid.index as int].empty()
                &&& !bitmaps@[invalid.index as int].valid()
                &&& drawable(bitmaps@, invalid.index as int)
            },
        },
{
    let mut width: usize = 0;
    let mut height: usize = 0;
    let mut index: usize = 0;
    assert(bitmaps@.take(0) =~= Seq::empty());
    while index < bitmaps.len()
        invariant
            index <= bitmaps@.len(),
            width == atlas_width(bitmaps@.take(index as int)),
            height == atlas_height(bitmaps@.take(index as int)),
            atlas_width(bitmaps@) <= usize::MAX,
        decreases bitmaps@.len() - index,
    {
        proof {
            assert(bitmaps@.take(index + 1).drop_last() =~= bitmaps@.take(index as int));
            assert(bitmaps@.take(index + 1).last() == bitmaps@[index as int]);
            lemma_prefix_fits(bitmaps@, index + 1);
        }
        let bitmap: &SubtitleAlphaBitmap = &bitmaps[index];
        if !bitmap.is_empty() {
            width = width + bitmap.placement.width as usize;
            if height < bitmap.placement.height as usize {
                height = bitmap.placement.height as usize;
            }
        }
        index = index + 1;
    }
    assert(bitmaps@.take(index as int) =~= bitmaps@);
    if width == 0 || height == 0 {
        return Ok(None);
    }
    let mut pixels: Vec<u8> = vec![0u8; width * height];
    let mut placements: Vec<AtlasPlacement> = Vec::new();
    let mut left: usize = 0;
    let mut index: usize = 0;
    assert(bitmaps@.take(0) =~= Seq::empty());
    while index < bitmaps.len()
        invariant
            width == atlas_width(bitmaps@),
            height == atlas_height(bitmaps@),
            width > 0,
            height > 0,
            width * height <= usize::MAX,
            index <= bitmaps@.len(),
            drawable(bitmaps@, index as int),
            left == atlas_width(bitmaps@.take(index as int)),
            left <= width,
            placements@ == atlas_placements(bitmaps@.take(index as int)),
            pixels@.len() == width * height,
            forall|k: int|
                0 <= k < width * height ==> #[trigger] pixels@[k] == if k % width as int >= left {
                    0
                } else {
                    atlas_pixel(
                        bitmaps@.take(index as int),
                        k % width as int,
                        k / width as int,
                    )
                },
        decreases bitmaps@.len() - index,
    {
        let ghost prefix = bitmaps@.take(index as int);
        let ghost longer = bitmaps@.take(index + 1);
        proof {
            assert(longer.drop_last() =~= prefix);
            assert(longer.last() == bitmaps@[index as int]);
        }
        let bitmap: &SubtitleAlphaBitmap = &bitmaps[index];
        if !bitmap.is_empty() {
            if !bitmap.is_valid() {
                return Err(InvalidAlphaBitmap { index });
            }
            proof {
                lemma_bitmap_fits(bitmaps@, index as int);
            }
            let ghost before = pixels@;
            copy_bitmap(&mut pixels, width, height, left, bitmap);
            placements.push(AtlasPlacement { index, atlas_x: left });
            proof {
                let right = left + bitmap.placement.width;
                assert forall|k: int| 0 <= k < width * height implies #[trigger] pixels@[k]
                    == if k % width as int >= right {
                    0
                } else {
                    atlas_pixel(longer, k % width as int, k / width as int)
                } by {
                    lemma_flat_row(k, height as int, width as int);
                    assert(before[k] == before[k]);
                }
            }
            left = left + bitmap.placement.width as usize;
        } else {
            assert forall|k: int| 0 <= k < width * height implies #[trigger] pixels@[k] == if k
                % width as int >= left {
                0
            } else {
                atlas_pixel(longer, k % width as int, k / width as int)
            } by {}
        }
        index = index + 1;
    }
    proof {
        assert(bitmaps@.take(index as int) =~= bitmaps@);
        assert forall|k: int| 0 <= k < width * height implies #[trigger] pixels@[k] == atlas_pixel(
            bitmaps@,
            k % width as int,
            k / width as int,
        ) by {
            lemma_mul_is_commutative(width as int, height as int);
            lemma_flat_row(k, height as int, width as int);
        }
        assert(pixels@ =~= Seq::new(
            (width * height) as nat,
            |k: int| atlas_pixel(bitmaps@, k % width as int, k / width as int),
        ));
    }
    Ok(Some(AlphaAtlas { width, height, pixels, placements }))
}

/// Copies a bitmap's rows into the atlas, beginning at the column `left`.
fn copy_bitmap(
    pixels: &mut Vec<u8>,
    width: usize,
    height: usize,
    left: usize,
    bitmap: &SubtitleAlphaBitmap,
)
    requires
        old(pixels)@.len() == width * height,
        width * height <= usize::MAX,
        width > 0,
        bitmap.valid(),
        !bitmap.empty(),
        left + bitmap.placement.width <= width,
        bitmap.placement.height <= height,
    ensures
        final(pixels)@.len() == old(pixels)@.len(),
        forall|k: int|
            0 <= k < width * height ==> #[trigger] final(pixels)@[k] == {
                let column = k % width as int;
                let row = k / width as int;
                if left <= column < left + bitmap.placement.width && row < bitmap.placement.height {
                    bitmap.alpha@[row * bitmap.stride + (column - left)]
                } else {
                    old(pixels)@[k]
                }
            },
{
    let ghost before = pixels@;
    let bytes: usize = bitmap.alpha.len();
    let bitmap_width: usize = bitmap.placement.width as usize;
    let bitmap_height: usize = bitmap.placement.height as usize;
    let mut row: usize = 0;
    let mut source: usize = 0;
    let mut target: usize = left;
    proof {
        assert(0 * bitmap.stride == 0 && 0 * width == 0) by (nonlinear_arith);
    }
    while row < bitmap_height
        invariant
            pixels@.len() == width * height,
            before.len() == width * height,
            width * height <= usize::MAX,
            width > 0,
            bitmap.valid(),
            !bitmap.empty(),
            bytes == bitmap.alpha@.len(),
            bitmap_width == bitmap.placement.width,
            bitmap_height == bitmap.placement.height,
            left + bitmap_width <= width,
            bitmap_height <= height,
            row <= bitmap_height,
            row < bitmap_height ==> source == row * bitmap.stride && target == row * width + left,
            forall|k: int|
                0 <= k < width * height ==> #[trigger] pixels@[k] == if left <= k % width as int
                    && k % (width as int) < left + bitmap_width && k / (width as int) < row {
                    bitmap.alpha@[(k / width as int) * bitmap.stride + (k % width as int - left)]
                } else {
                    before[k]
                },
        decreases bitmap_height - row,
    {
        proof {
            lemma_mul_inequality(row as int, (bitmap_height - 1) as int, bitmap.stride as int);
            lemma_mul_inequality((row + 1) as int, height as int, width as int);
            lemma_mul_is_commutative(width as int, height as int);
            lemma_mul_is_distributive_add_other_way(width as int, row as int, 1);
            lemma_mul_inequality(0, row as int, width as int);
            lemma_mul_inequality(0, row as int, bitmap.stride as int);
        }
        assert(source + bitmap_width <= bitmap.alpha@.len());
        assert(target + bitmap_width <= width * height);
        let mut column: usize = 0;
        while column < bitmap_width
            invariant
                pixels@.len() == width * height,
                before.len() == width * height,
                width * height <= usize::MAX,
                width > 0,
                left + bitmap_width <= width,
                row < bitmap_height <= height,
                column <= bitmap_width,
                bytes == bitmap.alpha@.len(),
                source == row * bitmap.stride,
                target == row * width + left,
                source + bitmap_width <= bitmap.alpha@.len(),
                target + bitmap_width <= width * height,
                forall|k: int|
                    0 <= k < width * height ==> #[trigger] pixels@[k] == if left <= k % width as int
                        && k % (width as int) < left + bitmap_width && (k / (width as int) < row || (k
                        / width as int == row && k % (width as int) < left + column)) {
                        bitmap.alpha@[(k / width as int) * bitmap.stride + (k % width as int
                            - left)]
                    } else {
                        before[k]
                    },
            decreases bitmap_width - column,
        {
            let ghost old_pixels = pixels@;
            let at: usize = target + column;
            proof {
                lemma_flat_index(row as int, (left + column) as int, width as int);
            }
            pixels.set(at, bitmap.alpha[source + column]);
            proof {
                assert forall|k: int| 0 <= k < width * height implies #[trigger] pixels@[k]
                    == if left <= k % width as int && k % (width as int) < left + bitmap_width && (k / (
                width as int) < row || (k / width as int == row && k % (width as int) < left + column
                    + 1)) {
                    bitmap.alpha@[(k / width as int) * bitmap.stride + (k % width as int - left)]
                } else {
                    before[k]
                } by {
                    lemma_mul_is_commutative(width as int, height as int);
                    lemma_flat_row(k, height as int, width as int);
                    if k != at {
                        assert(pixels@[k] == old_pixels[k]);
                    }
                }
            }
            column = column + 1;
        }
        row = row + 1;
        if row < bitmap_height {
            proof {
                lemma_mul_is_distributive_add_other_way(bitmap.stride as int, (row - 1) as int, 1);
                lemma_mul_inequality(row as int, (bitmap_height - 1) as int, bitmap.stride as int);
                lemma_mul_inequality((row + 1) as int, height as int, width as int);
                lemma_mul_is_distributive_add_other_way(width as int, row as int, 1);
            }
            source = source + bitmap.stride;
            target = target + width;
        }
    }
}

/// Every byte of a bitmap is found again in the atlas, at the bitmap's place.
pub proof fn lemma_atlas_holds_every_bitmap(
    bitmaps: Seq<SubtitleAlphaBitmap>,
    index: int,
    column: int,
    row: int,
)
    requires
        0 <= index < bitmaps.len(),
        !bitmaps[index].empty(),
        0 <= column < bitmaps[index].placement.width,
        0 <= row < bitmaps[index].placement.height,
    ensures
        atlas_pixel(bitmaps, atlas_width(bitmaps.take(index)) + column, row)
            == bitmaps[index].alpha@[row * bitmaps[index].stride + column],
    decreases bitmaps.len(),
{
    if index == bitmaps.len() - 1 {
        assert(bitmaps.take(index) =~= bitmaps.drop_last());
    } else {
        lemma_atlas_holds_every_bitmap(bitmaps.drop_last(), index, column, row);
        assert(bitmaps.drop_last().take(index) =~= bitmaps.take(index));
        lemma_bitmap_fits(bitmaps.drop_last(), index);
    }
}

/// Two bitmaps never share a column of the atlas.
pub proof fn lemma_atlas_places_do_not_overlap(
    bitmaps: Seq<SubtitleAlphaBitmap>,
    earlier: int,
    later: int,
)
    requires
        0 <= earlier < later < bitmaps.len(),
        !bitmaps[earlier].empty(),
    ensures
        atlas_width(bitmaps.take(earlier)) + bitmaps[earlier].placement.width <= atlas_width(
            bitmaps.take(later),
        ),
{
    let prefix = bitmaps.take(later);
    lemma_bitmap_fits(prefix, earlier);
    assert(prefix.take(earlier) =~= bitmaps.take(earlier));
}

} // verus!
