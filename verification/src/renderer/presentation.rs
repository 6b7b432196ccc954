//! Where a picture stands on its target.

use vstd::arithmetic::mul::lemma_mul_is_commutative;
use vstd::prelude::*;

verus! {

/// A length in pixels as an exact fraction.
#[derive(Debug, Clone, Copy, PartialEq, Eq, Structural)]
pub struct Pixels {
    pub numerator: u64,
    pub denominator: u64,
}

impl Pixels {
    pub open spec fn whole(length: u32) -> Self {
        Pixels { numerator: length as u64, denominator: 1 }
    }

    fn of_whole(length: u32) -> (pixels: Self)
        ensures
            pixels == Pixels::whole(length),
    {
        Pixels { numerator: length as u64, denominator: 1 }
    }

    /// The length itself, or one pixel where it is shorter.
    pub open spec fn raised(self) -> Self {
        if self.numerator >= self.denominator {
            self
        } else {
            Pixels::whole(1)
        }
    }

    /// Raises a length to at least one pixel.
    pub fn at_least_one(self) -> (length: Self)
        ensures
            length == self.raised(),
    {
        if self.numerator >= self.denominator {
            self
        } else {
            Pixels::of_whole(1)
        }
    }
}

/// A rectangle on a target.
#[derive(Debug, Clone, Copy, PartialEq, Eq, Structural)]
pub struct PresentationRect {
    pub x: Pixels,
    pub y: Pixels,
    pub width: Pixels,
    pub height: Pixels,
}

impl PresentationRect {
    /// The rectangle with both sides at least one pixel long.
    pub open spec fn drawable(self) -> Self {
        PresentationRect {
            x: self.x,
            y: self.y,
            width: self.width.raised(),
            height: self.height.raised(),
        }
    }

    /// The rectangle as a device can draw on it: neither side is shorter than a
    /// pixel, and the corner stays.
    pub fn device_viewport(self) -> (viewport: Self)
        ensures
            viewport == self.drawable(),
    {
        PresentationRect {
            x: self.x,
            y: self.y,
            width: self.width.at_least_one(),
            height: self.height.at_least_one(),
        }
    }
}

/// Where a picture stands that fills its target in one direction and is centred
/// in the other.
pub open spec fn aspect_fit(
    source_width: u32,
    source_height: u32,
    target_width: u32,
    target_height: u32,
) -> PresentationRect {
    let across = source_width * target_height;
    let down = source_height * target_width;
    if across >= down {
        PresentationRect {
            x: Pixels::whole(0),
            y: Pixels {
                numerator: (across - down) as u64,
                denominator: (2 * source_width) as u64,
            },
            width: Pixels::whole(target_width),
            height: Pixels { numerator: down as u64, denominator: source_width as u64 },
        }
    } else {
        PresentationRect {
            x: Pixels {
                numerator: (down - across) as u64,
                denominator: (2 * source_height) as u64,
            },
            y: Pixels::whole(0),
            width: Pixels { numerator: across as u64, denominator: source_height as u64 },
            height: Pixels::whole(target_height),
        }
    }
}

proof fn lemma_product_fits(left: u32, right: u32)
    ensures
        0 <= left * right <= u64::MAX,
{
    assert(0 <= left * right <= 0xffff_ffff * 0xffff_ffff) by (nonlinear_arith)
        requires
            0 <= left <= 0xffff_ffff,
            0 <= right <= 0xffff_ffff,
    ;
}

/// Fits a picture into a target without changing its shape.
pub fn aspect_fit_viewport(
    source_width: u32,
    source_height: u32,
    target_width: u32,
    target_height: u32,
) -> (viewport: PresentationRect)
    requires
        source_width > 0,
        source_height > 0,
    ensures
        viewport == aspect_fit(source_width, source_height, target_width, target_height),
{
    proof {
        lemma_product_fits(source_width, target_height);
        lemma_product_fits(source_height, target_width);
    }
    let across: u64 = source_width as u64 * target_height as u64;
    let down: u64 = source_height as u64 * target_width as u64;
    if across >= down {
        PresentationRect {
            x: Pixels::of_whole(0),
            y: Pixels { numerator: across - down, denominator: 2 * source_width as u64 },
            width: Pixels::of_whole(target_width),
            height: Pixels { numerator: down, denominator: source_width as u64 },
        }
    } else {
        PresentationRect {
            x: Pixels { numerator: down - across, denominator: 2 * source_height as u64 },
            y: Pixels::of_whole(0),
            width: Pixels { numerator: across, denominator: source_height as u64 },
            height: Pixels::of_whole(target_height),
        }
    }
}

/// A fitted picture keeps its shape: width to height as in the source.
pub proof fn lemma_aspect_fit_keeps_the_shape(
    source_width: u32,
    source_height: u32,
    target_width: u32,
    target_height: u32,
)
    requires
        source_width > 0,
        source_height > 0,
    ensures
        ({
            let fit = aspect_fit(source_width, source_height, target_width, target_height);
            (fit.width.numerator * fit.height.denominator) * source_height == (
            fit.height.numerator * fit.width.denominator) * source_width
        }),
{
    lemma_product_fits(source_width, target_height);
    lemma_product_fits(source_height, target_width);
    let across = source_width * target_height;
    let down = source_height * target_width;
    if across >= down {
        assert((target_width * source_width) * source_height == (down * 1) * source_width)
            by (nonlinear_arith)
            requires
                down == source_height * target_width,
        ;
    } else {
        assert((across * 1) * source_height == (target_height * source_height) * source_width)
            by (nonlinear_arith)
            requires
                across == source_width * target_height,
        ;
    }
}

/// What is drawn on is never shorter than a pixel, and a rectangle that is large
/// enough stays as it is.
pub proof fn lemma_device_viewport_has_area(rect: PresentationRect)
    ensures
        rect.drawable().width.numerator >= rect.drawable().width.denominator,
        rect.drawable().height.numerator >= rect.drawable().height.denominator,
        rect.width.numerator >= rect.width.denominator && rect.height.numerator
            >= rect.height.denominator ==> rect.drawable() == rect,
        rect.drawable().drawable() == rect.drawable(),
{
}

/// A fitted picture is as wide or as tall as its target, stays within it, and
/// leaves equal margins.
pub proof fn lemma_aspect_fit_is_centred(
    source_width: u32,
    source_height: u32,
    target_width: u32,
    target_height: u32,
)
    requires
        source_width > 0,
        source_height > 0,
    ensures
        ({
            let fit = aspect_fit(source_width, source_height, target_width, target_height);
            ||| {
                &&& fit.x == Pixels::whole(0)
                &&& fit.width == Pixels::whole(target_width)
                &&& fit.y.denominator == 2 * fit.height.denominator
                &&& fit.y.numerator + fit.height.numerator == target_height
                    * fit.height.denominator
            }
            ||| {
                &&& fit.y == Pixels::whole(0)
                &&& fit.height == Pixels::whole(target_height)
                &&& fit.x.denominator == 2 * fit.width.denominator
                &&& fit.x.numerator + fit.width.numerator == target_width * fit.width.denominator
            }
        }),
{
    lemma_product_fits(source_width, target_height);
    lemma_product_fits(source_height, target_width);
    lemma_mul_is_commutative(source_width as int, target_height as int);
    lemma_mul_is_commutative(source_height as int, target_width as int);
}

/// A side that is shorter than a pixel is drawn as one pixel, and the corner stays
/// where it was.
pub proof fn lemma_short_sides_become_one_pixel(rect: PresentationRect)
    ensures
        rect.drawable().x == rect.x,
        rect.drawable().y == rect.y,
        rect.width.numerator < rect.width.denominator ==> rect.drawable().width.numerator == 1
            && rect.drawable().width.denominator == 1,
        rect.height.numerator < rect.height.denominator ==> rect.drawable().height.numerator == 1
            && rect.drawable().height.denominator == 1,
        rect.width.numerator >= rect.width.denominator ==> rect.drawable().width == rect.width,
        rect.height.numerator >= rect.height.denominator ==> rect.drawable().height
            == rect.height,
{
}

/// A fitted picture stays within its target: what is left of the target beside or
/// above it is as much as what is left on the other side, and never less than
/// nothing. A picture of the target's own shape fills it.
pub proof fn lemma_fitted_picture_stays_within(
    source_width: u32,
    source_height: u32,
    target_width: u32,
    target_height: u32,
)
    requires
        source_width > 0,
        source_height > 0,
    ensures
        ({
            let fit = aspect_fit(source_width, source_height, target_width, target_height);
            let wide = source_width * target_height >= source_height * target_width;
            &&& fit.width.numerator <= target_width * fit.width.denominator
            &&& fit.height.numerator <= target_height * fit.height.denominator
            &&& wide ==> fit.x.numerator == 0 && fit.width.numerator == target_width
                && fit.width.denominator == 1
            &&& !wide ==> fit.y.numerator == 0 && fit.height.numerator == target_height
                && fit.height.denominator == 1
            &&& source_width * target_height == source_height * target_width ==> {
                &&& fit.x.numerator == 0
                &&& fit.y.numerator == 0
                &&& fit.height.numerator == target_height * fit.height.denominator
            }
        }),
{
    lemma_product_fits(source_width, target_height);
    lemma_product_fits(source_height, target_width);
    let across = source_width * target_height;
    let down = source_height * target_width;
    assert(across == target_height * source_width) by (nonlinear_arith)
        requires
            across == source_width * target_height,
    ;
    assert(down == target_width * source_height) by (nonlinear_arith)
        requires
            down == source_height * target_width,
    ;
}

} // verus!
