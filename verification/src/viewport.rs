//! Fitting an image into the drawing area.
//!
//! The image is scaled by one factor on both axes, the largest with which it
//! still lies inside the area, and the scaled image is centred. Nothing is
//! rounded: the factor and every length of the result are exact fractions.
//! The lengths of the area are whole numbers of a unit of the caller's
//! choice, and the result is in that unit.

use vstd::prelude::*;

verus! {

/// The width and height of an image, in pixels.
#[derive(Clone, Copy, Debug, PartialEq, Eq, Structural)]
pub struct Size {
    pub width: u32,
    pub height: u32,
}

/// The width and height of the drawing area, in the caller's unit.
#[derive(Clone, Copy, Debug, PartialEq, Eq, Structural)]
pub struct Area {
    pub width: u64,
    pub height: u64,
}

/// The fraction `num / den`, as the fitter hands it out. It is not reduced.
#[derive(Clone, Copy, Debug, PartialEq, Eq, Structural)]
pub struct Fraction {
    pub num: u128,
    pub den: u64,
}

/// The fraction `num / den` over all integers.
pub struct Ratio {
    pub num: int,
    pub den: int,
}

impl View for Fraction {
    type V = Ratio;

    open spec fn view(&self) -> Ratio {
        Ratio { num: self.num as int, den: self.den as int }
    }
}

/// A rectangle inside the drawing area, in the area's unit: `x` and `y` are
/// the distances of its left and top edge from the left and top edge of the
/// area.
#[derive(Clone, Copy, Debug, PartialEq, Eq, Structural)]
pub struct FittedRect {
    pub x: Fraction,
    pub y: Fraction,
    pub width: Fraction,
    pub height: Fraction,
}

/// An image without area: nothing of it can be drawn.
pub open spec fn degenerate(image: Size) -> bool {
    image.width == 0 || image.height == 0
}

/// `available.width / image.width <= available.height / image.height`,
/// cross-multiplied: the width is the axis that limits the scale.
pub open spec fn width_limits(available: Area, image: Size) -> bool {
    available.width * image.height <= available.height * image.width
}

/// The scale factor `min(available.width / image.width, available.height / image.height)`.
/// For an image without area, where neither quotient exists, it is 0.
pub open spec fn scale(available: Area, image: Size) -> Ratio {
    if degenerate(image) {
        Ratio { num: 0, den: 1 }
    } else if width_limits(available, image) {
        Ratio { num: available.width as int, den: image.width as int }
    } else {
        Ratio { num: available.height as int, den: image.height as int }
    }
}

/// `len` times `ratio`.
pub open spec fn scaled(len: int, ratio: Ratio) -> Ratio {
    Ratio { num: len * ratio.num, den: ratio.den }
}

/// The margin that centres a stretch of the length `inner` in one of the
/// length `outer`: `(outer - inner) / 2`.
pub open spec fn margin(outer: int, inner: Ratio) -> Ratio {
    Ratio { num: outer * inner.den - inner.num, den: 2 * inner.den }
}

/// The width of the image after scaling.
pub open spec fn fitted_width(available: Area, image: Size) -> Ratio {
    scaled(image.width as int, scale(available, image))
}

/// The height of the image after scaling.
pub open spec fn fitted_height(available: Area, image: Size) -> Ratio {
    scaled(image.height as int, scale(available, image))
}

/// The fraction that holds `ratio`.
pub open spec fn fraction_of(ratio: Ratio) -> Fraction {
    Fraction { num: ratio.num as u128, den: ratio.den as u64 }
}

/// The destination rectangle: the scaled image, centred in the drawing area.
pub open spec fn fitted(available: Area, image: Size) -> FittedRect {
    FittedRect {
        x: fraction_of(margin(available.width as int, fitted_width(available, image))),
        y: fraction_of(margin(available.height as int, fitted_height(available, image))),
        width: fraction_of(fitted_width(available, image)),
        height: fraction_of(fitted_height(available, image)),
    }
}

/// The scale is the smaller of the two quotients: it is one of
/// `available.width / image.width` and `available.height / image.height`,
/// and it exceeds neither.
pub proof fn lemma_scale_is_minimum(available: Area, image: Size)
    requires
        !degenerate(image),
    ensures
        scale(available, image).den > 0,
        scale(available, image).num * image.width <= available.width * scale(available, image).den,
        scale(available, image).num * image.height <= available.height * scale(
            available,
            image,
        ).den,
        scale(available, image) == (Ratio {
            num: available.width as int,
            den: image.width as int,
        }) || scale(available, image) == (Ratio {
            num: available.height as int,
            den: image.height as int,
        }),
{
    let aw = available.width as int;
    let ah = available.height as int;
    let iw = image.width as int;
    let ih = image.height as int;
    assert(aw * ih == ih * aw && ah * iw == iw * ah) by (nonlinear_arith);
    assert(aw * iw == iw * aw && ah * ih == ih * ah) by (nonlinear_arith);
}

/// The scaled image lies inside the drawing area on both axes: its width
/// and height are at least 0 and at most the area's.
pub proof fn lemma_fit_inside(available: Area, image: Size)
    ensures
        fitted_width(available, image).den > 0,
        fitted_height(available, image).den == fitted_width(available, image).den,
        0 <= fitted_width(available, image).num <= available.width * fitted_width(
            available,
            image,
        ).den,
        0 <= fitted_height(available, image).num <= available.height * fitted_height(
            available,
            image,
        ).den,
{
    let aw = available.width as int;
    let ah = available.height as int;
    let iw = image.width as int;
    let ih = image.height as int;
    if degenerate(image) {
        assert(iw * 0 == 0 && ih * 0 == 0) by (nonlinear_arith);
    } else {
        assert(aw * ih == ih * aw && ah * iw == iw * ah) by (nonlinear_arith);
        assert(aw * iw == iw * aw && ah * ih == ih * ah) by (nonlinear_arith);
        assert(0 <= iw * aw && 0 <= ih * aw && 0 <= iw * ah && 0 <= ih * ah) by (nonlinear_arith)
            requires
                aw >= 0,
                ah >= 0,
                iw >= 0,
                ih >= 0,
        ;
    }
}

/// The scaled image fills the drawing area on the axis that limits the
/// scale, so no larger factor would fit.
pub proof fn lemma_fit_fills_one_axis(available: Area, image: Size)
    requires
        !degenerate(image),
    ensures
        width_limits(available, image) ==> fitted_width(available, image).num == available.width
            * fitted_width(available, image).den,
        !width_limits(available, image) ==> fitted_height(available, image).num
            == available.height * fitted_height(available, image).den,
{
    let aw = available.width as int;
    let ah = available.height as int;
    let iw = image.width as int;
    let ih = image.height as int;
    assert(aw * iw == iw * aw && ah * ih == ih * ah) by (nonlinear_arith);
}

/// The aspect ratio is kept: the scaled width is to the scaled height as
/// the image's width is to its height.
pub proof fn lemma_fit_keeps_aspect(available: Area, image: Size)
    ensures
        fitted_width(available, image).den == fitted_height(available, image).den,
        fitted_width(available, image).num * image.height == fitted_height(available, image).num
            * image.width,
{
    let iw = image.width as int;
    let ih = image.height as int;
    let num = scale(available, image).num;
    assert((iw * num) * ih == (ih * num) * iw) by (nonlinear_arith);
}

/// The scaled image is centred: the margins before it are half of what it
/// leaves of the area, so its centre is the centre of the area.
pub proof fn lemma_fit_centered(available: Area, image: Size)
    ensures
        margin(available.width as int, fitted_width(available, image)).den == 2 * fitted_width(
            available,
            image,
        ).den,
        margin(available.height as int, fitted_height(available, image)).den == 2
            * fitted_height(available, image).den,
        0 <= margin(available.width as int, fitted_width(available, image)).num,
        0 <= margin(available.height as int, fitted_height(available, image)).num,
        margin(available.width as int, fitted_width(available, image)).num + fitted_width(
            available,
            image,
        ).num == available.width * fitted_width(available, image).den,
        margin(available.height as int, fitted_height(available, image)).num + fitted_height(
            available,
            image,
        ).num == available.height * fitted_height(available, image).den,
{
    lemma_fit_inside(available, image);
}

/// The unit does not matter: in a unit `factor` times as fine, every length
/// of the result is `factor` times as many units.
pub proof fn lemma_fit_in_any_unit(coarse: Area, fine: Area, factor: int, image: Size)
    requires
        factor > 0,
        fine.width == factor * coarse.width,
        fine.height == factor * coarse.height,
    ensures
        fitted_width(fine, image).den == fitted_width(coarse, image).den,
        fitted_width(fine, image).num == factor * fitted_width(coarse, image).num,
        fitted_height(fine, image).num == factor * fitted_height(coarse, image).num,
        margin(fine.width as int, fitted_width(fine, image)).den == margin(
            coarse.width as int,
            fitted_width(coarse, image),
        ).den,
        margin(fine.width as int, fitted_width(fine, image)).num == factor * margin(
            coarse.width as int,
            fitted_width(coarse, image),
        ).num,
        margin(fine.height as int, fitted_height(fine, image)).num == factor * margin(
            coarse.height as int,
            fitted_height(coarse, image),
        ).num,
{
    let aw = coarse.width as int;
    let ah = coarse.height as int;
    let iw = image.width as int;
    let ih = image.height as int;
    assert((factor * aw) * ih == factor * (aw * ih) && (factor * ah) * iw == factor * (ah * iw))
        by (nonlinear_arith);
    assert(width_limits(fine, image) == width_limits(coarse, image)) by (nonlinear_arith)
        requires
            factor > 0,
            fine.width * ih == factor * (aw * ih),
            fine.height * iw == factor * (ah * iw),
            width_limits(fine, image) == (fine.width * ih <= fine.height * iw),
            width_limits(coarse, image) == (aw * ih <= ah * iw),
    ;
    let num = scale(coarse, image).num;
    let den = scale(coarse, image).den;
    assert(scale(fine, image).num == factor * num);
    assert(scale(fine, image).den == den);
    assert(iw * (factor * num) == factor * (iw * num) && ih * (factor * num) == factor * (ih
        * num)) by (nonlinear_arith);
    assert((factor * aw) * den - factor * (iw * num) == factor * (aw * den - iw * num)
        && (factor * ah) * den - factor * (ih * num) == factor * (ah * den - ih * num))
        by (nonlinear_arith);
}

/// The destination rectangle holds the fitted lengths as they are: none of
/// them is out of the range of its fraction.
pub proof fn lemma_fitted_rect(available: Area, image: Size)
    ensures
        fitted(available, image).width@ == fitted_width(available, image),
        fitted(available, image).height@ == fitted_height(available, image),
        fitted(available, image).x@ == margin(
            available.width as int,
            fitted_width(available, image),
        ),
        fitted(available, image).y@ == margin(
            available.height as int,
            fitted_height(available, image),
        ),
{
    lemma_fit_inside(available, image);
    lemma_fit_centered(available, image);
    let aw = available.width as int;
    let ah = available.height as int;
    let den = scale(available, image).den;
    assert(den <= 0xffff_ffff);
    assert(aw * den <= 0xffff_ffff_ffff_ffff * 0xffff_ffff && ah * den <= 0xffff_ffff_ffff_ffff
        * 0xffff_ffff) by (nonlinear_arith)
        requires
            0 <= aw <= 0xffff_ffff_ffff_ffff,
            0 <= ah <= 0xffff_ffff_ffff_ffff,
            0 < den <= 0xffff_ffff,
    ;
}

impl Size {
    /// Builds a size from its two extents.
    pub fn new(width: u32, height: u32) -> (size: Size)
        ensures
            size.width == width,
            size.height == height,
    {
        Size { width, height }
    }
}

impl Area {
    /// Builds an area from its two extents.
    pub fn new(width: u64, height: u64) -> (area: Area)
        ensures
            area.width == width,
            area.height == height,
    {
        Area { width, height }
    }
}

/// The destination rectangle of `image` in a drawing area of the size
/// `available`: the image scaled by `scale(available, image)` on both axes,
/// and centred in the area. Every length is exact.
pub fn fit(available: Area, image: Size) -> (rect: FittedRect)
    ensures
        rect == fitted(available, image),
        rect.width@ == fitted_width(available, image),
        rect.height@ == fitted_height(available, image),
        rect.x@ == margin(available.width as int, fitted_width(available, image)),
        rect.y@ == margin(available.height as int, fitted_height(available, image)),
{
    proof {
        lemma_fit_inside(available, image);
        lemma_fit_centered(available, image);
        lemma_fitted_rect(available, image);
    }
    let aw: u128 = available.width as u128;
    let ah: u128 = available.height as u128;
    let iw: u128 = image.width as u128;
    let ih: u128 = image.height as u128;
    assert(aw * ih <= 0xffff_ffff_ffff_ffff * 0xffff_ffff && ah * iw <= 0xffff_ffff_ffff_ffff
        * 0xffff_ffff && aw * iw <= 0xffff_ffff_ffff_ffff * 0xffff_ffff && ah * ih
        <= 0xffff_ffff_ffff_ffff * 0xffff_ffff) by (nonlinear_arith)
        requires
            aw <= 0xffff_ffff_ffff_ffff,
            ah <= 0xffff_ffff_ffff_ffff,
            iw <= 0xffff_ffff,
            ih <= 0xffff_ffff,
    ;
    assert(iw * aw == aw * iw && ih * aw == aw * ih && iw * ah == ah * iw && ih * ah == ah * ih)
        by (nonlinear_arith);
    let mut num: u128 = 0;
    let mut den: u128 = 1;
    if iw != 0 && ih != 0 {
        if aw * ih <= ah * iw {
            num = aw;
            den = iw;
        } else {
            num = ah;
            den = ih;
        }
    }
    assert(num == scale(available, image).num && den == scale(available, image).den);
    assert(iw * 0 == 0 && ih * 0 == 0 && aw * 1 == aw && ah * 1 == ah) by (nonlinear_arith);
    let width: u128 = iw * num;
    let height: u128 = ih * num;
    FittedRect {
        x: Fraction { num: aw * den - width, den: (2 * den) as u64 },
        y: Fraction { num: ah * den - height, den: (2 * den) as u64 },
        width: Fraction { num: width, den: den as u64 },
        height: Fraction { num: height, den: den as u64 },
    }
}

} // verus!
