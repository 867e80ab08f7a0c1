//! The shape of the view: how the two axes of an image share the plane.

use vstd::prelude::*;

verus! {

/// By how much each axis of the view is longer than the base extent of the
/// plane, as the fractions `x.0 / x.1` and `y.0 / y.1`: the shorter side of
/// the image spans the base extent, the longer side as much more as it is
/// longer, so that a pixel is square in the plane.
pub open spec fn stretch_of(width: int, height: int) -> ((int, int), (int, int)) {
    if width > height {
        ((width, height), (1, 1))
    } else if height > width {
        ((1, 1), (height, width))
    } else {
        ((1, 1), (1, 1))
    }
}

/// By how much each axis of a `width` by `height` view is longer than the
/// base extent: the horizontal factor, then the vertical one, each as a
/// numerator and a denominator. Where both sides are positive, so are all
/// four numbers.
pub fn stretch(width: u32, height: u32) -> (factors: ((u32, u32), (u32, u32)))
    ensures
        ((factors.0.0 as int, factors.0.1 as int), (factors.1.0 as int, factors.1.1 as int))
            == stretch_of(width as int, height as int),
        width > 0 && height > 0 ==> factors.0.0 > 0 && factors.0.1 > 0 && factors.1.0 > 0
            && factors.1.1 > 0,
{
    if width > height {
        ((width, height), (1, 1))
    } else if height > width {
        ((1, 1), (height, width))
    } else {
        ((1, 1), (1, 1))
    }
}

} // verus!
