//! The colour difference between two pixels.

use vstd::prelude::*;
use crate::pixel::Rgba;

verus! {

/// The largest difference: what any pair with a transparent pixel gets.
pub const MAX_DIFF: u32 = 390150;

/// Weighted squared distance of the colour channels:
/// `2·Δr² + 3·Δg² + Δb²`.
pub open spec fn weighted_distance(a: Rgba, b: Rgba) -> int {
    2 * ((a.r - b.r) * (a.r - b.r)) + 3 * ((a.g - b.g) * (a.g - b.g)) + (a.b - b.b) * (a.b - b.b)
}

/// The difference between two pixels. A pixel with alpha 0 differs from
/// everything by the maximum `255·255·6`; between two visible pixels alpha
/// plays no part.
pub open spec fn colordiff_spec(a: Rgba, b: Rgba) -> int {
    if a.a == 0 || b.a == 0 {
        MAX_DIFF as int
    } else {
        weighted_distance(a, b)
    }
}

/// The square of the difference of two channel values, at most `255²`.
fn square_of_difference(x: u8, y: u8) -> (sq: u32)
    ensures
        sq == (x - y) * (x - y),
        sq <= 65025,
{
    let d: i32 = x as i32 - y as i32;
    assert(0 <= d * d <= 65025) by (nonlinear_arith)
        requires
            -255 <= d <= 255,
    ;
    (d * d) as u32
}

/// Computes [`colordiff_spec`].
pub fn colordiff(a: Rgba, b: Rgba) -> (d: u32)
    ensures
        d == colordiff_spec(a, b),
        d <= MAX_DIFF,
{
    if a.a == 0 || b.a == 0 {
        return 255 * 255 * 6;
    }
    square_of_difference(a.r, b.r) * 2 + square_of_difference(a.g, b.g) * 3 + square_of_difference(
        a.b,
        b.b,
    )
}

/// The difference never exceeds `255·255·6` and is never negative.
pub proof fn lemma_colordiff_bounds(a: Rgba, b: Rgba)
    ensures
        0 <= colordiff_spec(a, b) <= MAX_DIFF,
{
    lemma_square_bounds(a.r - b.r);
    lemma_square_bounds(a.g - b.g);
    lemma_square_bounds(a.b - b.b);
}

proof fn lemma_square_bounds(d: int)
    requires
        -255 <= d <= 255,
    ensures
        0 <= d * d <= 65025,
        d * d == 0 <==> d == 0,
{
    assert(0 <= d * d <= 65025 && (d * d == 0 <==> d == 0)) by (nonlinear_arith)
        requires
            -255 <= d <= 255,
    ;
}

/// The difference does not depend on the order of its arguments.
pub proof fn lemma_colordiff_symmetric(a: Rgba, b: Rgba)
    ensures
        colordiff_spec(a, b) == colordiff_spec(b, a),
{
    assert((a.r - b.r) * (a.r - b.r) == (b.r - a.r) * (b.r - a.r)) by (nonlinear_arith);
    assert((a.g - b.g) * (a.g - b.g) == (b.g - a.g) * (b.g - a.g)) by (nonlinear_arith);
    assert((a.b - b.b) * (a.b - b.b) == (b.b - a.b) * (b.b - a.b)) by (nonlinear_arith);
}

/// Two pixels show the same colour: they agree in red, green and blue where
/// both are visible, and in every channel otherwise.
pub open spec fn same_color(a: Rgba, b: Rgba) -> bool {
    if a.a != 0 && b.a != 0 {
        a.r == b.r && a.g == b.g && a.b == b.b
    } else {
        a == b
    }
}

/// Unless both pixels are transparent, the difference is zero exactly when
/// they show the same colour. Two transparent pixels are left out: like any
/// pair with a transparent pixel they are at the maximum distance.
pub proof fn lemma_colordiff_zero(a: Rgba, b: Rgba)
    requires
        !(a.a == 0 && b.a == 0),
    ensures
        colordiff_spec(a, b) == 0 <==> same_color(a, b) || (a.a == 0 && b.a == 0),
{
    lemma_square_bounds(a.r - b.r);
    lemma_square_bounds(a.g - b.g);
    lemma_square_bounds(a.b - b.b);
}

} // verus!
