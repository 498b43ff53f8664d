//! Per-pixel importance maps: how much each pixel of a frame matters to the
//! palette, judged by the frame that follows and by what the screen already
//! shows.

use vstd::prelude::*;
use crate::pixel::Rgba;
use crate::diff::{colordiff, colordiff_spec, lemma_colordiff_bounds, MAX_DIFF};

verus! {

/// Weight of a pixel whose successor differs from it by `diff`:
/// `255 − min(255, diff · 170 / (255·255·6))`.
pub open spec fn lookahead_weight(diff: int) -> int {
    let drop = diff * 170 / (MAX_DIFF as int);
    255 - (if drop < 255 {
        drop
    } else {
        255
    })
}

/// The map computed from a frame and its successor: a pixel that the next
/// frame keeps gets 255, one that it replaces by something very different
/// gets less.
pub open spec fn lookahead_map(curr: Seq<Rgba>, next: Seq<Rgba>) -> Seq<u8> {
    Seq::new(curr.len(), |p: int| lookahead_weight(colordiff_spec(curr[p], next[p])) as u8)
}

/// Differences below this leave a pixel without weight:
/// `80 + q²` with `q = 100 − quality`.
pub open spec fn min_diff(quality: u8) -> int {
    80 + (100 - quality) * (100 - quality)
}

/// Weight of a pixel that differs by `diff` from what the screen shows, given
/// the weight it had before: nothing below `min_diff`, else the earlier
/// weight scaled by `min(256, (diff / 32)²) / 256`.
pub open spec fn attenuated_weight(diff: int, weight: u8, min_diff: int) -> int {
    if diff < min_diff {
        0
    } else {
        let t = diff / 32;
        (if t * t < 256 {
            t * t
        } else {
            256
        }) * weight / 256
    }
}

/// The map after the screen has had its say on every pixel.
pub open spec fn attenuated_map(map: Seq<u8>, screen: Seq<Rgba>, curr: Seq<Rgba>, quality: u8) -> Seq<u8> {
    Seq::new(
        map.len(),
        |p: int| attenuated_weight(colordiff_spec(screen[p], curr[p]), map[p], min_diff(quality)) as u8,
    )
}

/// A map of full weight everywhere.
pub open spec fn full_map(len: nat) -> Seq<u8> {
    Seq::new(len, |p: int| 255u8)
}

/// A lookahead weight lies between 85 and 255: even a pixel that is about to
/// be replaced keeps a third of the full weight.
pub proof fn lemma_lookahead_weight_range(diff: int)
    requires
        0 <= diff <= MAX_DIFF,
    ensures
        85 <= lookahead_weight(diff) <= 255,
        lookahead_weight(diff) == 255 - diff / 2295,
{
    assert(diff * 170 / 390150 == diff / 2295) by (nonlinear_arith)
        requires
            0 <= diff,
    ;
    assert(0 <= diff / 2295 <= 170) by (nonlinear_arith)
        requires
            0 <= diff <= 390150,
    ;
}

/// An attenuated weight lies between 0 and the weight it started from.
pub proof fn lemma_attenuated_weight_range(diff: int, weight: u8, min_diff: int)
    requires
        0 <= diff,
    ensures
        0 <= attenuated_weight(diff, weight, min_diff) <= weight,
{
    let t = diff / 32;
    let f = if t * t < 256 {
        t * t
    } else {
        256
    };
    assert(0 <= t * t) by (nonlinear_arith);
    assert(0 <= f * weight / 256 <= weight) by (nonlinear_arith)
        requires
            0 <= f <= 256,
            0 <= weight,
    ;
}

/// Every value of either map is a weight between 0 and 255 as the formulas
/// give it: storing it in a byte loses nothing.
pub proof fn lemma_importance_in_range(
    map: Seq<u8>,
    screen: Seq<Rgba>,
    curr: Seq<Rgba>,
    next: Seq<Rgba>,
    quality: u8,
    p: int,
)
    requires
        0 <= p < curr.len(),
        curr.len() == next.len(),
        curr.len() == screen.len(),
        curr.len() == map.len(),
    ensures
        0 <= lookahead_weight(colordiff_spec(curr[p], next[p])) <= 255,
        lookahead_map(curr, next)[p] == lookahead_weight(colordiff_spec(curr[p], next[p])),
        0 <= attenuated_weight(colordiff_spec(screen[p], curr[p]), map[p], min_diff(quality))
            <= 255,
        attenuated_map(map, screen, curr, quality)[p] == attenuated_weight(
            colordiff_spec(screen[p], curr[p]),
            map[p],
            min_diff(quality),
        ),
{
    lemma_colordiff_bounds(curr[p], next[p]);
    lemma_colordiff_bounds(screen[p], curr[p]);
    lemma_lookahead_weight_range(colordiff_spec(curr[p], next[p]));
    lemma_attenuated_weight_range(colordiff_spec(screen[p], curr[p]), map[p], min_diff(quality));
}

/// Refills `map` with the lookahead weights of `curr` against `next`.
pub fn lookahead(map: &mut Vec<u8>, curr: &Vec<Rgba>, next: &Vec<Rgba>)
    requires
        curr.len() == next.len(),
    ensures
        final(map)@ == lookahead_map(curr@, next@),
{
    map.clear();
    let n = curr.len();
    let mut p: usize = 0;
    while p < n
        invariant
            n == curr.len(),
            n == next.len(),
            p <= n,
            map.len() == p,
            forall|i: int| 0 <= i < p ==> map@[i] == #[trigger] lookahead_map(curr@, next@)[i],
        decreases n - p,
    {
        let d = colordiff(curr[p], next[p]);
        proof {
            lemma_lookahead_weight_range(d as int);
        }
        let w: u8 = 255 - (d / 2295) as u8;
        map.push(w);
        p += 1;
    }
    proof {
        assert(map@ =~= lookahead_map(curr@, next@));
    }
}

/// Takes weight from the pixels of `curr` that the screen already shows, or
/// nearly shows.
pub fn attenuate(map: &mut Vec<u8>, screen: &Vec<Rgba>, curr: &Vec<Rgba>, quality: u8)
    requires
        1 <= quality <= 100,
        old(map).len() == curr.len(),
        screen.len() == curr.len(),
    ensures
        final(map)@ == attenuated_map(old(map)@, screen@, curr@, quality),
{
    let q: u32 = 100 - quality as u32;
    assert(q * q <= 99 * 99) by (nonlinear_arith)
        requires
            0 <= q <= 99,
    ;
    let limit: u32 = 80 + q * q;
    let n = curr.len();
    let mut p: usize = 0;
    while p < n
        invariant
            n == curr.len(),
            n == screen.len(),
            n == map.len(),
            n == old(map).len(),
            p <= n,
            limit == min_diff(quality),
            forall|i: int|
                0 <= i < p ==> map@[i] == #[trigger] attenuated_map(
                    old(map)@,
                    screen@,
                    curr@,
                    quality,
                )[i],
            forall|i: int| p <= i < n ==> map@[i] == old(map)@[i],
        decreases n - p,
    {
        let d = colordiff(screen[p], curr[p]);
        let old_weight = map[p];
        proof {
            lemma_attenuated_weight_range(d as int, old_weight, limit as int);
        }
        let w: u8 = if d < limit {
            0
        } else {
            let t: u32 = d / 32;
            assert(t * t <= 12192 * 12192) by (nonlinear_arith)
                requires
                    0 <= t <= 12192,
            ;
            let tt: u32 = t * t;
            let f: u32 = if tt < 256 {
                tt
            } else {
                256
            };
            assert(f * old_weight <= 256 * 255) by (nonlinear_arith)
                requires
                    0 <= f <= 256,
                    0 <= old_weight <= 255,
            ;
            (f * (old_weight as u32) / 256) as u8
        };
        map.set(p, w);
        p += 1;
    }
    proof {
        assert(map@ =~= attenuated_map(old(map)@, screen@, curr@, quality));
    }
}

/// A map of `len` entries, all at full weight: what a frame starts from when
/// nothing is known of its neighbours.
pub fn full(len: usize) -> (map: Vec<u8>)
    ensures
        map@ == full_map(len as nat),
{
    let mut map: Vec<u8> = Vec::new();
    let mut p: usize = 0;
    while p < len
        invariant
            p <= len,
            map.len() == p,
            forall|i: int| 0 <= i < p ==> map@[i] == 255u8,
        decreases len - p,
    {
        map.push(255u8);
        p += 1;
    }
    proof {
        assert(map@ =~= full_map(len as nat));
    }
    map
}

} // verus!
