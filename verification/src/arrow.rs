//! Arrow geometry and arrow selection.
//!
//! The highlight arrows connect circular markers, so a drawn segment is
//! pulled inward at both ends by one twentieth of the vector between them.
//! The interpolation is carried exactly: the shortened endpoints come back
//! in coordinates scaled by [`SHRINK_DENOMINATOR`], and a renderer divides
//! by that factor when it converts to screen units.

use vstd::prelude::*;
use crate::config::VizError;
use crate::layout::Point;
use vstd::arithmetic::div_mod::lemma_mod_division_less_than_divisor;

verus! {

/// The shrink factor is one part in this many: each arrow endpoint moves
/// `1/20` of the way toward the other end.
pub const SHRINK_DENOMINATOR: i64 = 20;

/// Largest magnitude of an input coordinate [`shrink_arrow`] accepts, so
/// that the scaled results fit in a machine word.
pub const COORD_BOUND: i64 = 0x100_0000_0000_0000;

/// A position in the drawing plane, in whatever unit the caller draws in.
#[derive(Debug, Clone, Copy, PartialEq, Eq, Structural)]
pub struct PlanePoint {
    /// Horizontal coordinate.
    pub x: i64,
    /// Vertical coordinate.
    pub y: i64,
}

/// The two endpoints of a directed arrow, in coordinates scaled by
/// [`SHRINK_DENOMINATOR`]: dividing each coordinate by that factor yields
/// the exact interpolated endpoint.
#[derive(Debug, Clone, Copy, PartialEq, Eq, Structural)]
pub struct ArrowPoints {
    /// Where the arrow leaves, scaled by [`SHRINK_DENOMINATOR`].
    pub start: PlanePoint,
    /// Where the arrow head lands, scaled by [`SHRINK_DENOMINATOR`].
    pub end: PlanePoint,
}

/// A coordinate brought into the scale of a shrunk arrow.
pub open spec fn spec_scaled(c: int) -> int {
    (SHRINK_DENOMINATOR as int) * c
}

/// A coordinate pulled one twentieth of the way from `from` toward `to`,
/// scaled by [`SHRINK_DENOMINATOR`]: `(19 * from + to) / 20` is exactly
/// `from + (to - from) / 20`.
pub open spec fn spec_pulled(from: int, to: int) -> int {
    (SHRINK_DENOMINATOR - 1) * from + to
}

/// The squared distance between `(ax, ay)` and `(bx, by)`.
pub open spec fn spec_sq_dist(ax: int, ay: int, bx: int, by: int) -> int {
    (bx - ax) * (bx - ax) + (by - ay) * (by - ay)
}

/// Both coordinates are small enough to scale without overflow.
pub open spec fn spec_in_plane_bounds(p: PlanePoint) -> bool {
    &&& -COORD_BOUND <= p.x <= COORD_BOUND
    &&& -COORD_BOUND <= p.y <= COORD_BOUND
}

/// Shortens the directed segment from `start` to `end` by linear
/// interpolation with a fixed shrink factor of one twentieth at each end,
/// so the rendered arrow clears the circular markers it connects. Total:
/// two equal points yield a zero-length segment at that point.
pub fn shrink_arrow(start: &PlanePoint, end: &PlanePoint) -> (arrow: ArrowPoints)
    requires
        spec_in_plane_bounds(*start),
        spec_in_plane_bounds(*end),
    ensures
        arrow.start.x == spec_pulled(start.x as int, end.x as int),
        arrow.start.y == spec_pulled(start.y as int, end.y as int),
        arrow.end.x == spec_pulled(end.x as int, start.x as int),
        arrow.end.y == spec_pulled(end.y as int, start.y as int),
{
    let factor: i64 = SHRINK_DENOMINATOR - 1;
    ArrowPoints {
        start: PlanePoint { x: factor * start.x + end.x, y: factor * start.y + end.y },
        end: PlanePoint { x: factor * end.x + start.x, y: factor * end.y + start.y },
    }
}

/// Law: shrinking a segment with distinct endpoints pulls both ends
/// strictly inward — the new start is strictly closer to the old end than
/// the old start was, and the new end strictly closer to the old start —
/// while a degenerate segment stays exactly where it was. Distances are
/// compared squared, in the scaled coordinates of the arrow.
pub proof fn lemma_shrink_pulls_inward(s: PlanePoint, e: PlanePoint, arrow: ArrowPoints)
    requires
        arrow.start.x == spec_pulled(s.x as int, e.x as int),
        arrow.start.y == spec_pulled(s.y as int, e.y as int),
        arrow.end.x == spec_pulled(e.x as int, s.x as int),
        arrow.end.y == spec_pulled(e.y as int, s.y as int),
    ensures
        s != e ==> spec_sq_dist(
            arrow.start.x as int, arrow.start.y as int,
            spec_scaled(e.x as int), spec_scaled(e.y as int),
        ) < spec_sq_dist(
            spec_scaled(s.x as int), spec_scaled(s.y as int),
            spec_scaled(e.x as int), spec_scaled(e.y as int),
        ),
        s != e ==> spec_sq_dist(
            arrow.end.x as int, arrow.end.y as int,
            spec_scaled(s.x as int), spec_scaled(s.y as int),
        ) < spec_sq_dist(
            spec_scaled(s.x as int), spec_scaled(s.y as int),
            spec_scaled(e.x as int), spec_scaled(e.y as int),
        ),
        s == e ==> arrow.start == arrow.end
            && arrow.start.x == spec_scaled(s.x as int)
            && arrow.start.y == spec_scaled(s.y as int),
{
    let sx = s.x as int;
    let sy = s.y as int;
    let ex = e.x as int;
    let ey = e.y as int;
    if s != e {
        assert(ex - sx != 0 || ey - sy != 0);
        assert((20 * ex - (19 * sx + ex)) * (20 * ex - (19 * sx + ex))
            + (20 * ey - (19 * sy + ey)) * (20 * ey - (19 * sy + ey))
            < (20 * ex - 20 * sx) * (20 * ex - 20 * sx)
            + (20 * ey - 20 * sy) * (20 * ey - 20 * sy)) by (nonlinear_arith)
            requires
                ex - sx != 0 || ey - sy != 0,
        ;
        assert((20 * sx - (19 * ex + sx)) * (20 * sx - (19 * ex + sx))
            + (20 * sy - (19 * ey + sy)) * (20 * sy - (19 * ey + sy))
            < (20 * ex - 20 * sx) * (20 * ex - 20 * sx)
            + (20 * ey - 20 * sy) * (20 * ey - 20 * sy)) by (nonlinear_arith)
            requires
                ex - sx != 0 || ey - sy != 0,
        ;
    }
}

/// The arrow leaving point `index` of a cycle diagram lands on the residue
/// of `index + natural`: one step of repeated addition inside the finite
/// group of size `modulus`.
pub fn cycle_arrow_target(index: usize, natural: u32, modulus: u32) -> (target: usize)
    requires
        modulus >= 1,
        index < modulus,
    ensures
        target == (index + natural) % (modulus as int),
        target < modulus,
{
    proof {
        lemma_mod_division_less_than_divisor((index + natural) as int, modulus as int);
    }
    ((index as u64 + natural as u64) % (modulus as u64)) as usize
}

/// Finds the endpoints of the reduction highlight arrow: among the points
/// whose label is congruent to `target` modulo `modulus`, the innermost
/// (first generated) and the outermost (last generated). When no label
/// matches, the arrow is skipped and the anomaly reported as
/// [`VizError::EmptyArrowMatch`].
pub fn reduction_arrow_indices(points: &Vec<Point>, modulus: u32, target: u32) -> (result:
    Result<(usize, usize), VizError>)
    requires
        modulus >= 1,
    ensures
        match result {
            Ok((inner, outer)) => {
                &&& inner <= outer < points@.len()
                &&& points@[inner as int].label % modulus == target
                &&& points@[outer as int].label % modulus == target
                &&& forall|i: int| 0 <= i < points@.len() && points@[i].label % modulus == target
                    ==> inner <= i <= outer
            },
            Err(e) => {
                &&& e == VizError::EmptyArrowMatch
                &&& forall|i: int| 0 <= i < points@.len() ==> points@[i].label % modulus != target
            },
        },
{
    let mut found: Option<(usize, usize)> = None;
    let mut idx: usize = 0;
    while idx < points.len()
        invariant
            modulus >= 1,
            idx <= points@.len(),
            match found {
                Some((inner, outer)) => {
                    &&& inner <= outer < idx <= points@.len()
                    &&& points@[inner as int].label % modulus == target
                    &&& points@[outer as int].label % modulus == target
                    &&& forall|i: int| 0 <= i < idx && points@[i].label % modulus == target
                        ==> inner <= i <= outer
                },
                None => forall|i: int| 0 <= i < idx ==> points@[i].label % modulus != target,
            },
        decreases points@.len() - idx,
    {
        if points[idx].label % modulus == target {
            found = match found {
                None => Some((idx, idx)),
                Some((inner, _)) => Some((inner, idx)),
            };
        }
        idx = idx + 1;
    }
    match found {
        Some(pair) => Ok(pair),
        None => Err(VizError::EmptyArrowMatch),
    }
}

} // verus!
