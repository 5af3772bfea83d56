//! The reveal clock policy: which points, rings and arrows are visible at a
//! given elapsed time.
//!
//! Elapsed time is threaded in as an explicit parameter — the whole number
//! of reveal periods since the current layout was committed — so every
//! query here is a pure function of `(elapsed, layout)`. One point becomes
//! visible per period; a ring lights up only once every point on it and on
//! the rings below it is visible; the reduction highlight arrow appears
//! only after every point is visible.

use vstd::prelude::*;
use crate::config::{Mode, VizError};
use crate::layout::{
    Layout, CIRCLE_SIZE, RING_RADIUS_SCALE, RING_SPACING,
    ring_count_for, spec_base_radius, spec_ring_count,
};
use vstd::arithmetic::div_mod::lemma_div_is_ordered;

verus! {

/// What a frame shows, computed fresh every frame and never stored.
#[derive(Debug, PartialEq, Eq)]
pub struct RevealState {
    /// How many points, in generation order, are visible.
    pub visible_point_count: usize,
    /// Per ring, innermost first: whether the ring outline is opaque.
    /// Opacity is a binary gate; a ring is either fully opaque or fully
    /// transparent.
    pub ring_opaque: Vec<bool>,
    /// Whether the reduction highlight arrow is eligible to render. In
    /// cycle mode the per-point arrows follow `visible_point_count`
    /// instead, and this stays `false`.
    pub arrow_visible: bool,
}

/// One point becomes visible per reveal period, saturating at the total:
/// `min(elapsed, total)`.
pub open spec fn spec_visible_count(elapsed: int, total: int) -> int {
    if elapsed < total {
        elapsed
    } else {
        total
    }
}

/// Ring `ring` is opaque once the visible points have reached or passed the
/// last point belonging to it or to any ring below it; no point visible
/// means every ring is transparent.
pub open spec fn spec_ring_opaque(visible: int, ppr: int, ring: int) -> bool
    recommends
        ppr >= 1,
{
    visible >= 1 && (visible - 1) / ppr >= ring
}

/// The state is exactly what the reveal policy prescribes for `elapsed`
/// time units after the commit of `lay`: `min(elapsed, total)` points
/// visible, each ring opaque exactly once filled, and the reduction
/// highlight arrow eligible only after every point is visible.
pub open spec fn spec_reveal_state(state: RevealState, elapsed: int, lay: Layout, mode: Mode) -> bool {
    let total = lay.points@.len() as int;
    let visible = spec_visible_count(elapsed, total);
    &&& state.visible_point_count == visible
    &&& state.ring_opaque@.len() == lay.ring_count
    &&& forall|ring: int| 0 <= ring < lay.ring_count
        ==> state.ring_opaque@[ring] == (match mode {
            Mode::Reduction => spec_ring_opaque(visible, lay.points_per_ring as int, ring),
            Mode::Cycle => true,
        })
    &&& state.arrow_visible == (mode is Reduction && elapsed > total)
}

/// Computes the visibility state for one frame.
///
/// Defends against a degenerate partition: a layout claiming zero points
/// per ring cannot gate ring opacity and is reported as
/// [`VizError::DegenerateLayout`]; callers treat that frame as having no
/// opaque rings and no arrow.
pub fn reveal_at(elapsed: u64, layout: &Layout, mode: Mode) -> (result: Result<RevealState, VizError>)
    ensures
        match result {
            Ok(state) => layout.points_per_ring >= 1
                && spec_reveal_state(state, elapsed as int, *layout, mode),
            Err(e) => layout.points_per_ring == 0 && e == VizError::DegenerateLayout,
        },
{
    if layout.points_per_ring == 0 {
        return Err(VizError::DegenerateLayout);
    }
    let total: usize = layout.points.len();
    let visible: usize = if elapsed < total as u64 {
        elapsed as usize
    } else {
        total
    };
    let ppr: usize = layout.points_per_ring as usize;
    let mut ring_opaque: Vec<bool> = Vec::new();
    let mut ring: u32 = 0;
    while ring < layout.ring_count
        invariant
            ppr >= 1,
            ppr == layout.points_per_ring,
            visible == spec_visible_count(elapsed as int, layout.points@.len() as int),
            ring <= layout.ring_count,
            ring_opaque@.len() == ring,
            forall|i: int| 0 <= i < ring ==> ring_opaque@[i] == (match mode {
                Mode::Reduction => spec_ring_opaque(visible as int, ppr as int, i),
                Mode::Cycle => true,
            }),
        decreases layout.ring_count - ring,
    {
        let opaque: bool = match mode {
            Mode::Reduction => visible >= 1 && (visible - 1) / ppr >= ring as usize,
            Mode::Cycle => true,
        };
        ring_opaque.push(opaque);
        ring = ring + 1;
    }
    let arrow_visible: bool = match mode {
        Mode::Reduction => elapsed > total as u64,
        Mode::Cycle => false,
    };
    Ok(RevealState { visible_point_count: visible, ring_opaque, arrow_visible })
}

/// Law: for a fixed layout, the visible point count never decreases as
/// elapsed time grows, and it saturates at the total point count.
pub proof fn lemma_visible_count_monotonic(t1: int, t2: int, total: int)
    requires
        0 <= t1 <= t2,
        0 <= total,
    ensures
        spec_visible_count(t1, total) <= spec_visible_count(t2, total),
        0 <= spec_visible_count(t2, total) <= total,
        t2 >= total ==> spec_visible_count(t2, total) == total,
{
}

/// Law: once a ring is opaque at some elapsed time, it stays opaque at
/// every later elapsed time, for a fixed layout — that is, until the next
/// commit resets the clock.
pub proof fn lemma_ring_opacity_monotonic(t1: int, t2: int, total: int, ppr: int, ring: int)
    requires
        0 <= t1 <= t2,
        0 <= total,
        1 <= ppr,
        spec_ring_opaque(spec_visible_count(t1, total), ppr, ring),
    ensures
        spec_ring_opaque(spec_visible_count(t2, total), ppr, ring),
{
    let v1 = spec_visible_count(t1, total);
    let v2 = spec_visible_count(t2, total);
    lemma_div_is_ordered(v1 - 1, v2 - 1, ppr);
}

/// The ring radii and opacities of a reduction diagram, outermost ring
/// first so that a painter's-algorithm renderer lays each ring under the
/// ones inside it. Entry `k` describes ring `ring_count - 1 - k`.
///
/// The ring capacity is recovered from the point count as
/// `points_len / ring_count`; a result of zero cannot gate opacity and is
/// reported as [`VizError::DegenerateLayout`].
pub fn compute_rings(natural: u32, modulus: u32, points_len: usize, time: usize) -> (result:
    Result<Vec<(u64, bool)>, VizError>)
    requires
        modulus >= 1,
        natural < u32::MAX,
    ensures
        ({
            let num_rings = spec_ring_count(Mode::Reduction, natural, modulus);
            let ppr = points_len as int / num_rings;
            let visible = spec_visible_count(time as int, points_len as int);
            match result {
                Ok(rings) => {
                    &&& ppr >= 1
                    &&& rings@.len() == num_rings
                    &&& forall|k: int| 0 <= k < num_rings ==> rings@[k] == (
                        (spec_base_radius(Mode::Reduction, modulus)
                            + (RING_SPACING as int) * (num_rings - 1 - k)) as u64,
                        spec_ring_opaque(visible, ppr, num_rings - 1 - k),
                    )
                },
                Err(e) => ppr == 0 && e == VizError::DegenerateLayout,
            }
        }),
{
    let num_rings: u32 = ring_count_for(Mode::Reduction, natural, modulus);
    let ppr: usize = points_len / (num_rings as usize);
    if ppr == 0 {
        return Err(VizError::DegenerateLayout);
    }
    let visible: usize = if time < points_len {
        time
    } else {
        points_len
    };
    let base_radius: u64 = CIRCLE_SIZE * (modulus as u64) / RING_RADIUS_SCALE;
    let mut rings: Vec<(u64, bool)> = Vec::new();
    let mut k: u32 = 0;
    while k < num_rings
        invariant
            ppr >= 1,
            num_rings == spec_ring_count(Mode::Reduction, natural, modulus),
            ppr == points_len as int / num_rings as int,
            visible == spec_visible_count(time as int, points_len as int),
            base_radius == spec_base_radius(Mode::Reduction, modulus),
            k <= num_rings,
            rings@.len() == k,
            forall|i: int| 0 <= i < k ==> rings@[i] == (
                (base_radius + (RING_SPACING as int) * (num_rings - 1 - i)) as u64,
                spec_ring_opaque(visible as int, ppr as int, num_rings - 1 - i),
            ),
        decreases num_rings - k,
    {
        let ring: u32 = num_rings - 1 - k;
        let opaque: bool = visible >= 1 && (visible - 1) / ppr >= ring as usize;
        let radius: u64 = base_radius + RING_SPACING * (ring as u64);
        rings.push((radius, opaque));
        k = k + 1;
    }
    Ok(rings)
}

} // verus!
