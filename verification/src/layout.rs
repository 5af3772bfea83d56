//! The layout engine: places the naturals as labeled points on concentric
//! rings.
//!
//! Every quantity here is exact. A ring holds up to `modulus` angular slots,
//! `360 / modulus` whole degrees apart; slot angles are measured clockwise
//! from the top of the circle, so a renderer recovers the position of a
//! point as `(sin(angle) * radius, cos(angle) * radius)`.

use vstd::prelude::*;
use crate::config::{Config, Mode, VizError};
use vstd::arithmetic::div_mod::{
    lemma_div_by_self, lemma_div_is_ordered, lemma_div_pos_is_pos,
    lemma_fundamental_div_mod, lemma_mod_division_less_than_divisor,
    lemma_multiply_divide_lt,
};
use vstd::arithmetic::mul::{
    lemma_mul_basics, lemma_mul_inequality, lemma_mul_is_distributive_add,
    lemma_mul_is_distributive_sub_other_way,
};

verus! {

/// Diameter of the circular marker drawn for each point.
pub const CIRCLE_SIZE: u64 = 32;

/// Distance between the radii of two consecutive rings.
pub const RING_SPACING: u64 = 40;

/// Divisor of the geometric scale that turns a marker size into the
/// innermost ring radius of a reduction diagram.
pub const RING_RADIUS_SCALE: u64 = 4;

/// Radius of the single ring of a cycle diagram, independent of the modulus.
pub const CYCLE_RING_RADIUS: u64 = 320;

/// A placed number: an angular position on a ring, and the natural number
/// shown inside the marker. Immutable once produced by the layout engine.
#[derive(Debug, Clone, Copy, PartialEq, Eq, Structural)]
pub struct Point {
    /// Clockwise angle from the top of the circle, in whole degrees,
    /// always below `360`.
    pub angle_deg: u32,
    /// Distance from the common center of the rings.
    pub radius: u64,
    /// The natural number this point stands for; equals the point's
    /// position in generation order.
    pub label: u32,
}

/// An ordered sequence of labeled points partitioned into rings, derived
/// deterministically from a configuration and never edited in place.
#[derive(Debug, PartialEq, Eq)]
pub struct Layout {
    /// The placed points, in generation order; `points[i].label == i`.
    pub points: Vec<Point>,
    /// How many concentric rings the points occupy.
    pub ring_count: u32,
    /// Nominal capacity of one ring; every ring but the last is filled
    /// exactly to it.
    pub points_per_ring: u32,
}

/// How many points a layout holds: every natural from `0` to `natural` in
/// reduction mode, the `modulus` residues in cycle mode.
pub open spec fn spec_total_points(mode: Mode, natural: u32, modulus: u32) -> int {
    match mode {
        Mode::Reduction => natural + 1,
        Mode::Cycle => modulus as int,
    }
}

/// How many rings a layout occupies: the ceiling of `(natural + 1) /
/// modulus` in reduction mode — when `natural + 1` is an exact multiple of
/// `modulus` an additional ring still holds the boundary value — and a
/// single ring in cycle mode.
pub open spec fn spec_ring_count(mode: Mode, natural: u32, modulus: u32) -> int {
    match mode {
        Mode::Reduction => ((natural + 1) + (modulus - 1)) / (modulus as int),
        Mode::Cycle => 1,
    }
}

/// Whole degrees between two consecutive angular slots on a ring.
pub open spec fn spec_stride(modulus: u32) -> int {
    360int / (modulus as int)
}

/// Radius of the innermost ring: proportional to the modulus in reduction
/// mode, a fixed constant in cycle mode.
pub open spec fn spec_base_radius(mode: Mode, modulus: u32) -> int {
    match mode {
        Mode::Reduction => (CIRCLE_SIZE as int) * (modulus as int) / (RING_RADIUS_SCALE as int),
        Mode::Cycle => CYCLE_RING_RADIUS as int,
    }
}

/// The point holding label `i`: slot `i % modulus` of ring `i / modulus`.
pub open spec fn spec_point_at(mode: Mode, natural: u32, modulus: u32, i: int) -> Point {
    Point {
        angle_deg: ((i % (modulus as int)) * spec_stride(modulus)) as u32,
        radius: (spec_base_radius(mode, modulus)
            + (RING_SPACING as int) * (i / (modulus as int))) as u64,
        label: i as u32,
    }
}

/// The points are exactly those the layout algorithm generates for the
/// given configuration, in generation order.
pub open spec fn points_match(points: Seq<Point>, mode: Mode, natural: u32, modulus: u32) -> bool {
    &&& points.len() == spec_total_points(mode, natural, modulus)
    &&& forall|i: int| 0 <= i < points.len() ==> points[i] == spec_point_at(mode, natural, modulus, i)
}

/// The layout is exactly what the engine derives from `config`.
pub open spec fn layout_matches(l: Layout, config: Config) -> bool {
    &&& points_match(l.points@, config.mode, config.natural, config.modulus)
    &&& l.ring_count == spec_ring_count(config.mode, config.natural, config.modulus)
    &&& l.points_per_ring == config.modulus
}

/// A slot angle never reaches a full turn: slot `s` of a ring sits at
/// `s * (360 / m)` degrees, which stays at or below `359`.
pub proof fn lemma_slot_angle_bound(m: int, s: int)
    requires
        1 <= m,
        0 <= s < m,
    ensures
        0 <= s * (360int / m) <= 359,
{
    let stride = 360int / m;
    lemma_div_pos_is_pos(360, m);
    lemma_mul_inequality(0, s, stride);
    if stride == 0 {
        lemma_mul_basics(s);
    } else {
        lemma_mul_inequality(s, m - 1, stride);
        lemma_mul_is_distributive_sub_other_way(stride, m, 1);
        lemma_fundamental_div_mod(360, m);
        lemma_mod_division_less_than_divisor(360, m);
        assert(m * stride <= 360);
        assert((m - 1) * stride == m * stride - 1 * stride);
        assert(s * stride <= 360 - stride);
    }
}

/// The ceiling of `t / m` lies between `1` and `t` for positive `t` and `m`.
pub proof fn lemma_ceil_div_bounds(t: int, m: int)
    requires
        1 <= t,
        1 <= m,
    ensures
        1 <= (t + m - 1) / m <= t,
{
    lemma_div_is_ordered(m, t + m - 1, m);
    lemma_div_by_self(m);
    lemma_mul_inequality(1, m, t);
    lemma_mul_is_distributive_add(m, t, 1);
    assert(t + m - 1 < m * (t + 1));
    lemma_multiply_divide_lt(t + m - 1, m, t + 1);
}

/// Places every point of the diagram, walking rings outward from the
/// innermost and filling the angular slots of each ring in increasing angle
/// order. A ring stops taking points once the label counter reaches the
/// ring's capacity boundary `modulus * (ring + 1)`, so an angular stride
/// that does not divide `360` evenly never yields an extra slot; generation
/// as a whole stops after label `natural` (reduction) or after `modulus`
/// labels (cycle), so the last ring may be partially filled.
pub fn generate_points(mode: Mode, natural: u32, modulus: u32) -> (points: Vec<Point>)
    requires
        modulus >= 1,
        natural < u32::MAX,
    ensures
        points_match(points@, mode, natural, modulus),
{
    let total: u32 = match mode {
        Mode::Reduction => natural + 1,
        Mode::Cycle => modulus,
    };
    let stride: u32 = 360 / modulus;
    let base_radius: u64 = match mode {
        Mode::Reduction => CIRCLE_SIZE * (modulus as u64) / RING_RADIUS_SCALE,
        Mode::Cycle => CYCLE_RING_RADIUS,
    };
    let mut points: Vec<Point> = Vec::new();
    let mut number: u32 = 0;
    while number < total
        invariant
            modulus >= 1,
            number <= total,
            total == spec_total_points(mode, natural, modulus),
            stride == spec_stride(modulus),
            base_radius == spec_base_radius(mode, modulus),
            points@.len() == number,
            forall|i: int| 0 <= i < number ==> points@[i] == spec_point_at(mode, natural, modulus, i),
        decreases total - number,
    {
        let ring: u32 = number / modulus;
        let slot: u32 = number % modulus;
        proof {
            lemma_slot_angle_bound(modulus as int, slot as int);
        }
        let angle_deg: u32 = slot * stride;
        let radius: u64 = base_radius + RING_SPACING * (ring as u64);
        points.push(Point { angle_deg, radius, label: number });
        number = number + 1;
    }
    points
}

/// How many rings the diagram needs; see [`spec_ring_count`].
pub fn ring_count_for(mode: Mode, natural: u32, modulus: u32) -> (count: u32)
    requires
        modulus >= 1,
        natural < u32::MAX,
    ensures
        count == spec_ring_count(mode, natural, modulus),
        1 <= count <= spec_total_points(mode, natural, modulus),
{
    match mode {
        Mode::Cycle => 1,
        Mode::Reduction => {
            let total: u64 = natural as u64 + 1;
            proof {
                lemma_ceil_div_bounds(total as int, modulus as int);
            }
            ((total + (modulus as u64 - 1)) / (modulus as u64)) as u32
        },
    }
}

/// Law: the labels of a generated layout are exactly `0 ..
/// points.len() - 1` in generation order — no gaps and no duplicates.
pub proof fn lemma_labels_are_generation_order(
    points: Seq<Point>,
    mode: Mode,
    natural: u32,
    modulus: u32,
)
    requires
        modulus >= 1,
        natural < u32::MAX,
        points_match(points, mode, natural, modulus),
    ensures
        forall|i: int| 0 <= i < points.len() ==> (#[trigger] points[i]).label == i,
{
}

/// Derives the layout for a configuration: the placed points, the ring
/// count, and the nominal ring capacity. The sole failure mode is a zero
/// modulus, rejected before any geometry is computed.
pub fn layout(config: Config) -> (result: Result<Layout, VizError>)
    requires
        config.natural < u32::MAX,
    ensures
        match result {
            Ok(l) => config.modulus >= 1 && layout_matches(l, config),
            Err(e) => config.modulus == 0 && e == VizError::InvalidConfiguration,
        },
{
    if config.modulus == 0 {
        return Err(VizError::InvalidConfiguration);
    }
    let points = generate_points(config.mode, config.natural, config.modulus);
    let ring_count = ring_count_for(config.mode, config.natural, config.modulus);
    Ok(Layout { points, ring_count, points_per_ring: config.modulus })
}

} // verus!
