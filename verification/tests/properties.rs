use modviz::arrow::{
    cycle_arrow_target, reduction_arrow_indices, shrink_arrow, PlanePoint, SHRINK_DENOMINATOR,
};
use modviz::config::{Config, Mode, VizError};
use modviz::layout::{generate_points, layout, Layout, Point};
use modviz::clock::{compute_rings, reveal_at};

#[test]
fn labels_are_consecutive_from_zero() {
    for (mode, natural, modulus) in [
        (Mode::Reduction, 7, 3),
        (Mode::Reduction, 0, 5),
        (Mode::Reduction, 12, 1),
        (Mode::Cycle, 4, 9),
    ] {
        let points = generate_points(mode, natural, modulus);
        for (i, p) in points.iter().enumerate() {
            assert_eq!(p.label as usize, i, "label must equal generation order");
        }
    }
}

#[test]
fn uneven_stride_never_adds_an_extra_point() {
    // 360 / 7 == 51 degrees: the slots do not divide the circle evenly,
    // yet each ring still holds exactly 7 points
    let points = generate_points(Mode::Reduction, 13, 7);
    assert_eq!(points.len(), 14);
    assert_eq!(points[6].angle_deg, 6 * 51);
    assert_eq!(points[6].radius, 56);
    assert_eq!(points[7].angle_deg, 0);
    assert_eq!(points[7].radius, 96);
    assert!(points.iter().all(|p| p.angle_deg < 360));
}

#[test]
fn layout_rejects_zero_modulus() {
    let cfg = Config { natural: 5, modulus: 0, mode: Mode::Reduction };
    assert_eq!(layout(cfg), Err(VizError::InvalidConfiguration));
}

#[test]
fn visible_count_is_monotonic_and_saturates() {
    let cfg = Config { natural: 7, modulus: 3, mode: Mode::Reduction };
    let l = layout(cfg).unwrap();
    let mut previous = 0;
    for elapsed in 0..20 {
        let state = reveal_at(elapsed, &l, cfg.mode).unwrap();
        assert!(state.visible_point_count >= previous, "must never decrease");
        assert!(state.visible_point_count <= l.points.len(), "must saturate");
        previous = state.visible_point_count;
    }
    assert_eq!(previous, 8);
}

#[test]
fn ring_opacity_gates_on_filled_rings() {
    let cfg = Config { natural: 7, modulus: 3, mode: Mode::Reduction };
    let l = layout(cfg).unwrap();

    // no point visible: every ring transparent
    let state = reveal_at(0, &l, cfg.mode).unwrap();
    assert_eq!(state.ring_opaque, vec![false, false, false]);

    // the innermost ring fills after 3 points
    let state = reveal_at(3, &l, cfg.mode).unwrap();
    assert_eq!(state.ring_opaque, vec![true, false, false]);

    // the middle ring after 6
    let state = reveal_at(6, &l, cfg.mode).unwrap();
    assert_eq!(state.ring_opaque, vec![true, true, false]);

    // the outermost once its last point is shown
    let state = reveal_at(9, &l, cfg.mode).unwrap();
    assert_eq!(state.ring_opaque, vec![true, true, true]);
}

#[test]
fn ring_opacity_never_turns_off() {
    let cfg = Config { natural: 7, modulus: 3, mode: Mode::Reduction };
    let l = layout(cfg).unwrap();
    let mut seen = vec![false; l.ring_count as usize];
    for elapsed in 0..20 {
        let state = reveal_at(elapsed, &l, cfg.mode).unwrap();
        for (ring, opaque) in state.ring_opaque.iter().enumerate() {
            if seen[ring] {
                assert!(*opaque, "an opaque ring must stay opaque");
            }
            seen[ring] = *opaque;
        }
    }
}

#[test]
fn cycle_rings_are_always_visible() {
    let cfg = Config { natural: 1, modulus: 3, mode: Mode::Cycle };
    let l = layout(cfg).unwrap();
    let state = reveal_at(0, &l, cfg.mode).unwrap();
    assert_eq!(state.ring_opaque, vec![true]);
    assert!(!state.arrow_visible);
}

#[test]
fn degenerate_partition_is_reported() {
    // a partition claiming zero points per ring cannot gate opacity
    let broken = Layout { points: vec![], ring_count: 1, points_per_ring: 0 };
    assert_eq!(
        reveal_at(4, &broken, Mode::Reduction),
        Err(VizError::DegenerateLayout)
    );
    // fewer points than rings leaves the recovered capacity at zero
    assert_eq!(
        compute_rings(7, 3, 2, 5),
        Err(VizError::DegenerateLayout)
    );
}

#[test]
fn compute_rings_lists_outermost_first() {
    let rings = compute_rings(7, 3, 8, 9).unwrap();
    assert_eq!(
        rings,
        vec![(104, true), (64, true), (24, true)]
    );
    // the recovered capacity is 8 / 3 == 2, so at time 2 only the
    // innermost ring (listed last) is opaque
    let rings = compute_rings(7, 3, 8, 2).unwrap();
    assert_eq!(
        rings,
        vec![(104, false), (64, false), (24, true)]
    );
}

#[test]
fn shrink_arrow_interpolates_exactly() {
    let start = PlanePoint { x: 0, y: 0 };
    let end = PlanePoint { x: 20, y: 40 };
    let arrow = shrink_arrow(&start, &end);
    // one twentieth of the way along, in coordinates scaled by 20
    assert_eq!(arrow.start, PlanePoint { x: 20, y: 40 });
    assert_eq!(arrow.end, PlanePoint { x: 380, y: 760 });
}

#[test]
fn shrink_arrow_pulls_both_ends_strictly_inward() {
    let start = PlanePoint { x: -3, y: 7 };
    let end = PlanePoint { x: 11, y: -2 };
    let arrow = shrink_arrow(&start, &end);
    let scale = |p: &PlanePoint| (p.x * SHRINK_DENOMINATOR, p.y * SHRINK_DENOMINATOR);
    let sq_dist = |a: (i64, i64), b: (i64, i64)| {
        (b.0 - a.0) * (b.0 - a.0) + (b.1 - a.1) * (b.1 - a.1)
    };
    let full = sq_dist(scale(&start), scale(&end));
    assert!(sq_dist((arrow.start.x, arrow.start.y), scale(&end)) < full);
    assert!(sq_dist((arrow.end.x, arrow.end.y), scale(&start)) < full);
}

#[test]
fn shrink_of_degenerate_segment_stays_put() {
    let p = PlanePoint { x: 5, y: -9 };
    let arrow = shrink_arrow(&p, &p);
    assert_eq!(arrow.start, PlanePoint { x: 100, y: -180 });
    assert_eq!(arrow.end, arrow.start);
}

#[test]
fn cycle_arrow_targets_wrap_around() {
    assert_eq!(cycle_arrow_target(0, 1, 3), 1);
    assert_eq!(cycle_arrow_target(2, 1, 3), 0);
    assert_eq!(cycle_arrow_target(4, 9, 5), 3);
}

#[test]
fn reduction_arrow_indices_pick_first_and_last_match() {
    let points = generate_points(Mode::Reduction, 7, 3);
    let (inner, outer) = reduction_arrow_indices(&points, 3, 1).unwrap();
    assert_eq!((inner, outer), (1, 7));
}

#[test]
fn reduction_arrow_indices_report_empty_match() {
    let no_points: Vec<Point> = vec![];
    assert_eq!(
        reduction_arrow_indices(&no_points, 3, 1),
        Err(VizError::EmptyArrowMatch)
    );
    // labels 0..=3 hold no residue 4 modulo 7
    let points = generate_points(Mode::Reduction, 3, 7);
    assert_eq!(
        reduction_arrow_indices(&points, 7, 4),
        Err(VizError::EmptyArrowMatch)
    );
}
