use modviz::arrow::{shrink_arrow, PlanePoint, SHRINK_DENOMINATOR};
use modviz::config::Mode;
use modviz::layout::generate_points;
use modviz::clock::compute_rings;

#[test]
fn test_generate_points() {
    let test_cases = vec![
        (Mode::Reduction, 7, 3, 8),
        (Mode::Reduction, 3, 3, 4),
        (Mode::Reduction, 17, 12, 18),
        // Should be a single ring with a modulus number of points
        (Mode::Cycle, 1, 3, 3),
        (Mode::Cycle, 2, 7, 7),
        (Mode::Cycle, 5, 12, 12),
    ];

    for (mode, natural, modulus, expect_num_points) in test_cases {
        let points = generate_points(mode, natural, modulus);
        assert_eq!(
            points.len(),
            expect_num_points,
            "Should have same number of points. Failed for natural={}, modulus={}",
            natural,
            modulus
        );
        assert_eq!(
            points.last().unwrap().label,
            (expect_num_points as u32) - 1,
            "Last point should match the expected last number"
        );
    }
}

#[test]
fn test_shrink_arrow() {
    let p1 = PlanePoint { x: 0, y: 32 };
    let p2 = PlanePoint { x: 0, y: -32 };
    let arrow_points = shrink_arrow(&p1, &p2);

    assert!(
        arrow_points.start.y < p1.y * SHRINK_DENOMINATOR,
        "Should move start point down"
    );
    assert!(
        arrow_points.end.y > p2.y * SHRINK_DENOMINATOR,
        "Should move end point up"
    );
}

#[test]
fn test_compute_rings() {
    let natural = 7;
    let modulus = 3;
    let points_len = 10;
    let time = 5;

    let rings = compute_rings(natural, modulus, points_len, time).unwrap();

    let expected_num_rings = ((natural as usize) + 1).div_ceil(modulus as usize);
    assert_eq!(
        rings.len(),
        expected_num_rings,
        "Should have same number of rings"
    );
    assert_eq!(rings[0].0, 104, "Should have ring scaling");
    assert_eq!(rings[0].1, false, "Should be opaque");
}
