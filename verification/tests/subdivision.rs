//! Mesh refinement: triangle counts and exact midpoint coordinates.

use icoglobe::mesh::{base_triangle, split_triangle, subdivide, Tri};

#[test]
fn subdivision_count_depth_two() {
    let t = base_triangle(0);
    let out = subdivide(&t, 2);
    assert_eq!(out.len(), 16);
}

#[test]
fn subdivision_depth_zero_identity() {
    let t = base_triangle(3);
    let out = subdivide(&t, 0);
    assert_eq!(out.len(), 1);
    assert_eq!(out[0], t);
}

#[test]
fn split_triangle_exact_midpoints() {
    let t = base_triangle(0);
    let parts = split_triangle(&t);
    assert_eq!(parts.len(), 4);
    assert_eq!(
        parts[0],
        Tri { ax: 0, ay: 0, bx: 0, by: 1, cx: 1, cy: 0, den: 2 }
    );
    assert_eq!(
        parts[1],
        Tri { ax: 1, ay: 0, bx: 2, by: 0, cx: 1, cy: 1, den: 2 }
    );
    assert_eq!(
        parts[2],
        Tri { ax: 0, ay: 1, bx: 1, by: 1, cx: 1, cy: 0, den: 2 }
    );
    assert_eq!(
        parts[3],
        Tri { ax: 0, ay: 1, bx: 1, by: 1, cx: 0, cy: 2, den: 2 }
    );
}

#[test]
fn subdivision_stays_in_domain() {
    for b in 0..4u8 {
        let t = base_triangle(b);
        let out = subdivide(&t, 3);
        assert_eq!(out.len(), 64);
        for part in out.iter() {
            assert_eq!(part.den, 8);
            assert!(part.ax <= 16 && part.ay <= 16);
            assert!(part.bx <= 16 && part.by <= 16);
            assert!(part.cx <= 16 && part.cy <= 16);
        }
    }
}
