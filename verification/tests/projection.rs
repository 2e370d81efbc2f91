//! Projection behaviour: unit-sphere invariant and seam continuity.

use icoglobe::chunk::Root;
use icoglobe::globe::Globe;
use icoglobe::project::{
    middle_first_formula, middle_second_formula, north_formula, south_formula, ParamPoint,
    RawPoint,
};

const PHI: f64 = 1.618033988749895;

fn to_xyz(p: &RawPoint) -> [f64; 3] {
    let den = p.den as f64;
    [
        (p.x.a as f64 + p.x.b as f64 * PHI) / den,
        (p.y.a as f64 + p.y.b as f64 * PHI) / den,
        (p.z.a as f64 + p.z.b as f64 * PHI) / den,
    ]
}

fn norm(v: [f64; 3]) -> f64 {
    (v[0] * v[0] + v[1] * v[1] + v[2] * v[2]).sqrt()
}

#[test]
fn unit_sphere_invariant() {
    let den: u64 = 8;
    for r in 0..5u8 {
        let root = Root::new(r);
        for x in 0..=(2 * den) {
            for y in 0..=(2 * den) {
                let p = ParamPoint { x, y, den };
                let rp = Globe::project_to_world(&root, &p);
                let v = to_xyz(&rp);
                let n = norm(v);
                assert!(n > 1e-6, "projected point must not vanish");
                let unit = [v[0] / n, v[1] / n, v[2] / n];
                assert!((norm(unit) - 1.0).abs() < 1e-9);
            }
        }
    }
}

#[test]
fn seam_north_middle_first() {
    let den: u64 = 64;
    for r in 0..5u8 {
        let root = Root::new(r);
        for x in 0..=den {
            let p = ParamPoint { x, y: den - x, den };
            assert_eq!(north_formula(&root, &p), middle_first_formula(&root, &p));
        }
    }
}

#[test]
fn seam_middle_first_middle_second() {
    let den: u64 = 64;
    for r in 0..5u8 {
        let root = Root::new(r);
        for x in 0..=den {
            let p = ParamPoint { x, y: den, den };
            assert_eq!(
                middle_first_formula(&root, &p),
                middle_second_formula(&root, &p)
            );
        }
    }
}

#[test]
fn seam_middle_second_south() {
    let den: u64 = 64;
    for r in 0..5u8 {
        let root = Root::new(r);
        for x in 0..=den {
            let p = ParamPoint { x, y: 2 * den - x, den };
            assert_eq!(middle_second_formula(&root, &p), south_formula(&root, &p));
        }
    }
}

#[test]
fn north_corner_is_first_cap_vertex() {
    let p = ParamPoint { x: 0, y: 0, den: 1 };
    let rp = Globe::project_to_world(&Root::new(0), &p);
    assert_eq!(rp.den, 1);
    assert_eq!(rp.x.a, 0);
    assert_eq!(rp.x.b, 1);
    assert_eq!(rp.y.a, 1);
    assert_eq!(rp.y.b, 0);
    assert_eq!(rp.z.a, 0);
    assert_eq!(rp.z.b, 0);
}

#[test]
fn root_index_round_trip() {
    for r in 0..5u8 {
        assert_eq!(Root::new(r).index(), r);
    }
}
