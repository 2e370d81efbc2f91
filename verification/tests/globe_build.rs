//! Globe construction: validation, the chunk grid, determinism, heights,
//! and the end-to-end example.

use icoglobe::chunk::{CellPos, Root};
use icoglobe::globe::{Globe, Spec};
use icoglobe::random::RandomGenerator;
use icoglobe::GlobeError;

const PHI: f64 = 1.618033988749895;

fn spec(seed: u64, cps: u64, cr: u64, rr: u64, res: u64) -> Spec {
    Spec {
        seed,
        radius_micro: 1_000_000,
        chunks_per_root_side: cps,
        chunk_resolution: cr,
        root_resolution: rr,
        resolution: res,
    }
}

#[test]
fn noise_determinism() {
    let a = RandomGenerator::new(42);
    let b = RandomGenerator::new(42);
    for i in 0..50u64 {
        assert_eq!(a.next(i, 2 * i + 1, i * i), b.next(i, 2 * i + 1, i * i));
        assert_eq!(a.next(i, i, i), a.next(i, i, i));
    }
}

#[test]
fn globe_determinism() {
    let g1 = Globe::new(spec(9, 2, 3, 6, 1)).unwrap();
    let g2 = Globe::new(spec(9, 2, 3, 6, 1)).unwrap();
    let c1 = g1.chunks();
    let c2 = g2.chunks();
    assert_eq!(c1.len(), c2.len());
    for k in 0..c1.len() {
        assert_eq!(c1[k].origin, c2[k].origin);
        assert_eq!(c1[k].cells.len(), c2[k].cells.len());
        for j in 0..c1[k].cells.len() {
            assert_eq!(c1[k].cells[j].height, c2[k].cells[j].height);
        }
    }
}

#[test]
fn grid_completeness() {
    let g = Globe::new(spec(1, 4, 4, 16, 0)).unwrap();
    let chunks = g.chunks();
    assert_eq!(chunks.len(), 80);
    for c in chunks.iter() {
        assert_eq!(c.cells.len(), 16);
    }
    assert_eq!(chunks[0].origin.root.index(), 0);
    assert_eq!((chunks[0].origin.x, chunks[0].origin.y), (0, 0));
    assert_eq!((chunks[1].origin.x, chunks[1].origin.y), (4, 0));
    assert_eq!((chunks[4].origin.x, chunks[4].origin.y), (0, 4));
    assert_eq!((chunks[15].origin.x, chunks[15].origin.y), (12, 12));
    assert_eq!(chunks[16].origin.root.index(), 1);
    assert_eq!((chunks[16].origin.x, chunks[16].origin.y), (0, 0));
    assert_eq!(chunks[79].origin.root.index(), 4);
    assert_eq!((chunks[79].origin.x, chunks[79].origin.y), (12, 12));
}

#[test]
fn invalid_spec_rejected() {
    let bad = Globe::new(spec(1, 3, 5, 16, 0));
    assert!(matches!(bad, Err(GlobeError::InvalidSpec)));
    let good = Globe::new(spec(1, 3, 5, 15, 0));
    assert!(good.is_ok());
}

#[test]
fn invalid_root_index_rejected() {
    assert!(matches!(
        Root::try_new(5),
        Err(GlobeError::InvalidRootIndex)
    ));
    assert!(matches!(Root::try_new(200), Err(_)));
    let r = Root::try_new(4).unwrap();
    assert_eq!(r.index(), 4);
}

#[test]
fn heights_stay_in_band_and_vary() {
    let g = Globe::new_example();
    let mut lowest: u64 = u64::MAX;
    let mut highest: u64 = 0;
    for c in g.chunks().iter() {
        for cell in c.cells.iter() {
            assert!((900_000..=1_100_000).contains(&cell.height));
            lowest = lowest.min(cell.height);
            highest = highest.max(cell.height);
        }
    }
    assert!(lowest < highest, "heights must vary across the globe");
}

#[test]
fn height_formula_exact() {
    let g = Globe::new(spec(123, 1, 1, 1, 0)).unwrap();
    let gen = RandomGenerator::new(123);
    // Root 0, cell (0, 0): the projected point is the north cap's first
    // corner, direction (phi, 1, 0), so the fixed-point probe lattice is
    // (25618, 25000, 24000).
    let expected: u64 = 900_000 + gen.next(25_618, 25_000, 24_000) % 200_001;
    assert_eq!(g.chunks()[0].cells[0].height, expected);
}

#[test]
fn height_addressable_by_cell_pos() {
    let g = Globe::new(spec(7, 2, 2, 4, 0)).unwrap();
    for c in g.chunks().iter() {
        for (j, cell) in c.cells.iter().enumerate() {
            let dx = (j as u64) % 2;
            let dy = (j as u64) / 2;
            let pos = CellPos {
                root: c.origin.root,
                x: c.origin.x + dx,
                y: c.origin.y + dy,
            };
            assert_eq!(g.height_at(&pos), Some(cell.height));
        }
    }
    let r0 = Root::new(0);
    assert_eq!(g.height_at(&CellPos { root: r0, x: 4, y: 0 }), None);
    assert_eq!(g.height_at(&CellPos { root: r0, x: 0, y: 99 }), None);
}

#[test]
fn end_to_end_example() {
    let g = Globe::new_example();
    assert_eq!(g.params().seed, 42);
    assert_eq!(g.params().radius_micro, 1_200_000);
    assert_eq!(g.chunks().len(), 80);
    for c in g.chunks().iter() {
        assert_eq!(c.cells.len(), 1);
    }
    let (verts, idx) = g.make_geometry();
    assert!(!verts.is_empty());
    assert_eq!(verts.len(), 3840);
    assert_eq!(idx.len(), verts.len());
    assert_eq!(idx.len() % 3, 0);
    for (i, ind) in idx.iter().enumerate() {
        assert_eq!(*ind as usize, i);
    }
    for v in verts.iter() {
        assert!(v.root < 5);
        let den = v.pos.den as f64;
        let x = (v.pos.x.a as f64 + v.pos.x.b as f64 * PHI) / den;
        let y = (v.pos.y.a as f64 + v.pos.y.b as f64 * PHI) / den;
        let z = (v.pos.z.a as f64 + v.pos.z.b as f64 * PHI) / den;
        let n = (x * x + y * y + z * z).sqrt();
        assert!(n > 1e-6);
        let ux = x / n;
        let uy = y / n;
        let uz = z / n;
        let unit = (ux * ux + uy * uy + uz * uz).sqrt();
        assert!((unit - 1.0).abs() < 1e-9);
    }
}
