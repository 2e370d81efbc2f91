//! The fixed reference geometry: 12 vertices and 20 triangular faces of a
//! regular icosahedron, and the assignment of faces to the five root quads.
//!
//! A vertex of a regular icosahedron centred on the origin can be written,
//! up to uniform scale, with coordinates taken from `0`, `±1` and `±φ`
//! (the golden ratio). This module stores those unscaled coordinates as
//! exact values `a + b·φ` with integer `a`, `b`, so every vertex is a pair
//! of small integers per axis. Normalizing the direction onto the unit
//! sphere is left to the rendering layer.
//!
//! The face list's order is load-bearing: the projector assigns faces
//! `2·k` (north cap) and `2·k + 11` (south cap) to root quad `k`, and the
//! quad's two middle faces are synthesized from those caps' corners.

use vstd::prelude::*;

verus! {

/// An exact coordinate `a + b·φ`, where `φ = (1 + √5)/2` is the golden
/// ratio. Sums and integer multiples of such values stay in this form, so
/// all interpolation on the icosahedron is exact.
#[derive(Clone, Copy, Debug, PartialEq, Eq, Structural)]
pub struct GoldenNum {
    pub a: i64,
    pub b: i64,
}

/// A direction in space with exact golden-ratio coordinates.
#[derive(Clone, Copy, Debug, PartialEq, Eq, Structural)]
pub struct GoldenVec {
    pub x: GoldenNum,
    pub y: GoldenNum,
    pub z: GoldenNum,
}

/// True when every coefficient of the vector is `-1`, `0` or `1`, as is the
/// case for all icosahedron vertices stored here.
pub open spec fn unit_coeffs(v: GoldenVec) -> bool {
    &&& -1 <= v.x.a <= 1
    &&& -1 <= v.x.b <= 1
    &&& -1 <= v.y.a <= 1
    &&& -1 <= v.y.b <= 1
    &&& -1 <= v.z.a <= 1
    &&& -1 <= v.z.b <= 1
}

/// The unscaled direction of icosahedron vertex `i`: cyclic permutations of
/// `(±φ, ±1, 0)`. Normalized, these are the 12 unit vertices.
pub open spec fn vertex_dir(i: int) -> GoldenVec {
    if i == 0 {
        golden_vec(0, 1, 1, 0, 0, 0)
    } else if i == 1 {
        golden_vec(0, -1i64, 1, 0, 0, 0)
    } else if i == 2 {
        golden_vec(0, 1, -1i64, 0, 0, 0)
    } else if i == 3 {
        golden_vec(0, -1i64, -1i64, 0, 0, 0)
    } else if i == 4 {
        golden_vec(1, 0, 0, 0, 0, 1)
    } else if i == 5 {
        golden_vec(1, 0, 0, 0, 0, -1i64)
    } else if i == 6 {
        golden_vec(-1i64, 0, 0, 0, 0, 1)
    } else if i == 7 {
        golden_vec(-1i64, 0, 0, 0, 0, -1i64)
    } else if i == 8 {
        golden_vec(0, 0, 0, 1, 1, 0)
    } else if i == 9 {
        golden_vec(0, 0, 0, -1i64, 1, 0)
    } else if i == 10 {
        golden_vec(0, 0, 0, 1, -1i64, 0)
    } else {
        golden_vec(0, 0, 0, -1i64, -1i64, 0)
    }
}

/// Helper assembling a vector from its six coefficients.
pub open spec fn golden_vec(xa: i64, xb: i64, ya: i64, yb: i64, za: i64, zb: i64) -> GoldenVec {
    GoldenVec {
        x: GoldenNum { a: xa, b: xb },
        y: GoldenNum { a: ya, b: yb },
        z: GoldenNum { a: za, b: zb },
    }
}

/// The vertex-index triple of face `i` of the icosahedron.
pub open spec fn face_verts(i: int) -> (int, int, int) {
    if i == 0 {
        (0, 8, 4)
    } else if i == 1 {
        (1, 10, 7)
    } else if i == 2 {
        (2, 9, 11)
    } else if i == 3 {
        (7, 3, 1)
    } else if i == 4 {
        (0, 5, 10)
    } else if i == 5 {
        (3, 9, 6)
    } else if i == 6 {
        (3, 11, 9)
    } else if i == 7 {
        (8, 6, 4)
    } else if i == 8 {
        (2, 4, 9)
    } else if i == 9 {
        (3, 7, 11)
    } else if i == 10 {
        (4, 2, 0)
    } else if i == 11 {
        (9, 4, 6)
    } else if i == 12 {
        (2, 11, 5)
    } else if i == 13 {
        (0, 10, 8)
    } else if i == 14 {
        (5, 0, 2)
    } else if i == 15 {
        (10, 5, 7)
    } else if i == 16 {
        (1, 6, 8)
    } else if i == 17 {
        (1, 8, 10)
    } else if i == 18 {
        (6, 1, 3)
    } else {
        (11, 7, 5)
    }
}

/// Index of the north cap face of root quad `r`.
pub open spec fn north_face(r: int) -> int {
    2 * r
}

/// Index of the south cap face of root quad `r`.
pub open spec fn south_face(r: int) -> int {
    2 * r + 11
}

/// Every stored vertex direction has coefficients in `{-1, 0, 1}`.
pub proof fn lemma_vertex_dir_unit(i: int)
    ensures
        unit_coeffs(vertex_dir(i)),
{
}

/// The direction of vertex `i`.
pub fn vertex(i: u8) -> (v: GoldenVec)
    requires
        i < 12,
    ensures
        v == vertex_dir(i as int),
{
    if i == 0 {
        make_vec(0, 1, 1, 0, 0, 0)
    } else if i == 1 {
        make_vec(0, -1, 1, 0, 0, 0)
    } else if i == 2 {
        make_vec(0, 1, -1, 0, 0, 0)
    } else if i == 3 {
        make_vec(0, -1, -1, 0, 0, 0)
    } else if i == 4 {
        make_vec(1, 0, 0, 0, 0, 1)
    } else if i == 5 {
        make_vec(1, 0, 0, 0, 0, -1)
    } else if i == 6 {
        make_vec(-1, 0, 0, 0, 0, 1)
    } else if i == 7 {
        make_vec(-1, 0, 0, 0, 0, -1)
    } else if i == 8 {
        make_vec(0, 0, 0, 1, 1, 0)
    } else if i == 9 {
        make_vec(0, 0, 0, -1, 1, 0)
    } else if i == 10 {
        make_vec(0, 0, 0, 1, -1, 0)
    } else {
        make_vec(0, 0, 0, -1, -1, 0)
    }
}

fn make_vec(xa: i64, xb: i64, ya: i64, yb: i64, za: i64, zb: i64) -> (v: GoldenVec)
    ensures
        v == golden_vec(xa, xb, ya, yb, za, zb),
{
    GoldenVec {
        x: GoldenNum { a: xa, b: xb },
        y: GoldenNum { a: ya, b: yb },
        z: GoldenNum { a: za, b: zb },
    }
}

/// The vertex-index triple of face `i`.
pub fn face(i: u8) -> (f: (u8, u8, u8))
    requires
        i < 20,
    ensures
        (f.0 as int, f.1 as int, f.2 as int) == face_verts(i as int),
        f.0 < 12 && f.1 < 12 && f.2 < 12,
{
    if i == 0 {
        (0, 8, 4)
    } else if i == 1 {
        (1, 10, 7)
    } else if i == 2 {
        (2, 9, 11)
    } else if i == 3 {
        (7, 3, 1)
    } else if i == 4 {
        (0, 5, 10)
    } else if i == 5 {
        (3, 9, 6)
    } else if i == 6 {
        (3, 11, 9)
    } else if i == 7 {
        (8, 6, 4)
    } else if i == 8 {
        (2, 4, 9)
    } else if i == 9 {
        (3, 7, 11)
    } else if i == 10 {
        (4, 2, 0)
    } else if i == 11 {
        (9, 4, 6)
    } else if i == 12 {
        (2, 11, 5)
    } else if i == 13 {
        (0, 10, 8)
    } else if i == 14 {
        (5, 0, 2)
    } else if i == 15 {
        (10, 5, 7)
    } else if i == 16 {
        (1, 6, 8)
    } else if i == 17 {
        (1, 8, 10)
    } else if i == 18 {
        (6, 1, 3)
    } else {
        (11, 7, 5)
    }
}

/// The three corner directions of face `i`.
pub fn face_points(i: u8) -> (p: (GoldenVec, GoldenVec, GoldenVec))
    requires
        i < 20,
    ensures
        p.0 == vertex_dir(face_verts(i as int).0),
        p.1 == vertex_dir(face_verts(i as int).1),
        p.2 == vertex_dir(face_verts(i as int).2),
{
    let (v0, v1, v2) = face(i);
    (vertex(v0), vertex(v1), vertex(v2))
}

} // verus!
