//! Mapping a 2D parameter coordinate inside a root quad to a direction in
//! space.
//!
//! The parameter domain of a root quad is the square `[0,2]×[0,2]`, split
//! into four sub-regions, one per face of the quad: north (`x + y < 1`),
//! first middle (`y < 1`, not north), second middle (`x + y < 2`, not the
//! former two) and south (the rest). In each sub-region the point is an
//! affine (barycentric-style) combination of that face's three corner
//! directions. The combination is computed exactly: parameter coordinates
//! are rationals `x/den`, `y/den` over a shared denominator, and the result
//! keeps that denominator, with golden-ratio integer coordinates.
//!
//! Normalizing the resulting direction to unit length — the step that bends
//! the flat interpolation onto the sphere — is a floating-point operation
//! and is left to the rendering layer; it changes only the vector's length,
//! never its direction.

use vstd::prelude::*;
use crate::chunk::Root;
use crate::icosahedron::{GoldenNum, GoldenVec, face_points, face_verts, north_face, south_face,
    unit_coeffs, vertex_dir};

verus! {

/// Largest denominator a parameter point may carry. Keeps every intermediate
/// product comfortably inside `i64`.
pub const DEN_LIMIT: u64 = 0x100_0000_0000;

/// A 2D parameter coordinate `(x/den, y/den)` in the square `[0,2]×[0,2]`.
#[derive(Clone, Copy, Debug, PartialEq, Eq, Structural)]
pub struct ParamPoint {
    pub x: u64,
    pub y: u64,
    pub den: u64,
}

impl ParamPoint {
    /// The denominator is positive and bounded, and both coordinates lie in
    /// `[0, 2]`.
    pub open spec fn wf(self) -> bool {
        &&& 1 <= self.den <= DEN_LIMIT
        &&& self.x <= 2 * self.den
        &&& self.y <= 2 * self.den
    }
}

/// A projected point in space, not yet normalized: each coordinate is the
/// exact value `(a + b·φ)/den`, over the denominator the parameter
/// coordinate carried.
#[derive(Clone, Copy, Debug, PartialEq, Eq, Structural)]
pub struct RawPoint {
    pub x: GoldenNum,
    pub y: GoldenNum,
    pub z: GoldenNum,
    pub den: u64,
}

/// The exact mathematical value of a projected point: the six golden-ratio
/// coefficients and the denominator, as unbounded integers.
pub struct PtModel {
    pub xa: int,
    pub xb: int,
    pub ya: int,
    pub yb: int,
    pub za: int,
    pub zb: int,
    pub den: int,
}

impl RawPoint {
    /// The point's exact mathematical value.
    pub open spec fn model(self) -> PtModel {
        PtModel {
            xa: self.x.a as int,
            xb: self.x.b as int,
            ya: self.y.a as int,
            yb: self.y.b as int,
            za: self.z.a as int,
            zb: self.z.b as int,
            den: self.den as int,
        }
    }

    /// Denominator in range, and every coefficient bounded by six times the
    /// denominator, as holds for any affine combination of icosahedron
    /// vertices with weights of magnitude at most `2·den`.
    pub open spec fn wf(self) -> bool {
        &&& 1 <= self.den <= DEN_LIMIT
        &&& -6 * self.den <= self.x.a <= 6 * self.den
        &&& -6 * self.den <= self.x.b <= 6 * self.den
        &&& -6 * self.den <= self.y.a <= 6 * self.den
        &&& -6 * self.den <= self.y.b <= 6 * self.den
        &&& -6 * self.den <= self.z.a <= 6 * self.den
        &&& -6 * self.den <= self.z.b <= 6 * self.den
    }
}

/// The affine combination `w0·v0 + w1·v1 + w2·v2`, over the common
/// denominator `den`.
pub open spec fn blend(
    v0: GoldenVec,
    v1: GoldenVec,
    v2: GoldenVec,
    w0: int,
    w1: int,
    w2: int,
    den: int,
) -> PtModel {
    PtModel {
        xa: w0 * v0.x.a + w1 * v1.x.a + w2 * v2.x.a,
        xb: w0 * v0.x.b + w1 * v1.x.b + w2 * v2.x.b,
        ya: w0 * v0.y.a + w1 * v1.y.a + w2 * v2.y.a,
        yb: w0 * v0.y.b + w1 * v1.y.b + w2 * v2.y.b,
        za: w0 * v0.z.a + w1 * v1.z.a + w2 * v2.z.a,
        zb: w0 * v0.z.b + w1 * v1.z.b + w2 * v2.z.b,
        den: den,
    }
}

/// The barycentric weights of the sub-region containing `(x/den, y/den)`,
/// in the order the region's formula lists its three corners. The weights
/// always sum to `den`, so the combination is affine.
pub open spec fn region_weights(x: int, y: int, den: int) -> (int, int, int) {
    if x + y < den {
        (den - x - y, x, y)
    } else if y < den {
        (x + y - den, den - x, den - y)
    } else if x + y < 2 * den {
        (2 * den - x - y, x, y - den)
    } else {
        (x + y - 2 * den, den - x, 2 * den - y)
    }
}

/// North-region formula: interpolation of the north cap face `(a, b, c)`
/// with weights `(den - x - y, x, y)`.
pub open spec fn north_point(r: int, x: int, y: int, den: int) -> PtModel {
    let n = face_verts(north_face(r));
    blend(
        vertex_dir(n.0),
        vertex_dir(n.1),
        vertex_dir(n.2),
        den - x - y,
        x,
        y,
        den,
    )
}

/// First-middle-region formula: the point reflected through `(1, 1)` is
/// interpolated over `(d, c, b)`, giving weights
/// `(x + y - den, den - x, den - y)`.
pub open spec fn middle_first_point(r: int, x: int, y: int, den: int) -> PtModel {
    let n = face_verts(north_face(r));
    let s = face_verts(south_face(r));
    blend(
        vertex_dir(s.0),
        vertex_dir(n.2),
        vertex_dir(n.1),
        x + y - den,
        den - x,
        den - y,
        den,
    )
}

/// Second-middle-region formula: `y` reduced by one, interpolated over
/// `(c, d, e)` with weights `(2·den - x - y, x, y - den)`.
pub open spec fn middle_second_point(r: int, x: int, y: int, den: int) -> PtModel {
    let n = face_verts(north_face(r));
    let s = face_verts(south_face(r));
    blend(
        vertex_dir(n.2),
        vertex_dir(s.0),
        vertex_dir(s.1),
        2 * den - x - y,
        x,
        y - den,
        den,
    )
}

/// South-region formula: coordinates reduced by one and reflected,
/// interpolated over `(f, e, d)` with weights
/// `(x + y - 2·den, den - x, 2·den - y)`.
pub open spec fn south_point(r: int, x: int, y: int, den: int) -> PtModel {
    let s = face_verts(south_face(r));
    blend(
        vertex_dir(s.2),
        vertex_dir(s.1),
        vertex_dir(s.0),
        x + y - 2 * den,
        den - x,
        2 * den - y,
        den,
    )
}

/// The projected (not yet normalized) point for parameter coordinate
/// `(x/den, y/den)` in root quad `r`: the sub-region is selected by the
/// region bounds, and that region's formula is applied.
pub open spec fn projected_point(r: int, x: int, y: int, den: int) -> PtModel {
    if x + y < den {
        north_point(r, x, y, den)
    } else if y < den {
        middle_first_point(r, x, y, den)
    } else if x + y < 2 * den {
        middle_second_point(r, x, y, den)
    } else {
        south_point(r, x, y, den)
    }
}

/// The corner triple the selected sub-region's formula blends, in the order
/// `region_weights` lists its weights.
pub open spec fn region_corners(r: int, x: int, y: int, den: int) -> (
    GoldenVec,
    GoldenVec,
    GoldenVec,
) {
    let n = face_verts(north_face(r));
    let s = face_verts(south_face(r));
    if x + y < den {
        (vertex_dir(n.0), vertex_dir(n.1), vertex_dir(n.2))
    } else if y < den {
        (vertex_dir(s.0), vertex_dir(n.2), vertex_dir(n.1))
    } else if x + y < 2 * den {
        (vertex_dir(n.2), vertex_dir(s.0), vertex_dir(s.1))
    } else {
        (vertex_dir(s.2), vertex_dir(s.1), vertex_dir(s.0))
    }
}

/// Every projected point is the blend of its sub-region's corner triple
/// with its sub-region's weights.
pub proof fn lemma_projected_point_blend(r: int, x: int, y: int, den: int)
    ensures
        projected_point(r, x, y, den) == blend(
            region_corners(r, x, y, den).0,
            region_corners(r, x, y, den).1,
            region_corners(r, x, y, den).2,
            region_weights(x, y, den).0,
            region_weights(x, y, den).1,
            region_weights(x, y, den).2,
            den,
        ),
{
}

/// In every sub-region the three weights sum to the denominator: each
/// formula is an affine combination of its face's corners — with
/// `lemma_projected_point_blend`, the exact algebraic core of the
/// unit-sphere invariant. Together with the normalization the rendering
/// layer applies, this is what puts every projected point onto the unit
/// sphere.
pub proof fn lemma_region_weights_affine(x: int, y: int, den: int)
    ensures
        region_weights(x, y, den).0 + region_weights(x, y, den).1 + region_weights(x, y, den).2
            == den,
{
}

/// On the root quad's own rhombus — the strip `x ≤ 1`, the natural domain
/// of the four faces — every weight is also nonnegative and at most `den`:
/// the combination is barycentric, so the point lies inside its face's
/// triangle and its normalization is well defined.
pub proof fn lemma_region_weights_barycentric(x: int, y: int, den: int)
    requires
        1 <= den,
        0 <= x <= den,
        0 <= y <= 2 * den,
    ensures
        0 <= region_weights(x, y, den).0 <= den,
        0 <= region_weights(x, y, den).1 <= den,
        0 <= region_weights(x, y, den).2 <= den,
{
}

/// A blend whose first weight is zero ignores its first vertex and may list
/// the other two in either order.
proof fn lemma_blend_zero_first(
    v0: GoldenVec,
    v1: GoldenVec,
    v2: GoldenVec,
    u0: GoldenVec,
    w1: int,
    w2: int,
    den: int,
)
    ensures
        blend(v0, v1, v2, 0, w1, w2, den) == blend(u0, v2, v1, 0, w2, w1, den),
{
}

/// A blend whose last weight is zero ignores its last vertex and may list
/// the other two in either order.
proof fn lemma_blend_zero_last(
    v0: GoldenVec,
    v1: GoldenVec,
    v2: GoldenVec,
    u2: GoldenVec,
    w0: int,
    w1: int,
    den: int,
)
    ensures
        blend(v0, v1, v2, w0, w1, 0, den) == blend(v1, v0, u2, w1, w0, 0, den),
{
}

/// Seam continuity between the north and first middle regions: on the
/// boundary `x + y = 1` the two formulas produce the same exact point, so
/// the projection is continuous across it.
pub proof fn lemma_seam_north_middle(r: int, x: int, y: int, den: int)
    requires
        x + y == den,
    ensures
        north_point(r, x, y, den) == middle_first_point(r, x, y, den),
{
    let n = face_verts(north_face(r));
    let s = face_verts(south_face(r));
    let va = vertex_dir(n.0);
    let vb = vertex_dir(n.1);
    let vc = vertex_dir(n.2);
    let vd = vertex_dir(s.0);
    assert(north_point(r, x, y, den) == blend(va, vb, vc, 0, x, y, den));
    assert(middle_first_point(r, x, y, den) == blend(vd, vc, vb, 0, y, x, den));
    lemma_blend_zero_first(va, vb, vc, vd, x, y, den);
}

/// Seam continuity between the two middle regions: on the boundary `y = 1`
/// the two formulas produce the same exact point.
pub proof fn lemma_seam_middle_middle(r: int, x: int, y: int, den: int)
    requires
        y == den,
    ensures
        middle_first_point(r, x, y, den) == middle_second_point(r, x, y, den),
{
    let n = face_verts(north_face(r));
    let s = face_verts(south_face(r));
    let vb = vertex_dir(n.1);
    let vc = vertex_dir(n.2);
    let vd = vertex_dir(s.0);
    let ve = vertex_dir(s.1);
    assert(middle_first_point(r, x, y, den) == blend(vd, vc, vb, x, den - x, 0, den));
    assert(middle_second_point(r, x, y, den) == blend(vc, vd, ve, den - x, x, 0, den));
    lemma_blend_zero_last(vd, vc, vb, ve, x, den - x, den);
}

/// Seam continuity between the second middle and south regions: on the
/// boundary `x + y = 2` the two formulas produce the same exact point.
pub proof fn lemma_seam_middle_south(r: int, x: int, y: int, den: int)
    requires
        x + y == 2 * den,
    ensures
        middle_second_point(r, x, y, den) == south_point(r, x, y, den),
{
    let n = face_verts(north_face(r));
    let s = face_verts(south_face(r));
    let vc = vertex_dir(n.2);
    let vd = vertex_dir(s.0);
    let ve = vertex_dir(s.1);
    let vf = vertex_dir(s.2);
    assert(middle_second_point(r, x, y, den) == blend(vc, vd, ve, 0, x, y - den, den));
    assert(south_point(r, x, y, den) == blend(vf, ve, vd, 0, y - den, x, den));
    lemma_blend_zero_first(vc, vd, ve, vf, x, y - den, den);
}

/// Multiplies a weight by a coefficient known to be `-1`, `0` or `1`.
fn mul_unit(w: i64, c: i64) -> (r: i64)
    requires
        -1 <= c <= 1,
        i64::MIN < w,
    ensures
        r == w * c,
        r == w || r == 0 || r == -w,
{
    if c == 1 {
        proof {
            assert(w * c == w) by (nonlinear_arith)
                requires
                    c == 1,
            ;
        }
        w
    } else if c == 0 {
        proof {
            assert(w * c == 0) by (nonlinear_arith)
                requires
                    c == 0,
            ;
        }
        0
    } else {
        proof {
            assert(w * c == -w) by (nonlinear_arith)
                requires
                    c == -1,
            ;
        }
        -w
    }
}

/// One coordinate's coefficient of an affine combination of three vertices
/// whose weights are bounded by `bound` in magnitude.
fn blend_coeff(w0: i64, c0: i64, w1: i64, c1: i64, w2: i64, c2: i64, bound: i64) -> (r: i64)
    requires
        -1 <= c0 <= 1 && -1 <= c1 <= 1 && -1 <= c2 <= 1,
        0 <= bound <= 0x4000_0000_0000,
        -bound <= w0 <= bound,
        -bound <= w1 <= bound,
        -bound <= w2 <= bound,
    ensures
        r == w0 * c0 + w1 * c1 + w2 * c2,
        -3 * bound <= r <= 3 * bound,
{
    let t0 = mul_unit(w0, c0);
    let t1 = mul_unit(w1, c1);
    let t2 = mul_unit(w2, c2);
    t0 + t1 + t2
}

/// The affine combination `w0·v0 + w1·v1 + w2·v2` of three icosahedron
/// vertex directions, over the denominator `den`.
fn blend_points(v0: &GoldenVec, v1: &GoldenVec, v2: &GoldenVec, w0: i64, w1: i64, w2: i64, den: u64) -> (p: RawPoint)
    requires
        unit_coeffs(*v0),
        unit_coeffs(*v1),
        unit_coeffs(*v2),
        1 <= den <= DEN_LIMIT,
        -2 * (den as int) <= w0 <= 2 * (den as int),
        -2 * (den as int) <= w1 <= 2 * (den as int),
        -2 * (den as int) <= w2 <= 2 * (den as int),
    ensures
        p.model() == blend(*v0, *v1, *v2, w0 as int, w1 as int, w2 as int, den as int),
        p.wf(),
        p.den == den,
{
    let bound = 2 * (den as i64);
    RawPoint {
        x: GoldenNum {
            a: blend_coeff(w0, v0.x.a, w1, v1.x.a, w2, v2.x.a, bound),
            b: blend_coeff(w0, v0.x.b, w1, v1.x.b, w2, v2.x.b, bound),
        },
        y: GoldenNum {
            a: blend_coeff(w0, v0.y.a, w1, v1.y.a, w2, v2.y.a, bound),
            b: blend_coeff(w0, v0.y.b, w1, v1.y.b, w2, v2.y.b, bound),
        },
        z: GoldenNum {
            a: blend_coeff(w0, v0.z.a, w1, v1.z.a, w2, v2.z.a, bound),
            b: blend_coeff(w0, v0.z.b, w1, v1.z.b, w2, v2.z.b, bound),
        },
        den: den,
    }
}

/// The three corner directions of root quad `root`'s north cap face.
fn north_corners(root: &Root) -> (c: (GoldenVec, GoldenVec, GoldenVec))
    requires
        root.wf(),
    ensures
        c.0 == vertex_dir(face_verts(north_face(root.idx())).0),
        c.1 == vertex_dir(face_verts(north_face(root.idx())).1),
        c.2 == vertex_dir(face_verts(north_face(root.idx())).2),
        unit_coeffs(c.0) && unit_coeffs(c.1) && unit_coeffs(c.2),
{
    proof {
        crate::icosahedron::lemma_vertex_dir_unit(face_verts(north_face(root.idx())).0);
        crate::icosahedron::lemma_vertex_dir_unit(face_verts(north_face(root.idx())).1);
        crate::icosahedron::lemma_vertex_dir_unit(face_verts(north_face(root.idx())).2);
    }
    face_points(root.index() * 2)
}

/// The three corner directions of root quad `root`'s south cap face.
fn south_corners(root: &Root) -> (c: (GoldenVec, GoldenVec, GoldenVec))
    requires
        root.wf(),
    ensures
        c.0 == vertex_dir(face_verts(south_face(root.idx())).0),
        c.1 == vertex_dir(face_verts(south_face(root.idx())).1),
        c.2 == vertex_dir(face_verts(south_face(root.idx())).2),
        unit_coeffs(c.0) && unit_coeffs(c.1) && unit_coeffs(c.2),
{
    proof {
        crate::icosahedron::lemma_vertex_dir_unit(face_verts(south_face(root.idx())).0);
        crate::icosahedron::lemma_vertex_dir_unit(face_verts(south_face(root.idx())).1);
        crate::icosahedron::lemma_vertex_dir_unit(face_verts(south_face(root.idx())).2);
    }
    face_points(root.index() * 2 + 11)
}

/// The north sub-region's formula, defined on that region's closure
/// `x + y ≤ 1`.
pub fn north_formula(root: &Root, p: &ParamPoint) -> (rp: RawPoint)
    requires
        root.wf(),
        p.wf(),
        p.x + p.y <= p.den,
    ensures
        rp.model() == north_point(root.idx(), p.x as int, p.y as int, p.den as int),
        rp.wf(),
        rp.den == p.den,
{
    let (a, b, c) = north_corners(root);
    let x = p.x as i64;
    let y = p.y as i64;
    let den = p.den as i64;
    blend_points(&a, &b, &c, den - x - y, x, y, p.den)
}

/// The first middle sub-region's formula, defined on that region's closure
/// `x + y ≥ 1`, `y ≤ 1`.
pub fn middle_first_formula(root: &Root, p: &ParamPoint) -> (rp: RawPoint)
    requires
        root.wf(),
        p.wf(),
        p.x + p.y >= p.den,
        p.y <= p.den,
    ensures
        rp.model() == middle_first_point(root.idx(), p.x as int, p.y as int, p.den as int),
        rp.wf(),
        rp.den == p.den,
{
    let nc = north_corners(root);
    let sc = south_corners(root);
    let x = p.x as i64;
    let y = p.y as i64;
    let den = p.den as i64;
    blend_points(&sc.0, &nc.2, &nc.1, x + y - den, den - x, den - y, p.den)
}

/// The second middle sub-region's formula, defined on that region's closure
/// `y ≥ 1`, `x + y ≤ 2`.
pub fn middle_second_formula(root: &Root, p: &ParamPoint) -> (rp: RawPoint)
    requires
        root.wf(),
        p.wf(),
        p.y >= p.den,
        p.x + p.y <= 2 * p.den,
    ensures
        rp.model() == middle_second_point(root.idx(), p.x as int, p.y as int, p.den as int),
        rp.wf(),
        rp.den == p.den,
{
    let nc = north_corners(root);
    let sc = south_corners(root);
    let x = p.x as i64;
    let y = p.y as i64;
    let den = p.den as i64;
    blend_points(&nc.2, &sc.0, &sc.1, 2 * den - x - y, x, y - den, p.den)
}

/// The south sub-region's formula, defined on that region's closure
/// `x + y ≥ 2`.
pub fn south_formula(root: &Root, p: &ParamPoint) -> (rp: RawPoint)
    requires
        root.wf(),
        p.wf(),
        p.x + p.y >= 2 * p.den,
    ensures
        rp.model() == south_point(root.idx(), p.x as int, p.y as int, p.den as int),
        rp.wf(),
        rp.den == p.den,
{
    let sc = south_corners(root);
    let x = p.x as i64;
    let y = p.y as i64;
    let den = p.den as i64;
    blend_points(&sc.2, &sc.1, &sc.0, x + y - 2 * den, den - x, 2 * den - y, p.den)
}

/// Projects the parameter coordinate `p` of root quad `root` to its exact,
/// not yet normalized, point in space: selects the sub-region and applies
/// its formula.
pub fn project_point(root: &Root, p: &ParamPoint) -> (rp: RawPoint)
    requires
        root.wf(),
        p.wf(),
    ensures
        rp.model() == projected_point(root.idx(), p.x as int, p.y as int, p.den as int),
        rp.wf(),
        rp.den == p.den,
{
    if p.x + p.y < p.den {
        north_formula(root, p)
    } else if p.y < p.den {
        middle_first_formula(root, p)
    } else if p.x + p.y < 2 * p.den {
        middle_second_formula(root, p)
    } else {
        south_formula(root, p)
    }
}

} // verus!
