//! The globe: immutable generation parameters, the noise field, and the
//! full chunk set, with the render-mesh and projection entry points.

use vstd::prelude::*;
use vstd::pervasive::unreached;
use vstd::arithmetic::div_mod::{lemma_fundamental_div_mod, lemma_fundamental_div_mod_converse_div,
    lemma_fundamental_div_mod_converse_mod, lemma_mod_bound};
use crate::GlobeError;
use crate::chunk::{Cell, CellPos, Chunk, Root, RootIndex, ROOT_QUADS};
use crate::icosahedron::GoldenNum;
use crate::mesh::{base_tri, base_triangle, pow2, pow4, refine, subdivide, Tri};
use crate::project::{DEN_LIMIT, ParamPoint, RawPoint, project_point, projected_point};
use crate::random::{noise_at, RandomGenerator};

verus! {

/// Immutable configuration of one globe.
///
/// The root quad's logical grid is `root_resolution × root_resolution`
/// cells, partitioned into `chunks_per_root_side²` chunks of
/// `chunk_resolution²` cells each, so a configuration is consistent exactly
/// when `chunks_per_root_side · chunk_resolution == root_resolution`.
/// `radius_micro` is the sphere's radius in millionths (the rendering layer
/// scales by it after normalizing); `resolution` is the render mesh's
/// subdivision depth, independent of the chunk grid.
#[derive(Clone, Copy, Debug, PartialEq, Eq, Structural)]
pub struct Spec {
    pub seed: u64,
    pub radius_micro: u64,
    pub chunks_per_root_side: u64,
    pub chunk_resolution: u64,
    pub root_resolution: u64,
    pub resolution: u64,
}

impl Spec {
    /// The chunk grid divides the root quad grid evenly.
    pub open spec fn divisible_ok(self) -> bool {
        &&& 1 <= self.chunks_per_root_side
        &&& 1 <= self.chunk_resolution
        &&& self.chunks_per_root_side * self.chunk_resolution == self.root_resolution
    }

    /// Machine bounds: keep cell counts within address space, mesh indices
    /// within `u16`, and denominators within the projector's limit.
    pub open spec fn within_limits(self) -> bool {
        &&& self.chunks_per_root_side <= 1024
        &&& self.chunk_resolution <= 1024
        &&& self.resolution <= 5
    }

    /// Checks the divisibility invariant.
    pub fn is_valid(&self) -> (b: bool)
        ensures
            b == self.divisible_ok(),
    {
        let a = self.chunks_per_root_side as u128;
        let b = self.chunk_resolution as u128;
        proof {
            assert(a * b <= u128::MAX) by (nonlinear_arith)
                requires
                    a < 0x1_0000_0000_0000_0000,
                    b < 0x1_0000_0000_0000_0000,
            ;
        }
        self.chunks_per_root_side >= 1 && self.chunk_resolution >= 1 && a * b
            == self.root_resolution as u128
    }

    /// Checks the machine bounds.
    pub fn fits_limits(&self) -> (b: bool)
        ensures
            b == self.within_limits(),
    {
        self.chunks_per_root_side <= 1024 && self.chunk_resolution <= 1024 && self.resolution <= 5
    }
}

/// Fixed-point lattice coordinate (in thousandths, with `φ ≈ 1.618`,
/// offset to be nonnegative) of the exact coordinate `(a + b·φ)/den`. This
/// is where the continuous noise field is probed for a projected point.
pub open spec fn lattice_coord(a: int, b: int, den: int) -> int {
    (a * 1000 + b * 1618 + 24000 * den) / den
}

/// The height of the cell at grid position `(x, y)` of root quad `r`:
/// the noise field sampled at the cell's projected position, mapped into
/// `[900_000, 1_100_000]` — the nominal surface give or take ten percent.
pub open spec fn cell_height(s: Spec, r: int, x: int, y: int) -> u64 {
    let den = s.root_resolution as int;
    let p = projected_point(r, 2 * x, 2 * y, den);
    let fx = lattice_coord(p.xa, p.xb, den);
    let fy = lattice_coord(p.ya, p.yb, den);
    let fz = lattice_coord(p.za, p.zb, den);
    (900_000 + noise_at(s.seed, fx as u64, fy as u64, fz as u64) % 200_001) as u64
}

/// How many chunks a globe with configuration `s` owns.
pub open spec fn chunk_count(s: Spec) -> int {
    5 * s.chunks_per_root_side * s.chunks_per_root_side
}

/// Root quad index of the chunk at position `k` of the row-major chunk
/// order (roots outermost, then chunk rows, then chunk columns).
pub open spec fn chunk_root(s: Spec, k: int) -> int {
    k / (s.chunks_per_root_side * s.chunks_per_root_side)
}

/// Chunk row of the chunk at position `k`.
pub open spec fn chunk_cy(s: Spec, k: int) -> int {
    (k % (s.chunks_per_root_side * s.chunks_per_root_side)) / s.chunks_per_root_side as int
}

/// Chunk column of the chunk at position `k`.
pub open spec fn chunk_cx(s: Spec, k: int) -> int {
    (k % (s.chunks_per_root_side * s.chunks_per_root_side)) % s.chunks_per_root_side as int
}

/// The chunk at position `k` of a globe with configuration `s` is the
/// expected one: its origin addresses chunk `(cx, cy)` of root `r`, and
/// every cell carries the height of its grid position, row-major from the
/// origin.
pub open spec fn chunk_wf(s: Spec, c: Chunk, k: int) -> bool {
    let r = chunk_root(s, k);
    let cx = chunk_cx(s, k);
    let cy = chunk_cy(s, k);
    let cr = s.chunk_resolution as int;
    &&& c.origin.root.wf()
    &&& c.origin.root.idx() == r
    &&& c.origin.x == cx * cr
    &&& c.origin.y == cy * cr
    &&& c.cells@.len() == cr * cr
    &&& forall|j: int|
        0 <= j < c.cells@.len() ==> (#[trigger] c.cells@[j]).height == cell_height(
            s,
            r,
            cx * cr + (j % cr),
            cy * cr + (j / cr),
        )
}

/// A render vertex: the exact projected position (to be normalized and
/// scaled by the rendering layer) and the owning root quad, from whose
/// palette entry the rendering layer derives the vertex color.
#[derive(Clone, Copy, Debug, PartialEq, Eq, Structural)]
pub struct GeoVertex {
    pub pos: RawPoint,
    pub root: RootIndex,
}

/// The triangles of one root quad's render mesh at subdivision depth
/// `res`: the quad's four base parameter triangles, each refined `res`
/// times.
pub open spec fn mesh_tris(res: nat) -> Seq<Tri> {
    refine(seq![base_tri(0)], res) + refine(seq![base_tri(1)], res) + refine(
        seq![base_tri(2)],
        res,
    ) + refine(seq![base_tri(3)], res)
}

/// How many triangles one root quad's render mesh holds.
pub open spec fn mesh_tri_count(res: nat) -> int {
    4 * pow4(res) as int
}

/// Root quad of render vertex `i` (vertices are emitted root by root,
/// triangle by triangle, corner by corner).
pub open spec fn vert_root(res: nat, i: int) -> int {
    i / (3 * mesh_tri_count(res))
}

/// Mesh triangle of render vertex `i` within its root quad.
pub open spec fn vert_tri(res: nat, i: int) -> int {
    (i % (3 * mesh_tri_count(res))) / 3
}

/// Corner of render vertex `i` within its triangle.
pub open spec fn vert_corner(res: nat, i: int) -> int {
    (i % (3 * mesh_tri_count(res))) % 3
}

/// Render vertex `i` carries its root quad's index and the exact projection
/// of its mesh triangle corner.
pub open spec fn geo_vertex_ok(s: Spec, gv: GeoVertex, i: int) -> bool {
    let res = s.resolution as nat;
    let r = vert_root(res, i);
    let t = vert_tri(res, i);
    let v = vert_corner(res, i);
    let tri = mesh_tris(res)[t];
    &&& gv.root == r
    &&& gv.pos.wf()
    &&& gv.pos.den == pow2(res)
    &&& gv.pos.model() == projected_point(r, tri.vx(v) as int, tri.vy(v) as int, pow2(res) as int)
}

/// A globe: its configuration, its noise field, and the full ordered chunk
/// set. Built once; read-only afterwards.
pub struct Globe {
    params: Spec,
    rand: RandomGenerator,
    chunks: Vec<Chunk>,
}

impl Globe {
    /// The configuration this globe was built from.
    pub closed spec fn params_spec(self) -> Spec {
        self.params
    }

    /// The globe's noise field.
    pub closed spec fn rand_gen(self) -> RandomGenerator {
        self.rand
    }

    /// The globe's chunks, in construction order.
    pub closed spec fn chunks_seq(self) -> Seq<Chunk> {
        self.chunks@
    }

    /// A globe is well formed when its configuration is consistent and in
    /// bounds, its noise field carries the configured seed, and its chunk
    /// set is exactly the grid the configuration describes.
    pub open spec fn wf(self) -> bool {
        &&& self.params_spec().divisible_ok()
        &&& self.params_spec().within_limits()
        &&& self.rand_gen().seed_val() == self.params_spec().seed
        &&& self.chunks_seq().len() == chunk_count(self.params_spec())
        &&& forall|k: int|
            0 <= k < self.chunks_seq().len() ==> chunk_wf(
                self.params_spec(),
                #[trigger] self.chunks_seq()[k],
                k,
            )
    }

    /// The configuration.
    pub fn params(&self) -> (s: &Spec)
        ensures
            *s == self.params_spec(),
    {
        &self.params
    }

    /// The chunk set, in construction order.
    pub fn chunks(&self) -> (c: &Vec<Chunk>)
        ensures
            c@ == self.chunks_seq(),
    {
        &self.chunks
    }

    /// The height of the cell addressed by `pos`, or `None` for a position
    /// outside the root quad's grid. The cell's stored height is exactly
    /// the one the configuration assigns to that grid position.
    pub fn height_at(&self, pos: &CellPos) -> (h: Option<u64>)
        requires
            self.wf(),
            pos.root.wf(),
        ensures
            h is Some <==> pos.x < self.params_spec().root_resolution && pos.y
                < self.params_spec().root_resolution,
            h is Some ==> h->0 == cell_height(
                self.params_spec(),
                pos.root.idx(),
                pos.x as int,
                pos.y as int,
            ),
    {
        if pos.x >= self.params.root_resolution || pos.y >= self.params.root_resolution {
            return None;
        }
        let cr = self.params.chunk_resolution;
        let cps = self.params.chunks_per_root_side;
        let r = pos.root.index();
        let cx = pos.x / cr;
        let cy = pos.y / cr;
        let dx = pos.x % cr;
        let dy = pos.y % cr;
        proof {
            lemma_fundamental_div_mod(pos.x as int, cr as int);
            lemma_mod_bound(pos.x as int, cr as int);
            lemma_fundamental_div_mod(pos.y as int, cr as int);
            lemma_mod_bound(pos.y as int, cr as int);
            assert(cx < cps && cy < cps) by (nonlinear_arith)
                requires
                    pos.x < cps * cr,
                    pos.y < cps * cr,
                    pos.x == cr * (cx as int) + dx,
                    pos.y == cr * (cy as int) + dy,
                    0 <= dx,
                    0 <= dy,
                    0 <= cx,
                    0 <= cy,
                    1 <= cr,
            ;
        }
        proof {
            assert((r as int) * cps + cy < 6 * 1024 && ((r as int) * cps + cy) * cps + cx
                < 0x60_0000 && (dy as int) * cr + dx < 0x10_0000) by (nonlinear_arith)
                requires
                    0 <= r < 5,
                    0 <= cx < cps,
                    0 <= cy < cps,
                    cps <= 1024,
                    0 <= dx < cr,
                    0 <= dy < cr,
                    cr <= 1024,
            ;
        }
        let k = ((r as u64) * cps + cy) * cps + cx;
        let j = dy * cr + dx;
        let ghost s = self.params_spec();
        let ghost sq: int = (cps as int) * (cps as int);
        proof {
            let rem = (cy as int) * (cps as int) + cx;
            assert((((r as int) * cps + cy) * cps + cx) == (r as int) * sq + rem && 0 <= rem < sq
                && (r as int) * sq + rem < 5 * sq && j < (cr as int) * (cr as int))
                by (nonlinear_arith)
                requires
                    sq == (cps as int) * (cps as int),
                    rem == (cy as int) * (cps as int) + cx,
                    0 <= cx < cps,
                    0 <= cy < cps,
                    0 <= r < 5,
                    j == (dy as int) * (cr as int) + dx,
                    0 <= dx < cr,
                    0 <= dy < cr,
            ;
            assert(5 * sq == chunk_count(s)) by (nonlinear_arith)
                requires
                    sq == (s.chunks_per_root_side as int) * (s.chunks_per_root_side as int),
                    cps == s.chunks_per_root_side,
            ;
            lemma_fundamental_div_mod_converse_div(k as int, sq, r as int, rem);
            lemma_fundamental_div_mod_converse_mod(k as int, sq, r as int, rem);
            lemma_fundamental_div_mod_converse_div(rem, cps as int, cy as int, cx as int);
            lemma_fundamental_div_mod_converse_mod(rem, cps as int, cy as int, cx as int);
            assert(chunk_wf(s, self.chunks_seq()[k as int], k as int));
            lemma_fundamental_div_mod_converse_div(j as int, cr as int, dy as int, dx as int);
            lemma_fundamental_div_mod_converse_mod(j as int, cr as int, dy as int, dx as int);
            assert((cx as int) * (cr as int) + dx == pos.x && (cy as int) * (cr as int) + dy
                == pos.y) by (nonlinear_arith)
                requires
                    pos.x == (cr as int) * (cx as int) + dx,
                    pos.y == (cr as int) * (cy as int) + dy,
            ;
        }
        Some(self.chunks[k as usize].cells[j as usize].height)
    }

    /// Builds a globe from a configuration, after validating it: a
    /// configuration whose chunk grid does not divide its root grid evenly
    /// is refused outright.
    pub fn new(spec: Spec) -> (g: Result<Globe, GlobeError>)
        requires
            spec.within_limits(),
        ensures
            g is Ok <==> spec.divisible_ok(),
            g is Err ==> g->Err_0 == GlobeError::InvalidSpec,
            g is Ok ==> (g->Ok_0).wf() && (g->Ok_0).params_spec() == spec,
    {
        if !spec.is_valid() {
            return Err(GlobeError::InvalidSpec);
        }
        let rand = RandomGenerator::new(spec.seed);
        let chunks = Globe::create_chunks(&spec, &rand);
        Ok(Globe { params: spec, rand, chunks })
    }

    /// A small example globe.
    pub fn new_example() -> (g: Globe)
        ensures
            g.wf(),
            g.params_spec() == example_spec(),
    {
        let spec = Spec {
            seed: 42,
            radius_micro: 1_200_000,
            chunks_per_root_side: 4,
            chunk_resolution: 1,
            root_resolution: 4,
            resolution: 3,
        };
        match Globe::new(spec) {
            Ok(g) => g,
            Err(_) => unreached(),
        }
    }

    /// Maps a parameter coordinate of a root quad to its exact point in
    /// space, for ad-hoc positions (camera placement, picking). The
    /// rendering layer normalizes the result onto the sphere.
    pub fn project_to_world(root: &Root, p: &ParamPoint) -> (rp: RawPoint)
        requires
            root.wf(),
            p.wf(),
        ensures
            rp.model() == projected_point(root.idx(), p.x as int, p.y as int, p.den as int),
            rp.wf(),
            rp.den == p.den,
    {
        project_point(root, p)
    }

    /// Produces a renderer-agnostic triangle-list mesh covering the whole
    /// sphere at the configured subdivision depth: one vertex per triangle
    /// corner (no sharing) and one sequential index per vertex. Every
    /// vertex's position is the exact projection of its mesh triangle
    /// corner; the rendering layer normalizes, scales by the radius and
    /// colors by root quad.
    pub fn make_geometry(&self) -> (out: (Vec<GeoVertex>, Vec<u16>))
        requires
            self.wf(),
        ensures
            out.0@.len() == 5 * mesh_tri_count(self.params_spec().resolution as nat) * 3,
            out.1@.len() == out.0@.len(),
            forall|i: int| 0 <= i < out.1@.len() ==> #[trigger] out.1@[i] == i as u16,
            forall|i: int|
                0 <= i < out.0@.len() ==> geo_vertex_ok(self.params_spec(), #[trigger] out.0@[i], i),
    {
        let res = self.params.resolution;
        let ghost resn: nat = res as nat;
        proof {
            reveal_with_fuel(crate::mesh::pow2, 7);
            reveal_with_fuel(crate::mesh::pow4, 7);
            assert(1 <= pow2(resn) <= 32 && 1 <= pow4(resn) <= 1024);
        }
        let mut tris = subdivide(&base_triangle(0), res);
        let mut more = subdivide(&base_triangle(1), res);
        tris.append(&mut more);
        let mut more = subdivide(&base_triangle(2), res);
        tris.append(&mut more);
        let mut more = subdivide(&base_triangle(3), res);
        tris.append(&mut more);
        let ghost s0 = refine(seq![base_tri(0)], resn);
        let ghost s1 = refine(seq![base_tri(1)], resn);
        let ghost s2 = refine(seq![base_tri(2)], resn);
        let ghost s3 = refine(seq![base_tri(3)], resn);
        proof {
            assert(tris@ == mesh_tris(resn));
            assert forall|i: int|
                0 <= i < tris@.len() implies (#[trigger] tris@[i]).wf() && tris@[i].den == pow2(
                resn,
            ) by {
                if i < s0.len() {
                    assert(tris@[i] == s0[i]);
                } else if i < s0.len() + s1.len() {
                    assert(tris@[i] == s1[i - s0.len()]);
                } else if i < s0.len() + s1.len() + s2.len() {
                    assert(tris@[i] == s2[i - s0.len() - s1.len()]);
                } else {
                    assert(tris@[i] == s3[i - s0.len() - s1.len() - s2.len()]);
                }
            }
        }
        let tri_n = tris.len();
        let ghost c3: int = 3 * (tri_n as int);
        proof {
            assert(tri_n == mesh_tri_count(resn));
        }
        let mut verts: Vec<GeoVertex> = Vec::new();
        let mut index_data: Vec<u16> = Vec::new();
        let mut r: u8 = 0;
        while r < ROOT_QUADS
            invariant
                r <= 5,
                res == self.params_spec().resolution,
                resn == res as nat,
                tris@ == mesh_tris(resn),
                tri_n == tris@.len(),
                tri_n == mesh_tri_count(resn),
                tri_n <= 4096,
                c3 == 3 * tri_n,
                1 <= pow2(resn) <= 32,
                forall|q: int|
                    0 <= q < tris@.len() ==> (#[trigger] tris@[q]).wf() && tris@[q].den == pow2(
                        resn,
                    ),
                verts@.len() == r * c3,
                index_data@.len() == verts@.len(),
                forall|i: int| 0 <= i < index_data@.len() ==> #[trigger] index_data@[i] == i as u16,
                forall|i: int|
                    0 <= i < verts@.len() ==> geo_vertex_ok(
                        self.params_spec(),
                        #[trigger] verts@[i],
                        i,
                    ),
            decreases 5 - r,
        {
            let mut t: usize = 0;
            while t < tri_n
                invariant
                    t <= tri_n,
                    r < 5,
                    res == self.params_spec().resolution,
                    resn == res as nat,
                    tris@ == mesh_tris(resn),
                    tri_n == tris@.len(),
                    tri_n == mesh_tri_count(resn),
                    tri_n <= 4096,
                    c3 == 3 * tri_n,
                    1 <= pow2(resn) <= 32,
                    forall|q: int|
                        0 <= q < tris@.len() ==> (#[trigger] tris@[q]).wf() && tris@[q].den == pow2(
                            resn,
                        ),
                    verts@.len() == r * c3 + 3 * t,
                    index_data@.len() == verts@.len(),
                    forall|i: int|
                        0 <= i < index_data@.len() ==> #[trigger] index_data@[i] == i as u16,
                    forall|i: int|
                        0 <= i < verts@.len() ==> geo_vertex_ok(
                            self.params_spec(),
                            #[trigger] verts@[i],
                            i,
                        ),
                decreases tri_n - t,
            {
                let mut v: u8 = 0;
                while v < 3
                    invariant
                        v <= 3,
                        t < tri_n,
                        r < 5,
                        res == self.params_spec().resolution,
                        resn == res as nat,
                        tris@ == mesh_tris(resn),
                        tri_n == tris@.len(),
                        tri_n == mesh_tri_count(resn),
                        tri_n <= 4096,
                        c3 == 3 * tri_n,
                        1 <= pow2(resn) <= 32,
                        forall|q: int|
                            0 <= q < tris@.len() ==> (#[trigger] tris@[q]).wf() && tris@[q].den
                                == pow2(resn),
                        verts@.len() == r * c3 + 3 * t + v,
                        index_data@.len() == verts@.len(),
                        forall|i: int|
                            0 <= i < index_data@.len() ==> #[trigger] index_data@[i] == i as u16,
                        forall|i: int|
                            0 <= i < verts@.len() ==> geo_vertex_ok(
                                self.params_spec(),
                                #[trigger] verts@[i],
                                i,
                            ),
                    decreases 3 - v,
                {
                    let tri = tris[t];
                    let xy = tri.corner(v);
                    let p = ParamPoint { x: xy.0, y: xy.1, den: tri.den };
                    let root = Root::new(r);
                    let rp = project_point(&root, &p);
                    proof {
                        let i = verts@.len() as int;
                        let rem = 3 * (t as int) + v;
                        assert(verts@.len() <= 61442) by (nonlinear_arith)
                            requires
                                verts@.len() == r * c3 + 3 * t + v,
                                0 <= r <= 4,
                                0 <= c3 <= 12288,
                                c3 == 3 * tri_n,
                                0 <= t < tri_n,
                                0 <= v <= 2,
                        ;
                        lemma_fundamental_div_mod_converse_div(i, c3, r as int, rem);
                        lemma_fundamental_div_mod_converse_mod(i, c3, r as int, rem);
                        lemma_fundamental_div_mod_converse_div(rem, 3, t as int, v as int);
                        lemma_fundamental_div_mod_converse_mod(rem, 3, t as int, v as int);
                    }
                    let n = verts.len();
                    verts.push(GeoVertex { pos: rp, root: r });
                    index_data.push(n as u16);
                    v = v + 1;
                }
                t = t + 1;
            }
            proof {
                assert(r * c3 + c3 == (r + 1) * c3) by (nonlinear_arith);
            }
            r = r + 1;
        }
        proof {
            assert(5 * c3 == 5 * mesh_tri_count(resn) * 3) by (nonlinear_arith)
                requires
                    c3 == 3 * mesh_tri_count(resn),
            ;
        }
        (verts, index_data)
    }

    /// Builds all chunks: every root quad, and within it every chunk
    /// origin, row-major.
    fn create_chunks(s: &Spec, rand: &RandomGenerator) -> (out: Vec<Chunk>)
        requires
            s.divisible_ok(),
            s.within_limits(),
            rand.seed_val() == s.seed,
        ensures
            out@.len() == chunk_count(*s),
            forall|k: int| 0 <= k < out@.len() ==> chunk_wf(*s, #[trigger] out@[k], k),
    {
        let cps = s.chunks_per_root_side;
        let cr = s.chunk_resolution;
        let ghost sq: int = (cps as int) * (cps as int);
        let mut out: Vec<Chunk> = Vec::new();
        let mut r: u8 = 0;
        while r < ROOT_QUADS
            invariant
                r <= 5,
                cps == s.chunks_per_root_side,
                cr == s.chunk_resolution,
                sq == (cps as int) * (cps as int),
                s.divisible_ok(),
                s.within_limits(),
                rand.seed_val() == s.seed,
                out@.len() == r * sq,
                forall|k: int| 0 <= k < out@.len() ==> chunk_wf(*s, #[trigger] out@[k], k),
            decreases 5 - r,
        {
            let mut cy: u64 = 0;
            while cy < cps
                invariant
                    cy <= cps,
                    r < 5,
                    cps == s.chunks_per_root_side,
                    cr == s.chunk_resolution,
                    sq == (cps as int) * (cps as int),
                    s.divisible_ok(),
                    s.within_limits(),
                    rand.seed_val() == s.seed,
                    out@.len() == r * sq + cy * cps,
                    forall|k: int| 0 <= k < out@.len() ==> chunk_wf(*s, #[trigger] out@[k], k),
                decreases cps - cy,
            {
                let mut cx: u64 = 0;
                while cx < cps
                    invariant
                        cx <= cps,
                        cy < cps,
                        r < 5,
                        cps == s.chunks_per_root_side,
                        cr == s.chunk_resolution,
                        sq == (cps as int) * (cps as int),
                        s.divisible_ok(),
                        s.within_limits(),
                        rand.seed_val() == s.seed,
                        out@.len() == r * sq + cy * cps + cx,
                        forall|k: int| 0 <= k < out@.len() ==> chunk_wf(*s, #[trigger] out@[k], k),
                    decreases cps - cx,
                {
                    proof {
                        assert(cx * cr + cr <= cps * cr && cy * cr + cr <= cps * cr)
                            by (nonlinear_arith)
                            requires
                                cx + 1 <= cps,
                                cy + 1 <= cps,
                                0 <= cr,
                        ;
                    }
                    let root = Root::new(r);
                    let origin = CellPos { root, x: cx * cr, y: cy * cr };
                    let c = Globe::build_chunk(s, rand, origin);
                    proof {
                        let k = out@.len() as int;
                        let rem = (cy as int) * (cps as int) + cx;
                        assert(0 <= rem < sq && cy * cps + cps <= sq) by (nonlinear_arith)
                            requires
                                sq == (cps as int) * (cps as int),
                                rem == (cy as int) * (cps as int) + cx,
                                0 <= cx < cps,
                                0 <= cy < cps,
                        ;
                        lemma_fundamental_div_mod_converse_div(k, sq, r as int, rem);
                        lemma_fundamental_div_mod_converse_mod(k, sq, r as int, rem);
                        lemma_fundamental_div_mod_converse_div(rem, cps as int, cy as int, cx as int);
                        lemma_fundamental_div_mod_converse_mod(rem, cps as int, cy as int, cx as int);
                        assert(chunk_root(*s, k) == r);
                        assert(chunk_cy(*s, k) == cy);
                        assert(chunk_cx(*s, k) == cx);
                    }
                    out.push(c);
                    cx = cx + 1;
                }
                proof {
                    assert(r * sq + cy * cps + cps == r * sq + (cy + 1) * cps) by (nonlinear_arith);
                }
                cy = cy + 1;
            }
            proof {
                assert(r * sq + cps * cps == (r + 1) * sq) by (nonlinear_arith)
                    requires
                        sq == (cps as int) * (cps as int),
                ;
            }
            r = r + 1;
        }
        proof {
            assert(5 * sq == chunk_count(*s)) by (nonlinear_arith)
                requires
                    sq == (s.chunks_per_root_side as int) * (s.chunks_per_root_side as int),
            ;
        }
        out
    }

    /// Builds one chunk: the `chunk_resolution²` cells of the block at
    /// `origin`, row-major, each with its height sampled at its projected
    /// position.
    fn build_chunk(s: &Spec, rand: &RandomGenerator, origin: CellPos) -> (c: Chunk)
        requires
            s.divisible_ok(),
            s.within_limits(),
            rand.seed_val() == s.seed,
            origin.root.wf(),
            origin.x + s.chunk_resolution <= s.root_resolution,
            origin.y + s.chunk_resolution <= s.root_resolution,
        ensures
            c.origin == origin,
            c.cells@.len() == s.chunk_resolution * s.chunk_resolution,
            forall|j: int|
                0 <= j < c.cells@.len() ==> (#[trigger] c.cells@[j]).height == cell_height(
                    *s,
                    origin.root.idx(),
                    origin.x + (j % (s.chunk_resolution as int)),
                    origin.y + (j / (s.chunk_resolution as int)),
                ),
    {
        let cr = s.chunk_resolution;
        let mut cells: Vec<Cell> = Vec::new();
        let mut dy: u64 = 0;
        while dy < cr
            invariant
                dy <= cr,
                cr == s.chunk_resolution,
                s.divisible_ok(),
                s.within_limits(),
                rand.seed_val() == s.seed,
                origin.root.wf(),
                origin.x + cr <= s.root_resolution,
                origin.y + cr <= s.root_resolution,
                cells@.len() == dy * cr,
                forall|j: int|
                    0 <= j < cells@.len() ==> (#[trigger] cells@[j]).height == cell_height(
                        *s,
                        origin.root.idx(),
                        origin.x + (j % (cr as int)),
                        origin.y + (j / (cr as int)),
                    ),
            decreases cr - dy,
        {
            let mut dx: u64 = 0;
            while dx < cr
                invariant
                    dx <= cr,
                    dy < cr,
                    cr == s.chunk_resolution,
                    s.divisible_ok(),
                    s.within_limits(),
                    rand.seed_val() == s.seed,
                    origin.root.wf(),
                    origin.x + cr <= s.root_resolution,
                    origin.y + cr <= s.root_resolution,
                    cells@.len() == dy * cr + dx,
                    forall|j: int|
                        0 <= j < cells@.len() ==> (#[trigger] cells@[j]).height == cell_height(
                            *s,
                            origin.root.idx(),
                            origin.x + (j % (cr as int)),
                            origin.y + (j / (cr as int)),
                        ),
                decreases cr - dx,
            {
                let h = Globe::sample_height(s, rand, origin.root, origin.x + dx, origin.y + dy);
                proof {
                    let j = cells@.len() as int;
                    lemma_fundamental_div_mod_converse_div(j, cr as int, dy as int, dx as int);
                    lemma_fundamental_div_mod_converse_mod(j, cr as int, dy as int, dx as int);
                }
                cells.push(Cell { height: h });
                dx = dx + 1;
            }
            proof {
                assert(dy * cr + cr == (dy + 1) * cr) by (nonlinear_arith);
            }
            dy = dy + 1;
        }
        Chunk { origin, cells }
    }

    /// Samples the noise field at the projected position of the cell at
    /// `(x, y)` of root quad `root` and maps the sample into the height
    /// band around the nominal surface.
    fn sample_height(s: &Spec, rand: &RandomGenerator, root: Root, x: u64, y: u64) -> (h: u64)
        requires
            s.divisible_ok(),
            s.within_limits(),
            rand.seed_val() == s.seed,
            root.wf(),
            x < s.root_resolution,
            y < s.root_resolution,
        ensures
            h == cell_height(*s, root.idx(), x as int, y as int),
    {
        proof {
            assert(1 <= s.root_resolution <= 0x10_0000) by (nonlinear_arith)
                requires
                    1 <= s.chunks_per_root_side <= 1024,
                    1 <= s.chunk_resolution <= 1024,
                    s.root_resolution == s.chunks_per_root_side * s.chunk_resolution,
            ;
        }
        let p = ParamPoint { x: 2 * x, y: 2 * y, den: s.root_resolution };
        let rp = project_point(&root, &p);
        let fx = Globe::lattice_of(rp.x, s.root_resolution);
        let fy = Globe::lattice_of(rp.y, s.root_resolution);
        let fz = Globe::lattice_of(rp.z, s.root_resolution);
        900_000 + rand.next(fx, fy, fz) % 200_001
    }

    /// The fixed-point lattice coordinate of one exact coordinate
    /// `(a + b·φ)/den`, matching `lattice_coord`.
    fn lattice_of(g: GoldenNum, den: u64) -> (f: u64)
        requires
            1 <= den <= DEN_LIMIT,
            -6 * (den as int) <= g.a <= 6 * (den as int),
            -6 * (den as int) <= g.b <= 6 * (den as int),
        ensures
            f == lattice_coord(g.a as int, g.b as int, den as int),
    {
        let big: i64 = g.a * 1000 + g.b * 1618 + 24000 * (den as i64);
        (big as u64) / den
    }
}

/// Determinism of construction: two well-formed globes built from equal
/// configurations hold identical chunk data — the same chunk count, the
/// same origins in the same order, and bit-identical cell heights.
pub proof fn lemma_globe_deterministic(g1: Globe, g2: Globe)
    requires
        g1.wf(),
        g2.wf(),
        g1.params_spec() == g2.params_spec(),
    ensures
        g1.chunks_seq().len() == g2.chunks_seq().len(),
        forall|k: int|
            0 <= k < g1.chunks_seq().len() ==> {
                let c1 = #[trigger] g1.chunks_seq()[k];
                let c2 = g2.chunks_seq()[k];
                c1.origin == c2.origin && c1.cells@.len() == c2.cells@.len() && forall|j: int|
                    0 <= j < c1.cells@.len() ==> (#[trigger] c1.cells@[j]).height
                        == c2.cells@[j].height
            },
{
    assert forall|k: int| 0 <= k < g1.chunks_seq().len() implies {
        let c1 = #[trigger] g1.chunks_seq()[k];
        let c2 = g2.chunks_seq()[k];
        c1.origin == c2.origin && c1.cells@.len() == c2.cells@.len() && forall|j: int|
            0 <= j < c1.cells@.len() ==> (#[trigger] c1.cells@[j]).height == c2.cells@[j].height
    } by {
        let c1 = g1.chunks_seq()[k];
        let c2 = g2.chunks_seq()[k];
        assert(chunk_wf(g1.params_spec(), c1, k));
        assert(chunk_wf(g2.params_spec(), c2, k));
        Root::lemma_eq(c1.origin.root, c2.origin.root);
    }
}

/// The configuration `new_example` builds from.
pub open spec fn example_spec() -> Spec {
    Spec {
        seed: 42,
        radius_micro: 1_200_000,
        chunks_per_root_side: 4,
        chunk_resolution: 1,
        root_resolution: 4,
        resolution: 3,
    }
}

} // verus!
