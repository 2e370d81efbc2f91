//! Uniform refinement of flat parameter-space triangles.
//!
//! A triangle is split into four by connecting the midpoints of its edges,
//! repeatedly, producing `4^depth` triangles. Everything happens in the 2D
//! parameter domain over exact rational coordinates: a midpoint doubles the
//! common denominator, so no precision is ever lost. Projection to 3D comes
//! afterwards, vertex by vertex.

use vstd::prelude::*;
use crate::project::DEN_LIMIT;

verus! {

/// A triangle in a root quad's parameter domain. Its corners are
/// `(ax/den, ay/den)`, `(bx/den, by/den)` and `(cx/den, cy/den)`.
#[derive(Clone, Copy, Debug, PartialEq, Eq, Structural)]
pub struct Tri {
    pub ax: u64,
    pub ay: u64,
    pub bx: u64,
    pub by: u64,
    pub cx: u64,
    pub cy: u64,
    pub den: u64,
}

impl Tri {
    /// The denominator is positive and bounded and all corners lie in the
    /// parameter square `[0,2]×[0,2]`.
    pub open spec fn wf(self) -> bool {
        &&& 1 <= self.den <= DEN_LIMIT
        &&& self.ax <= 2 * self.den
        &&& self.ay <= 2 * self.den
        &&& self.bx <= 2 * self.den
        &&& self.by <= 2 * self.den
        &&& self.cx <= 2 * self.den
        &&& self.cy <= 2 * self.den
    }

    /// The x numerator of corner `v` (0, 1 or 2 for a, b, c).
    pub open spec fn vx(self, v: int) -> u64 {
        if v == 0 {
            self.ax
        } else if v == 1 {
            self.bx
        } else {
            self.cx
        }
    }

    /// The y numerator of corner `v`.
    pub open spec fn vy(self, v: int) -> u64 {
        if v == 0 {
            self.ay
        } else if v == 1 {
            self.by
        } else {
            self.cy
        }
    }

    /// The numerators of corner `v`.
    pub fn corner(&self, v: u8) -> (xy: (u64, u64))
        requires
            v < 3,
        ensures
            xy.0 == self.vx(v as int),
            xy.1 == self.vy(v as int),
    {
        if v == 0 {
            (self.ax, self.ay)
        } else if v == 1 {
            (self.bx, self.by)
        } else {
            (self.cx, self.cy)
        }
    }
}

/// The `b`-th base parameter triangle of a root quad. The four base
/// triangles tile the quad's rhombus — the strip `[0,1]×[0,2]` of the
/// parameter domain — one inside each projection sub-region: north, first
/// middle, second middle, south.
pub open spec fn base_tri(b: int) -> Tri {
    if b == 0 {
        Tri { ax: 0, ay: 0, bx: 1, by: 0, cx: 0, cy: 1, den: 1 }
    } else if b == 1 {
        Tri { ax: 1, ay: 0, bx: 0, by: 1, cx: 1, cy: 1, den: 1 }
    } else if b == 2 {
        Tri { ax: 0, ay: 1, bx: 1, by: 1, cx: 0, cy: 2, den: 1 }
    } else {
        Tri { ax: 1, ay: 1, bx: 0, by: 2, cx: 1, cy: 2, den: 1 }
    }
}

/// The `b`-th base parameter triangle.
pub fn base_triangle(b: u8) -> (t: Tri)
    requires
        b < 4,
    ensures
        t == base_tri(b as int),
        t.wf(),
        t.den == 1,
{
    if b == 0 {
        Tri { ax: 0, ay: 0, bx: 1, by: 0, cx: 0, cy: 1, den: 1 }
    } else if b == 1 {
        Tri { ax: 1, ay: 0, bx: 0, by: 1, cx: 1, cy: 1, den: 1 }
    } else if b == 2 {
        Tri { ax: 0, ay: 1, bx: 1, by: 1, cx: 0, cy: 2, den: 1 }
    } else {
        Tri { ax: 1, ay: 1, bx: 0, by: 2, cx: 1, cy: 2, den: 1 }
    }
}

/// Helper assembling a triangle from unbounded numerators; meaningful when
/// the values fit, which the callers' bounds guarantee.
pub open spec fn tri(ax: int, ay: int, bx: int, by: int, cx: int, cy: int, den: int) -> Tri {
    Tri {
        ax: ax as u64,
        ay: ay as u64,
        bx: bx as u64,
        by: by as u64,
        cx: cx as u64,
        cy: cy as u64,
        den: den as u64,
    }
}

/// The four sub-triangles of the one-to-four refinement of `t`: corners and
/// edge midpoints over the doubled denominator.
pub open spec fn split4(t: Tri) -> Seq<Tri> {
    let d = 2 * t.den;
    let ax = 2 * t.ax;
    let ay = 2 * t.ay;
    let bx = 2 * t.bx;
    let by = 2 * t.by;
    let cx = 2 * t.cx;
    let cy = 2 * t.cy;
    let abx = t.ax + t.bx;
    let aby = t.ay + t.by;
    let acx = t.ax + t.cx;
    let acy = t.ay + t.cy;
    let cbx = t.cx + t.bx;
    let cby = t.cy + t.by;
    seq![
        tri(ax, ay, acx, acy, abx, aby, d),
        tri(abx, aby, bx, by, cbx, cby, d),
        tri(acx, acy, cbx, cby, abx, aby, d),
        tri(acx, acy, cbx, cby, cx, cy, d),
    ]
}

/// The refinement of every triangle of `ts`, in order.
pub open spec fn split_all(ts: Seq<Tri>) -> Seq<Tri>
    decreases ts.len(),
{
    if ts.len() == 0 {
        Seq::empty()
    } else {
        split_all(ts.drop_last()) + split4(ts.last())
    }
}

/// `ts` refined `k` times.
pub open spec fn refine(ts: Seq<Tri>, k: nat) -> Seq<Tri>
    decreases k,
{
    if k == 0 {
        ts
    } else {
        split_all(refine(ts, (k - 1) as nat))
    }
}

/// `4^k`.
pub open spec fn pow4(k: nat) -> nat
    decreases k,
{
    if k == 0 {
        1
    } else {
        4 * pow4((k - 1) as nat)
    }
}

/// `2^k`.
pub open spec fn pow2(k: nat) -> nat
    decreases k,
{
    if k == 0 {
        1
    } else {
        2 * pow2((k - 1) as nat)
    }
}

/// One refinement pass turns `n` triangles into `4·n`.
pub proof fn lemma_split_all_len(ts: Seq<Tri>)
    ensures
        split_all(ts).len() == 4 * ts.len(),
    decreases ts.len(),
{
    if ts.len() > 0 {
        lemma_split_all_len(ts.drop_last());
    }
}

/// One refinement pass of well-formed triangles over a common denominator
/// `d` yields well-formed triangles over `2·d`.
pub proof fn lemma_split_all_wf(ts: Seq<Tri>, d: u64)
    requires
        2 * d <= DEN_LIMIT,
        1 <= d,
        forall|i: int| 0 <= i < ts.len() ==> (#[trigger] ts[i]).wf() && ts[i].den == d,
    ensures
        forall|i: int|
            0 <= i < split_all(ts).len() ==> (#[trigger] split_all(ts)[i]).wf() && split_all(
                ts,
            )[i].den == 2 * d,
    decreases ts.len(),
{
    if ts.len() > 0 {
        lemma_split_all_wf(ts.drop_last(), d);
        lemma_split_all_len(ts.drop_last());
        let left = split_all(ts.drop_last());
        let right = split4(ts.last());
        assert(ts.last() == ts[ts.len() - 1]);
        assert forall|i: int|
            0 <= i < split_all(ts).len() implies (#[trigger] split_all(ts)[i]).wf() && split_all(
            ts,
        )[i].den == 2 * d by {
            if i < left.len() {
                assert(split_all(ts)[i] == left[i]);
            } else {
                assert(split_all(ts)[i] == right[i - left.len()]);
            }
        }
    }
}

/// Appending one triangle to a batch appends its four children to the
/// refined batch.
pub proof fn lemma_split_all_push(ts: Seq<Tri>, t: Tri)
    ensures
        split_all(ts.push(t)) == split_all(ts) + split4(t),
{
    assert(ts.push(t).drop_last() =~= ts);
    assert(ts.push(t).last() == t);
}

/// Refining `k` times multiplies the triangle count by `4^k`.
pub proof fn lemma_refine_len(ts: Seq<Tri>, k: nat)
    ensures
        refine(ts, k).len() == ts.len() * pow4(k),
    decreases k,
{
    if k == 0 {
        assert(ts.len() * 1 == ts.len()) by (nonlinear_arith);
    } else {
        lemma_refine_len(ts, (k - 1) as nat);
        lemma_split_all_len(refine(ts, (k - 1) as nat));
        assert(4 * (ts.len() * pow4((k - 1) as nat)) == ts.len() * (4 * pow4(
            (k - 1) as nat,
        ))) by (nonlinear_arith);
    }
}

/// Refining `k` times keeps triangles well formed and multiplies the common
/// denominator by `2^k`.
pub proof fn lemma_refine_wf(ts: Seq<Tri>, k: nat, d: u64)
    requires
        1 <= d,
        d * pow2(k) <= DEN_LIMIT,
        forall|i: int| 0 <= i < ts.len() ==> (#[trigger] ts[i]).wf() && ts[i].den == d,
    ensures
        forall|i: int|
            0 <= i < refine(ts, k).len() ==> (#[trigger] refine(ts, k)[i]).wf() && refine(
                ts,
                k,
            )[i].den == d * pow2(k),
    decreases k,
{
    if k == 0 {
        assert(d * 1 == d) by (nonlinear_arith);
    } else {
        let prev = (k - 1) as nat;
        lemma_pow2_pos(prev);
        assert(2 * (d * pow2(prev)) == d * pow2(k)) by (nonlinear_arith)
            requires
                2 * pow2(prev) == pow2(k),
        ;
        assert(1 <= d * pow2(prev)) by (nonlinear_arith)
            requires
                1 <= d,
                1 <= pow2(prev),
        ;
        lemma_refine_wf(ts, prev, d);
        let dd = (d * pow2(prev)) as u64;
        lemma_split_all_wf(refine(ts, prev), dd);
    }
}

/// Powers of two are positive.
pub proof fn lemma_pow2_pos(k: nat)
    ensures
        pow2(k) >= 1,
    decreases k,
{
    if k > 0 {
        lemma_pow2_pos((k - 1) as nat);
    }
}

/// Splits a flat triangle into four by connecting the midpoints of its
/// edges.
pub fn split_triangle(t: &Tri) -> (out: Vec<Tri>)
    requires
        t.wf(),
        2 * t.den <= DEN_LIMIT,
    ensures
        out@ == split4(*t),
{
    let d = 2 * t.den;
    let mut out: Vec<Tri> = Vec::new();
    out.push(
        Tri {
            ax: 2 * t.ax,
            ay: 2 * t.ay,
            bx: t.ax + t.cx,
            by: t.ay + t.cy,
            cx: t.ax + t.bx,
            cy: t.ay + t.by,
            den: d,
        },
    );
    out.push(
        Tri {
            ax: t.ax + t.bx,
            ay: t.ay + t.by,
            bx: 2 * t.bx,
            by: 2 * t.by,
            cx: t.cx + t.bx,
            cy: t.cy + t.by,
            den: d,
        },
    );
    out.push(
        Tri {
            ax: t.ax + t.cx,
            ay: t.ay + t.cy,
            bx: t.cx + t.bx,
            by: t.cy + t.by,
            cx: t.ax + t.bx,
            cy: t.ay + t.by,
            den: d,
        },
    );
    out.push(
        Tri {
            ax: t.ax + t.cx,
            ay: t.ay + t.cy,
            bx: t.cx + t.bx,
            by: t.cy + t.by,
            cx: 2 * t.cx,
            cy: 2 * t.cy,
            den: d,
        },
    );
    proof {
        assert(out@ =~= split4(*t));
    }
    out
}

/// Refines `t` into `4^depth` triangles by `depth` one-to-four passes,
/// expanding a working list level by level. Depth zero returns the input
/// triangle unchanged.
pub fn subdivide(t: &Tri, depth: u64) -> (out: Vec<Tri>)
    requires
        t.wf(),
        t.den * pow2(depth as nat) <= DEN_LIMIT,
    ensures
        out@ == refine(seq![*t], depth as nat),
        out@.len() == pow4(depth as nat),
        forall|i: int|
            0 <= i < out@.len() ==> (#[trigger] out@[i]).wf() && out@[i].den == t.den * pow2(
                depth as nat,
            ),
{
    let mut cur: Vec<Tri> = Vec::new();
    cur.push(*t);
    assert(cur@ =~= seq![*t]);
    let mut level: u64 = 0;
    while level < depth
        invariant
            level <= depth,
            t.wf(),
            t.den * pow2(depth as nat) <= DEN_LIMIT,
            cur@ == refine(seq![*t], level as nat),
        decreases depth - level,
    {
        let ghost d_cur: int = t.den * pow2(level as nat);
        proof {
            lemma_pow2_pos(level as nat);
            assert(1 <= d_cur) by (nonlinear_arith)
                requires
                    1 <= t.den,
                    1 <= pow2(level as nat),
                    d_cur == t.den * pow2(level as nat),
            ;
            lemma_pow2_monotonic_factor(t.den as nat, (level + 1) as nat, depth as nat);
            assert(2 * (t.den * pow2(level as nat)) == t.den * pow2((level + 1) as nat))
                by (nonlinear_arith)
                requires
                    2 * pow2(level as nat) == pow2((level + 1) as nat),
            ;
            lemma_refine_wf(seq![*t], level as nat, t.den);
        }
        let mut next: Vec<Tri> = Vec::new();
        let mut i: usize = 0;
        while i < cur.len()
            invariant
                0 <= i <= cur.len(),
                next@ == split_all(cur@.take(i as int)),
                forall|j: int|
                    0 <= j < cur@.len() ==> (#[trigger] cur@[j]).wf() && cur@[j].den == d_cur,
                2 * d_cur <= DEN_LIMIT,
            decreases cur.len() - i,
        {
            let parts = split_triangle(&cur[i]);
            let mut k: usize = 0;
            let ghost next_before = next@;
            while k < 4
                invariant
                    k <= 4,
                    parts@.len() == 4,
                    next@ == next_before + parts@.take(k as int),
                decreases 4 - k,
            {
                next.push(parts[k]);
                proof {
                    assert(next@ =~= next_before + parts@.take(k + 1 as int));
                }
                k = k + 1;
            }
            proof {
                assert(parts@.take(4) =~= parts@);
                lemma_split_all_push(cur@.take(i as int), cur@[i as int]);
                assert(cur@.take(i as int).push(cur@[i as int]) =~= cur@.take(i + 1 as int));
            }
            i = i + 1;
        }
        proof {
            assert(cur@.take(cur@.len() as int) =~= cur@);
        }
        cur = next;
        level = level + 1;
    }
    proof {
        lemma_refine_len(seq![*t], depth as nat);
        lemma_refine_wf(seq![*t], depth as nat, t.den);
        assert(seq![*t].len() == 1);
        assert(1 * pow4(depth as nat) == pow4(depth as nat)) by (nonlinear_arith);
    }
    cur
}

/// A power of two over a positive base grows with the exponent while it
/// stays under the limit.
proof fn lemma_pow2_monotonic_factor(d: nat, a: nat, b: nat)
    requires
        a <= b,
        1 <= d,
    ensures
        d * pow2(a) <= d * pow2(b),
    decreases b - a,
{
    if a < b {
        lemma_pow2_monotonic_factor(d, a, (b - 1) as nat);
        lemma_pow2_pos((b - 1) as nat);
        assert(d * pow2((b - 1) as nat) <= d * pow2(b)) by (nonlinear_arith)
            requires
                1 <= d,
                1 <= pow2((b - 1) as nat),
                2 * pow2((b - 1) as nat) == pow2(b),
        ;
    }
}

} // verus!
