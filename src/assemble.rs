//! Primitive assembly: which vertices of an immediate-mode primitive form each
//! triangle.
use vstd::prelude::*;
use crate::modes::PrimitiveMode;

verus! {

/// Three vertex positions in the primitive's vertex list.
pub type Corners = (usize, usize, usize);

/// The number of triangles that `n` vertices make in `mode`. A trailing group too
/// short for a whole triangle or quad makes none.
pub open spec fn triangle_count(mode: PrimitiveMode, n: int) -> int {
    match mode {
        PrimitiveMode::Triangles => n / 3,
        PrimitiveMode::Quads => 2 * (n / 4),
        PrimitiveMode::TriangleStrip | PrimitiveMode::TriangleFan | PrimitiveMode::Polygon => {
            if n >= 3 {
                n - 2
            } else {
                0
            }
        },
        _ => 0,
    }
}

/// The corners of triangle `k` in `mode`:
/// disjoint triples for triangles; `(v0 v1 v2)` and `(v2 v3 v0)` for each quad;
/// `(vk vk+1 vk+2)`, with the first two swapped when k is odd, for a strip; and
/// `(v0 vk+1 vk+2)` for a fan or a polygon.
pub open spec fn corners(mode: PrimitiveMode, k: int) -> (int, int, int) {
    match mode {
        PrimitiveMode::Triangles => (3 * k, 3 * k + 1, 3 * k + 2),
        PrimitiveMode::Quads => {
            let q = 4 * (k / 2);
            if k % 2 == 0 {
                (q, q + 1, q + 2)
            } else {
                (q + 2, q + 3, q)
            }
        },
        PrimitiveMode::TriangleStrip => {
            if k % 2 == 0 {
                (k, k + 1, k + 2)
            } else {
                (k + 1, k, k + 2)
            }
        },
        _ => (0, k + 1, k + 2),
    }
}

/// `t` holds the corners of triangle `k` in `mode`.
pub open spec fn is_corners(t: Corners, mode: PrimitiveMode, k: int) -> bool {
    &&& t.0 as int == corners(mode, k).0
    &&& t.1 as int == corners(mode, k).1
    &&& t.2 as int == corners(mode, k).2
}

/// `r` lists, in order, the triangles that `n` vertices make in `mode`.
pub open spec fn is_triangulation(r: Seq<Corners>, mode: PrimitiveMode, n: int) -> bool {
    &&& r.len() == triangle_count(mode, n)
    &&& forall|k: int| 0 <= k < r.len() ==> #[trigger] is_corners(r[k], mode, k)
}

/// The triangles that `n` vertices make in `mode`, as positions in the vertex
/// list; `None` where the mode is one that is not rasterised (points and lines).
pub fn triangulate(mode: PrimitiveMode, n: usize) -> (r: Option<Vec<Corners>>)
    ensures
        r.is_some() <==> mode.rasterized_spec(),
        r matches Some(v) ==> is_triangulation(v@, mode, n as int),
{
    let mut out: Vec<Corners> = Vec::new();
    match mode {
        PrimitiveMode::Triangles => {
            let mut i: usize = 0;
            while i <= n && n - i >= 3
                invariant
                    i == 3 * out.len(),
                    i <= n,
                    forall|k: int| 0 <= k < out.len() ==> #[trigger] is_corners(out@[k], mode, k),
                    mode == PrimitiveMode::Triangles,
                decreases n - i,
            {
                out.push((i, i + 1, i + 2));
                i = i + 3;
            }
            assert(out.len() == n as int / 3) by (nonlinear_arith)
                requires
                    i == 3 * out.len(),
                    i <= n,
                    n - i < 3,
            ;
            Some(out)
        },
        PrimitiveMode::Quads => {
            let mut i: usize = 0;
            while i <= n && n - i >= 4
                invariant
                    2 * i == 4 * out.len(),
                    i % 4 == 0,
                    i <= n,
                    forall|k: int| 0 <= k < out.len() ==> #[trigger] is_corners(out@[k], mode, k),
                    mode == PrimitiveMode::Quads,
                decreases n - i,
            {
                let ghost k = out.len() as int;
                out.push((i, i + 1, i + 2));
                out.push((i + 2, i + 3, i));
                assert(k / 2 == (k + 1) / 2 && 4 * (k / 2) == i && k % 2 == 0);
                assert(is_corners(out@[k], mode, k));
                assert(is_corners(out@[k + 1], mode, k + 1));
                i = i + 4;
            }
            assert(out.len() == 2 * (n as int / 4)) by (nonlinear_arith)
                requires
                    2 * i == 4 * out.len(),
                    i % 4 == 0,
                    i <= n,
                    n - i < 4,
            ;
            Some(out)
        },
        PrimitiveMode::TriangleStrip => {
            let mut i: usize = 0;
            while i <= n && n - i >= 3
                invariant
                    i == out.len(),
                    i <= n,
                    i == 0 || i + 2 <= n,
                    forall|k: int| 0 <= k < out.len() ==> #[trigger] is_corners(out@[k], mode, k),
                    mode == PrimitiveMode::TriangleStrip,
                decreases n - i,
            {
                if i % 2 == 0 {
                    out.push((i, i + 1, i + 2));
                } else {
                    out.push((i + 1, i, i + 2));
                }
                i = i + 1;
            }
            Some(out)
        },
        PrimitiveMode::TriangleFan | PrimitiveMode::Polygon => {
            let mut i: usize = 0;
            while i <= n && n - i >= 3
                invariant
                    i == out.len(),
                    i <= n,
                    i == 0 || i + 2 <= n,
                    forall|k: int| 0 <= k < out.len() ==> #[trigger] is_corners(out@[k], mode, k),
                    mode == PrimitiveMode::TriangleFan || mode == PrimitiveMode::Polygon,
                decreases n - i,
            {
                out.push((0, i + 1, i + 2));
                i = i + 1;
            }
            Some(out)
        },
        _ => None,
    }
}

} // verus!
