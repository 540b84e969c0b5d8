//! Triangle indices of a face and of the assembled planet.
use vstd::prelude::*;
use vstd::arithmetic::div_mod::lemma_fundamental_div_mod_converse;
use crate::config::{valid_resolution, lemma_vertex_count_fits};

verus! {

/// Vertices on one face: a `resolution × resolution` grid.
pub open spec fn face_vertex_count(resolution: int) -> int {
    resolution * resolution
}

/// Index entries of one face: two triangles for each of its
/// `(resolution - 1)²` cells.
pub open spec fn face_index_count(resolution: int) -> int {
    6 * ((resolution - 1) * (resolution - 1))
}

/// Offset, from a cell's first vertex `i`, of the vertex at place `slot` of
/// the cell's two triangles `(i, i+r+1, i+r)` and `(i, i+1, i+r+1)`.
pub open spec fn corner_offset(resolution: int, slot: int) -> int {
    if slot == 0 || slot == 3 {
        0
    } else if slot == 4 {
        1
    } else if slot == 2 {
        resolution
    } else {
        resolution + 1
    }
}

/// The vertex named by index entry `k` of the face at place `order`: entry
/// `k` belongs to cell `k / 6`, whose column is `x` and whose row is `z`, and
/// whose first vertex is `z * resolution + x`.
pub open spec fn face_index(order: int, resolution: int, k: int) -> int {
    let cell = k / 6;
    let x = cell % (resolution - 1);
    let z = cell / (resolution - 1);
    order * face_vertex_count(resolution) + z * resolution + x + corner_offset(resolution, k % 6)
}

/// The whole index sequence of the face at place `order`.
pub open spec fn face_index_seq(order: int, resolution: int) -> Seq<u32> {
    Seq::new(face_index_count(resolution) as nat, |k: int| face_index(order, resolution, k) as u32)
}

/// Index entry `k` of the planet: the six faces' entries one after another,
/// in assembly order.
pub open spec fn planet_index(resolution: int, k: int) -> int {
    let n = face_index_count(resolution);
    face_index(k / n, resolution, k % n)
}

/// The whole index sequence of the planet.
pub open spec fn planet_index_seq(resolution: int) -> Seq<u32> {
    Seq::new(
        (6 * face_index_count(resolution)) as nat,
        |k: int| planet_index(resolution, k) as u32,
    )
}

/// Entry `s` of cell `(x, z)` stands at place `6 * (z * (r-1) + x) + s` and
/// names vertex `order * r² + z * r + x + corner_offset(r, s)`, which lies
/// in the face's own block of vertices.
pub proof fn lemma_cell_entry(order: int, resolution: int, z: int, x: int, s: int)
    requires
        resolution >= 2,
        0 <= x < resolution - 1,
        0 <= z < resolution - 1,
        0 <= s < 6,
    ensures
        0 <= 6 * (z * (resolution - 1) + x) + s < face_index_count(resolution),
        face_index(order, resolution, 6 * (z * (resolution - 1) + x) + s) == order
            * face_vertex_count(resolution) + z * resolution + x + corner_offset(resolution, s),
        order * face_vertex_count(resolution) <= face_index(
            order,
            resolution,
            6 * (z * (resolution - 1) + x) + s,
        ) < (order + 1) * face_vertex_count(resolution),
{
    let r = resolution;
    let cell = z * (r - 1) + x;
    let k = 6 * cell + s;
    lemma_fundamental_div_mod_converse(k, 6, cell, s);
    lemma_fundamental_div_mod_converse(cell, r - 1, z, x);
    assert(0 <= cell < (r - 1) * (r - 1)) by (nonlinear_arith)
        requires
            cell == z * (r - 1) + x,
            0 <= x < r - 1,
            0 <= z < r - 1,
    ;
    assert(0 <= z * r + x && z * r + x + r + 1 < r * r) by (nonlinear_arith)
        requires
            0 <= x < r - 1,
            0 <= z < r - 1,
    ;
    assert((order + 1) * (r * r) == order * (r * r) + r * r) by (nonlinear_arith);
}

/// Every index entry of the face at place `order` names a vertex of that
/// face's block `[order * r², (order + 1) * r²)`.
pub proof fn lemma_face_index_range(order: int, resolution: int, k: int)
    requires
        resolution >= 2,
        0 <= k < face_index_count(resolution),
    ensures
        order * face_vertex_count(resolution) <= face_index(order, resolution, k) < (order + 1)
            * face_vertex_count(resolution),
{
    let r = resolution;
    let cell = k / 6;
    let s = k % 6;
    let x = cell % (r - 1);
    let z = cell / (r - 1);
    assert(0 <= cell < (r - 1) * (r - 1));
    assert(0 <= z < r - 1) by (nonlinear_arith)
        requires
            0 <= cell < (r - 1) * (r - 1),
            z == cell / (r - 1),
            r >= 2,
    ;
    assert(cell == z * (r - 1) + x) by (nonlinear_arith)
        requires
            x == cell % (r - 1),
            z == cell / (r - 1),
            r >= 2,
    ;
    assert(k == 6 * cell + s);
    lemma_cell_entry(order, r, z, x, s);
}

/// Index entries of the face at place `order`: for each cell `(x, z)` of
/// the grid, row by row, the triangles `(i, i+r+1, i+r)` and
/// `(i, i+1, i+r+1)` with `i = z * r + x`, each entry offset by
/// `order * r²`.
pub fn face_indices(order: u8, resolution: u32) -> (r: Vec<u32>)
    requires
        order < 6,
        valid_resolution(resolution as int),
    ensures
        r@ == face_index_seq(order as int, resolution as int),
{
    let n = resolution;
    let ghost o = order as int;
    let ghost ni = n as int;
    proof {
        lemma_vertex_count_fits(ni);
        assert(o * (ni * ni) <= 6 * ni * ni) by (nonlinear_arith)
            requires
                0 <= o < 6,
        ;
        assert(ni * ni <= 6 * ni * ni) by (nonlinear_arith);
    }
    let vert_count = n * n;
    let base = order as u32 * vert_count;
    let mut indices: Vec<u32> = Vec::new();
    let mut z: u32 = 0;
    while z < n - 1
        invariant
            ni == n as int,
            o == order as int,
            o < 6,
            valid_resolution(ni),
            6 * ni * ni <= u32::MAX,
            vert_count as int == ni * ni,
            base as int == o * (ni * ni),
            0 <= z <= n - 1,
            indices@.len() == 6 * (z * (ni - 1)),
            forall|k: int|
                0 <= k < indices@.len() ==> #[trigger] indices@[k] as int == face_index(o, ni, k),
        decreases n - 1 - z,
    {
        let mut x: u32 = 0;
        while x < n - 1
            invariant
                ni == n as int,
                o == order as int,
                o < 6,
                valid_resolution(ni),
                6 * ni * ni <= u32::MAX,
                vert_count as int == ni * ni,
                base as int == o * (ni * ni),
                0 <= z < n - 1,
                0 <= x <= n - 1,
                indices@.len() == 6 * (z * (ni - 1) + x),
                forall|k: int|
                    0 <= k < indices@.len() ==> #[trigger] indices@[k] as int == face_index(
                        o,
                        ni,
                        k,
                    ),
            decreases n - 1 - x,
        {
            let ghost zi = z as int;
            let ghost xi = x as int;
            let ghost start = indices@.len() as int;
            proof {
                lemma_cell_entry(o, ni, zi, xi, 0);
                lemma_cell_entry(o, ni, zi, xi, 1);
                lemma_cell_entry(o, ni, zi, xi, 2);
                lemma_cell_entry(o, ni, zi, xi, 3);
                lemma_cell_entry(o, ni, zi, xi, 4);
                lemma_cell_entry(o, ni, zi, xi, 5);
                assert((o + 1) * (ni * ni) <= 6 * ni * ni) by (nonlinear_arith)
                    requires
                        0 <= o < 6,
                ;
                assert(zi * ni + xi + ni + 1 < ni * ni) by (nonlinear_arith)
                    requires
                        0 <= xi < ni - 1,
                        0 <= zi < ni - 1,
                ;
            }
            let i = z * n + x;
            indices.push(base + i);
            indices.push(base + i + n + 1);
            indices.push(base + i + n);
            indices.push(base + i);
            indices.push(base + i + 1);
            indices.push(base + i + n + 1);
            proof {
                assert forall|k: int|
                    0 <= k < indices@.len() implies #[trigger] indices@[k] as int == face_index(
                    o,
                    ni,
                    k,
                ) by {
                    if k >= start {
                        assert(k - start == 0 || k - start == 1 || k - start == 2 || k - start == 3
                            || k - start == 4 || k - start == 5);
                    }
                }
                assert(6 * (zi * (ni - 1) + xi + 1) == 6 * (zi * (ni - 1) + xi) + 6);
            }
            x = x + 1;
        }
        proof {
            assert(6 * (z as int * (ni - 1) + (ni - 1)) == 6 * ((z as int + 1) * (ni - 1)))
                by (nonlinear_arith);
        }
        z = z + 1;
    }
    proof {
        assert(indices@ =~= face_index_seq(o, ni));
    }
    indices
}

/// Index entries of the whole planet: those of the six faces, in assembly
/// order, one after another.
pub fn planet_indices(resolution: u32) -> (r: Vec<u32>)
    requires
        valid_resolution(resolution as int),
    ensures
        r@ == planet_index_seq(resolution as int),
{
    let ghost ni = resolution as int;
    let ghost len = face_index_count(ni);
    proof {
        assert(len >= 6) by (nonlinear_arith)
            requires
                len == 6 * ((ni - 1) * (ni - 1)),
                ni >= 2,
        ;
    }
    let mut out: Vec<u32> = Vec::new();
    let mut order: u8 = 0;
    while order < 6
        invariant
            ni == resolution as int,
            valid_resolution(ni),
            len == face_index_count(ni),
            len >= 6,
            0 <= order <= 6,
            out@.len() == order * len,
            forall|k: int|
                0 <= k < out@.len() ==> #[trigger] out@[k] == planet_index(ni, k) as u32,
        decreases 6 - order,
    {
        let mut part = face_indices(order, resolution);
        let ghost prev = out@;
        let ghost o = order as int;
        out.append(&mut part);
        proof {
            assert forall|k: int| 0 <= k < out@.len() implies #[trigger] out@[k] == planet_index(
                ni,
                k,
            ) as u32 by {
                if k >= prev.len() {
                    let j = k - o * len;
                    lemma_fundamental_div_mod_converse(k, len, o, j);
                }
            }
            assert((o + 1) * len == o * len + len) by (nonlinear_arith);
        }
        order = order + 1;
    }
    proof {
        assert(out@ =~= planet_index_seq(ni));
    }
    out
}

/// The planet's index buffer has two triangles per cell of each face, so a
/// length of `6 * (r-1)² * 2 * 3`, a multiple of three; and each entry names
/// one of the `6 * r²` vertices.
pub proof fn lemma_planet_indices_in_range(resolution: int, k: int)
    requires
        valid_resolution(resolution),
        0 <= k < planet_index_seq(resolution).len(),
    ensures
        planet_index_seq(resolution).len() == 6 * ((resolution - 1) * (resolution - 1)) * 2 * 3,
        planet_index_seq(resolution).len() % 3 == 0,
        0 <= planet_index(resolution, k) < 6 * face_vertex_count(resolution),
        planet_index_seq(resolution)[k] as int == planet_index(resolution, k),
{
    let n = face_index_count(resolution);
    let r = resolution;
    assert(n >= 6) by (nonlinear_arith)
        requires
            n == 6 * ((r - 1) * (r - 1)),
            r >= 2,
    ;
    let o = k / n;
    assert(0 <= o < 6) by (nonlinear_arith)
        requires
            0 <= k < 6 * n,
            o == k / n,
            n >= 6,
    ;
    lemma_face_index_range(o, r, k % n);
    assert((o + 1) * (r * r) <= 6 * (r * r)) by (nonlinear_arith)
        requires
            o < 6,
    ;
    assert(0 <= o * (r * r)) by (nonlinear_arith)
        requires
            o >= 0,
    ;
    lemma_vertex_count_fits(r);
    assert(6 * (r * r) == 6 * r * r) by (nonlinear_arith);
}

} // verus!
