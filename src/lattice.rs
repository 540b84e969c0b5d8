//! Grid points of the cube faces, in exact integer coordinates.
//!
//! Grid column `x` of a face with `r` vertices along an edge lies at
//! `t = 2x / (r-1) - 1` in `[-1, 1]`. Every point is kept multiplied by
//! `r - 1`, so that it stays an integer: the point of column `x` and row `z`
//! is `up * (r-1) + axis_a * (2x - (r-1)) + axis_b * (2z - (r-1))`.
use vstd::prelude::*;
use vstd::arithmetic::div_mod::lemma_fundamental_div_mod_converse;
use crate::config::{valid_resolution, MAX_RESOLUTION};
use crate::face::{
    V3, IVec3, TerrainFace, CubeFace, is_unit_axis, face_up, face_axis_a, face_axis_b, face_at,
};

verus! {

/// Grid coordinate `i`, in `[0, r)`, scaled to `[-(r-1), r-1]`.
pub open spec fn grid_coord(resolution: int, i: int) -> int {
    2 * i - (resolution - 1)
}

/// `v * s`, component by component.
pub open spec fn scale(v: V3, s: int) -> V3 {
    (v.0 * s, v.1 * s, v.2 * s)
}

/// `u + v + w`, component by component.
pub open spec fn sum3(u: V3, v: V3, w: V3) -> V3 {
    (u.0 + v.0 + w.0, u.1 + v.1 + w.1, u.2 + v.2 + w.2)
}

/// The point of column `x` and row `z` on the face with basis
/// `(up, a, b)`, multiplied by `resolution - 1`.
pub open spec fn lattice_point(up: V3, a: V3, b: V3, resolution: int, x: int, z: int) -> V3 {
    sum3(
        scale(up, resolution - 1),
        scale(a, grid_coord(resolution, x)),
        scale(b, grid_coord(resolution, z)),
    )
}

/// Vertex `k` of a face, row by row: column `k % r`, row `k / r`.
pub open spec fn face_vertex(up: V3, a: V3, b: V3, resolution: int, k: int) -> V3 {
    lattice_point(up, a, b, resolution, k % resolution, k / resolution)
}

/// Vertex `k` of the cube face at place `order` of the assembly order.
pub open spec fn cube_face_vertex(order: int, resolution: int, k: int) -> V3 {
    let f = face_at(order);
    face_vertex(face_up(f), face_axis_a(f), face_axis_b(f), resolution, k)
}

/// Vertex `k` of the planet: the six faces' vertices one after another, in
/// assembly order.
pub open spec fn planet_vertex(resolution: int, k: int) -> V3 {
    let n = resolution * resolution;
    cube_face_vertex(k / n, resolution, k % n)
}

/// The components of a signed unit axis lie in `[-1, 1]`.
proof fn lemma_unit_axis_bounds(v: V3)
    requires
        is_unit_axis(v),
    ensures
        -1 <= v.0 <= 1,
        -1 <= v.1 <= 1,
        -1 <= v.2 <= 1,
{
}

/// `c * m` for a component `c` of a unit axis.
fn unit_times(c: i64, m: i64) -> (r: i64)
    requires
        -1 <= c <= 1,
        -0x1000_0000 <= m <= 0x1000_0000,
    ensures
        r == c * m,
        -0x1000_0000 <= r <= 0x1000_0000,
{
    if c == 0 {
        0
    } else if c == 1 {
        m
    } else {
        assert(c * m == -m) by (nonlinear_arith)
            requires
                c == -1,
        ;
        -m
    }
}

/// `up * h + a * s + b * t` for unit axes `up`, `a`, `b`.
fn combine(up: IVec3, a: IVec3, b: IVec3, h: i64, s: i64, t: i64) -> (r: IVec3)
    requires
        is_unit_axis(up@),
        is_unit_axis(a@),
        is_unit_axis(b@),
        -0x1000_0000 <= h <= 0x1000_0000,
        -0x1000_0000 <= s <= 0x1000_0000,
        -0x1000_0000 <= t <= 0x1000_0000,
    ensures
        r@ == sum3(scale(up@, h as int), scale(a@, s as int), scale(b@, t as int)),
{
    proof {
        lemma_unit_axis_bounds(up@);
        lemma_unit_axis_bounds(a@);
        lemma_unit_axis_bounds(b@);
    }
    let x = unit_times(up.x, h) + unit_times(a.x, s) + unit_times(b.x, t);
    let y = unit_times(up.y, h) + unit_times(a.y, s) + unit_times(b.y, t);
    let z = unit_times(up.z, h) + unit_times(a.z, s) + unit_times(b.z, t);
    IVec3::new(x, y, z)
}

/// The grid points of one face, row by row, each multiplied by
/// `resolution - 1`.
pub fn face_points(face: &TerrainFace, resolution: u32) -> (r: Vec<IVec3>)
    requires
        face.wf(),
        valid_resolution(resolution as int),
    ensures
        r@.len() == resolution * resolution,
        forall|k: int|
            0 <= k < r@.len() ==> #[trigger] r@[k]@ == face_vertex(
                face.local_up@,
                face.axis_a@,
                face.axis_b@,
                resolution as int,
                k,
            ),
{
    let ghost ni = resolution as int;
    let n = resolution as i64;
    let h = n - 1;
    let mut points: Vec<IVec3> = Vec::new();
    let mut z: i64 = 0;
    while z < n
        invariant
            ni == resolution as int,
            n == ni,
            h == ni - 1,
            valid_resolution(ni),
            face.wf(),
            0 <= z <= n,
            points@.len() == z * ni,
            forall|k: int|
                0 <= k < points@.len() ==> #[trigger] points@[k]@ == face_vertex(
                    face.local_up@,
                    face.axis_a@,
                    face.axis_b@,
                    ni,
                    k,
                ),
        decreases n - z,
    {
        let mut x: i64 = 0;
        while x < n
            invariant
                ni == resolution as int,
                n == ni,
                h == ni - 1,
                valid_resolution(ni),
                face.wf(),
                0 <= z < n,
                0 <= x <= n,
                points@.len() == z * ni + x,
                forall|k: int|
                    0 <= k < points@.len() ==> #[trigger] points@[k]@ == face_vertex(
                        face.local_up@,
                        face.axis_a@,
                        face.axis_b@,
                        ni,
                        k,
                    ),
            decreases n - x,
        {
            let p = combine(face.local_up, face.axis_a, face.axis_b, h, 2 * x - h, 2 * z - h);
            proof {
                lemma_fundamental_div_mod_converse(z * ni + x, ni, z as int, x as int);
            }
            points.push(p);
            x = x + 1;
        }
        proof {
            assert(z * ni + ni == (z + 1) * ni) by (nonlinear_arith);
        }
        z = z + 1;
    }
    points
}

/// The grid points of the whole planet: those of the six cube faces, in
/// assembly order, one after another.
pub fn planet_points(resolution: u32) -> (r: Vec<IVec3>)
    requires
        valid_resolution(resolution as int),
    ensures
        r@.len() == 6 * (resolution * resolution),
        forall|k: int|
            0 <= k < r@.len() ==> #[trigger] r@[k]@ == planet_vertex(resolution as int, k),
{
    let ghost ni = resolution as int;
    let ghost len = ni * ni;
    proof {
        assert(len >= 4) by (nonlinear_arith)
            requires
                len == ni * ni,
                ni >= 2,
        ;
    }
    let mut out: Vec<IVec3> = Vec::new();
    let mut order: u8 = 0;
    while order < 6
        invariant
            ni == resolution as int,
            valid_resolution(ni),
            len == ni * ni,
            len >= 4,
            0 <= order <= 6,
            out@.len() == order * len,
            forall|k: int| 0 <= k < out@.len() ==> #[trigger] out@[k]@ == planet_vertex(ni, k),
        decreases 6 - order,
    {
        let face = TerrainFace::of_face(CubeFace::from_order(order));
        let mut part = face_points(&face, resolution);
        let ghost prev = out@;
        let ghost o = order as int;
        out.append(&mut part);
        proof {
            assert forall|k: int| 0 <= k < out@.len() implies #[trigger] out@[k]@ == planet_vertex(
                ni,
                k,
            ) by {
                if k >= prev.len() {
                    lemma_fundamental_div_mod_converse(k, len, o, k - o * len);
                }
            }
            assert((o + 1) * len == o * len + len) by (nonlinear_arith);
        }
        order = order + 1;
    }
    out
}

} // verus!
