//! Cube faces, described by integer unit axes and a tangent basis.
use vstd::prelude::*;

verus! {

/// A vector of three integers, as the contracts see it.
pub type V3 = (int, int, int);

/// A vector with integer components.
#[derive(Clone, Copy, Debug, PartialEq, Eq, Structural)]
pub struct IVec3 {
    pub x: i64,
    pub y: i64,
    pub z: i64,
}

impl View for IVec3 {
    type V = V3;

    open spec fn view(&self) -> V3 {
        (self.x as int, self.y as int, self.z as int)
    }
}

/// The cross product `a × b`.
pub open spec fn cross(a: V3, b: V3) -> V3 {
    (a.1 * b.2 - a.2 * b.1, a.2 * b.0 - a.0 * b.2, a.0 * b.1 - a.1 * b.0)
}

/// The dot product `a · b`.
pub open spec fn dot(a: V3, b: V3) -> int {
    a.0 * b.0 + a.1 * b.1 + a.2 * b.2
}

/// The components of `v` moved one place to the left: `(v.y, v.z, v.x)`.
pub open spec fn rotate(v: V3) -> V3 {
    (v.1, v.2, v.0)
}

/// `v` is one of the six signed unit axis directions.
pub open spec fn is_unit_axis(v: V3) -> bool {
    ||| v == (1int, 0int, 0int)
    ||| v == (-1int, 0int, 0int)
    ||| v == (0int, 1int, 0int)
    ||| v == (0int, -1int, 0int)
    ||| v == (0int, 0int, 1int)
    ||| v == (0int, 0int, -1int)
}

impl IVec3 {
    /// The vector `(x, y, z)`.
    pub fn new(x: i64, y: i64, z: i64) -> (r: IVec3)
        ensures
            r@ == (x as int, y as int, z as int),
    {
        IVec3 { x, y, z }
    }
}

/// The six faces of the cube, in the fixed order in which the planet is
/// assembled.
#[derive(Clone, Copy, Debug, PartialEq, Eq, Structural)]
pub enum CubeFace {
    PosX,
    PosY,
    PosZ,
    NegZ,
    NegY,
    NegX,
}

/// Position of a face in the assembly order.
pub open spec fn face_order(f: CubeFace) -> nat {
    match f {
        CubeFace::PosX => 0,
        CubeFace::PosY => 1,
        CubeFace::PosZ => 2,
        CubeFace::NegZ => 3,
        CubeFace::NegY => 4,
        CubeFace::NegX => 5,
    }
}

/// Outward unit axis of a face.
pub open spec fn face_up(f: CubeFace) -> V3 {
    match f {
        CubeFace::PosX => (1, 0, 0),
        CubeFace::PosY => (0, 1, 0),
        CubeFace::PosZ => (0, 0, 1),
        CubeFace::NegZ => (0, 0, -1),
        CubeFace::NegY => (0, -1, 0),
        CubeFace::NegX => (-1, 0, 0),
    }
}

/// First tangent axis of a face.
pub open spec fn face_axis_a(f: CubeFace) -> V3 {
    rotate(face_up(f))
}

/// Second tangent axis of a face.
pub open spec fn face_axis_b(f: CubeFace) -> V3 {
    cross(face_up(f), face_axis_a(f))
}

/// The face at a given position of the assembly order.
pub open spec fn face_at(order: int) -> CubeFace {
    if order == 0 {
        CubeFace::PosX
    } else if order == 1 {
        CubeFace::PosY
    } else if order == 2 {
        CubeFace::PosZ
    } else if order == 3 {
        CubeFace::NegZ
    } else if order == 4 {
        CubeFace::NegY
    } else {
        CubeFace::NegX
    }
}

impl CubeFace {
    /// Position of this face in the assembly order.
    pub fn order(&self) -> (r: u8)
        ensures
            r as nat == face_order(*self),
            r < 6,
            face_at(r as int) == *self,
    {
        match self {
            CubeFace::PosX => 0,
            CubeFace::PosY => 1,
            CubeFace::PosZ => 2,
            CubeFace::NegZ => 3,
            CubeFace::NegY => 4,
            CubeFace::NegX => 5,
        }
    }

    /// The face at position `order` of the assembly order.
    pub fn from_order(order: u8) -> (r: CubeFace)
        requires
            order < 6,
        ensures
            r == face_at(order as int),
            face_order(r) == order as nat,
    {
        if order == 0 {
            CubeFace::PosX
        } else if order == 1 {
            CubeFace::PosY
        } else if order == 2 {
            CubeFace::PosZ
        } else if order == 3 {
            CubeFace::NegZ
        } else if order == 4 {
            CubeFace::NegY
        } else {
            CubeFace::NegX
        }
    }

    /// Outward unit axis of this face.
    pub fn up(&self) -> (r: IVec3)
        ensures
            r@ == face_up(*self),
            is_unit_axis(r@),
    {
        match self {
            CubeFace::PosX => IVec3::new(1, 0, 0),
            CubeFace::PosY => IVec3::new(0, 1, 0),
            CubeFace::PosZ => IVec3::new(0, 0, 1),
            CubeFace::NegZ => IVec3::new(0, 0, -1),
            CubeFace::NegY => IVec3::new(0, -1, 0),
            CubeFace::NegX => IVec3::new(-1, 0, 0),
        }
    }
}

/// One cube face with its tangent basis and its position in the assembly
/// order.
#[derive(Clone, Copy, Debug, PartialEq, Eq, Structural)]
pub struct TerrainFace {
    pub local_up: IVec3,
    pub axis_a: IVec3,
    pub axis_b: IVec3,
    pub order: u8,
}

impl TerrainFace {
    /// A face with outward axis `local_up`; its tangent axes are
    /// `axis_a = (up.y, up.z, up.x)` and `axis_b = up × axis_a`.
    pub fn allocate(local_up: IVec3, order: u8) -> (r: TerrainFace)
        requires
            is_unit_axis(local_up@),
        ensures
            r.local_up == local_up,
            r.axis_a@ == rotate(local_up@),
            r.axis_b@ == cross(local_up@, rotate(local_up@)),
            r.order == order,
            order < 6 ==> r.wf(),
    {
        let axis_a = IVec3::new(local_up.y, local_up.z, local_up.x);
        proof {
            lemma_basis_orthonormal(local_up@);
        }
        let axis_b = IVec3::new(
            local_up.y * axis_a.z - local_up.z * axis_a.y,
            local_up.z * axis_a.x - local_up.x * axis_a.z,
            local_up.x * axis_a.y - local_up.y * axis_a.x,
        );
        TerrainFace { local_up, axis_a, axis_b, order }
    }

    /// The face of the cube at `face`'s place in the assembly order.
    pub fn of_face(face: CubeFace) -> (r: TerrainFace)
        ensures
            r.local_up@ == face_up(face),
            r.axis_a@ == face_axis_a(face),
            r.axis_b@ == face_axis_b(face),
            r.order as nat == face_order(face),
            r.wf(),
    {
        TerrainFace::allocate(face.up(), face.order())
    }

    /// The three axes are signed unit axes, pairwise orthogonal, and the
    /// order is one of the six places.
    pub open spec fn wf(&self) -> bool {
        &&& is_unit_axis(self.local_up@)
        &&& is_unit_axis(self.axis_a@)
        &&& is_unit_axis(self.axis_b@)
        &&& dot(self.local_up@, self.axis_a@) == 0
        &&& dot(self.local_up@, self.axis_b@) == 0
        &&& dot(self.axis_a@, self.axis_b@) == 0
        &&& self.order < 6
    }
}

/// For every signed unit axis `up`, the tangent axes `rotate(up)` and
/// `up × rotate(up)` are signed unit axes too, and the three are pairwise
/// orthogonal: each face of the cube is spanned without degeneracy.
pub proof fn lemma_basis_orthonormal(up: V3)
    requires
        is_unit_axis(up),
    ensures
        is_unit_axis(rotate(up)),
        is_unit_axis(cross(up, rotate(up))),
        dot(up, rotate(up)) == 0,
        dot(up, cross(up, rotate(up))) == 0,
        dot(rotate(up), cross(up, rotate(up))) == 0,
{
    let a = rotate(up);
    if up == (1int, 0int, 0int) {
        assert(cross(up, a) == (0int, -1int, 0int)) by (nonlinear_arith)
            requires
                up == (1int, 0int, 0int),
                a == (0int, 0int, 1int),
        ;
        assert(dot(up, cross(up, a)) == 0 && dot(a, cross(up, a)) == 0) by (nonlinear_arith)
            requires
                up == (1int, 0int, 0int),
                a == (0int, 0int, 1int),
                cross(up, a) == (0int, -1int, 0int),
        ;
        assert(dot(up, a) == 0) by (nonlinear_arith)
            requires
                up == (1int, 0int, 0int),
                a == (0int, 0int, 1int),
        ;
    } else if up == (-1int, 0int, 0int) {
        assert(cross(up, a) == (0int, -1int, 0int)) by (nonlinear_arith)
            requires
                up == (-1int, 0int, 0int),
                a == (0int, 0int, -1int),
        ;
        assert(dot(up, cross(up, a)) == 0 && dot(a, cross(up, a)) == 0) by (nonlinear_arith)
            requires
                up == (-1int, 0int, 0int),
                a == (0int, 0int, -1int),
                cross(up, a) == (0int, -1int, 0int),
        ;
        assert(dot(up, a) == 0) by (nonlinear_arith)
            requires
                up == (-1int, 0int, 0int),
                a == (0int, 0int, -1int),
        ;
    } else if up == (0int, 1int, 0int) {
        assert(cross(up, a) == (0int, 0int, -1int)) by (nonlinear_arith)
            requires
                up == (0int, 1int, 0int),
                a == (1int, 0int, 0int),
        ;
        assert(dot(up, cross(up, a)) == 0 && dot(a, cross(up, a)) == 0) by (nonlinear_arith)
            requires
                up == (0int, 1int, 0int),
                a == (1int, 0int, 0int),
                cross(up, a) == (0int, 0int, -1int),
        ;
        assert(dot(up, a) == 0) by (nonlinear_arith)
            requires
                up == (0int, 1int, 0int),
                a == (1int, 0int, 0int),
        ;
    } else if up == (0int, -1int, 0int) {
        assert(cross(up, a) == (0int, 0int, -1int)) by (nonlinear_arith)
            requires
                up == (0int, -1int, 0int),
                a == (-1int, 0int, 0int),
        ;
        assert(dot(up, cross(up, a)) == 0 && dot(a, cross(up, a)) == 0) by (nonlinear_arith)
            requires
                up == (0int, -1int, 0int),
                a == (-1int, 0int, 0int),
                cross(up, a) == (0int, 0int, -1int),
        ;
        assert(dot(up, a) == 0) by (nonlinear_arith)
            requires
                up == (0int, -1int, 0int),
                a == (-1int, 0int, 0int),
        ;
    } else if up == (0int, 0int, 1int) {
        assert(cross(up, a) == (-1int, 0int, 0int)) by (nonlinear_arith)
            requires
                up == (0int, 0int, 1int),
                a == (0int, 1int, 0int),
        ;
        assert(dot(up, cross(up, a)) == 0 && dot(a, cross(up, a)) == 0) by (nonlinear_arith)
            requires
                up == (0int, 0int, 1int),
                a == (0int, 1int, 0int),
                cross(up, a) == (-1int, 0int, 0int),
        ;
        assert(dot(up, a) == 0) by (nonlinear_arith)
            requires
                up == (0int, 0int, 1int),
                a == (0int, 1int, 0int),
        ;
    } else {
        assert(cross(up, a) == (-1int, 0int, 0int)) by (nonlinear_arith)
            requires
                up == (0int, 0int, -1int),
                a == (0int, -1int, 0int),
        ;
        assert(dot(up, cross(up, a)) == 0 && dot(a, cross(up, a)) == 0) by (nonlinear_arith)
            requires
                up == (0int, 0int, -1int),
                a == (0int, -1int, 0int),
                cross(up, a) == (-1int, 0int, 0int),
        ;
        assert(dot(up, a) == 0) by (nonlinear_arith)
            requires
                up == (0int, 0int, -1int),
                a == (0int, -1int, 0int),
        ;
    }
}

} // verus!
