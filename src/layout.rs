//! The integer layout of a face mesh and of the whole planet mesh: grid
//! points and triangle indices.
use vstd::prelude::*;
use crate::config::{ConfigError, check_config, config_verdict, valid_resolution};
use crate::face::{IVec3, TerrainFace};
use crate::lattice::{face_points, face_vertex, planet_points, planet_vertex};
use crate::mesh::{
    face_index_seq, face_indices, planet_index_seq, planet_indices, lemma_planet_indices_in_range,
};

verus! {

/// Grid points (each multiplied by `resolution - 1`) and triangle indices
/// of a mesh.
#[derive(Clone, Debug)]
pub struct MeshLayout {
    pub points: Vec<IVec3>,
    pub indices: Vec<u32>,
}

/// `l` is the layout of the face `face` at the given resolution.
pub open spec fn is_face_layout(l: MeshLayout, face: TerrainFace, resolution: int) -> bool {
    &&& l.points@.len() == resolution * resolution
    &&& forall|k: int|
        0 <= k < l.points@.len() ==> #[trigger] l.points@[k]@ == face_vertex(
            face.local_up@,
            face.axis_a@,
            face.axis_b@,
            resolution,
            k,
        )
    &&& l.indices@ == face_index_seq(face.order as int, resolution)
}

/// `l` is the layout of the planet at the given resolution.
pub open spec fn is_planet_layout(l: MeshLayout, resolution: int) -> bool {
    &&& l.points@.len() == 6 * (resolution * resolution)
    &&& forall|k: int|
        0 <= k < l.points@.len() ==> #[trigger] l.points@[k]@ == planet_vertex(resolution, k)
    &&& l.indices@ == planet_index_seq(resolution)
}

/// The layout of one face: its grid points and its triangle indices, the
/// latter already offset by the face's place in the assembly order.
pub fn generate_mesh(face: &TerrainFace, resolution: u32) -> (r: MeshLayout)
    requires
        face.wf(),
        valid_resolution(resolution as int),
    ensures
        is_face_layout(r, *face, resolution as int),
{
    let points = face_points(face, resolution);
    let indices = face_indices(face.order, resolution);
    MeshLayout { points, indices }
}

/// The layout of the whole planet for the given resolution and octave
/// count, or the reason why the settings are refused.
pub fn create_planet(resolution: u32, layers: u32) -> (r: Result<MeshLayout, ConfigError>)
    ensures
        r is Err <==> config_verdict(resolution as int, layers as int) is Err,
        r is Err ==> r == Err::<MeshLayout, ConfigError>(
            config_verdict(resolution as int, layers as int)->Err_0,
        ),
        r is Ok ==> is_planet_layout(r->Ok_0, resolution as int),
{
    match check_config(resolution, layers) {
        Err(e) => Err(e),
        Ok(()) => {
            let points = planet_points(resolution);
            let indices = planet_indices(resolution);
            Ok(MeshLayout { points, indices })
        },
    }
}

/// A planet layout has exactly `6 * r²` grid points and
/// `6 * (r-1)² * 2` triangles, so `6 * (r-1)² * 2 * 3` index entries, and
/// every entry names one of the `6 * r²` points.
pub proof fn lemma_planet_layout_sizes(l: MeshLayout, resolution: int)
    requires
        valid_resolution(resolution),
        is_planet_layout(l, resolution),
    ensures
        l.points@.len() == 6 * (resolution * resolution),
        l.indices@.len() == 6 * ((resolution - 1) * (resolution - 1)) * 2 * 3,
        l.indices@.len() % 3 == 0,
        forall|k: int|
            0 <= k < l.indices@.len() ==> #[trigger] l.indices@[k] < l.points@.len(),
{
    assert forall|k: int| 0 <= k < l.indices@.len() implies #[trigger] l.indices@[k]
        < l.points@.len() by {
        lemma_planet_indices_in_range(resolution, k);
    }
    if l.indices@.len() > 0 {
        lemma_planet_indices_in_range(resolution, 0);
    } else {
        assert(6 * ((resolution - 1) * (resolution - 1)) * 2 * 3 > 0) by (nonlinear_arith)
            requires
                resolution >= 2,
        ;
    }
}

/// The layout is a function of the resolution alone: two planet layouts
/// for the same resolution hold the same points and the same indices.
pub proof fn lemma_planet_layout_deterministic(l1: MeshLayout, l2: MeshLayout, resolution: int)
    requires
        is_planet_layout(l1, resolution),
        is_planet_layout(l2, resolution),
    ensures
        l1.points@ == l2.points@,
        l1.indices@ == l2.indices@,
{
    assert forall|k: int| 0 <= k < l1.points@.len() implies #[trigger] l1.points@[k]
        == l2.points@[k] by {
        assert(l1.points@[k]@ == l2.points@[k]@);
    }
    assert(l1.points@ =~= l2.points@);
}

} // verus!
