use planet_gen::config::{check_config, ConfigError, MAX_RESOLUTION};
use planet_gen::face::{CubeFace, IVec3, TerrainFace};
use planet_gen::lattice::{face_points, planet_points};
use planet_gen::layout::{create_planet, generate_mesh};
use planet_gen::mesh::{face_indices, planet_indices};

#[test]
fn resolution_three_counts() {
    let layout = create_planet(3, 1).unwrap();
    assert_eq!(layout.points.len(), 54);
    assert_eq!(layout.indices.len(), 144);
    assert_eq!(layout.indices.len() / 3, 48);
    for order in 0..6u8 {
        let face = TerrainFace::of_face(CubeFace::from_order(order));
        let part = generate_mesh(&face, 3);
        assert_eq!(part.points.len(), 9);
        assert_eq!(part.indices.len(), 24);
    }
}

#[test]
fn first_face_indices_exact() {
    let idx = face_indices(0, 3);
    let expected: Vec<u32> = vec![
        0, 4, 3, 0, 1, 4, //
        1, 5, 4, 1, 2, 5, //
        3, 7, 6, 3, 4, 7, //
        4, 8, 7, 4, 5, 8,
    ];
    assert_eq!(idx, expected);
}

#[test]
fn faces_offset_by_order() {
    let first = face_indices(0, 3);
    let second = face_indices(1, 3);
    let last = face_indices(5, 3);
    for k in 0..first.len() {
        assert_eq!(second[k], first[k] + 9);
        assert_eq!(last[k], first[k] + 45);
    }
}

#[test]
fn face_indices_stay_in_their_block() {
    for resolution in [2u32, 3, 4, 7] {
        let block = resolution * resolution;
        for order in 0..6u8 {
            let idx = face_indices(order, resolution);
            assert_eq!(idx.len() as u32, 6 * (resolution - 1) * (resolution - 1));
            for &i in &idx {
                assert!(i >= order as u32 * block);
                assert!(i < (order as u32 + 1) * block);
            }
        }
    }
}

#[test]
fn planet_sizes_and_index_range() {
    for resolution in [2u32, 3, 5, 10] {
        let layout = create_planet(resolution, 3).unwrap();
        let v = 6 * resolution * resolution;
        assert_eq!(layout.points.len() as u32, v);
        assert_eq!(
            layout.indices.len() as u32,
            6 * (resolution - 1) * (resolution - 1) * 2 * 3
        );
        assert_eq!(layout.indices.len() % 3, 0);
        assert!(layout.indices.iter().all(|&i| i < v));
    }
}

#[test]
fn smallest_resolution_has_one_cell_per_face() {
    let idx = planet_indices(2);
    assert_eq!(idx.len(), 36);
    assert_eq!(&idx[0..6], &[0, 3, 2, 0, 1, 3]);
    assert_eq!(&idx[30..36], &[20, 23, 22, 20, 21, 23]);
}

#[test]
fn planet_is_deterministic() {
    let a = create_planet(6, 4).unwrap();
    let b = create_planet(6, 4).unwrap();
    assert_eq!(a.points, b.points);
    assert_eq!(a.indices, b.indices);
}

#[test]
fn config_errors() {
    assert_eq!(check_config(1, 1), Err(ConfigError::ResolutionTooSmall));
    assert_eq!(check_config(0, 0), Err(ConfigError::ResolutionTooSmall));
    assert_eq!(check_config(4, 0), Err(ConfigError::NoLayers));
    assert_eq!(check_config(MAX_RESOLUTION + 1, 1), Err(ConfigError::ResolutionTooLarge));
    assert_eq!(check_config(MAX_RESOLUTION, 1), Ok(()));
    assert_eq!(check_config(2, 1), Ok(()));
    assert!(matches!(create_planet(1, 1), Err(ConfigError::ResolutionTooSmall)));
    assert!(matches!(create_planet(3, 0), Err(ConfigError::NoLayers)));
}

#[test]
fn allocate_derives_tangent_axes() {
    let f = TerrainFace::allocate(IVec3::new(1, 0, 0), 0);
    assert_eq!(f.axis_a, IVec3::new(0, 0, 1));
    assert_eq!(f.axis_b, IVec3::new(0, -1, 0));
    let f = TerrainFace::allocate(IVec3::new(0, 0, -1), 3);
    assert_eq!(f.axis_a, IVec3::new(0, -1, 0));
    assert_eq!(f.axis_b, IVec3::new(-1, 0, 0));
    assert_eq!(f.order, 3);
}

#[test]
fn face_order_is_fixed() {
    let expected = [
        CubeFace::PosX,
        CubeFace::PosY,
        CubeFace::PosZ,
        CubeFace::NegZ,
        CubeFace::NegY,
        CubeFace::NegX,
    ];
    for (k, f) in expected.iter().enumerate() {
        assert_eq!(f.order() as usize, k);
        assert_eq!(CubeFace::from_order(k as u8), *f);
    }
    assert_eq!(CubeFace::NegY.up(), IVec3::new(0, -1, 0));
}

#[test]
fn face_points_exact() {
    let face = TerrainFace::of_face(CubeFace::PosX);
    let pts = face_points(&face, 3);
    assert_eq!(pts.len(), 9);
    assert_eq!(pts[0], IVec3::new(2, 2, -2));
    assert_eq!(pts[4], IVec3::new(2, 0, 0));
    assert_eq!(pts[8], IVec3::new(2, -2, 2));
    assert_eq!(pts[2], IVec3::new(2, 2, 2));
}

#[test]
fn planet_points_follow_face_order() {
    let pts = planet_points(3);
    assert_eq!(pts.len(), 54);
    // centre of each face: the outward axis times (r - 1)
    assert_eq!(pts[4], IVec3::new(2, 0, 0));
    assert_eq!(pts[9 + 4], IVec3::new(0, 2, 0));
    assert_eq!(pts[18 + 4], IVec3::new(0, 0, 2));
    assert_eq!(pts[27 + 4], IVec3::new(0, 0, -2));
    assert_eq!(pts[36 + 4], IVec3::new(0, -2, 0));
    assert_eq!(pts[45 + 4], IVec3::new(-2, 0, 0));
    // every point lies on its face: its coordinate along the outward axis is r - 1
    for order in 0..6u8 {
        let up = CubeFace::from_order(order).up();
        for k in 0..9usize {
            let p = pts[order as usize * 9 + k];
            assert_eq!(p.x * up.x + p.y * up.y + p.z * up.z, 2);
        }
    }
}
