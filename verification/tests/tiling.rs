use cube_sphere::tiling::{
    patch_specs, Face, PatchSpec, TileOffset, Vec3i, FACE_COUNT, FULL_RESOLUTION, MAX_RESOLUTION,
    PATCH_COUNT, PREVIEW_RESOLUTION, TILES_PER_FACE,
};

fn v(x: i64, y: i64, z: i64) -> Vec3i {
    Vec3i { x, y, z }
}

fn all_faces() -> Vec<Face> {
    vec![Face::PosX, Face::NegX, Face::PosY, Face::NegY, Face::PosZ, Face::NegZ]
}

fn all_offsets() -> Vec<TileOffset> {
    vec![
        TileOffset { x: 0, y: 0 },
        TileOffset { x: 0, y: 1 },
        TileOffset { x: 1, y: 0 },
        TileOffset { x: 1, y: 1 },
    ]
}

fn dot(a: Vec3i, b: Vec3i) -> i64 {
    a.x * b.x + a.y * b.y + a.z * b.z
}

fn cross(a: Vec3i, b: Vec3i) -> Vec3i {
    v(a.y * b.z - a.z * b.y, a.z * b.x - a.x * b.z, a.x * b.y - a.y * b.x)
}

#[test]
fn constants_of_the_tiling() {
    assert_eq!(FACE_COUNT, 6);
    assert_eq!(TILES_PER_FACE, 4);
    assert_eq!(PATCH_COUNT, 24);
    assert_eq!(FULL_RESOLUTION, 800);
    assert_eq!(PREVIEW_RESOLUTION, 16);
    assert_eq!(MAX_RESOLUTION, 65536);
}

#[test]
fn faces_come_in_the_fixed_order() {
    for (i, face) in all_faces().into_iter().enumerate() {
        assert_eq!(Face::at(i), face);
    }
}

#[test]
fn offsets_come_in_the_fixed_order() {
    for (i, offset) in all_offsets().into_iter().enumerate() {
        assert_eq!(TileOffset::at(i), offset);
    }
}

#[test]
fn normals_are_the_six_axis_directions() {
    assert_eq!(Face::PosX.normal(), v(1, 0, 0));
    assert_eq!(Face::NegX.normal(), v(-1, 0, 0));
    assert_eq!(Face::PosY.normal(), v(0, 1, 0));
    assert_eq!(Face::NegY.normal(), v(0, -1, 0));
    assert_eq!(Face::PosZ.normal(), v(0, 0, 1));
    assert_eq!(Face::NegZ.normal(), v(0, 0, -1));
}

#[test]
fn tangent_axes_of_each_face() {
    assert_eq!(Face::PosX.axis_a(), v(0, 0, 1));
    assert_eq!(Face::PosX.axis_b(), v(0, 1, 0));
    assert_eq!(Face::NegX.axis_a(), v(0, 0, -1));
    assert_eq!(Face::NegX.axis_b(), v(0, 1, 0));
    assert_eq!(Face::PosY.axis_a(), v(1, 0, 0));
    assert_eq!(Face::PosY.axis_b(), v(0, 0, 1));
    assert_eq!(Face::NegY.axis_a(), v(-1, 0, 0));
    assert_eq!(Face::NegY.axis_b(), v(0, 0, 1));
    assert_eq!(Face::PosZ.axis_a(), v(0, 1, 0));
    assert_eq!(Face::PosZ.axis_b(), v(1, 0, 0));
    assert_eq!(Face::NegZ.axis_a(), v(0, -1, 0));
    assert_eq!(Face::NegZ.axis_b(), v(1, 0, 0));
}

#[test]
fn tangent_axes_follow_the_permutation_and_the_cross_product() {
    for face in all_faces() {
        let n = face.normal();
        let a = face.axis_a();
        let b = face.axis_b();
        assert_eq!(a, v(n.y, n.z, n.x));
        assert_eq!(b, cross(a, n));
        assert_eq!(a.cross(n), b);
    }
}

#[test]
fn basis_is_orthonormal_and_never_degenerate() {
    for face in all_faces() {
        let n = face.normal();
        let a = face.axis_a();
        let b = face.axis_b();
        assert_eq!(dot(n, n), 1);
        assert_eq!(dot(a, a), 1);
        assert_eq!(dot(b, b), 1);
        assert_eq!(dot(a, n), 0);
        assert_eq!(dot(b, n), 0);
        assert_eq!(dot(a, b), 0);
        assert_eq!(cross(b, a), n);
    }
}

#[test]
fn patch_specs_are_24_in_the_fixed_order() {
    let specs = patch_specs(16);
    assert_eq!(specs.len(), 24);
    let mut k = 0;
    for face in all_faces() {
        for offset in all_offsets() {
            assert_eq!(specs[k], PatchSpec { face, resolution: 16, offset });
            k += 1;
        }
    }
    assert_eq!(
        specs[0],
        PatchSpec { face: Face::PosX, resolution: 16, offset: TileOffset { x: 0, y: 0 } }
    );
    assert_eq!(
        specs[1],
        PatchSpec { face: Face::PosX, resolution: 16, offset: TileOffset { x: 0, y: 1 } }
    );
    assert_eq!(
        specs[6],
        PatchSpec { face: Face::NegX, resolution: 16, offset: TileOffset { x: 1, y: 0 } }
    );
    assert_eq!(
        specs[23],
        PatchSpec { face: Face::NegZ, resolution: 16, offset: TileOffset { x: 1, y: 1 } }
    );
}

#[test]
fn patch_specs_are_pairwise_different() {
    let specs = patch_specs(800);
    for i in 0..specs.len() {
        for j in 0..i {
            assert_ne!(specs[i], specs[j]);
        }
        assert_eq!(specs[i].resolution, 800);
    }
}

#[test]
fn patch_spec_validity() {
    let offset = TileOffset { x: 0, y: 1 };
    assert!(PatchSpec { face: Face::PosY, resolution: 2, offset }.is_valid());
    assert!(PatchSpec { face: Face::PosY, resolution: 800, offset }.is_valid());
    assert!(PatchSpec { face: Face::PosY, resolution: 65536, offset }.is_valid());
    assert!(!PatchSpec { face: Face::PosY, resolution: 65537, offset }.is_valid());
    assert!(!PatchSpec { face: Face::PosY, resolution: 1, offset }.is_valid());
    assert!(!PatchSpec { face: Face::PosY, resolution: 0, offset }.is_valid());
    let far = TileOffset { x: 2, y: 0 };
    assert!(!PatchSpec { face: Face::PosY, resolution: 16, offset: far }.is_valid());
    let far = TileOffset { x: 0, y: 2 };
    assert!(!PatchSpec { face: Face::PosY, resolution: 16, offset: far }.is_valid());
}

#[test]
fn cube_point_corners_of_a_tile() {
    let near = PatchSpec { face: Face::PosX, resolution: 3, offset: TileOffset { x: 0, y: 0 } };
    assert_eq!(near.cube_point(0, 0), v(2, 0, 0));
    assert_eq!(near.cube_point(2, 0), v(2, 0, 2));
    assert_eq!(near.cube_point(0, 2), v(2, 2, 0));
    assert_eq!(near.cube_point(2, 2), v(2, 2, 2));
    assert_eq!(near.cube_point(1, 1), v(2, 1, 1));
    let far = PatchSpec { face: Face::PosX, resolution: 3, offset: TileOffset { x: 1, y: 1 } };
    assert_eq!(far.cube_point(0, 0), v(2, -2, -2));
    assert_eq!(far.cube_point(2, 2), v(2, 0, 0));
    let mixed = PatchSpec { face: Face::NegY, resolution: 5, offset: TileOffset { x: 1, y: 0 } };
    assert_eq!(mixed.cube_point(1, 3), v(3, -4, 3));
}

#[test]
fn cube_point_is_the_scaled_face_point() {
    for spec in patch_specs(7) {
        let n = spec.face.normal();
        let a = spec.face.axis_a();
        let b = spec.face.axis_b();
        for y in 0..7u32 {
            for x in 0..7u32 {
                let p = spec.cube_point(x, y);
                let px = x as f32 / 6.0 - spec.offset.x as f32;
                let py = y as f32 / 6.0 - spec.offset.y as f32;
                let expected = [
                    n.x as f32 + px * a.x as f32 + py * b.x as f32,
                    n.y as f32 + px * a.y as f32 + py * b.y as f32,
                    n.z as f32 + px * a.z as f32 + py * b.z as f32,
                ];
                let got = [p.x as f32 / 6.0, p.y as f32 / 6.0, p.z as f32 / 6.0];
                for c in 0..3 {
                    assert!((expected[c] - got[c]).abs() < 1e-6, "{spec:?} {x} {y}");
                }
            }
        }
    }
}

#[test]
fn cube_points_lie_on_their_face() {
    for spec in patch_specs(5) {
        let n = spec.face.normal();
        for p in spec.cube_points() {
            assert_eq!(dot(p, n), 4);
            assert!(p.x.abs() <= 4 && p.y.abs() <= 4 && p.z.abs() <= 4);
            assert_ne!(p, v(0, 0, 0));
        }
    }
}

#[test]
fn cube_points_are_row_major() {
    let spec = PatchSpec { face: Face::NegZ, resolution: 6, offset: TileOffset { x: 0, y: 1 } };
    let points = spec.cube_points();
    assert_eq!(points.len(), 36);
    for y in 0..6u32 {
        for x in 0..6u32 {
            assert_eq!(points[(x + y * 6) as usize], spec.cube_point(x, y));
        }
    }
}

#[test]
fn four_tiles_cover_a_face_and_meet_on_borders_only() {
    let res: u32 = 4;
    let s: i64 = 3;
    for face in all_faces() {
        let a = face.axis_a();
        let b = face.axis_b();
        let mut hits = vec![0usize; 49];
        for offset in all_offsets() {
            let spec = PatchSpec { face, resolution: res, offset };
            for p in spec.cube_points() {
                let ca = dot(p, a);
                let cb = dot(p, b);
                assert!((-s..=s).contains(&ca) && (-s..=s).contains(&cb));
                hits[((ca + s) * 7 + (cb + s)) as usize] += 1;
            }
        }
        for ca in -s..=s {
            for cb in -s..=s {
                let count = hits[((ca + s) * 7 + (cb + s)) as usize];
                let expected = match (ca == 0, cb == 0) {
                    (true, true) => 4,
                    (true, false) | (false, true) => 2,
                    (false, false) => 1,
                };
                assert_eq!(count, expected, "{face:?} {ca} {cb}");
            }
        }
    }
}

#[test]
fn largest_resolution_fits() {
    let spec = PatchSpec {
        face: Face::NegX,
        resolution: MAX_RESOLUTION,
        offset: TileOffset { x: 1, y: 1 },
    };
    assert_eq!(spec.cube_point(0, 0), v(-65535, -65535, 65535));
    assert_eq!(spec.cube_point(65535, 65535), v(-65535, 0, 0));
}
