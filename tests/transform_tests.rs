use opencascade::{Dir, Plane, Point3, Rotation, TandR};

const DIRS: [Dir; 6] = [Dir::PosX, Dir::NegX, Dir::PosY, Dir::NegY, Dir::PosZ, Dir::NegZ];

fn sample_transforms() -> Vec<TandR> {
    let mut all = Vec::new();
    for a in DIRS {
        for b in DIRS {
            let t = TandR::from_rotation_between(a, b);
            all.push(t.translation(Point3::new(3, -4, 7)));
        }
    }
    all
}

#[test]
fn round_trip_restores_point() {
    let p = Point3::new(1, 2, 3);
    for t in sample_transforms() {
        assert_eq!(t.inverse().transform_point(t.transform_point(p)), p);
        let inv = t.inverse();
        assert_eq!(inv.inverse().transform_point(inv.transform_point(p)), p);
    }
}

#[test]
fn round_trip_on_concrete_transform() {
    let t = TandR::new(Point3::new(10, 0, -2), Rotation::quarter_turn(Dir::PosZ));
    let moved = t.transform_point(Point3::new(1, 0, 0));
    assert_eq!(moved, Point3::new(10, 1, -2));
    assert_eq!(t.inverse().transform_point(moved), Point3::new(1, 0, 0));
}

#[test]
fn rotation_between_maps_every_pair() {
    for a in DIRS {
        for b in DIRS {
            let t = TandR::from_rotation_between(a, b);
            assert_eq!(t.rotate_norm(a), b);
            assert_eq!(t.translation, Point3::origin());
            assert!(!t.inverse);
        }
    }
}

#[test]
fn rotation_between_opposites_is_half_turn() {
    let t = TandR::from_rotation_between(Dir::PosZ, Dir::NegZ);
    assert_eq!(t.rotate_norm(Dir::PosZ), Dir::NegZ);
    assert_eq!(t.rotate_norm(Dir::PosX), Dir::NegX);
    assert_eq!(t.rotate_norm(Dir::PosY), Dir::PosY);
    let u = TandR::from_rotation_between(Dir::PosY, Dir::NegY);
    assert_eq!(u.rotate_norm(Dir::PosY), Dir::NegY);
}

#[test]
fn shortest_arc_is_quarter_turn() {
    let t = TandR::from_rotation_between(Dir::PosZ, Dir::PosX);
    assert_eq!(t.rotation, Rotation::quarter_turn(Dir::PosY));
    assert_eq!(t.transform_point(Point3::new(0, 0, 5)), Point3::new(5, 0, 0));
}

#[test]
fn plane_xy_is_identity() {
    let t = Plane::XY.transform();
    assert_eq!(t, TandR::noop());
    assert_eq!(t, TandR::default());
    assert_eq!(t.translation, Point3::origin());
    assert_eq!(t.rotation, Rotation::identity());
}

#[test]
fn plane_yz_turns_normal_onto_x() {
    let t = Plane::YZ.transform();
    assert_eq!(t.rotate_norm(Dir::PosZ), Dir::PosX);
    assert_eq!(t.translation, Point3::origin());
    assert_eq!(Plane::YZ.transform_point(Point3::new(0, 0, 2)), Point3::new(2, 0, 0));
}

#[test]
fn named_planes_turn_base_normal() {
    assert_eq!(Plane::ZX.transform().rotate_norm(Dir::PosZ), Dir::PosY);
    assert_eq!(Plane::YX.transform().rotate_norm(Dir::PosZ), Dir::NegZ);
    assert_eq!(Plane::ZY.transform().rotate_norm(Dir::PosZ), Dir::NegX);
    assert_eq!(Plane::XZ.transform().rotate_norm(Dir::PosZ), Dir::NegY);
}

#[test]
fn custom_plane_builds_frame() {
    let t = Plane::Custom { x_dir: Dir::PosY, normal_dir: Dir::PosX }.transform();
    assert_eq!(t.rotation.x, Dir::PosY);
    assert_eq!(t.rotation.y, Dir::PosZ);
    assert_eq!(t.rotation.z, Dir::PosX);
}

#[test]
fn compose_nests_transform() {
    let outer = TandR::new(Point3::new(1, 2, 3), Rotation::quarter_turn(Dir::PosZ));
    let inner = TandR::new(Point3::new(4, 0, 0), Rotation::identity());
    let both = outer.transform_tandr(inner);
    assert_eq!(both.translation, Point3::new(1, 6, 3));
    let p = Point3::new(0, 1, 0);
    assert_eq!(both.transform_point(p), outer.transform_point(inner.transform_point(p)));
}

#[test]
fn inverse_negates_translation() {
    let t = TandR::new(Point3::new(1, -2, 3), Rotation::identity());
    let inv = t.inverse();
    assert_eq!(inv.translation, Point3::new(-1, 2, -3));
    assert!(inv.inverse);
}

#[test]
fn translation_builder_replaces_translation() {
    let t = TandR::noop().translation(Point3::new(5, 6, 7));
    assert_eq!(t.translation, Point3::new(5, 6, 7));
    assert_eq!(t.rotation, Rotation::identity());
}

#[test]
fn rotation_compose_and_inverse() {
    let q = Rotation::quarter_turn(Dir::PosX);
    assert_eq!(q.compose(&q.inverse()), Rotation::identity());
    let half = q.compose(&q);
    assert_eq!(half.apply(Point3::new(0, 1, 0)), Point3::new(0, -1, 0));
}

#[test]
fn dir_products() {
    assert_eq!(Dir::PosX.cross(Dir::PosY), Dir::PosZ);
    assert_eq!(Dir::PosY.cross(Dir::PosX), Dir::NegZ);
    assert_eq!(Dir::PosX.dot(Dir::NegX), -1);
    assert_eq!(Dir::PosX.dot(Dir::PosZ), 0);
}

#[test]
fn coordinates_at_the_edge_of_range() {
    let big = i64::MAX;
    let t = TandR::from_rotation_between(Dir::PosZ, Dir::NegZ);
    let p = Point3::new(big, -big, 0);
    assert_eq!(t.transform_point(p), Point3::new(-big, -big, 0));
}
