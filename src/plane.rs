use vstd::prelude::*;

use crate::geom::{lemma_dir_cases, Dir, Point3};
use crate::rotation::Rotation;
use crate::transform::{lemma_apply_range, lemma_rotation_from_to, rotation_from_to, TandR};

verus! {

/// The orientation of a drawing plane: one of the named ones, or one given by
/// its x direction and its normal.
#[derive(Clone, Copy, Debug, PartialEq, Eq, Structural)]
pub enum Plane {
    XY,
    YZ,
    ZX,
    XZ,
    YX,
    ZY,
    Custom { x_dir: Dir, normal_dir: Dir },
}

/// The canonical normal that every plane turns from.
pub open spec fn base_normal() -> Dir {
    Dir::PosZ
}

/// The pure rotation that maps `a` onto `b`.
pub open spec fn turn_between(a: Dir, b: Dir) -> TandR {
    TandR {
        translation: Point3 { x: 0, y: 0, z: 0 },
        rotation: rotation_from_to(a, b),
        inverse: false,
    }
}

/// The right-handed frame whose x axis is `x_dir` and whose z axis is
/// `normal_dir`; its y axis is `normal_dir × x_dir`.
pub open spec fn frame_rotation(x_dir: Dir, normal_dir: Dir) -> Rotation {
    Rotation { x: x_dir, y: normal_dir.cross_spec(x_dir), z: normal_dir }
}

/// For perpendicular directions the frame is a proper rotation.
pub proof fn lemma_frame_rotation(x_dir: Dir, normal_dir: Dir)
    requires
        x_dir.axis() != normal_dir.axis(),
    ensures
        frame_rotation(x_dir, normal_dir).wf(),
{
    lemma_dir_cases(x_dir);
    lemma_dir_cases(normal_dir);
}

impl Plane {
    /// A custom plane needs perpendicular directions.
    pub open spec fn wf(self) -> bool {
        match self {
            Plane::Custom { x_dir, normal_dir } => x_dir.axis() != normal_dir.axis(),
            _ => true,
        }
    }

    pub open spec fn transform_spec(self) -> TandR {
        match self {
            Plane::XY => TandR::noop_spec(),
            Plane::YZ => turn_between(base_normal(), Dir::PosX),
            Plane::ZX => turn_between(base_normal(), Dir::PosY),
            Plane::YX => turn_between(base_normal(), base_normal().negated()),
            Plane::ZY => turn_between(base_normal(), Dir::NegX),
            Plane::XZ => turn_between(base_normal(), Dir::NegY),
            Plane::Custom { x_dir, normal_dir } => TandR {
                translation: Point3 { x: 0, y: 0, z: 0 },
                rotation: frame_rotation(x_dir, normal_dir),
                inverse: false,
            },
        }
    }

    /// The transform from the plane's own coordinates to world coordinates:
    /// a pure rotation, without translation.
    pub fn transform(&self) -> (r: TandR)
        requires
            self.wf(),
        ensures
            r == self.transform_spec(),
            r.wf(),
    {
        match self {
            Plane::XY => TandR::noop(),
            Plane::YZ => TandR::from_rotation_between(Dir::PosZ, Dir::PosX),
            Plane::ZX => TandR::from_rotation_between(Dir::PosZ, Dir::PosY),
            Plane::YX => TandR::from_rotation_between(Dir::PosZ, Dir::PosZ.neg()),
            Plane::ZY => TandR::from_rotation_between(Dir::PosZ, Dir::NegX),
            Plane::XZ => TandR::from_rotation_between(Dir::PosZ, Dir::NegY),
            Plane::Custom { x_dir, normal_dir } => {
                proof {
                    lemma_frame_rotation(*x_dir, *normal_dir);
                }
                let rotation = Rotation { x: *x_dir, y: normal_dir.cross(*x_dir), z: *normal_dir };
                TandR { translation: Point3::origin(), rotation, inverse: false }
            },
        }
    }

    /// A point given in the plane's coordinates, in world coordinates.
    pub fn transform_point(&self, point: Point3) -> (r: Point3)
        requires
            self.wf(),
            point.in_range(),
        ensures
            r@ == self.transform_spec().apply_spec(point@),
            r.in_range(),
    {
        let t = self.transform();
        proof {
            lemma_apply_range(t.rotation, point@);
        }
        t.transform_point(point)
    }
}

/// The XY plane is the identity, and the YZ plane turns the base normal onto
/// the x axis; every named plane is a pure rotation.
pub proof fn lemma_plane_canonical(p: Plane)
    requires
        p.wf(),
    ensures
        Plane::XY.transform_spec() == TandR::noop_spec(),
        Plane::YZ.transform_spec().rotation.map_dir(base_normal()) == Dir::PosX,
        Plane::YZ.transform_spec().translation@ == (0int, 0int, 0int),
        p.transform_spec().translation@ == (0int, 0int, 0int),
        !p.transform_spec().inverse,
        p.transform_spec().wf(),
{
    lemma_rotation_from_to(base_normal(), Dir::PosX);
    match p {
        Plane::Custom { x_dir, normal_dir } => lemma_frame_rotation(x_dir, normal_dir),
        Plane::XY => {},
        Plane::YZ => {},
        Plane::ZX => lemma_rotation_from_to(base_normal(), Dir::PosY),
        Plane::YX => lemma_rotation_from_to(base_normal(), base_normal().negated()),
        Plane::ZY => lemma_rotation_from_to(base_normal(), Dir::NegX),
        Plane::XZ => lemma_rotation_from_to(base_normal(), Dir::NegY),
    }
}

} // verus!
