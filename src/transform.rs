use vstd::prelude::*;

use crate::geom::{add3, coords_ok, neg3, Coords, Dir, Point3};
use crate::rotation::{
    lemma_apply_linear, lemma_compose_apply, lemma_compose_wf, lemma_inverse, Rotation,
};

verus! {

/// A rigid transform: a rotation and a translation, applied in one of the two
/// orders.
///
/// With `inverse` false a point is rotated and then translated; with
/// `inverse` true it is translated and then rotated. Inverting a transform
/// flips the flag, so inversion never recombines the two parts.
#[derive(Clone, Copy, Debug, PartialEq, Eq, Structural)]
pub struct TandR {
    pub translation: Point3,
    pub rotation: Rotation,
    pub inverse: bool,
}

/// The rotation that carries the canonical z axis onto the canonical x axis,
/// through which opposite directions are turned.
pub open spec fn intermediate_spec() -> Rotation {
    Rotation::quarter_turn_spec(Dir::PosY)
}

/// The rotation chosen to map `a` onto `b`: the shortest arc where there is
/// one; for opposite directions, a turn through the intermediate rotation
/// followed by the shortest arc onto `b`.
pub open spec fn rotation_from_to(a: Dir, b: Dir) -> Rotation {
    match Rotation::between_spec(a, b) {
        Some(q) => q,
        None => {
            let q1 = intermediate_spec();
            match Rotation::between_spec(q1.map_dir(a), b) {
                Some(q2) => q2.compose_spec(q1),
                None => {
                    // `a` lies on the axis of the intermediate turn: turn it
                    // onto the x axis first.
                    let to_x = Rotation::between_spec(a, Dir::PosX);
                    match (to_x, Rotation::between_spec(Dir::PosX, b)) {
                        (Some(p1), Some(p2)) => p2.compose_spec(p1),
                        _ => Rotation::identity_spec(),
                    }
                },
            }
        },
    }
}

fn intermediate() -> (r: Rotation)
    ensures
        r == intermediate_spec(),
        r.wf(),
{
    Rotation::quarter_turn(Dir::PosY)
}

/// Mapping a direction through a composition maps it twice.
pub proof fn lemma_compose_map(a: Rotation, b: Rotation, d: Dir)
    ensures
        a.compose_spec(b).map_dir(d) == a.map_dir(b.map_dir(d)),
{
    match d {
        Dir::PosX | Dir::PosY | Dir::PosZ => {},
        _ => {
            match b.map_dir(d.negated()) {
                Dir::PosX | Dir::NegX => {},
                Dir::PosY | Dir::NegY => {},
                _ => {},
            }
        },
    }
}

/// Rotations keep coordinates in range, and only coordinates in range come
/// out of them.
pub proof fn lemma_apply_range(r: Rotation, v: Coords)
    requires
        r.wf(),
    ensures
        coords_ok(r.apply_spec(v)) == coords_ok(v),
{
    lemma_inverse(r, v);
    match r.x {
        Dir::PosX | Dir::NegX => {},
        Dir::PosY | Dir::NegY => {},
        _ => {},
    }
    match r.y {
        Dir::PosX | Dir::NegX => {},
        Dir::PosY | Dir::NegY => {},
        _ => {},
    }
}

/// The chosen rotation is proper and maps `a` onto `b`, for every pair of
/// directions, opposite ones included.
pub proof fn lemma_rotation_from_to(a: Dir, b: Dir)
    ensures
        rotation_from_to(a, b).wf(),
        rotation_from_to(a, b).map_dir(a) == b,
{
    crate::rotation::lemma_quarter_turn(Dir::PosY, a);
    let q1 = intermediate_spec();
    let m = q1.map_dir(a);
    if a == b {
    } else if a == b.negated() {
        if m != b.negated() {
            crate::rotation::lemma_between_maps(m, b);
            crate::rotation::lemma_quarter_turn(m.cross_spec(b), m);
            crate::geom::lemma_dir_products(m, b);
            lemma_compose_wf(Rotation::quarter_turn_spec(m.cross_spec(b)), q1);
            lemma_compose_map(Rotation::quarter_turn_spec(m.cross_spec(b)), q1, a);
        } else {
            crate::rotation::lemma_between_maps(a, Dir::PosX);
            crate::rotation::lemma_between_maps(Dir::PosX, b);
            crate::geom::lemma_dir_products(a, Dir::PosX);
            crate::geom::lemma_dir_products(Dir::PosX, b);
            crate::rotation::lemma_quarter_turn(a.cross_spec(Dir::PosX), a);
            crate::rotation::lemma_quarter_turn(Dir::PosX.cross_spec(b), Dir::PosX);
            let p1 = Rotation::quarter_turn_spec(a.cross_spec(Dir::PosX));
            let p2 = Rotation::quarter_turn_spec(Dir::PosX.cross_spec(b));
            lemma_compose_wf(p2, p1);
            lemma_compose_map(p2, p1, a);
        }
    } else {
        crate::rotation::lemma_between_maps(a, b);
        crate::geom::lemma_dir_products(a, b);
        crate::rotation::lemma_quarter_turn(a.cross_spec(b), a);
    }
}

impl TandR {
    pub open spec fn wf(self) -> bool {
        self.rotation.wf() && self.translation.in_range()
    }

    /// Where the transform sends the point `p`.
    pub open spec fn apply_spec(self, p: Coords) -> Coords {
        if self.inverse {
            self.rotation.apply_spec(add3(p, self.translation@))
        } else {
            add3(self.rotation.apply_spec(p), self.translation@)
        }
    }

    pub open spec fn inverse_spec(self) -> TandR {
        TandR {
            translation: Point3 {
                x: (-self.translation.x) as i64,
                y: (-self.translation.y) as i64,
                z: (-self.translation.z) as i64,
            },
            rotation: self.rotation.inverse_spec(),
            inverse: !self.inverse,
        }
    }

    /// `other` expressed in the frame of `self`.
    pub open spec fn compose_spec(self, other: TandR) -> TandR {
        TandR {
            translation: Point3 {
                x: (self.translation.x + self.rotation.apply_spec(other.translation@).0) as i64,
                y: (self.translation.y + self.rotation.apply_spec(other.translation@).1) as i64,
                z: (self.translation.z + self.rotation.apply_spec(other.translation@).2) as i64,
            },
            rotation: self.rotation.compose_spec(other.rotation),
            inverse: other.inverse,
        }
    }

    pub open spec fn noop_spec() -> TandR {
        TandR {
            translation: Point3 { x: 0, y: 0, z: 0 },
            rotation: Rotation::identity_spec(),
            inverse: false,
        }
    }

    pub fn new(translation: Point3, rotation: Rotation) -> (r: TandR)
        ensures
            r == (TandR { translation, rotation, inverse: false }),
    {
        TandR { translation, rotation, inverse: false }
    }

    /// The transform that moves nothing.
    pub fn noop() -> (r: TandR)
        ensures
            r == TandR::noop_spec(),
            r.wf(),
    {
        TandR { translation: Point3::origin(), rotation: Rotation::identity(), inverse: false }
    }

    /// The same transform with its translation replaced.
    pub fn translation(self, translation: Point3) -> (r: TandR)
        ensures
            r == (TandR { translation, ..self }),
    {
        let mut r = self;
        r.translation = translation;
        r
    }

    /// The rotation that maps the direction `a` onto `b`, without translation.
    /// Opposite directions are turned through a fixed intermediate rotation,
    /// so the result is the same on every call.
    pub fn from_rotation_between(a: Dir, b: Dir) -> (r: TandR)
        ensures
            r.rotation == rotation_from_to(a, b),
            r.translation@ == (0int, 0int, 0int),
            !r.inverse,
            r.wf(),
            r.rotation.map_dir(a) == b,
    {
        proof {
            lemma_rotation_from_to(a, b);
        }
        let rotation = match Rotation::rotation_between(a, b) {
            Some(q) => q,
            None => {
                let q1 = intermediate();
                let m = q1.map(a);
                match Rotation::rotation_between(m, b) {
                    Some(q2) => q2.compose(&q1),
                    None => {
                        match (
                            Rotation::rotation_between(a, Dir::PosX),
                            Rotation::rotation_between(Dir::PosX, b),
                        ) {
                            (Some(p1), Some(p2)) => p2.compose(&p1),
                            _ => Rotation::identity(),
                        }
                    },
                }
            },
        };
        TandR { translation: Point3::origin(), rotation, inverse: false }
    }

    /// Applies the transform to a point.
    pub fn transform_point(&self, point: Point3) -> (r: Point3)
        requires
            self.wf(),
            point.in_range(),
            coords_ok(self.apply_spec(point@)),
        ensures
            r@ == self.apply_spec(point@),
            r.in_range(),
    {
        if self.inverse {
            proof {
                lemma_apply_range(self.rotation, add3(point@, self.translation@));
            }
            let moved = point.add(self.translation);
            self.rotation.apply(moved)
        } else {
            proof {
                lemma_apply_range(self.rotation, point@);
            }
            let turned = self.rotation.apply(point);
            turned.add(self.translation)
        }
    }

    /// Nests `tandr` inside the frame of `self`: the rotations compose, and
    /// the translation of `tandr` is rotated into the frame of `self` and
    /// added to its translation.
    pub fn transform_tandr(&self, tandr: TandR) -> (r: TandR)
        requires
            self.wf(),
            tandr.wf(),
            coords_ok(add3(self.translation@, self.rotation.apply_spec(tandr.translation@))),
        ensures
            r == self.compose_spec(tandr),
            r.wf(),
    {
        proof {
            lemma_apply_range(self.rotation, tandr.translation@);
        }
        let mut r = tandr;
        r.rotation = self.rotation.compose(&tandr.rotation);
        r.translation = self.translation.add(self.rotation.apply(tandr.translation));
        r
    }

    /// Rotates a direction; the translation plays no part.
    pub fn rotate_norm(&self, normal: Dir) -> (r: Dir)
        ensures
            r == self.rotation.map_dir(normal),
    {
        self.rotation.map(normal)
    }

    /// The transform that undoes this one.
    pub fn inverse(&self) -> (r: TandR)
        requires
            self.wf(),
        ensures
            r == self.inverse_spec(),
            r.wf(),
            r.translation@ == neg3(self.translation@),
    {
        TandR {
            translation: self.translation.neg(),
            rotation: self.rotation.inverse(),
            inverse: !self.inverse,
        }
    }
}

impl Default for TandR {
    fn default() -> (r: TandR)
        ensures
            r == TandR::noop_spec(),
    {
        TandR::noop()
    }
}

/// Transforming a point and then transforming it back by the inverse gives
/// the point again.
pub proof fn lemma_round_trip(t: TandR, p: Coords)
    requires
        t.wf(),
    ensures
        t.inverse_spec().apply_spec(t.apply_spec(p)) == p,
{
    let r = t.rotation;
    let inv = r.inverse_spec();
    let tr = t.translation@;
    assert(t.inverse_spec().translation@ == neg3(tr));
    if t.inverse {
        lemma_inverse(r, add3(p, tr));
    } else {
        lemma_inverse(r, p);
    }
}

/// Transforming a point by the inverse and then by the transform gives the
/// point again.
pub proof fn lemma_round_trip_back(t: TandR, p: Coords)
    requires
        t.wf(),
    ensures
        t.apply_spec(t.inverse_spec().apply_spec(p)) == p,
{
    let r = t.rotation;
    let tr = t.translation@;
    assert(t.inverse_spec().translation@ == neg3(tr));
    if t.inverse {
        lemma_inverse(r, p);
    } else {
        lemma_inverse(r, add3(p, neg3(tr)));
    }
}

/// Rotating the origin leaves it in place.
pub proof fn lemma_apply_origin(r: Rotation)
    ensures
        r.apply_spec((0, 0, 0)) == (0int, 0int, 0int),
{
    lemma_apply_linear(r, (0, 0, 0), (0, 0, 0));
}

/// Composing two transforms that rotate first gives the transform that
/// applies the inner one and then the outer one.
pub proof fn lemma_compose_then(outer: TandR, inner: TandR, p: Coords)
    requires
        outer.wf(),
        inner.wf(),
        !outer.inverse,
        !inner.inverse,
        coords_ok(add3(outer.translation@, outer.rotation.apply_spec(inner.translation@))),
    ensures
        outer.compose_spec(inner).apply_spec(p) == outer.apply_spec(inner.apply_spec(p)),
{
    lemma_compose_apply(outer.rotation, inner.rotation, p);
    lemma_apply_linear(outer.rotation, inner.rotation.apply_spec(p), inner.translation@);
}

} // verus!
