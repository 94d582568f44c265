use vstd::prelude::*;

use crate::geom::{add3, lemma_dir_cases, lemma_dir_products, neg3, Coords, Dir, Point3};

verus! {

/// A proper rotation of the lattice: it sends the canonical x, y and z axes
/// onto the directions `x`, `y` and `z`.
///
/// These are the twenty-four rotations that map every axis onto an axis, so
/// applying, composing and inverting them is exact.
#[derive(Clone, Copy, Debug, PartialEq, Eq, Structural)]
pub struct Rotation {
    pub x: Dir,
    pub y: Dir,
    pub z: Dir,
}

impl Rotation {
    /// The images of the axes form a right-handed orthonormal frame.
    pub open spec fn wf(self) -> bool {
        self.x.axis() != self.y.axis() && self.z == self.x.cross_spec(self.y)
    }

    pub open spec fn apply_spec(self, v: Coords) -> Coords {
        add3(add3(self.x.scaled(v.0), self.y.scaled(v.1)), self.z.scaled(v.2))
    }

    /// The image of a direction.
    pub open spec fn map_dir(self, d: Dir) -> Dir {
        match d {
            Dir::PosX => self.x,
            Dir::NegX => self.x.negated(),
            Dir::PosY => self.y,
            Dir::NegY => self.y.negated(),
            Dir::PosZ => self.z,
            Dir::NegZ => self.z.negated(),
        }
    }

    /// The direction that is mapped onto `d`.
    pub open spec fn preimage(self, d: Dir) -> Dir {
        if self.x == d {
            Dir::PosX
        } else if self.x == d.negated() {
            Dir::NegX
        } else if self.y == d {
            Dir::PosY
        } else if self.y == d.negated() {
            Dir::NegY
        } else if self.z == d {
            Dir::PosZ
        } else {
            Dir::NegZ
        }
    }

    pub open spec fn identity_spec() -> Rotation {
        Rotation { x: Dir::PosX, y: Dir::PosY, z: Dir::PosZ }
    }

    /// `self` after `o`: first `o`, then `self`.
    pub open spec fn compose_spec(self, o: Rotation) -> Rotation {
        Rotation { x: self.map_dir(o.x), y: self.map_dir(o.y), z: self.map_dir(o.z) }
    }

    pub open spec fn inverse_spec(self) -> Rotation {
        Rotation {
            x: self.preimage(Dir::PosX),
            y: self.preimage(Dir::PosY),
            z: self.preimage(Dir::PosZ),
        }
    }

    /// The quarter turn, counter-clockwise seen from the tip of `n`, about `n`.
    pub open spec fn quarter_turn_spec(n: Dir) -> Rotation {
        Rotation {
            x: Rotation::turn_dir(n, Dir::PosX),
            y: Rotation::turn_dir(n, Dir::PosY),
            z: Rotation::turn_dir(n, Dir::PosZ),
        }
    }

    pub open spec fn turn_dir(n: Dir, d: Dir) -> Dir {
        if d.axis() == n.axis() {
            d
        } else {
            n.cross_spec(d)
        }
    }

    /// The shortest-arc rotation that maps `a` onto `b`; there is none when
    /// the two are opposite.
    pub open spec fn between_spec(a: Dir, b: Dir) -> Option<Rotation> {
        if a == b {
            Some(Rotation::identity_spec())
        } else if a == b.negated() {
            None
        } else {
            Some(Rotation::quarter_turn_spec(a.cross_spec(b)))
        }
    }

    pub fn identity() -> (r: Rotation)
        ensures
            r == Rotation::identity_spec(),
            r.wf(),
    {
        Rotation { x: Dir::PosX, y: Dir::PosY, z: Dir::PosZ }
    }

    pub fn map(&self, d: Dir) -> (r: Dir)
        ensures
            r == self.map_dir(d),
    {
        match d {
            Dir::PosX => self.x,
            Dir::NegX => self.x.neg(),
            Dir::PosY => self.y,
            Dir::NegY => self.y.neg(),
            Dir::PosZ => self.z,
            Dir::NegZ => self.z.neg(),
        }
    }

    /// Rotates a point about the origin.
    pub fn apply(&self, p: Point3) -> (r: Point3)
        requires
            self.wf(),
            p.in_range(),
        ensures
            r@ == self.apply_spec(p@),
            r.in_range(),
    {
        let cx = self.x.signed(p.x);
        let cy = self.y.signed(p.y);
        let cz = self.z.signed(p.z);
        let ax = self.x.axis_index();
        let ay = self.y.axis_index();
        let ox = if ax == 0 {
            cx
        } else if ay == 0 {
            cy
        } else {
            cz
        };
        let oy = if ax == 1 {
            cx
        } else if ay == 1 {
            cy
        } else {
            cz
        };
        let oz = if ax == 2 {
            cx
        } else if ay == 2 {
            cy
        } else {
            cz
        };
        proof {
            lemma_dir_cases(self.x);
            lemma_dir_cases(self.y);
        }
        Point3 { x: ox, y: oy, z: oz }
    }

    /// `self` after `o`.
    pub fn compose(&self, o: &Rotation) -> (r: Rotation)
        requires
            self.wf(),
            o.wf(),
        ensures
            r == self.compose_spec(*o),
            r.wf(),
    {
        proof {
            lemma_compose_wf(*self, *o);
        }
        Rotation { x: self.map(o.x), y: self.map(o.y), z: self.map(o.z) }
    }

    pub fn inverse(&self) -> (r: Rotation)
        requires
            self.wf(),
        ensures
            r == self.inverse_spec(),
            r.wf(),
    {
        proof {
            lemma_inverse(*self, (0, 0, 0));
        }
        Rotation {
            x: self.preimage_of(Dir::PosX),
            y: self.preimage_of(Dir::PosY),
            z: self.preimage_of(Dir::PosZ),
        }
    }

    fn preimage_of(&self, d: Dir) -> (r: Dir)
        ensures
            r == self.preimage(d),
    {
        if self.x == d {
            Dir::PosX
        } else if self.x == d.neg() {
            Dir::NegX
        } else if self.y == d {
            Dir::PosY
        } else if self.y == d.neg() {
            Dir::NegY
        } else if self.z == d {
            Dir::PosZ
        } else {
            Dir::NegZ
        }
    }

    fn turn(n: Dir, d: Dir) -> (r: Dir)
        ensures
            r == Rotation::turn_dir(n, d),
    {
        if d.axis_index() == n.axis_index() {
            d
        } else {
            n.cross(d)
        }
    }

    /// The quarter turn about `n`.
    pub fn quarter_turn(n: Dir) -> (r: Rotation)
        ensures
            r == Rotation::quarter_turn_spec(n),
            r.wf(),
    {
        proof {
            lemma_quarter_turn(n, n);
        }
        Rotation {
            x: Rotation::turn(n, Dir::PosX),
            y: Rotation::turn(n, Dir::PosY),
            z: Rotation::turn(n, Dir::PosZ),
        }
    }

    /// The shortest-arc rotation from `a` onto `b`, or `None` when `b` is
    /// the opposite of `a`.
    pub fn rotation_between(a: Dir, b: Dir) -> (r: Option<Rotation>)
        ensures
            r == Rotation::between_spec(a, b),
            r is Some ==> r->0.wf() && r->0.map_dir(a) == b,
    {
        if a == b {
            let id = Rotation::identity();
            Some(id)
        } else if a == b.neg() {
            None
        } else {
            proof {
                lemma_dir_products(a, b);
                lemma_between_maps(a, b);
            }
            Some(Rotation::quarter_turn(a.cross(b)))
        }
    }
}

/// Rotating a scaled direction scales the rotated direction.
pub proof fn lemma_apply_scaled(r: Rotation, d: Dir, c: int)
    ensures
        r.apply_spec(d.scaled(c)) == r.map_dir(d).scaled(c),
{
    lemma_dir_cases(d);
    lemma_dir_cases(r.map_dir(d));
}

/// Rotation is linear.
pub proof fn lemma_apply_linear(r: Rotation, u: Coords, v: Coords)
    ensures
        r.apply_spec(add3(u, v)) == add3(r.apply_spec(u), r.apply_spec(v)),
        r.apply_spec(neg3(u)) == neg3(r.apply_spec(u)),
{
    lemma_dir_cases(r.x);
    lemma_dir_cases(r.y);
    lemma_dir_cases(r.z);
}

/// A proper rotation carries cross products along.
pub proof fn lemma_map_cross(r: Rotation, d: Dir, e: Dir)
    requires
        r.wf(),
        d.axis() != e.axis(),
    ensures
        r.map_dir(d).axis() != r.map_dir(e).axis(),
        r.map_dir(d.cross_spec(e)) == r.map_dir(d).cross_spec(r.map_dir(e)),
{
    lemma_dir_cases(r.x);
    lemma_dir_cases(r.y);
    lemma_dir_cases(d);
    lemma_dir_cases(e);
}

pub proof fn lemma_compose_wf(a: Rotation, b: Rotation)
    requires
        a.wf(),
        b.wf(),
    ensures
        a.compose_spec(b).wf(),
{
    lemma_map_cross(a, b.x, b.y);
}

/// Applying a composition is applying one rotation after the other.
pub proof fn lemma_compose_apply(a: Rotation, b: Rotation, v: Coords)
    ensures
        a.compose_spec(b).apply_spec(v) == a.apply_spec(b.apply_spec(v)),
{
    lemma_apply_linear(a, add3(b.x.scaled(v.0), b.y.scaled(v.1)), b.z.scaled(v.2));
    lemma_apply_linear(a, b.x.scaled(v.0), b.y.scaled(v.1));
    lemma_apply_scaled(a, b.x, v.0);
    lemma_apply_scaled(a, b.y, v.1);
    lemma_apply_scaled(a, b.z, v.2);
}

/// The inverse is a proper rotation that undoes the rotation, on either side.
pub proof fn lemma_inverse(r: Rotation, v: Coords)
    requires
        r.wf(),
    ensures
        r.inverse_spec().wf(),
        r.inverse_spec().apply_spec(r.apply_spec(v)) == v,
        r.apply_spec(r.inverse_spec().apply_spec(v)) == v,
{
    lemma_dir_cases(r.x);
    lemma_dir_cases(r.y);
}

pub proof fn lemma_quarter_turn(n: Dir, d: Dir)
    ensures
        Rotation::quarter_turn_spec(n).wf(),
        Rotation::quarter_turn_spec(n).map_dir(d) == Rotation::turn_dir(n, d),
{
    lemma_dir_cases(n);
    lemma_dir_cases(d);
}

/// The shortest-arc rotation between two perpendicular directions maps the
/// first onto the second.
pub proof fn lemma_between_maps(a: Dir, b: Dir)
    requires
        a.axis() != b.axis(),
    ensures
        Rotation::quarter_turn_spec(a.cross_spec(b)).map_dir(a) == b,
{
    lemma_quarter_turn(a.cross_spec(b), a);
    lemma_dir_cases(a);
    lemma_dir_cases(b);
}

} // verus!
