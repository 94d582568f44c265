use vstd::prelude::*;

verus! {

/// A triple of mathematical integers: a point or an offset in exact space.
pub type Coords = (int, int, int);

pub open spec fn add3(a: Coords, b: Coords) -> Coords {
    (a.0 + b.0, a.1 + b.1, a.2 + b.2)
}

pub open spec fn neg3(a: Coords) -> Coords {
    (-a.0, -a.1, -a.2)
}

pub open spec fn dot3(a: Coords, b: Coords) -> int {
    a.0 * b.0 + a.1 * b.1 + a.2 * b.2
}

pub open spec fn cross3(a: Coords, b: Coords) -> Coords {
    (a.1 * b.2 - a.2 * b.1, a.2 * b.0 - a.0 * b.2, a.0 * b.1 - a.1 * b.0)
}

/// The largest magnitude a coordinate may have; the range is symmetric so
/// that negation never overflows.
pub open spec fn coord_ok(c: int) -> bool {
    -0x7fff_ffff_ffff_ffff <= c <= 0x7fff_ffff_ffff_ffff
}

pub open spec fn coords_ok(c: Coords) -> bool {
    coord_ok(c.0) && coord_ok(c.1) && coord_ok(c.2)
}

/// One of the six unit directions along the coordinate axes.
#[derive(Clone, Copy, Debug, PartialEq, Eq, Structural)]
pub enum Dir {
    PosX,
    NegX,
    PosY,
    NegY,
    PosZ,
    NegZ,
}

/// Each direction is one of the six.
pub proof fn lemma_dir_cases(d: Dir)
    ensures
        d == Dir::PosX || d == Dir::NegX || d == Dir::PosY || d == Dir::NegY || d == Dir::PosZ
            || d == Dir::NegZ,
{
}

/// The unit vector of a direction, evaluated.
pub proof fn lemma_dir_vec(d: Dir)
    ensures
        d.vec() == (match d {
            Dir::PosX => (1int, 0int, 0int),
            Dir::NegX => (-1int, 0int, 0int),
            Dir::PosY => (0int, 1int, 0int),
            Dir::NegY => (0int, -1int, 0int),
            Dir::PosZ => (0int, 0int, 1int),
            Dir::NegZ => (0int, 0int, -1int),
        }),
{
}

/// Dot and cross products of axis directions, evaluated.
pub proof fn lemma_dir_products(a: Dir, b: Dir)
    ensures
        dot3(a.vec(), b.vec()) == (if a == b {
            1int
        } else if a == b.negated() {
            -1int
        } else {
            0int
        }),
        a.axis() != b.axis() ==> a.cross_spec(b).vec() == cross3(a.vec(), b.vec()),
        a.axis() != b.axis() ==> a.cross_spec(b).axis() != a.axis() && a.cross_spec(b).axis()
            != b.axis(),
{
    lemma_dir_vec(a);
    lemma_dir_vec(b);
    lemma_dir_vec(a.cross_spec(b));
    lemma_dir_cases(a);
    lemma_dir_cases(b);
}

impl Dir {
    /// Index of the axis the direction lies on: 0 for x, 1 for y, 2 for z.
    pub open spec fn axis(self) -> int {
        match self {
            Dir::PosX | Dir::NegX => 0,
            Dir::PosY | Dir::NegY => 1,
            Dir::PosZ | Dir::NegZ => 2,
        }
    }

    pub open spec fn is_positive(self) -> bool {
        self == Dir::PosX || self == Dir::PosY || self == Dir::PosZ
    }

    /// The direction as a unit vector.
    pub open spec fn vec(self) -> Coords {
        self.scaled(1)
    }

    /// The vector `c` times this direction.
    pub open spec fn scaled(self, c: int) -> Coords {
        match self {
            Dir::PosX => (c, 0, 0),
            Dir::NegX => (-c, 0, 0),
            Dir::PosY => (0, c, 0),
            Dir::NegY => (0, -c, 0),
            Dir::PosZ => (0, 0, c),
            Dir::NegZ => (0, 0, -c),
        }
    }

    pub open spec fn negated(self) -> Dir {
        match self {
            Dir::PosX => Dir::NegX,
            Dir::NegX => Dir::PosX,
            Dir::PosY => Dir::NegY,
            Dir::NegY => Dir::PosY,
            Dir::PosZ => Dir::NegZ,
            Dir::NegZ => Dir::PosZ,
        }
    }

    /// The positive direction on the given axis.
    pub open spec fn positive_on(axis: int) -> Dir {
        if axis == 0 {
            Dir::PosX
        } else if axis == 1 {
            Dir::PosY
        } else {
            Dir::PosZ
        }
    }

    /// Cross product of two directions on different axes.
    pub open spec fn cross_spec(self, o: Dir) -> Dir {
        let third = Dir::positive_on(3 - self.axis() - o.axis());
        let cyclic = (o.axis() - self.axis() == 1 || o.axis() - self.axis() == -2);
        if cyclic == (self.is_positive() == o.is_positive()) {
            third
        } else {
            third.negated()
        }
    }

    pub fn axis_index(self) -> (r: u8)
        ensures
            r as int == self.axis(),
    {
        match self {
            Dir::PosX | Dir::NegX => 0,
            Dir::PosY | Dir::NegY => 1,
            Dir::PosZ | Dir::NegZ => 2,
        }
    }

    pub fn neg(self) -> (r: Dir)
        ensures
            r == self.negated(),
            r.vec() == neg3(self.vec()),
    {
        match self {
            Dir::PosX => Dir::NegX,
            Dir::NegX => Dir::PosX,
            Dir::PosY => Dir::NegY,
            Dir::NegY => Dir::PosY,
            Dir::PosZ => Dir::NegZ,
            Dir::NegZ => Dir::PosZ,
        }
    }

    /// Cross product; the two directions must not be parallel.
    pub fn cross(self, o: Dir) -> (r: Dir)
        requires
            self.axis() != o.axis(),
        ensures
            r == self.cross_spec(o),
            r.vec() == cross3(self.vec(), o.vec()),
    {
        proof {
            lemma_dir_products(self, o);
        }
        let third = if self.axis_index() != 0 && o.axis_index() != 0 {
            Dir::PosX
        } else if self.axis_index() != 1 && o.axis_index() != 1 {
            Dir::PosY
        } else {
            Dir::PosZ
        };
        let a = self.axis_index();
        let b = o.axis_index();
        let cyclic = (a == 0 && b == 1) || (a == 1 && b == 2) || (a == 2 && b == 0);
        let same_sign = self.is_pos() == o.is_pos();
        if cyclic == same_sign {
            third
        } else {
            third.neg()
        }
    }

    pub fn is_pos(self) -> (r: bool)
        ensures
            r == self.is_positive(),
    {
        match self {
            Dir::PosX | Dir::PosY | Dir::PosZ => true,
            _ => false,
        }
    }

    /// Dot product of the two unit vectors: 1, -1 or 0.
    pub fn dot(self, o: Dir) -> (r: i64)
        ensures
            r as int == dot3(self.vec(), o.vec()),
    {
        proof {
            lemma_dir_products(self, o);
        }
        if self == o {
            1
        } else if self == o.neg() {
            -1
        } else {
            0
        }
    }

    /// The signed coordinate `c` along this direction's axis.
    pub fn signed(self, c: i64) -> (r: i64)
        requires
            coord_ok(c as int),
        ensures
            r as int == (if self.is_positive() { c as int } else { -c }),
            coord_ok(r as int),
    {
        if self.is_pos() {
            c
        } else {
            -c
        }
    }
}

/// A point, or an offset between points, on the integer lattice.
#[derive(Clone, Copy, Debug, PartialEq, Eq, Structural)]
pub struct Point3 {
    pub x: i64,
    pub y: i64,
    pub z: i64,
}

impl View for Point3 {
    type V = Coords;

    open spec fn view(&self) -> Coords {
        (self.x as int, self.y as int, self.z as int)
    }
}

impl Point3 {
    pub open spec fn in_range(self) -> bool {
        coords_ok(self@)
    }

    pub fn new(x: i64, y: i64, z: i64) -> (r: Point3)
        ensures
            r@ == (x as int, y as int, z as int),
    {
        Point3 { x, y, z }
    }

    pub fn origin() -> (r: Point3)
        ensures
            r@ == (0int, 0int, 0int),
            r.in_range(),
    {
        Point3 { x: 0, y: 0, z: 0 }
    }

    pub fn add(self, o: Point3) -> (r: Point3)
        requires
            coords_ok(add3(self@, o@)),
        ensures
            r@ == add3(self@, o@),
            r.in_range(),
    {
        Point3 { x: self.x + o.x, y: self.y + o.y, z: self.z + o.z }
    }

    pub fn neg(self) -> (r: Point3)
        requires
            self.in_range(),
        ensures
            r@ == neg3(self@),
            r.in_range(),
    {
        Point3 { x: -self.x, y: -self.y, z: -self.z }
    }
}

} // verus!
