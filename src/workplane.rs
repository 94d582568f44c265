use vstd::prelude::*;

use crate::edge::{chain_ends_at, chained, collinear, lemma_chain_extend, links, Edge, Wire};
use crate::error::Error;
use crate::geom::{
    add3, coord_ok, coords_ok, cross3, dot3, lemma_dir_products, Coords, Dir, Point3,
};
use crate::plane::{lemma_plane_canonical, Plane};
use crate::rotation::Rotation;
use crate::transform::{lemma_apply_origin, lemma_round_trip, lemma_round_trip_back, TandR};

verus! {

/// The lattice point with the given coordinates.
pub open spec fn point_of(c: Coords) -> Point3 {
    Point3 { x: c.0 as i64, y: c.1 as i64, z: c.2 as i64 }
}

/// A drawing frame placed in space: an origin, two in-plane axes and a
/// normal, all held in one rigid transform from local to world coordinates.
#[derive(Clone, Copy, Debug, PartialEq, Eq, Structural)]
pub struct Workplane {
    transform: TandR,
}

impl Workplane {
    /// The transform from local to world coordinates.
    pub closed spec fn frame(self) -> TandR {
        self.transform
    }

    pub open spec fn wf(self) -> bool {
        self.frame().wf() && !self.frame().inverse
    }

    /// The world position of a local point.
    pub open spec fn world(self, p: Coords) -> Coords {
        self.frame().apply_spec(p)
    }

    /// The local position of a world point.
    pub open spec fn local(self, p: Coords) -> Coords {
        self.frame().inverse_spec().apply_spec(p)
    }

    pub open spec fn normal_spec(self) -> Dir {
        self.frame().rotation.map_dir(Dir::PosZ)
    }

    pub open spec fn x_dir_spec(self) -> Dir {
        self.frame().rotation.map_dir(Dir::PosX)
    }

    pub open spec fn y_dir_spec(self) -> Dir {
        self.frame().rotation.map_dir(Dir::PosY)
    }

    fn of_plane(plane: Plane) -> (r: Workplane)
        requires
            plane.wf(),
        ensures
            r.frame() == plane.transform_spec(),
            r.wf(),
    {
        proof {
            lemma_plane_canonical(plane);
        }
        Workplane { transform: plane.transform() }
    }

    /// The workplane whose x axis is `x_dir` and whose normal is
    /// `normal_dir`, at the world origin.
    pub fn new(x_dir: Dir, normal_dir: Dir) -> (r: Workplane)
        requires
            x_dir.axis() != normal_dir.axis(),
        ensures
            r.frame() == (Plane::Custom { x_dir, normal_dir }).transform_spec(),
            r.wf(),
    {
        Workplane::of_plane(Plane::Custom { x_dir, normal_dir })
    }

    pub fn xy() -> (r: Workplane)
        ensures
            r.frame() == Plane::XY.transform_spec(),
            r.wf(),
    {
        Workplane::of_plane(Plane::XY)
    }

    pub fn yz() -> (r: Workplane)
        ensures
            r.frame() == Plane::YZ.transform_spec(),
            r.wf(),
    {
        Workplane::of_plane(Plane::YZ)
    }

    pub fn zx() -> (r: Workplane)
        ensures
            r.frame() == Plane::ZX.transform_spec(),
            r.wf(),
    {
        Workplane::of_plane(Plane::ZX)
    }

    pub fn xz() -> (r: Workplane)
        ensures
            r.frame() == Plane::XZ.transform_spec(),
            r.wf(),
    {
        Workplane::of_plane(Plane::XZ)
    }

    pub fn zy() -> (r: Workplane)
        ensures
            r.frame() == Plane::ZY.transform_spec(),
            r.wf(),
    {
        Workplane::of_plane(Plane::ZY)
    }

    pub fn yx() -> (r: Workplane)
        ensures
            r.frame() == Plane::YX.transform_spec(),
            r.wf(),
    {
        Workplane::of_plane(Plane::YX)
    }

    pub fn origin(&self) -> (r: Point3)
        ensures
            r == self.frame().translation,
    {
        self.transform.translation
    }

    pub fn normal(&self) -> (r: Dir)
        ensures
            r == self.normal_spec(),
    {
        self.transform.rotation.map(Dir::PosZ)
    }

    pub fn x_dir(&self) -> (r: Dir)
        ensures
            r == self.x_dir_spec(),
    {
        self.transform.rotation.map(Dir::PosX)
    }

    pub fn y_dir(&self) -> (r: Dir)
        ensures
            r == self.y_dir_spec(),
    {
        self.transform.rotation.map(Dir::PosY)
    }

    /// Replaces the rotation.
    pub fn set_rotation(&mut self, rotation: Rotation)
        requires
            old(self).wf(),
            rotation.wf(),
        ensures
            final(self).frame() == (TandR { rotation, ..old(self).frame() }),
            final(self).wf(),
    {
        self.transform.rotation = rotation;
    }

    /// Rotates the frame by `rotation`, in world coordinates: the new rotation
    /// is `rotation` after the old one.
    pub fn rotate_by(&mut self, rotation: Rotation)
        requires
            old(self).wf(),
            rotation.wf(),
        ensures
            final(self).frame() == (TandR {
                rotation: rotation.compose_spec(old(self).frame().rotation),
                ..old(self).frame()
            }),
            final(self).wf(),
    {
        self.transform.rotation = rotation.compose(&self.transform.rotation);
    }

    /// Moves the origin to `pos`.
    pub fn set_translation(&mut self, pos: Point3)
        requires
            old(self).wf(),
            pos.in_range(),
        ensures
            final(self).frame() == (TandR { translation: pos, ..old(self).frame() }),
            final(self).wf(),
    {
        self.transform.translation = pos;
    }

    /// Moves the origin by `offset`, a world-space offset.
    pub fn translate_by(&mut self, offset: Point3)
        requires
            old(self).wf(),
            coords_ok(add3(old(self).frame().translation@, offset@)),
        ensures
            final(self).frame().translation@ == add3(old(self).frame().translation@, offset@),
            final(self).frame().rotation == old(self).frame().rotation,
            final(self).wf(),
    {
        self.transform.translation = self.transform.translation.add(offset);
    }

    /// A copy moved by the translation of `tandr` and then rotated by its
    /// rotation, both in world coordinates.
    pub fn transformed(&self, tandr: TandR) -> (r: Workplane)
        requires
            self.wf(),
            tandr.wf(),
            coords_ok(add3(self.frame().translation@, tandr.translation@)),
        ensures
            r.frame().translation@ == add3(self.frame().translation@, tandr.translation@),
            r.frame().rotation == tandr.rotation.compose_spec(self.frame().rotation),
            r.wf(),
    {
        let mut new = *self;
        new.translate_by(tandr.translation);
        new.rotate_by(tandr.rotation);
        new
    }

    /// A copy whose origin is the world position of the local point `offset`.
    pub fn translated(&self, offset: Point3) -> (r: Workplane)
        requires
            self.wf(),
            offset.in_range(),
            coords_ok(self.world(offset@)),
        ensures
            r.frame().translation@ == self.world(offset@),
            r.frame().rotation == self.frame().rotation,
            r.wf(),
    {
        let mut new = *self;
        let new_origin = new.to_world_pos(offset);
        new.transform.translation = new_origin;
        new
    }

    /// A copy rotated by `rotation` in world coordinates.
    pub fn rotated(&self, rotation: Rotation) -> (r: Workplane)
        requires
            self.wf(),
            rotation.wf(),
        ensures
            r.frame() == (TandR {
                rotation: rotation.compose_spec(self.frame().rotation),
                ..self.frame()
            }),
            r.wf(),
    {
        let mut new = *self;
        new.rotate_by(rotation);
        new
    }

    pub fn to_world_pos(&self, pos: Point3) -> (r: Point3)
        requires
            self.wf(),
            pos.in_range(),
            coords_ok(self.world(pos@)),
        ensures
            r@ == self.world(pos@),
            r.in_range(),
    {
        self.transform.transform_point(pos)
    }

    pub fn to_local_pos(&self, pos: Point3) -> (r: Point3)
        requires
            self.wf(),
            pos.in_range(),
            coords_ok(self.local(pos@)),
        ensures
            r@ == self.local(pos@),
            r.in_range(),
    {
        let inv = self.transform.inverse();
        inv.transform_point(pos)
    }

    /// The world position of the local point `(x, y)` of the plane.
    fn planar(&self, x: i64, y: i64) -> (r: Point3)
        requires
            self.wf(),
            coord_ok(x as int),
            coord_ok(y as int),
            coords_ok(self.world((x as int, y as int, 0))),
        ensures
            r == point_of(self.world((x as int, y as int, 0))),
            r.in_range(),
    {
        self.to_world_pos(Point3 { x, y, z: 0 })
    }

    /// The closed rectangle `width` by `height` centred on the origin: its
    /// top, right, bottom and left sides, in that order, starting at the
    /// top-left corner. The sizes are even, so that the corners lie on the
    /// lattice.
    pub fn rect(&self, width: i64, height: i64) -> (r: Wire)
        requires
            self.wf(),
            width % 2 == 0,
            height % 2 == 0,
            forall|i: int|
                0 <= i < 4 ==> coords_ok(
                    #[trigger] self.world(rect_corner(width as int, height as int, i)),
                ),
        ensures
            ({
                let c = |i: int| point_of(self.world(rect_corner(width as int, height as int, i)));
                r@ == seq![
                    Edge::Segment { start: c(0), end: c(1) },
                    Edge::Segment { start: c(1), end: c(2) },
                    Edge::Segment { start: c(2), end: c(3) },
                    Edge::Segment { start: c(3), end: c(0) },
                ]
            }),
            r.closed_spec(),
    {
        let half_width = width / 2;
        let half_height = height / 2;
        proof {
            let w = width as int;
            let h = height as int;
            assert(coords_ok(self.world(rect_corner(w, h, 0))));
            assert(coords_ok(self.world(rect_corner(w, h, 1))));
            assert(coords_ok(self.world(rect_corner(w, h, 2))));
            assert(coords_ok(self.world(rect_corner(w, h, 3))));
        }
        let p1 = self.planar(-half_width, half_height);
        let p2 = self.planar(half_width, half_height);
        let p3 = self.planar(half_width, -half_height);
        let p4 = self.planar(-half_width, -half_height);
        let mut edges: Vec<Edge> = Vec::new();
        edges.push(Edge::segment(p1, p2));
        edges.push(Edge::segment(p2, p3));
        edges.push(Edge::segment(p3, p4));
        edges.push(Edge::segment(p4, p1));
        assert(chained(edges@)) by {
            assert forall|i: int| 0 <= i < edges@.len() - 1 implies links(
                #[trigger] edges@[i],
                edges@[i + 1],
            ) by {
                assert(i == 0 || i == 1 || i == 2);
            }
        }
        let r = Wire::from_chain(edges);
        assert(r@ =~= seq![
            Edge::Segment { start: p1, end: p2 },
            Edge::Segment { start: p2, end: p3 },
            Edge::Segment { start: p3, end: p4 },
            Edge::Segment { start: p4, end: p1 },
        ]);
        r
    }

    /// A circle of `radius` about the local point `(x, y)`, in the plane of
    /// the workplane.
    pub fn circle(&self, x: i64, y: i64, radius: u64) -> (r: Wire)
        requires
            self.wf(),
            coord_ok(x as int),
            coord_ok(y as int),
            coords_ok(self.world((x as int, y as int, 0))),
        ensures
            r@ == seq![
                Edge::Circle {
                    center: point_of(self.world((x as int, y as int, 0))),
                    normal: self.normal_spec(),
                    radius,
                },
            ],
            r.closed_spec(),
    {
        let center = self.planar(x, y);
        let circle = Edge::circle(center, self.normal(), radius);
        let mut edges: Vec<Edge> = Vec::new();
        edges.push(circle);
        let r = Wire::from_chain(edges);
        assert(r@ =~= seq![circle]);
        r
    }

    /// A sketch on this workplane, its cursor at the workplane's origin.
    pub fn sketch(&self) -> (r: Sketch)
        requires
            self.wf(),
        ensures
            r.cursor_spec() == self.frame().translation,
            r.workplane_spec() == *self,
            r.edges_spec() == Seq::<Edge>::empty(),
            r.first_point_spec() == None::<Point3>,
            r.wf(),
    {
        proof {
            lemma_apply_origin(self.frame().rotation);
            lemma_round_trip(self.frame(), (0, 0, 0));
        }
        let cursor = self.to_world_pos(Point3::origin());
        Sketch::new(cursor, *self)
    }
}

/// The corners of the rectangle `w` by `h` centred on the origin, clockwise
/// from the top-left one.
pub open spec fn rect_corner(w: int, h: int, i: int) -> Coords {
    if i == 0 {
        (-(w / 2), h / 2, 0)
    } else if i == 1 {
        (w / 2, h / 2, 0)
    } else if i == 2 {
        (w / 2, -(h / 2), 0)
    } else {
        (-(w / 2), -(h / 2), 0)
    }
}

/// The three canonical directions of any workplane are orthonormal and form
/// a right-handed frame.
pub proof fn lemma_frame_orthonormal(w: Workplane)
    requires
        w.wf(),
    ensures
        dot3(w.x_dir_spec().vec(), w.y_dir_spec().vec()) == 0,
        dot3(w.x_dir_spec().vec(), w.normal_spec().vec()) == 0,
        dot3(w.y_dir_spec().vec(), w.normal_spec().vec()) == 0,
        dot3(w.x_dir_spec().vec(), w.x_dir_spec().vec()) == 1,
        dot3(w.y_dir_spec().vec(), w.y_dir_spec().vec()) == 1,
        dot3(w.normal_spec().vec(), w.normal_spec().vec()) == 1,
        cross3(w.x_dir_spec().vec(), w.y_dir_spec().vec()) == w.normal_spec().vec(),
{
    let r = w.frame().rotation;
    lemma_dir_products(r.x, r.y);
    lemma_dir_products(r.x, r.z);
    lemma_dir_products(r.y, r.z);
    lemma_dir_products(r.x, r.x);
    lemma_dir_products(r.y, r.y);
    lemma_dir_products(r.z, r.z);
    crate::geom::lemma_dir_vec(r.x);
    crate::geom::lemma_dir_vec(r.y);
    crate::geom::lemma_dir_vec(r.z);
}

/// Converting a local point to world coordinates and back gives the point
/// again, and so does converting a world point to local coordinates and back.
pub proof fn lemma_local_world(w: Workplane, p: Coords)
    requires
        w.wf(),
    ensures
        w.local(w.world(p)) == p,
        w.world(w.local(p)) == p,
{
    lemma_round_trip(w.frame(), p);
    lemma_round_trip_back(w.frame(), p);
}

/// Drawing an edge that starts at the cursor keeps a chained sketch chained:
/// the new edge starts where the previous last edge ended, and the cursor is
/// at its end. So any run of lines, relative lines and arcs from the cursor
/// yields edges that each end where the next one starts.
pub proof fn lemma_drawn_keeps_chain(s: Sketch, r: Sketch, e: Edge)
    requires
        s.chained(),
        s.drawn(r, e),
        e.is_open(),
        e.start_spec() == s.cursor_spec(),
    ensures
        r.chained(),
        s.edges_spec().len() > 0 ==> links(s.edges_spec().last(), e),
        r.edges_spec().last() == e,
{
    lemma_chain_extend(s.edges_spec(), s.cursor_spec(), e);
}

/// A builder of profiles on a workplane: a cursor, held in world coordinates
/// and moved in the plane's local ones, and the edges drawn so far.
pub struct Sketch {
    first_point: Option<Point3>,
    cursor: Point3,
    workplane: Workplane,
    edges: Vec<Edge>,
}

impl Sketch {
    pub closed spec fn cursor_spec(&self) -> Point3 {
        self.cursor
    }

    pub closed spec fn first_point_spec(&self) -> Option<Point3> {
        self.first_point
    }

    pub closed spec fn workplane_spec(&self) -> Workplane {
        self.workplane
    }

    pub closed spec fn edges_spec(&self) -> Seq<Edge> {
        self.edges@
    }

    /// The cursor in the workplane's local coordinates.
    pub open spec fn local_cursor(&self) -> Coords {
        self.workplane_spec().local(self.cursor_spec()@)
    }

    /// The workplane is sound, the cursor lies in its plane, every edge has
    /// two ends, and the first point is where the first edge starts.
    pub open spec fn wf(&self) -> bool {
        &&& self.workplane_spec().wf()
        &&& self.cursor_spec().in_range()
        &&& self.local_cursor().2 == 0
        &&& forall|i: int|
            0 <= i < self.edges_spec().len() ==> (#[trigger] self.edges_spec()[i]).is_open()
        &&& self.first_point_spec() == if self.edges_spec().len() == 0 {
            None
        } else {
            Some(self.edges_spec()[0].start_spec())
        }
    }

    /// Every edge starts where the one before it ends, and the cursor is
    /// where the last one ends.
    pub open spec fn chained(&self) -> bool {
        chain_ends_at(self.edges_spec(), self.cursor_spec())
    }

    /// `r` is this sketch with the edge `e` drawn: the edge appended, the
    /// cursor at its end, and the first point latched if it was unset.
    pub open spec fn drawn(&self, r: Sketch, e: Edge) -> bool {
        &&& r.edges_spec() == self.edges_spec().push(e)
        &&& r.cursor_spec() == e.end_spec()
        &&& r.workplane_spec() == self.workplane_spec()
        &&& r.first_point_spec() == if self.first_point_spec() is None {
            Some(e.start_spec())
        } else {
            self.first_point_spec()
        }
    }

    /// The world point of the local point `(x, y)`.
    pub open spec fn at(&self, x: int, y: int) -> Point3 {
        point_of(self.workplane_spec().world((x, y, 0)))
    }

    /// The local point `(x, y)` has a world position in range.
    pub open spec fn reaches(&self, x: int, y: int) -> bool {
        coord_ok(x) && coord_ok(y) && coords_ok(self.workplane_spec().world((x, y, 0)))
    }

    fn new(cursor: Point3, workplane: Workplane) -> (r: Sketch)
        ensures
            r.cursor_spec() == cursor,
            r.workplane_spec() == workplane,
            r.edges_spec() == Seq::<Edge>::empty(),
            r.first_point_spec() == None::<Point3>,
    {
        Sketch { first_point: None, cursor, workplane, edges: Vec::new() }
    }

    /// Appends an edge and latches the first point if it is unset; the
    /// cursor stays where it is.
    fn add_edge(&mut self, edge: Edge)
        requires
            old(self).wf(),
            edge.is_open(),
        ensures
            final(self).edges_spec() == old(self).edges_spec().push(edge),
            final(self).first_point_spec() == if old(self).first_point_spec() is None {
                Some(edge.start_spec())
            } else {
                old(self).first_point_spec()
            },
            final(self).cursor_spec() == old(self).cursor_spec(),
            final(self).workplane_spec() == old(self).workplane_spec(),
            final(self).wf(),
            chain_ends_at(old(self).edges_spec(), edge.start_spec()) ==> chain_ends_at(
                final(self).edges_spec(),
                edge.end_spec(),
            ),
    {
        if self.first_point.is_none() {
            self.first_point = Some(edge.start_point());
        }
        proof {
            if chain_ends_at(self.edges@, edge.start_spec()) {
                lemma_chain_extend(self.edges@, edge.start_spec(), edge);
            }
        }
        self.edges.push(edge);
        proof {
            assert forall|i: int| 0 <= i < self.edges@.len() implies (
            #[trigger] self.edges@[i]).is_open() by {
                if i < old(self).edges@.len() {
                    assert(self.edges@[i] == old(self).edges@[i]);
                }
            }
            if old(self).edges@.len() > 0 {
                assert(self.edges@[0] == old(self).edges@[0]);
            }
        }
    }

    /// The world point of the local point `(x, y)`, which lies in the plane.
    fn planar(&self, x: i64, y: i64) -> (r: Point3)
        requires
            self.wf(),
            self.reaches(x as int, y as int),
        ensures
            r == self.at(x as int, y as int),
            r.in_range(),
            self.workplane_spec().local(r@).2 == 0,
    {
        proof {
            lemma_local_world(self.workplane, (x as int, y as int, 0));
        }
        self.workplane.planar(x, y)
    }

    /// The cursor in local coordinates.
    fn cursor_local(&self) -> (r: Point3)
        requires
            self.wf(),
            coords_ok(self.local_cursor()),
        ensures
            r@ == self.local_cursor(),
            r.in_range(),
    {
        self.workplane.to_local_pos(self.cursor)
    }

    /// Moves the cursor to the local point `(x, y)` without drawing.
    pub fn move_to(self, x: i64, y: i64) -> (r: Sketch)
        requires
            self.wf(),
            self.reaches(x as int, y as int),
        ensures
            r.cursor_spec() == self.at(x as int, y as int),
            r.edges_spec() == self.edges_spec(),
            r.first_point_spec() == self.first_point_spec(),
            r.workplane_spec() == self.workplane_spec(),
            r.wf(),
    {
        let mut s = self;
        s.cursor = s.planar(x, y);
        s
    }

    /// Draws a segment from the cursor to the local point `(x, y)`.
    pub fn line_to(self, x: i64, y: i64) -> (r: Sketch)
        requires
            self.wf(),
            self.reaches(x as int, y as int),
        ensures
            self.drawn(
                r,
                Edge::Segment { start: self.cursor_spec(), end: self.at(x as int, y as int) },
            ),
            r.wf(),
            self.chained() ==> r.chained(),
    {
        let mut s = self;
        let new_point = s.planar(x, y);
        let new_edge = Edge::segment(s.cursor, new_point);
        s.cursor = new_point;
        s.add_edge(new_edge);
        s
    }

    /// Draws a segment from the cursor by `dx` along the local x axis.
    pub fn line_dx(self, dx: i64) -> (r: Sketch)
        requires
            self.wf(),
            coords_ok(self.local_cursor()),
            self.reaches(self.local_cursor().0 + dx, self.local_cursor().1),
        ensures
            self.drawn(
                r,
                Edge::Segment {
                    start: self.cursor_spec(),
                    end: self.at(self.local_cursor().0 + dx, self.local_cursor().1),
                },
            ),
            r.wf(),
            self.chained() ==> r.chained(),
    {
        let cursor = self.cursor_local();
        self.line_to(cursor.x + dx, cursor.y)
    }

    /// Draws a segment from the cursor by `dy` along the local y axis.
    pub fn line_dy(self, dy: i64) -> (r: Sketch)
        requires
            self.wf(),
            coords_ok(self.local_cursor()),
            self.reaches(self.local_cursor().0, self.local_cursor().1 + dy),
        ensures
            self.drawn(
                r,
                Edge::Segment {
                    start: self.cursor_spec(),
                    end: self.at(self.local_cursor().0, self.local_cursor().1 + dy),
                },
            ),
            r.wf(),
            self.chained() ==> r.chained(),
    {
        let cursor = self.cursor_local();
        self.line_to(cursor.x, cursor.y + dy)
    }

    /// Draws a segment from the cursor by `(dx, dy)` in local coordinates.
    pub fn line_dx_dy(self, dx: i64, dy: i64) -> (r: Sketch)
        requires
            self.wf(),
            coords_ok(self.local_cursor()),
            self.reaches(self.local_cursor().0 + dx, self.local_cursor().1 + dy),
        ensures
            self.drawn(
                r,
                Edge::Segment {
                    start: self.cursor_spec(),
                    end: self.at(self.local_cursor().0 + dx, self.local_cursor().1 + dy),
                },
            ),
            r.wf(),
            self.chained() ==> r.chained(),
    {
        let cursor = self.cursor_local();
        self.line_to(cursor.x + dx, cursor.y + dy)
    }

    /// Draws the arc that starts at local `p1`, passes through `p2` and ends
    /// at `p3`; the cursor moves to `p3`. Collinear points give no arc.
    pub fn arc(self, p1: (i64, i64), p2: (i64, i64), p3: (i64, i64)) -> (r: Result<
        Sketch,
        Error,
    >)
        requires
            self.wf(),
            self.reaches(p1.0 as int, p1.1 as int),
            self.reaches(p2.0 as int, p2.1 as int),
            self.reaches(p3.0 as int, p3.1 as int),
        ensures
            ({
                let w1 = self.at(p1.0 as int, p1.1 as int);
                let w2 = self.at(p2.0 as int, p2.1 as int);
                let w3 = self.at(p3.0 as int, p3.1 as int);
                &&& collinear(w1@, w2@, w3@) ==> r is Err && r->Err_0 == Error::CollinearArc
                &&& !collinear(w1@, w2@, w3@) ==> r is Ok && self.drawn(
                    r->Ok_0,
                    Edge::Arc { start: w1, mid: w2, end: w3 },
                ) && r->Ok_0.wf() && (self.chained() && w1 == self.cursor_spec()
                    ==> r->Ok_0.chained())
            }),
    {
        let mut s = self;
        let a = s.planar(p1.0, p1.1);
        let b = s.planar(p2.0, p2.1);
        let c = s.planar(p3.0, p3.1);
        match Edge::arc(a, b, c) {
            Ok(new_arc) => {
                s.cursor = c;
                s.add_edge(new_arc);
                Ok(s)
            },
            Err(e) => Err(e),
        }
    }

    /// Draws the arc from the cursor through local `p2` to local `p3`.
    pub fn three_point_arc(self, p2: (i64, i64), p3: (i64, i64)) -> (r: Result<Sketch, Error>)
        requires
            self.wf(),
            coords_ok(self.local_cursor()),
            self.reaches(p2.0 as int, p2.1 as int),
            self.reaches(p3.0 as int, p3.1 as int),
        ensures
            ({
                let w2 = self.at(p2.0 as int, p2.1 as int);
                let w3 = self.at(p3.0 as int, p3.1 as int);
                &&& collinear(self.cursor_spec()@, w2@, w3@) ==> r is Err && r->Err_0
                    == Error::CollinearArc
                &&& !collinear(self.cursor_spec()@, w2@, w3@) ==> r is Ok && self.drawn(
                    r->Ok_0,
                    Edge::Arc { start: self.cursor_spec(), mid: w2, end: w3 },
                ) && r->Ok_0.wf() && (self.chained() ==> r->Ok_0.chained())
            }),
    {
        let cursor = self.cursor_local();
        proof {
            lemma_local_world(self.workplane, self.cursor@);
        }
        self.arc((cursor.x, cursor.y), p2, p3)
    }

    /// Assembles the edges drawn so far into an open wire.
    pub fn wire(self) -> (r: Result<Wire, Error>)
        ensures
            self.edges_spec().len() == 0 ==> r == Err::<Wire, Error>(Error::NotEnoughPoints),
            self.edges_spec().len() > 0 && !chained(self.edges_spec()) ==> r == Err::<
                Wire,
                Error,
            >(Error::DisconnectedEdges),
            self.edges_spec().len() > 0 && chained(self.edges_spec()) ==> r is Ok && r->Ok_0@
                == self.edges_spec(),
            self.chained() && self.edges_spec().len() > 0 ==> r is Ok,
    {
        Wire::from_edges(self.edges)
    }

    /// Draws a segment from the cursor back to the first point and assembles
    /// the edges into a wire. A sketch with no edge has nothing to close.
    pub fn close(self) -> (r: Result<Wire, Error>)
        requires
            self.wf(),
        ensures
            self.edges_spec().len() == 0 ==> r == Err::<Wire, Error>(Error::NothingToClose),
            ({
                let closing = Edge::Segment {
                    start: self.cursor_spec(),
                    end: self.edges_spec()[0].start_spec(),
                };
                let all = self.edges_spec().push(closing);
                &&& self.edges_spec().len() > 0 && !chained(all) ==> r == Err::<Wire, Error>(
                    Error::DisconnectedEdges,
                )
                &&& self.edges_spec().len() > 0 && chained(all) ==> r is Ok && r->Ok_0@ == all
                &&& self.edges_spec().len() > 0 && self.chained() ==> r is Ok && r->Ok_0@ == all
                    && r->Ok_0.closed_spec()
            }),
    {
        let mut s = self;
        match s.first_point {
            None => Err(Error::NothingToClose),
            Some(start_point) => {
                let new_edge = Edge::segment(s.cursor, start_point);
                proof {
                    assert(s.edges@.push(new_edge)[0] == s.edges@[0]);
                }
                s.add_edge(new_edge);
                Wire::from_edges(s.edges)
            },
        }
    }
}

} // verus!
