use vstd::prelude::*;

use crate::error::Error;
use crate::geom::{cross3, Coords, Dir, Point3};

verus! {

/// A curve of the profile: a straight segment, a circular arc through three
/// points, or a full circle.
#[derive(Clone, Copy, Debug, PartialEq, Eq, Structural)]
pub enum Edge {
    Segment { start: Point3, end: Point3 },
    Arc { start: Point3, mid: Point3, end: Point3 },
    Circle { center: Point3, normal: Dir, radius: u64 },
}

pub open spec fn sub3(a: Coords, b: Coords) -> Coords {
    (a.0 - b.0, a.1 - b.1, a.2 - b.2)
}

/// The three points lie on one line (coincident points included).
pub open spec fn collinear(a: Coords, b: Coords, c: Coords) -> bool {
    cross3(sub3(b, a), sub3(c, a)) == (0int, 0int, 0int)
}

/// Each edge but the last ends where the next one starts; a closed curve
/// can only stand alone.
pub open spec fn chained(edges: Seq<Edge>) -> bool {
    forall|i: int| 0 <= i < edges.len() - 1 ==> links(#[trigger] edges[i], edges[i + 1])
}

/// `b` starts where `a` ends.
pub open spec fn links(a: Edge, b: Edge) -> bool {
    a.is_open() && b.is_open() && a.end_spec() == b.start_spec()
}

/// The edges are chained and, when there are any, the last ends at `p`.
pub open spec fn chain_ends_at(edges: Seq<Edge>, p: Point3) -> bool {
    chained(edges) && (edges.len() > 0 ==> edges.last().is_open() && edges.last().end_spec()
        == p)
}

/// A chain that ends at the start of an open edge stays a chain, and then
/// ends where the edge ends.
pub proof fn lemma_chain_extend(edges: Seq<Edge>, p: Point3, e: Edge)
    requires
        chain_ends_at(edges, p),
        e.is_open(),
        e.start_spec() == p,
    ensures
        chain_ends_at(edges.push(e), e.end_spec()),
{
    let s = edges.push(e);
    assert forall|i: int| 0 <= i < s.len() - 1 implies links(#[trigger] s[i], s[i + 1]) by {
        if i < edges.len() - 1 {
            assert(s[i] == edges[i] && s[i + 1] == edges[i + 1]);
        } else {
            assert(s[i] == edges.last() && s[i + 1] == e);
        }
    }
    assert(s.last() == e);
}

impl Edge {
    /// A segment or an arc, which has two ends; a circle has none.
    pub open spec fn is_open(self) -> bool {
        !(self is Circle)
    }

    pub open spec fn start_spec(self) -> Point3 {
        match self {
            Edge::Segment { start, .. } => start,
            Edge::Arc { start, .. } => start,
            Edge::Circle { center, .. } => center,
        }
    }

    pub open spec fn end_spec(self) -> Point3 {
        match self {
            Edge::Segment { end, .. } => end,
            Edge::Arc { end, .. } => end,
            Edge::Circle { center, .. } => center,
        }
    }

    /// The straight segment from `start` to `end`.
    pub fn segment(start: Point3, end: Point3) -> (r: Edge)
        ensures
            r == (Edge::Segment { start, end }),
    {
        Edge::Segment { start, end }
    }

    /// The circular arc that starts at `start`, passes through `mid` and ends
    /// at `end`; three collinear points give no arc.
    pub fn arc(start: Point3, mid: Point3, end: Point3) -> (r: Result<Edge, Error>)
        requires
            start.in_range(),
            mid.in_range(),
            end.in_range(),
        ensures
            collinear(start@, mid@, end@) ==> r == Err::<Edge, Error>(Error::CollinearArc),
            !collinear(start@, mid@, end@) ==> r == Ok::<Edge, Error>(
                Edge::Arc { start, mid, end },
            ),
    {
        if is_collinear(start, mid, end) {
            Err(Error::CollinearArc)
        } else {
            Ok(Edge::Arc { start, mid, end })
        }
    }

    /// The full circle about `center` in the plane normal to `normal`.
    pub fn circle(center: Point3, normal: Dir, radius: u64) -> (r: Edge)
        ensures
            r == (Edge::Circle { center, normal, radius }),
    {
        Edge::Circle { center, normal, radius }
    }

    /// Where a segment or an arc starts.
    pub fn start_point(&self) -> (r: Point3)
        requires
            self.is_open(),
        ensures
            r == self.start_spec(),
    {
        match self {
            Edge::Segment { start, .. } => *start,
            Edge::Arc { start, .. } => *start,
            Edge::Circle { center, .. } => *center,
        }
    }

    /// Where a segment or an arc ends.
    pub fn end_point(&self) -> (r: Point3)
        requires
            self.is_open(),
        ensures
            r == self.end_spec(),
    {
        match self {
            Edge::Segment { end, .. } => *end,
            Edge::Arc { end, .. } => *end,
            Edge::Circle { center, .. } => *center,
        }
    }
}

pub open spec fn small(a: int) -> bool {
    -0x1_0000_0000_0000_0000 < a < 0x1_0000_0000_0000_0000
}

pub open spec fn abs(a: int) -> int {
    if a < 0 {
        -a
    } else {
        a
    }
}

pub open spec fn sign(a: int) -> int {
    if a < 0 {
        -1
    } else if a == 0 {
        0
    } else {
        1
    }
}

proof fn lemma_sign_abs(a: int, b: int)
    ensures
        a * b == sign(a) * sign(b) * (abs(a) * abs(b)),
        abs(a) * abs(b) >= 0,
        (abs(a) * abs(b) == 0) == (sign(a) * sign(b) == 0),
{
    let sa = sign(a);
    let sb = sign(b);
    let ma = abs(a);
    let mb = abs(b);
    assert(a == sa * ma && b == sb * mb);
    assert(a * b == sa * sb * (ma * mb)) by (nonlinear_arith)
        requires
            a == sa * ma,
            b == sb * mb,
    ;
    if a == 0 || b == 0 {
        assert(a * b == 0 && abs(a) * abs(b) == 0) by (nonlinear_arith)
            requires
                a == 0 || b == 0,
                abs(a) == 0 || abs(b) == 0,
        ;
    } else {
        assert(abs(a) * abs(b) > 0) by (nonlinear_arith)
            requires
                abs(a) > 0,
                abs(b) > 0,
        ;
        if a < 0 && b < 0 {
            assert(a * b == (-a) * (-b)) by (nonlinear_arith);
        } else if a < 0 {
            assert(a * b == -((-a) * b)) by (nonlinear_arith);
        } else if b < 0 {
            assert(a * b == -(a * (-b))) by (nonlinear_arith);
        }
    }
}

/// Whether `a * b == c * d`, for factors below 2^64 in magnitude; the
/// products are compared by sign and by magnitude, which fits in 128 bits.
fn products_equal(a: i128, b: i128, c: i128, d: i128) -> (r: bool)
    requires
        small(a as int),
        small(b as int),
        small(c as int),
        small(d as int),
    ensures
        r == (a * b == c * d),
{
    let sa: i8 = if a < 0 { -1 } else if a == 0 { 0 } else { 1 };
    let sb: i8 = if b < 0 { -1 } else if b == 0 { 0 } else { 1 };
    let sc: i8 = if c < 0 { -1 } else if c == 0 { 0 } else { 1 };
    let sd: i8 = if d < 0 { -1 } else if d == 0 { 0 } else { 1 };
    let ma: u128 = if a < 0 { (-a) as u128 } else { a as u128 };
    let mb: u128 = if b < 0 { (-b) as u128 } else { b as u128 };
    let mc: u128 = if c < 0 { (-c) as u128 } else { c as u128 };
    let md: u128 = if d < 0 { (-d) as u128 } else { d as u128 };
    proof {
        assert(ma * mb <= 0xffff_ffff_ffff_ffff * 0xffff_ffff_ffff_ffffu128) by (nonlinear_arith)
            requires
                ma <= 0xffff_ffff_ffff_ffff,
                mb <= 0xffff_ffff_ffff_ffff,
        ;
        assert(mc * md <= 0xffff_ffff_ffff_ffff * 0xffff_ffff_ffff_ffffu128) by (nonlinear_arith)
            requires
                mc <= 0xffff_ffff_ffff_ffff,
                md <= 0xffff_ffff_ffff_ffff,
        ;
        assert(sa as int == sign(a as int) && sb as int == sign(b as int));
        assert(sc as int == sign(c as int) && sd as int == sign(d as int));
        assert(ma as int == abs(a as int) && mb as int == abs(b as int));
        assert(mc as int == abs(c as int) && md as int == abs(d as int));
        lemma_sign_abs(a as int, b as int);
        lemma_sign_abs(c as int, d as int);
        let pab = abs(a as int) * abs(b as int);
        let pcd = abs(c as int) * abs(d as int);
        let s1 = sign(a as int) * sign(b as int);
        let s2 = sign(c as int) * sign(d as int);
        assert(s1 == -1 || s1 == 0 || s1 == 1);
        assert(s2 == -1 || s2 == 0 || s2 == 1);
        assert((s1 * pab == s2 * pcd) == (s1 == s2 && pab == pcd)) by (nonlinear_arith)
            requires
                s1 == -1 || s1 == 0 || s1 == 1,
                s2 == -1 || s2 == 0 || s2 == 1,
                pab >= 0,
                pcd >= 0,
                (pab == 0) == (s1 == 0),
                (pcd == 0) == (s2 == 0),
        ;
    }
    sa * sb == sc * sd && ma * mb == mc * md
}

/// Whether three points lie on one line.
pub fn is_collinear(a: Point3, b: Point3, c: Point3) -> (r: bool)
    requires
        a.in_range(),
        b.in_range(),
        c.in_range(),
    ensures
        r == collinear(a@, b@, c@),
{
    let ux = b.x as i128 - a.x as i128;
    let uy = b.y as i128 - a.y as i128;
    let uz = b.z as i128 - a.z as i128;
    let vx = c.x as i128 - a.x as i128;
    let vy = c.y as i128 - a.y as i128;
    let vz = c.z as i128 - a.z as i128;
    products_equal(uy, vz, uz, vy) && products_equal(uz, vx, ux, vz) && products_equal(
        ux,
        vy,
        uy,
        vx,
    )
}

/// An ordered, connected sequence of edges.
pub struct Wire {
    edges: Vec<Edge>,
}

impl View for Wire {
    type V = Seq<Edge>;

    closed spec fn view(&self) -> Seq<Edge> {
        self.edges@
    }
}

impl Wire {
    /// The wire closes on itself: a lone circle, or a chain whose last edge
    /// ends where the first starts.
    pub open spec fn closed_spec(self) -> bool {
        let e = self@;
        e.len() > 0 && (e.len() == 1 && e[0] is Circle || e[0].is_open() && e.last().is_open()
            && e.last().end_spec() == e[0].start_spec())
    }

    /// Assembles edges into a wire; they must be chained, and there must be
    /// at least one.
    pub fn from_edges(edges: Vec<Edge>) -> (r: Result<Wire, Error>)
        ensures
            edges@.len() == 0 ==> r == Err::<Wire, Error>(Error::NotEnoughPoints),
            edges@.len() > 0 && !chained(edges@) ==> r == Err::<Wire, Error>(
                Error::DisconnectedEdges,
            ),
            edges@.len() > 0 && chained(edges@) ==> r is Ok && r->Ok_0@ == edges@,
    {
        if edges.len() == 0 {
            return Err(Error::NotEnoughPoints);
        }
        let n = edges.len();
        let mut i: usize = 0;
        while i + 1 < n
            invariant
                n == edges@.len(),
                n > 0,
                i < n,
                forall|j: int| 0 <= j < i ==> links(#[trigger] edges@[j], edges@[j + 1]),
            decreases n - i,
        {
            let a = &edges[i];
            let b = &edges[i + 1];
            if !a.open() || !b.open() || a.end_point() != b.start_point() {
                return Err(Error::DisconnectedEdges);
            }
            assert(links(edges@[i as int], edges@[i + 1]));
            i = i + 1;
        }
        Ok(Wire { edges })
    }

    /// Assembles edges already known to be chained.
    pub(crate) fn from_chain(edges: Vec<Edge>) -> (r: Wire)
        requires
            chained(edges@),
        ensures
            r@ == edges@,
    {
        Wire { edges }
    }

    /// The edges, in order.
    pub fn edges(&self) -> (r: &Vec<Edge>)
        ensures
            r@ == self@,
    {
        &self.edges
    }

    pub fn is_closed(&self) -> (r: bool)
        ensures
            r == self.closed_spec(),
    {
        let n = self.edges.len();
        if n == 0 {
            return false;
        }
        let first = &self.edges[0];
        let last = &self.edges[n - 1];
        if n == 1 && !first.open() {
            return true;
        }
        first.open() && last.open() && last.end_point() == first.start_point()
    }
}

impl Edge {
    /// Whether the edge has two ends.
    pub fn open(&self) -> (r: bool)
        ensures
            r == self.is_open(),
    {
        match self {
            Edge::Circle { .. } => false,
            _ => true,
        }
    }
}

} // verus!
