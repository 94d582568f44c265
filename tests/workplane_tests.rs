use opencascade::{Dir, Edge, Error, Point3, Rotation, TandR, Wire, Workplane};

fn all_workplanes() -> Vec<Workplane> {
    vec![
        Workplane::xy(),
        Workplane::yz(),
        Workplane::zx(),
        Workplane::xz(),
        Workplane::zy(),
        Workplane::yx(),
        Workplane::new(Dir::NegY, Dir::PosX),
    ]
}

fn seg(a: (i64, i64, i64), b: (i64, i64, i64)) -> Edge {
    Edge::segment(Point3::new(a.0, a.1, a.2), Point3::new(b.0, b.1, b.2))
}

fn assert_contiguous(w: &Wire) {
    let edges = w.edges();
    for i in 0..edges.len() - 1 {
        assert_eq!(edges[i].end_point(), edges[i + 1].start_point());
    }
}

#[test]
fn frames_are_orthonormal() {
    for w in all_workplanes() {
        assert_eq!(w.x_dir().dot(w.y_dir()), 0);
        assert_eq!(w.x_dir().dot(w.normal()), 0);
        assert_eq!(w.y_dir().dot(w.normal()), 0);
        assert_eq!(w.x_dir().dot(w.x_dir()), 1);
        assert_eq!(w.y_dir().dot(w.y_dir()), 1);
        assert_eq!(w.normal().dot(w.normal()), 1);
        assert_eq!(w.x_dir().cross(w.y_dir()), w.normal());
    }
}

#[test]
fn local_world_round_trip() {
    for w in all_workplanes() {
        let mut moved = w;
        moved.set_translation(Point3::new(7, -3, 11));
        let p = Point3::new(2, 5, -1);
        assert_eq!(moved.to_local_pos(moved.to_world_pos(p)), p);
        assert_eq!(moved.to_world_pos(moved.to_local_pos(p)), p);
    }
}

#[test]
fn rect_scenario() {
    let wire = Workplane::xy().rect(10, 4);
    let expected = vec![
        seg((-5, 2, 0), (5, 2, 0)),
        seg((5, 2, 0), (5, -2, 0)),
        seg((5, -2, 0), (-5, -2, 0)),
        seg((-5, -2, 0), (-5, 2, 0)),
    ];
    assert_eq!(wire.edges(), &expected);
    assert!(wire.is_closed());
    assert_contiguous(&wire);
}

#[test]
fn rect_on_yz_plane() {
    let wire = Workplane::yz().rect(2, 2);
    let first = wire.edges()[0];
    assert_eq!(first, seg((0, 1, 1), (0, 1, -1)));
}

#[test]
fn close_scenario() {
    let wire = Workplane::xy().sketch().move_to(0, 0).line_to(5, 0).line_to(5, 5).close().unwrap();
    let edges = wire.edges();
    assert_eq!(edges.len(), 3);
    assert_eq!(edges[2], seg((5, 5, 0), (0, 0, 0)));
    assert!(wire.is_closed());
}

#[test]
fn relative_move_scenario() {
    let wire = Workplane::xy().sketch().line_dx(3).line_dy(2).wire().unwrap();
    let edges = wire.edges();
    assert_eq!(edges.len(), 2);
    assert_eq!(edges[0], seg((0, 0, 0), (3, 0, 0)));
    assert_eq!(edges[1].end_point(), Point3::new(3, 2, 0));
}

#[test]
fn relative_move_on_turned_plane() {
    let mut plane = Workplane::zx();
    plane.set_translation(Point3::new(1, 1, 1));
    let wire = plane.sketch().line_dx(3).line_dy(2).line_dx_dy(-3, -2).close().unwrap();
    let edges = wire.edges();
    assert_eq!(edges.len(), 4);
    let local_end = plane.to_local_pos(edges[1].end_point());
    assert_eq!(local_end, Point3::new(3, 2, 0));
    assert_contiguous(&wire);
}

#[test]
fn circle_scenario() {
    let wire = Workplane::xy().circle(1, 2, 5);
    let edges = wire.edges();
    assert_eq!(edges.len(), 1);
    assert_eq!(
        edges[0],
        Edge::circle(Point3::new(1, 2, 0), Dir::PosZ, 5)
    );
    assert!(wire.is_closed());
}

#[test]
fn circle_follows_plane_normal() {
    let wire = Workplane::yz().circle(1, 0, 3);
    assert_eq!(wire.edges()[0], Edge::circle(Point3::new(0, 0, -1), Dir::PosX, 3));
}

#[test]
fn sketch_commands_stay_contiguous() {
    let wire = Workplane::xz()
        .sketch()
        .line_to(4, 0)
        .line_dy(3)
        .three_point_arc((2, 5), (0, 3))
        .unwrap()
        .line_dx(-1)
        .line_dx_dy(1, -3)
        .wire()
        .unwrap();
    assert_eq!(wire.edges().len(), 5);
    assert_contiguous(&wire);
}

#[test]
fn arc_from_cursor_chains() {
    let wire = Workplane::xy()
        .sketch()
        .line_to(2, 0)
        .arc((2, 0), (3, 1), (2, 2))
        .unwrap()
        .close()
        .unwrap();
    let edges = wire.edges();
    assert_eq!(
        edges[1],
        Edge::Arc {
            start: Point3::new(2, 0, 0),
            mid: Point3::new(3, 1, 0),
            end: Point3::new(2, 2, 0),
        }
    );
    assert_eq!(edges[2], seg((2, 2, 0), (0, 0, 0)));
}

#[test]
fn collinear_arc_is_rejected() {
    let r = Workplane::xy().sketch().arc((0, 0), (1, 1), (2, 2));
    assert!(matches!(r, Err(Error::CollinearArc)));
    let r = Workplane::xy().sketch().three_point_arc((0, 0), (1, 0));
    assert!(matches!(r, Err(Error::CollinearArc)));
}

#[test]
fn closing_empty_sketch_fails() {
    let r = Workplane::xy().sketch().move_to(3, 3).close();
    assert!(matches!(r, Err(Error::NothingToClose)));
}

#[test]
fn empty_wire_fails() {
    let r = Workplane::xy().sketch().wire();
    assert!(matches!(r, Err(Error::NotEnoughPoints)));
}

#[test]
fn move_between_lines_disconnects() {
    let r = Workplane::xy().sketch().line_to(1, 0).move_to(5, 5).line_to(6, 5).wire();
    assert!(matches!(r, Err(Error::DisconnectedEdges)));
}

#[test]
fn first_point_latches_on_first_edge() {
    let sketch = Workplane::xy().sketch().move_to(1, 1).move_to(2, 2);
    let wire = sketch.line_to(4, 2).line_to(4, 4).close().unwrap();
    assert_eq!(wire.edges()[2], seg((4, 4, 0), (2, 2, 0)));
}

#[test]
fn from_edges_checks_connection() {
    let ok = Wire::from_edges(vec![seg((0, 0, 0), (1, 0, 0)), seg((1, 0, 0), (1, 1, 0))]);
    assert!(ok.is_ok());
    assert!(!ok.unwrap().is_closed());
    let bad = Wire::from_edges(vec![seg((0, 0, 0), (1, 0, 0)), seg((2, 0, 0), (1, 1, 0))]);
    assert!(matches!(bad, Err(Error::DisconnectedEdges)));
    let circle_first = Wire::from_edges(vec![
        Edge::circle(Point3::new(0, 0, 0), Dir::PosZ, 1),
        seg((0, 0, 0), (1, 0, 0)),
    ]);
    assert!(matches!(circle_first, Err(Error::DisconnectedEdges)));
}

#[test]
fn arc_with_large_coordinates() {
    let big = i64::MAX;
    let straight = Edge::arc(Point3::new(-big, 0, 0), Point3::new(0, 0, 0), Point3::new(big, 0, 0));
    assert!(matches!(straight, Err(Error::CollinearArc)));
    let bent = Edge::arc(Point3::new(-big, 0, 0), Point3::new(0, big, 0), Point3::new(big, 0, 0));
    assert!(bent.is_ok());
    let coincident = Edge::arc(Point3::new(1, 1, 1), Point3::new(1, 1, 1), Point3::new(2, 3, 4));
    assert!(matches!(coincident, Err(Error::CollinearArc)));
}

#[test]
fn translate_by_differs_from_translated() {
    let mut raw = Workplane::yz();
    raw.translate_by(Point3::new(0, 0, 2));
    assert_eq!(raw.origin(), Point3::new(0, 0, 2));
    let local = Workplane::yz().translated(Point3::new(0, 0, 2));
    assert_eq!(local.origin(), Point3::new(2, 0, 0));
}

#[test]
fn rotate_by_applies_in_world_frame() {
    let mut w = Workplane::xy();
    w.rotate_by(Rotation::quarter_turn(Dir::PosX));
    assert_eq!(w.normal(), Dir::NegY);
    let r = Workplane::xy().rotated(Rotation::quarter_turn(Dir::PosX));
    assert_eq!(r.normal(), Dir::NegY);
    let mut s = Workplane::xy();
    s.set_rotation(Rotation::quarter_turn(Dir::PosX));
    assert_eq!(s.y_dir(), Dir::PosZ);
}

#[test]
fn transformed_moves_then_rotates() {
    let t = TandR::new(Point3::new(1, 2, 3), Rotation::quarter_turn(Dir::PosZ));
    let w = Workplane::xy().transformed(t);
    assert_eq!(w.origin(), Point3::new(1, 2, 3));
    assert_eq!(w.x_dir(), Dir::PosY);
    assert_eq!(w.normal(), Dir::PosZ);
}

#[test]
fn sketch_starts_at_origin() {
    let mut w = Workplane::zy();
    w.set_translation(Point3::new(4, 5, 6));
    let wire = w.sketch().line_to(0, 1).wire().unwrap();
    assert_eq!(wire.edges()[0].start_point(), Point3::new(4, 5, 6));
}
