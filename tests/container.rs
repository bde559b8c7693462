use curve_snap::construction::Geometry;
use curve_snap::container::{GeometryContainer, ReferenceError};
use curve_snap::curve::{Point, Way};
use curve_snap::snap::{Snap, SnapHit};
use lyon_geom::QuadraticBezierSegment;

fn segment(way: &Way<f64>) -> QuadraticBezierSegment<f64> {
    QuadraticBezierSegment {
        from: lyon_geom::point(way.from.x, way.from.y),
        ctrl: lyon_geom::point(way.ctrl.x, way.ctrl.y),
        to: lyon_geom::point(way.to.x, way.to.y),
    }
}

/// Measures every stored curve against (x, y) as a host would.
fn measure(c: &GeometryContainer<f64>, x: f64, y: f64) -> Vec<Option<SnapHit<f64>>> {
    let p = lyon_geom::point(x, y);
    c.entries()
        .iter()
        .map(|(_, g)| {
            let seg = segment(&g.way);
            let d = seg.distance_to_point(p);
            if d <= c.snap_tolerance() {
                let t = seg.closest_point(p);
                let s = seg.sample(t);
                Some(SnapHit { t, point: Point { x: s.x, y: s.y }, rank: d.to_bits() })
            } else {
                None
            }
        })
        .collect()
}

fn hit(x: f64, y: f64, rank: u64) -> Option<SnapHit<f64>> {
    Some(SnapHit { t: 0.5, point: Point { x, y }, rank })
}

fn sealed_line(c: &mut GeometryContainer<f64>, x0: f64, y0: f64, x1: f64, y1: f64) -> usize {
    let mut g = Geometry::new(x0, y0);
    g.update(x1, y1);
    g.finalize();
    c.insert(g)
}

#[test]
fn end_to_end_scenario() {
    let mut c = GeometryContainer::new(15.0f64);
    let h = measure(&c, 0.0, 0.0);
    assert_eq!(c.apply(0.0, 0.0, &h), Ok(()));
    let id = c.active().unwrap();
    let g = c.get(id).unwrap();
    assert_eq!(g.progress(), 1);
    assert!(!g.finalized());
    for p in [g.way.from, g.way.ctrl, g.way.to] {
        assert_eq!((p.x, p.y), (0.0, 0.0));
    }

    let h = measure(&c, 100.0, 0.0);
    assert_eq!(c.update(100.0, 0.0, &h), Ok(()));
    assert_eq!(c.apply(100.0, 0.0, &h), Ok(()));
    assert_eq!(c.get(id).unwrap().progress(), 2);
    assert_eq!(c.active(), Some(id));

    let h = measure(&c, 50.0, 50.0);
    assert_eq!(c.update(50.0, 50.0, &h), Ok(()));
    let w = c.get(id).unwrap().way;
    assert_eq!((w.from.x, w.from.y), (0.0, 0.0));
    assert_eq!((w.ctrl.x, w.ctrl.y), (100.0, 0.0));
    assert_eq!((w.to.x, w.to.y), (50.0, 50.0));

    assert_eq!(c.apply(50.0, 50.0, &h), Ok(()));
    assert!(c.get(id).unwrap().finalized());
    assert_eq!(c.active(), None);

    let h = measure(&c, 5.0, 2.0);
    let s = c.snap(&h).unwrap();
    assert_eq!(s.geometry_index, id);
}

#[test]
fn progression_takes_three_clicks() {
    let mut c = GeometryContainer::new(1.0f64);
    let none: Vec<Option<SnapHit<f64>>> = Vec::new();
    c.apply(3.0, 4.0, &none).unwrap();
    assert_eq!(c.active(), Some(0));
    assert_eq!(c.get(0).unwrap().progress(), 1);
    c.apply(3.0, 4.0, &none).unwrap();
    assert_eq!(c.active(), Some(0));
    assert_eq!(c.get(0).unwrap().progress(), 2);
    c.apply(3.0, 4.0, &none).unwrap();
    assert_eq!(c.active(), None);
    assert_eq!(c.get(0).unwrap().progress(), 3);
    // the next click starts a new curve
    c.apply(7.0, 8.0, &none).unwrap();
    assert_eq!(c.active(), Some(1));
    assert_eq!(c.entries().len(), 2);
}

#[test]
fn first_click_lands_on_snap_point() {
    let mut c = GeometryContainer::new(15.0f64);
    sealed_line(&mut c, 0.0, 0.0, 100.0, 0.0);
    c.apply(40.0, 3.0, &vec![hit(40.0, 0.0, 9)]).unwrap();
    let g = c.get(1).unwrap();
    assert_eq!((g.way.from.x, g.way.from.y), (40.0, 0.0));
    assert_eq!((g.way.to.x, g.way.to.y), (40.0, 0.0));
}

#[test]
fn cancel_seals_active_construction() {
    for clicks in 1..3 {
        let mut c = GeometryContainer::new(1.0f64);
        let none: Vec<Option<SnapHit<f64>>> = Vec::new();
        for _ in 0..clicks {
            c.apply(1.0, 2.0, &none).unwrap();
        }
        c.update(9.0, 9.0, &none).unwrap();
        assert_eq!(c.get(0).unwrap().progress(), clicks);
        assert_eq!(c.cancel(0.0, 0.0), Ok(()));
        let g = c.get(0).unwrap();
        assert!(g.finalized());
        assert_eq!((g.way.to.x, g.way.to.y), (9.0, 9.0));
        assert_eq!(c.active(), None);
    }
}

#[test]
fn cancel_without_active_is_noop() {
    let mut c = GeometryContainer::new(1.0f64);
    assert_eq!(c.cancel(1.0, 1.0), Ok(()));
    assert_eq!(c.entries().len(), 0);
    assert_eq!(c.active(), None);
    c.apply(0.0, 0.0, &Vec::new()).unwrap();
    c.cancel(0.0, 0.0).unwrap();
    assert_eq!(c.cancel(0.0, 0.0), Ok(()));
    assert_eq!(c.get(0).unwrap().progress(), 3);
}

#[test]
fn snap_skips_active_curve() {
    let mut c = GeometryContainer::new(15.0f64);
    c.apply(0.0, 0.0, &Vec::new()).unwrap();
    assert_eq!(c.snap(&vec![hit(0.0, 0.0, 0)]).map(|s| s.geometry_index), None);
    sealed_line(&mut c, 0.0, 0.0, 10.0, 0.0);
    let s = c.snap(&vec![hit(0.0, 0.0, 0), hit(1.0, 0.0, 5)]).unwrap();
    assert_eq!(s.geometry_index, 1);
    assert_eq!((s.point.x, s.point.y), (1.0, 0.0));
}

#[test]
fn snap_prefers_nearest_then_lowest_id() {
    let mut c = GeometryContainer::new(15.0f64);
    for _ in 0..3 {
        sealed_line(&mut c, 0.0, 0.0, 10.0, 0.0);
    }
    let s = c.snap(&vec![hit(0.0, 1.0, 7), hit(0.0, 2.0, 3), hit(0.0, 3.0, 5)]).unwrap();
    assert_eq!(s.geometry_index, 1);
    let s = c.snap(&vec![None, hit(0.0, 2.0, 4), hit(0.0, 3.0, 4)]).unwrap();
    assert_eq!(s.geometry_index, 1);
    assert!(c.snap(&vec![None, None, None]).is_none());
    // positions beyond the measurements count as misses
    let s = c.snap(&vec![hit(0.0, 1.0, 7)]).unwrap();
    assert_eq!(s.geometry_index, 0);
    assert!(c.snap(&Vec::new()).is_none());
}

#[test]
fn preview_moves_only_uncommitted_points() {
    let mut g = Geometry::new(1.0f64, 1.0);
    g.update(2.0, 2.0);
    assert_eq!((g.way.from.x, g.way.ctrl.x, g.way.to.x), (1.0, 2.0, 2.0));
    assert_eq!(g.shift(), 2);
    g.update(3.0, 3.0);
    assert_eq!((g.way.from.x, g.way.ctrl.x, g.way.to.x), (1.0, 2.0, 3.0));
    assert_eq!(g.shift(), 3);
    assert_eq!(g.shift(), 3);
    g.update(4.0, 4.0);
    assert_eq!((g.way.from.x, g.way.ctrl.x, g.way.to.x), (1.0, 2.0, 3.0));
}

#[test]
fn update_without_active_is_noop() {
    let mut c = GeometryContainer::new(1.0f64);
    sealed_line(&mut c, 0.0, 0.0, 1.0, 1.0);
    assert_eq!(c.update(5.0, 5.0, &Vec::new()), Ok(()));
    let w = c.get(0).unwrap().way;
    assert_eq!((w.to.x, w.to.y), (1.0, 1.0));
}

#[test]
fn split_replaces_curve_with_two_sealed_halves() {
    let mut c = GeometryContainer::new(15.0f64);
    sealed_line(&mut c, 0.0, 0.0, 10.0, 0.0);
    sealed_line(&mut c, 0.0, 5.0, 10.0, 5.0);
    let left = Way::new(Point::new(0.0, 0.0), Point::new(2.5, 0.0), Point::new(5.0, 0.0));
    let right = Way::new(Point::new(5.0, 0.0), Point::new(7.5, 0.0), Point::new(10.0, 0.0));
    let s = Snap { geometry_index: 0, t: 0.5, point: Point::new(5.0, 0.0) };
    assert_eq!(c.snap_split(s, (left, right)), Ok(()));
    let ids: Vec<usize> = c.entries().iter().map(|e| e.0).collect();
    assert_eq!(ids, vec![1, 2, 3]);
    assert!(c.get(0).is_none());
    let l = c.get(2).unwrap();
    let r = c.get(3).unwrap();
    assert!(l.finalized() && r.finalized());
    assert_eq!((l.way.to.x, r.way.from.x), (5.0, 5.0));
    // identifiers are never reused
    assert_eq!(sealed_line(&mut c, 0.0, 0.0, 1.0, 1.0), 4);
}

#[test]
fn split_of_missing_curve_fails_unchanged() {
    let mut c = GeometryContainer::new(15.0f64);
    sealed_line(&mut c, 0.0, 0.0, 10.0, 0.0);
    let w = Way::new(Point::new(0.0, 0.0), Point::new(0.0, 0.0), Point::new(0.0, 0.0));
    assert_eq!(c.map_replace(7, (w, w)), Err(ReferenceError { index: 7 }));
    assert_eq!(c.entries().len(), 1);
    assert_eq!(sealed_line(&mut c, 0.0, 0.0, 1.0, 1.0), 1);
}

#[test]
fn split_of_active_curve_clears_active() {
    let mut c = GeometryContainer::new(15.0f64);
    c.apply(0.0, 0.0, &Vec::new()).unwrap();
    let w = Way::new(Point::new(0.0, 0.0), Point::new(0.0, 0.0), Point::new(0.0, 0.0));
    assert_eq!(c.map_replace(0, (w, w)), Ok(()));
    assert_eq!(c.active(), None);
    let ids: Vec<usize> = c.entries().iter().map(|e| e.0).collect();
    assert_eq!(ids, vec![1, 2]);
}

#[test]
fn focus_takes_stored_curves_only() {
    let mut c = GeometryContainer::new(15.0f64);
    sealed_line(&mut c, 0.0, 0.0, 10.0, 0.0);
    c.insert(Geometry::new(3.0, 3.0));
    let s = |i| Snap { geometry_index: i, t: 0.0, point: Point::new(0.0, 0.0) };
    assert_eq!(c.focus(s(9)), None);
    assert_eq!(c.focus(s(1)), Some(1));
    assert_eq!(c.focus(s(9)), Some(1));
    assert_eq!(c.focus(s(0)), Some(0));
    // a primary click on a sealed active curve leaves it sealed and ends
    // interactive construction
    assert_eq!(c.apply(1.0, 1.0, &Vec::new()), Ok(()));
    assert_eq!(c.get(0).unwrap().progress(), 3);
    assert_eq!(c.active(), None);
    assert_eq!(c.entries().len(), 2);
    c.focus(s(1));
    c.unfocus();
    assert_eq!(c.active(), None);
}

#[test]
fn set_point_uses_anchor_control_anchor_order() {
    let mut w = Way::new(Point::new(0, 0), Point::new(1, 1), Point::new(2, 2));
    w.set_point(1, Point::new(7, 7));
    assert_eq!((w.from.x, w.ctrl.x, w.to.x), (0, 7, 2));
    let mut g = Geometry::new(0, 0);
    g.update_at(0, 5, 6);
    g.update_at(2, 8, 9);
    assert_eq!((g.way.from.y, g.way.ctrl.y, g.way.to.y), (6, 0, 9));
    assert_eq!(g.progress(), 1);
}
