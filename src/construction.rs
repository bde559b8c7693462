use vstd::prelude::*;
use crate::curve::{Point, Way};

verus! {

/// Number of points of a curve; a construction is sealed once its progress
/// reaches it.
pub const CONSTRUCTION_POINTS: usize = 3;

/// A curve under construction together with its progress: how many of its
/// points, counted from the start anchor, have been fixed by a commit.
#[derive(Clone, Copy, Debug)]
pub struct Geometry<S> {
    pub way: Way<S>,
    pub construction_point: usize,
}

impl<S> Geometry<S> {
    /// Progress lies in 1..=3.
    pub open spec fn wf(self) -> bool {
        1 <= self.construction_point <= CONSTRUCTION_POINTS
    }

    pub open spec fn sealed(self) -> bool {
        self.construction_point == CONSTRUCTION_POINTS
    }

    /// A fresh construction: every point at `p`, progress 1.
    pub open spec fn started_at(p: Point<S>) -> Geometry<S> {
        Geometry { way: Way::degenerate(p), construction_point: 1 }
    }

    /// A sealed construction holding `way`.
    pub open spec fn sealed_with(way: Way<S>) -> Geometry<S> {
        Geometry { way, construction_point: CONSTRUCTION_POINTS }
    }

    /// The state after one commit: progress grows by one, up to 3.
    pub open spec fn advanced(self) -> Geometry<S> {
        Geometry {
            construction_point: if self.construction_point < CONSTRUCTION_POINTS {
                (self.construction_point + 1) as usize
            } else {
                self.construction_point
            },
            ..self
        }
    }

    /// The state after an early termination: sealed, points unchanged.
    pub open spec fn finalized_spec(self) -> Geometry<S> {
        Geometry { construction_point: CONSTRUCTION_POINTS, ..self }
    }

    /// The state after a preview at `p`: every point whose index is at least
    /// the progress moves to `p`, the others stay.
    pub open spec fn previewed(self, p: Point<S>) -> Geometry<S> {
        Geometry {
            way: Way {
                from: if self.construction_point <= 0 { p } else { self.way.from },
                ctrl: if self.construction_point <= 1 { p } else { self.way.ctrl },
                to: if self.construction_point <= 2 { p } else { self.way.to },
            },
            ..self
        }
    }
}

impl<S: Copy> Geometry<S> {
    /// Starts a construction at (`x`, `y`): a degenerate curve, progress 1.
    pub fn new(x: S, y: S) -> (r: Geometry<S>)
        ensures
            r == Geometry::started_at(Point { x, y }),
            r.wf(),
            !r.sealed(),
    {
        let point = Point::new(x, y);
        Geometry { way: Way::new(point, point, point), construction_point: 1 }
    }

    /// Wraps one half of a split curve: sealed from the start.
    pub fn new_split_segment(split_segment: Way<S>) -> (r: Geometry<S>)
        ensures
            r == Geometry::sealed_with(split_segment),
            r.wf(),
            r.sealed(),
    {
        Geometry { way: split_segment, construction_point: CONSTRUCTION_POINTS }
    }

    pub fn way(&self) -> (r: Way<S>)
        ensures
            r == self.way,
    {
        self.way
    }

    pub fn progress(&self) -> (r: usize)
        ensures
            r == self.construction_point,
    {
        self.construction_point
    }

    /// Moves the point at index `at` to (`x`, `y`).
    pub fn update_at(&mut self, at: usize, x: S, y: S)
        requires
            at < CONSTRUCTION_POINTS,
        ensures
            final(self).way == old(self).way.with_point(at as int, Point { x, y }),
            final(self).construction_point == old(self).construction_point,
    {
        self.way.set_point(at, Point::new(x, y));
    }

    /// Moves every point not yet committed to (`x`, `y`).
    pub fn update(&mut self, x: S, y: S)
        requires
            old(self).wf(),
        ensures
            *final(self) == old(self).previewed(Point { x, y }),
    {
        let start = self.construction_point;
        let mut i: usize = start;
        while i < CONSTRUCTION_POINTS
            invariant
                start == old(self).construction_point,
                start <= i <= CONSTRUCTION_POINTS,
                self.construction_point == start,
                forall|k: int|
                    0 <= k < CONSTRUCTION_POINTS ==> #[trigger] self.way.point(k) == if start
                        <= k < i {
                        Point { x, y }
                    } else {
                        old(self).way.point(k)
                    },
            decreases CONSTRUCTION_POINTS - i,
        {
            let ghost prev = self.way;
            self.update_at(i, x, y);
            assert forall|k: int| 0 <= k < CONSTRUCTION_POINTS implies #[trigger] self.way.point(k)
                == if k == i {
                Point { x, y }
            } else {
                prev.point(k)
            } by {
                assert(self.way == prev.with_point(i as int, Point { x, y }));
            }
            i = i + 1;
        }
        assert(self.way.point(0) == old(self).previewed(Point { x, y }).way.point(0));
        assert(self.way.point(1) == old(self).previewed(Point { x, y }).way.point(1));
        assert(self.way.point(2) == old(self).previewed(Point { x, y }).way.point(2));
    }

    /// Commits one more point; returns the new progress.
    pub fn shift(&mut self) -> (r: usize)
        requires
            old(self).wf(),
        ensures
            *final(self) == old(self).advanced(),
            final(self).wf(),
            r == final(self).construction_point,
    {
        if self.construction_point < CONSTRUCTION_POINTS {
            self.construction_point = self.construction_point + 1;
        }
        self.construction_point
    }

    pub fn finalized(&self) -> (r: bool)
        ensures
            r == self.sealed(),
    {
        self.construction_point == CONSTRUCTION_POINTS
    }

    /// Seals the construction where its points stand.
    pub fn finalize(&mut self)
        ensures
            *final(self) == old(self).finalized_spec(),
    {
        self.construction_point = CONSTRUCTION_POINTS;
    }
}

} // verus!
