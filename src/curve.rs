use vstd::prelude::*;

verus! {

/// A point of the plane over the scalar type `S`.
#[derive(Clone, Copy, Debug)]
pub struct Point<S> {
    pub x: S,
    pub y: S,
}

impl<S: Copy> Point<S> {
    pub fn new(x: S, y: S) -> (r: Point<S>)
        ensures
            r.x == x,
            r.y == y,
    {
        Point { x, y }
    }
}

/// A quadratic curve: start anchor, control point and end anchor.
///
/// Index 0 names the start anchor, index 1 the control point and index 2
/// the end anchor.
#[derive(Clone, Copy, Debug)]
pub struct Way<S> {
    pub from: Point<S>,
    pub ctrl: Point<S>,
    pub to: Point<S>,
}

impl<S> Way<S> {
    /// The point of the curve at index `i` (0: start, 1: control, 2: end).
    pub open spec fn point(self, i: int) -> Point<S> {
        if i == 0 {
            self.from
        } else if i == 1 {
            self.ctrl
        } else {
            self.to
        }
    }

    /// The curve with the point at index `i` replaced by `p`.
    pub open spec fn with_point(self, i: int, p: Point<S>) -> Way<S> {
        if i == 0 {
            Way { from: p, ..self }
        } else if i == 1 {
            Way { ctrl: p, ..self }
        } else {
            Way { to: p, ..self }
        }
    }

    /// The curve whose three points all lie at `p`.
    pub open spec fn degenerate(p: Point<S>) -> Way<S> {
        Way { from: p, ctrl: p, to: p }
    }
}

impl<S: Copy> Way<S> {
    pub fn new(from: Point<S>, ctrl: Point<S>, to: Point<S>) -> (r: Way<S>)
        ensures
            r.from == from,
            r.ctrl == ctrl,
            r.to == to,
    {
        Way { from, ctrl, to }
    }

    /// Overwrites the point at index `at` (0: start, 1: control, 2: end).
    pub fn set_point(&mut self, at: usize, p: Point<S>)
        requires
            at < 3,
        ensures
            *final(self) == old(self).with_point(at as int, p),
    {
        if at == 0 {
            self.from = p;
        } else if at == 1 {
            self.ctrl = p;
        } else {
            self.to = p;
        }
    }
}

} // verus!
