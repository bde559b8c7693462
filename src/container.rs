use vstd::prelude::*;
use crate::curve::{Point, Way};
use crate::construction::Geometry;
use crate::snap::{Snap, SnapHit, snap_choice, best, lemma_best};

verus! {

/// An operation named an identifier that the container does not hold.
#[derive(Clone, Copy, Debug, PartialEq, Eq, Structural)]
pub struct ReferenceError {
    pub index: usize,
}

/// All curves of a session, keyed by identifiers that are handed out in
/// increasing order and never reused, with the one under construction.
///
/// `geometries` lists the entries in increasing order of identifier.
pub struct GeometryContainer<S> {
    pub snap_tolerance: S,
    pub geometries: Vec<(usize, Geometry<S>)>,
    /// The identifier that the next insertion receives.
    pub index: usize,
    /// The curve receiving pointer input, if any.
    pub active: Option<usize>,
}

impl<S> GeometryContainer<S> {
    pub open spec fn contains(self, id: usize) -> bool {
        exists|i: int| 0 <= i < self.geometries@.len() && #[trigger] self.geometries@[i].0 == id
    }

    /// Position of the entry with identifier `id`.
    pub open spec fn slot(self, id: usize) -> int {
        choose|i: int| 0 <= i < self.geometries@.len() && #[trigger] self.geometries@[i].0 == id
    }

    /// The construction stored under `id`.
    pub open spec fn geometry_of(self, id: usize) -> Geometry<S> {
        self.geometries@[self.slot(id)].1
    }

    /// Identifiers increase along `geometries` and lie below `index`; every
    /// construction has progress in 1..=3.
    pub open spec fn ordered(self) -> bool {
        &&& forall|i: int|
            0 <= i < self.geometries@.len() ==> {
                &&& #[trigger] self.geometries@[i].0 < self.index
                &&& self.geometries@[i].1.wf()
            }
        &&& forall|i: int, j: int|
            0 <= i < j < self.geometries@.len() ==> #[trigger] self.geometries@[i].0
                < #[trigger] self.geometries@[j].0
    }

    /// The entries are `ordered` and the active identifier names a stored
    /// construction.
    pub open spec fn wf(self) -> bool {
        &&& self.ordered()
        &&& match self.active {
            Some(a) => self.contains(a),
            None => true,
        }
    }

    /// The snap candidate for the measured `hits`, position by position.
    pub open spec fn snap_spec(self, hits: Seq<Option<SnapHit<S>>>) -> Option<Snap<S>> {
        snap_choice(self.geometries@, self.active, hits)
    }

    /// Where a click or move at (`x`, `y`) lands: the candidate's point if
    /// there is one, else the location itself.
    pub open spec fn landing(self, x: S, y: S, hits: Seq<Option<SnapHit<S>>>) -> Point<S> {
        match self.snap_spec(hits) {
            Some(c) => c.point,
            None => Point { x, y },
        }
    }

    /// The entries after the curve under `id` is replaced by the two sealed
    /// `halves`, which receive the next two identifiers.
    pub open spec fn split_entries(self, id: usize, halves: (Way<S>, Way<S>)) -> Seq<
        (usize, Geometry<S>),
    > {
        self.geometries@.remove(self.slot(id)).push(
            (self.index, Geometry::sealed_with(halves.0)),
        ).push(((self.index + 1) as usize, Geometry::sealed_with(halves.1)))
    }

    /// The effect of a primary click at (`x`, `y`) with measured `hits`
    /// (see `apply`).
    pub open spec fn applied(self, next: Self, x: S, y: S, hits: Seq<Option<SnapHit<S>>>) -> bool {
        &&& next.snap_tolerance == self.snap_tolerance
        &&& match self.active {
            None => {
                &&& next.geometries@ == self.geometries@.push(
                    (self.index, Geometry::started_at(self.landing(x, y, hits))),
                )
                &&& next.index == self.index + 1
                &&& next.active == Some(self.index)
            },
            Some(a) => {
                let g = self.geometry_of(a).advanced();
                &&& next.geometries@ == self.geometries@.update(self.slot(a), (a, g))
                &&& next.index == self.index
                &&& next.active == if g.sealed() {
                    None
                } else {
                    Some(a)
                }
            },
        }
    }

    /// The effect of a secondary click (see `cancel`).
    pub open spec fn cancelled(self, next: Self) -> bool {
        &&& next.snap_tolerance == self.snap_tolerance
        &&& next.index == self.index
        &&& next.active is None
        &&& next.geometries@ == match self.active {
            None => self.geometries@,
            Some(a) => self.geometries@.update(
                self.slot(a),
                (a, self.geometry_of(a).finalized_spec()),
            ),
        }
    }

    /// The effect of a pointer move to (`x`, `y`) with measured `hits` (see
    /// `update`).
    pub open spec fn moved(self, next: Self, x: S, y: S, hits: Seq<Option<SnapHit<S>>>) -> bool {
        &&& next.snap_tolerance == self.snap_tolerance
        &&& next.index == self.index
        &&& next.active == self.active
        &&& next.geometries@ == match self.active {
            None => self.geometries@,
            Some(a) => self.geometries@.update(
                self.slot(a),
                (a, self.geometry_of(a).previewed(self.landing(x, y, hits))),
            ),
        }
    }

    /// The effect of a successful split of the curve under `id` into
    /// `halves` (see `map_replace`).
    pub open spec fn replaced(self, next: Self, id: usize, halves: (Way<S>, Way<S>)) -> bool {
        &&& next.snap_tolerance == self.snap_tolerance
        &&& next.geometries@ == self.split_entries(id, halves)
        &&& next.index == self.index + 2
        &&& next.active == if self.active == Some(id) {
            None
        } else {
            self.active
        }
    }

    /// The effect of storing `geometry` (see `insert`).
    pub open spec fn inserted(self, next: Self, geometry: Geometry<S>) -> bool {
        &&& next.snap_tolerance == self.snap_tolerance
        &&& next.geometries@ == self.geometries@.push((self.index, geometry))
        &&& next.index == self.index + 1
        &&& next.active == self.active
    }

    pub proof fn lemma_slot(self, k: int)
        requires
            self.ordered(),
            0 <= k < self.geometries@.len(),
        ensures
            self.contains(self.geometries@[k].0),
            self.slot(self.geometries@[k].0) == k,
    {
        let id = self.geometries@[k].0;
        assert(self.geometries@[k].0 == id);
        let i = self.slot(id);
        if i < k {
            assert(self.geometries@[i].0 < self.geometries@[k].0);
        } else if i > k {
            assert(self.geometries@[k].0 < self.geometries@[i].0);
        }
    }
}

impl<S: Copy> GeometryContainer<S> {
    /// An empty container snapping within `snap_tolerance`.
    pub fn new(snap_tolerance: S) -> (r: GeometryContainer<S>)
        ensures
            r.wf(),
            r.snap_tolerance == snap_tolerance,
            r.geometries@ == Seq::<(usize, Geometry<S>)>::empty(),
            r.index == 0,
            r.active is None,
    {
        GeometryContainer { snap_tolerance, geometries: Vec::new(), index: 0, active: None }
    }

    /// Position of the entry with identifier `id`, if stored.
    fn find(&self, id: usize) -> (r: Option<usize>)
        requires
            self.wf(),
        ensures
            match r {
                Some(k) => k < self.geometries@.len() && self.geometries@[k as int].0 == id
                    && self.slot(id) == k,
                None => !self.contains(id),
            },
    {
        let mut i: usize = 0;
        while i < self.geometries.len()
            invariant
                self.wf(),
                i <= self.geometries@.len(),
                forall|j: int| 0 <= j < i ==> #[trigger] self.geometries@[j].0 != id,
            decreases self.geometries@.len() - i,
        {
            if self.geometries[i].0 == id {
                proof {
                    self.lemma_slot(i as int);
                }
                return Some(i);
            }
            i = i + 1;
        }
        None
    }

    /// The construction stored under `id`, if any.
    pub fn get(&self, id: usize) -> (r: Option<Geometry<S>>)
        requires
            self.wf(),
        ensures
            r == if self.contains(id) {
                Some(self.geometry_of(id))
            } else {
                None::<Geometry<S>>
            },
    {
        match self.find(id) {
            Some(k) => Some(self.geometries[k].1),
            None => None,
        }
    }

    pub fn active(&self) -> (r: Option<usize>)
        ensures
            r == self.active,
    {
        self.active
    }

    pub fn snap_tolerance(&self) -> (r: S)
        ensures
            r == self.snap_tolerance,
    {
        self.snap_tolerance
    }

    /// The stored entries, identifier and construction, in increasing order
    /// of identifier. Snap queries take their measurements in this order.
    pub fn entries(&self) -> (r: &Vec<(usize, Geometry<S>)>)
        ensures
            r@ == self.geometries@,
    {
        &self.geometries
    }

    /// Chooses the snap candidate from `hits`, where `hits[i]` is what the
    /// host measured for the `i`-th entry: `None` where that curve lies
    /// beyond the tolerance. The curve under construction is never chosen;
    /// among the others the hit of least rank wins, the smaller identifier
    /// on equal rank.
    pub fn snap(&self, hits: &Vec<Option<SnapHit<S>>>) -> (r: Option<Snap<S>>)
        requires
            self.wf(),
        ensures
            r == self.snap_spec(hits@),
            r matches Some(c) ==> self.active != Some(c.geometry_index) && self.contains(
                c.geometry_index,
            ),
    {
        let n = self.geometries.len();
        let mut chosen: Option<usize> = None;
        let mut i: usize = 0;
        while i < n
            invariant
                n == self.geometries@.len(),
                i <= n,
                chosen == match best(self.geometries@, self.active, hits@, i as int) {
                    Some(k) => Some(k as usize),
                    None => None::<usize>,
                },
                chosen matches Some(k) ==> k < i && k < hits@.len() && hits@[k as int] is Some,
            decreases n - i,
        {
            proof {
                lemma_best(self.geometries@, self.active, hits@, i as int);
            }
            if i < hits.len() {
                match hits[i] {
                    Some(h) => {
                        let id = self.geometries[i].0;
                        let not_active = match self.active {
                            Some(a) => a != id,
                            None => true,
                        };
                        if not_active {
                            let nearer = match chosen {
                                None => true,
                                Some(k) => match hits[k] {
                                    Some(b) => h.rank < b.rank,
                                    None => true,
                                },
                            };
                            if nearer {
                                chosen = Some(i);
                            }
                        }
                    },
                    None => {},
                }
            }
            i = i + 1;
        }
        proof {
            lemma_best(self.geometries@, self.active, hits@, n as int);
        }
        match chosen {
            Some(k) => {
                let h = hits[k].unwrap();
                proof {
                    self.lemma_slot(k as int);
                }
                Some(Snap { geometry_index: self.geometries[k].0, t: h.t, point: h.point })
            },
            None => None,
        }
    }

    /// Makes the curve named by `p` the active one, where it is stored;
    /// otherwise leaves the container as it is. Returns the active
    /// identifier after the call.
    pub fn focus(&mut self, p: Snap<S>) -> (r: Option<usize>)
        requires
            old(self).wf(),
        ensures
            final(self).wf(),
            final(self).geometries@ == old(self).geometries@,
            final(self).index == old(self).index,
            final(self).snap_tolerance == old(self).snap_tolerance,
            final(self).active == if old(self).contains(p.geometry_index) {
                Some(p.geometry_index)
            } else {
                old(self).active
            },
            r == final(self).active,
    {
        match self.find(p.geometry_index) {
            Some(k) => {
                self.active = Some(p.geometry_index);
                assert(self.geometries@[k as int].0 == p.geometry_index);
            },
            None => {},
        }
        self.active
    }

    /// Ends interactive construction without sealing anything.
    pub fn unfocus(&mut self)
        requires
            old(self).wf(),
        ensures
            final(self).wf(),
            final(self).geometries@ == old(self).geometries@,
            final(self).index == old(self).index,
            final(self).snap_tolerance == old(self).snap_tolerance,
            final(self).active is None,
    {
        self.active = None;
    }

    /// Stores `geometry` under the next identifier and returns it.
    pub fn insert(&mut self, geometry: Geometry<S>) -> (r: usize)
        requires
            old(self).wf(),
            geometry.wf(),
            old(self).index < usize::MAX,
        ensures
            final(self).wf(),
            r == old(self).index,
            old(self).inserted(*final(self), geometry),
    {
        let id = self.index;
        let ghost before = *self;
        self.geometries.push((id, geometry));
        self.index = id + 1;
        proof {
            if let Some(a) = self.active {
                let k = before.slot(a);
                before.lemma_slot(k);
                assert(self.geometries@[k].0 == a);
                self.lemma_slot(k);
            }
        }
        id
    }

    /// Starts a construction at (`x`, `y`) under the next identifier and
    /// makes it the active one.
    pub fn emplace(&mut self, x: S, y: S)
        requires
            old(self).wf(),
            old(self).index < usize::MAX,
        ensures
            final(self).wf(),
            final(self).geometries@ == old(self).geometries@.push(
                (old(self).index, Geometry::started_at(Point { x, y })),
            ),
            final(self).index == old(self).index + 1,
            final(self).active == Some(old(self).index),
            final(self).snap_tolerance == old(self).snap_tolerance,
    {
        let geometry = Geometry::new(x, y);
        let id = self.insert(geometry);
        self.active = Some(id);
        proof {
            self.lemma_slot(self.geometries@.len() - 1);
        }
    }

    /// Writes `g` over the construction at position `k`, keeping its
    /// identifier.
    fn replace_at(&mut self, k: usize, g: Geometry<S>)
        requires
            old(self).ordered(),
            k < old(self).geometries@.len(),
            g.wf(),
        ensures
            final(self).ordered(),
            final(self).geometries@ == old(self).geometries@.update(
                k as int,
                (old(self).geometries@[k as int].0, g),
            ),
            final(self).index == old(self).index,
            final(self).active == old(self).active,
            final(self).snap_tolerance == old(self).snap_tolerance,
            final(self).slot(old(self).geometries@[k as int].0) == k,
            final(self).contains(old(self).geometries@[k as int].0),
    {
        let id = self.geometries[k].0;
        self.geometries[k] = (id, g);
        proof {
            self.lemma_slot(k as int);
        }
    }

    /// A primary click at (`x`, `y`). With no construction active, starts
    /// one at the snap candidate chosen from `hits` (see `snap`), or at the
    /// location itself when there is none, and makes it active. Otherwise
    /// commits one more point of the active construction, and ends
    /// interactive construction once it is sealed.
    pub fn apply(&mut self, x: S, y: S, hits: &Vec<Option<SnapHit<S>>>) -> (r: Result<
        (),
        ReferenceError,
    >)
        requires
            old(self).wf(),
            old(self).active is None ==> old(self).index < usize::MAX,
        ensures
            final(self).wf(),
            r is Ok,
            old(self).applied(*final(self), x, y, hits@),
    {
        match self.active {
            None => {
                match self.snap(hits) {
                    Some(snap) => self.emplace(snap.point.x, snap.point.y),
                    None => self.emplace(x, y),
                }
                Ok(())
            },
            Some(idx) => match self.find(idx) {
                Some(k) => {
                    let mut geometry = self.geometries[k].1;
                    geometry.shift();
                    let done = geometry.finalized();
                    self.replace_at(k, geometry);
                    if done {
                        self.active = None;
                    }
                    Ok(())
                },
                None => Err(ReferenceError { index: idx }),
            },
        }
    }

    /// A secondary click: seals the active construction where its points
    /// stand and ends interactive construction. Does nothing when no
    /// construction is active.
    pub fn cancel(&mut self, x: S, y: S) -> (r: Result<(), ReferenceError>)
        requires
            old(self).wf(),
        ensures
            final(self).wf(),
            r is Ok,
            old(self).cancelled(*final(self)),
    {
        match self.active {
            Some(idx) => match self.find(idx) {
                Some(k) => {
                    let mut geometry = self.geometries[k].1;
                    geometry.finalize();
                    self.replace_at(k, geometry);
                    self.active = None;
                    Ok(())
                },
                None => Err(ReferenceError { index: idx }),
            },
            None => Ok(()),
        }
    }

    /// A pointer move to (`x`, `y`): the points of the active construction
    /// that are not yet committed move to the snap candidate chosen from
    /// `hits`, or to the location itself when there is none. Does nothing
    /// when no construction is active.
    pub fn update(&mut self, x: S, y: S, hits: &Vec<Option<SnapHit<S>>>) -> (r: Result<
        (),
        ReferenceError,
    >)
        requires
            old(self).wf(),
        ensures
            final(self).wf(),
            r is Ok,
            old(self).moved(*final(self), x, y, hits@),
    {
        let snap = self.snap(hits);
        match self.active {
            Some(idx) => match self.find(idx) {
                Some(k) => {
                    let mut geometry = self.geometries[k].1;
                    match snap {
                        Some(snap) => geometry.update(snap.point.x, snap.point.y),
                        None => geometry.update(x, y),
                    }
                    self.replace_at(k, geometry);
                    Ok(())
                },
                None => Err(ReferenceError { index: idx }),
            },
            None => Ok(()),
        }
    }

    /// Replaces the curve under `index` by the two sealed `halves`, which
    /// receive the next two identifiers; fails, changing nothing, when no
    /// curve is stored under `index`. Ends interactive construction when
    /// the replaced curve was the active one.
    pub fn map_replace(&mut self, index: usize, halves: (Way<S>, Way<S>)) -> (r: Result<
        (),
        ReferenceError,
    >)
        requires
            old(self).wf(),
            old(self).contains(index) ==> old(self).index < usize::MAX - 1,
        ensures
            final(self).wf(),
            final(self).snap_tolerance == old(self).snap_tolerance,
            r is Ok <==> old(self).contains(index),
            r is Err ==> {
                &&& r == Err::<(), ReferenceError>(ReferenceError { index })
                &&& final(self).geometries@ == old(self).geometries@
                &&& final(self).index == old(self).index
                &&& final(self).active == old(self).active
            },
            r is Ok ==> old(self).replaced(*final(self), index, halves),
    {
        match self.find(index) {
            Some(k) => {
                let ghost before = *self;
                self.geometries.remove(k);
                let clear = match self.active {
                    Some(a) => a == index,
                    None => false,
                };
                if clear {
                    self.active = None;
                }
                proof {
                    let s = before.geometries@;
                    let t = self.geometries@;
                    assert(forall|i: int|
                        0 <= i < t.len() ==> #[trigger] t[i] == if i < k {
                            s[i]
                        } else {
                            s[i + 1]
                        });
                    assert forall|i: int, j: int| 0 <= i < j < t.len() implies #[trigger] t[i].0
                        < #[trigger] t[j].0 by {
                        let i2 = if i < k { i } else { i + 1 };
                        let j2 = if j < k { j } else { j + 1 };
                        assert(s[i2].0 < s[j2].0);
                    }
                    assert(self.ordered());
                    if let Some(a) = self.active {
                        let j = before.slot(a);
                        assert(s[j].0 == a);
                        let j2 = if j < k { j } else { j - 1 };
                        assert(t[j2].0 == a);
                        self.lemma_slot(j2);
                    }
                }
                self.insert(Geometry::new_split_segment(halves.0));
                self.insert(Geometry::new_split_segment(halves.1));
                Ok(())
            },
            None => Err(ReferenceError { index }),
        }
    }

    /// Splits the curve that the candidate `p` lies on: it is replaced by
    /// the two sealed `halves` that the host obtained by subdividing it at
    /// `p.t`, as `map_replace` describes.
    pub fn snap_split(&mut self, p: Snap<S>, halves: (Way<S>, Way<S>)) -> (r: Result<
        (),
        ReferenceError,
    >)
        requires
            old(self).wf(),
            old(self).contains(p.geometry_index) ==> old(self).index < usize::MAX - 1,
        ensures
            final(self).wf(),
            final(self).snap_tolerance == old(self).snap_tolerance,
            r is Ok <==> old(self).contains(p.geometry_index),
            r is Err ==> {
                &&& r == Err::<(), ReferenceError>(ReferenceError { index: p.geometry_index })
                &&& final(self).geometries@ == old(self).geometries@
                &&& final(self).index == old(self).index
                &&& final(self).active == old(self).active
            },
            r is Ok ==> old(self).replaced(*final(self), p.geometry_index, halves),
    {
        self.map_replace(p.geometry_index, halves)
    }
}

} // verus!
