use vstd::prelude::*;
use crate::curve::{Point, Way};
use crate::construction::{Geometry, CONSTRUCTION_POINTS};
use crate::container::GeometryContainer;
use crate::snap::{SnapHit, lemma_best};

verus! {

/// A snap query never proposes the curve under construction, and always
/// proposes a stored curve.
pub proof fn lemma_no_self_snap<S>(c: GeometryContainer<S>, hits: Seq<Option<SnapHit<S>>>)
    requires
        c.wf(),
    ensures
        c.snap_spec(hits) matches Some(s) ==> c.active != Some(s.geometry_index) && c.contains(
            s.geometry_index,
        ),
{
    lemma_best(c.geometries@, c.active, hits, c.geometries@.len() as int);
    if let Some(s) = c.snap_spec(hits) {
        let i = crate::snap::best(c.geometries@, c.active, hits, c.geometries@.len() as int)->0;
        assert(c.geometries@[i].0 == s.geometry_index);
    }
}

/// Three primary clicks starting with no active construction: the first
/// creates the next identifier's curve with progress 1, the second commits
/// its control point while it stays active, the third seals it and ends
/// interactive construction.
pub proof fn lemma_construction_progression<S>(
    c0: GeometryContainer<S>,
    c1: GeometryContainer<S>,
    c2: GeometryContainer<S>,
    c3: GeometryContainer<S>,
    x0: S,
    y0: S,
    h0: Seq<Option<SnapHit<S>>>,
    x1: S,
    y1: S,
    h1: Seq<Option<SnapHit<S>>>,
    x2: S,
    y2: S,
    h2: Seq<Option<SnapHit<S>>>,
)
    requires
        c0.wf(),
        c1.wf(),
        c2.wf(),
        c3.wf(),
        c0.active is None,
        c0.applied(c1, x0, y0, h0),
        c1.applied(c2, x1, y1, h1),
        c2.applied(c3, x2, y2, h2),
    ensures
        c1.active == Some(c0.index),
        c1.contains(c0.index),
        c1.geometry_of(c0.index).construction_point == 1,
        !c1.geometry_of(c0.index).sealed(),
        c2.active == Some(c0.index),
        c2.geometry_of(c0.index).construction_point == 2,
        c3.active is None,
        c3.contains(c0.index),
        c3.geometry_of(c0.index).sealed(),
{
    let n = c0.index;
    let k = c0.geometries@.len() as int;
    assert(c1.geometries@[k].0 == n);
    c1.lemma_slot(k);
    assert(c2.geometries@[k].0 == n);
    c2.lemma_slot(k);
    assert(c3.geometries@[k].0 == n);
    c3.lemma_slot(k);
}

/// A secondary click seals the active construction, leaves its points where
/// they stand and ends interactive construction; with nothing active it
/// changes nothing. A second secondary click is therefore a no-op.
pub proof fn lemma_cancel_seals<S>(
    c0: GeometryContainer<S>,
    c1: GeometryContainer<S>,
    c2: GeometryContainer<S>,
)
    requires
        c0.wf(),
        c1.wf(),
        c0.cancelled(c1),
        c1.cancelled(c2),
    ensures
        c1.active is None,
        c0.active matches Some(a) ==> {
            &&& c1.contains(a)
            &&& c1.geometry_of(a).sealed()
            &&& c1.geometry_of(a).way == c0.geometry_of(a).way
        },
        c0.active is None ==> c1.geometries@ == c0.geometries@,
        c2.geometries@ == c1.geometries@,
        c2.index == c1.index,
        c2.active is None,
{
    if let Some(a) = c0.active {
        let k = c0.slot(a);
        assert(c0.geometries@[k].0 == a);
        assert(c1.geometries@[k].0 == a);
        c1.lemma_slot(k);
    }
}

/// Every identifier that `next` holds was either held by `prev` or is at
/// least `prev`'s next identifier, and the next identifier never goes back:
/// identifiers are handed out in increasing order and a removed one never
/// comes back.
pub open spec fn fresh_ids<S>(prev: GeometryContainer<S>, next: GeometryContainer<S>) -> bool {
    &&& prev.index <= next.index
    &&& forall|i: int|
        0 <= i < next.geometries@.len() ==> #[trigger] next.geometries@[i].0 >= prev.index
            || prev.contains(next.geometries@[i].0)
}

/// Storing a curve hands out an identifier above every one handed out
/// before.
pub proof fn lemma_insert_fresh<S>(
    c0: GeometryContainer<S>,
    c1: GeometryContainer<S>,
    geometry: Geometry<S>,
)
    requires
        c0.wf(),
        c0.inserted(c1, geometry),
    ensures
        fresh_ids(c0, c1),
        c1.index > c0.index,
        forall|id: usize| c0.contains(id) ==> id < c0.index,
{
    assert forall|i: int| 0 <= i < c1.geometries@.len() implies #[trigger] c1.geometries@[i].0
        >= c0.index || c0.contains(c1.geometries@[i].0) by {
        if i < c0.geometries@.len() {
            assert(c0.geometries@[i].0 == c1.geometries@[i].0);
        }
    }
}

/// A split hands out two identifiers above every one handed out before and
/// drops the split one, which is never handed out again.
pub proof fn lemma_split_fresh<S>(
    c0: GeometryContainer<S>,
    c1: GeometryContainer<S>,
    id: usize,
    halves: (Way<S>, Way<S>),
)
    requires
        c0.wf(),
        c0.contains(id),
        c0.replaced(c1, id, halves),
    ensures
        fresh_ids(c0, c1),
        c1.index == c0.index + 2,
        !c1.contains(id),
{
    let k = c0.slot(id);
    let s = c0.geometries@;
    let t = c1.geometries@;
    assert forall|i: int| 0 <= i < t.len() implies #[trigger] t[i].0 >= c0.index || c0.contains(
        t[i].0,
    ) by {
        if i < s.len() - 1 {
            let i2 = if i < k { i } else { i + 1 };
            assert(t[i] == s[i2]);
        }
    }
    if c1.contains(id) {
        let i = c1.slot(id);
        if i < s.len() - 1 {
            let i2 = if i < k { i } else { i + 1 };
            assert(t[i] == s[i2]);
            assert(s[k].0 == id);
            assert(i2 != k);
        }
        assert(false);
    }
}

/// `fresh_ids` composes, so it holds across any sequence of insertions and
/// splits.
pub proof fn lemma_fresh_ids_compose<S>(
    c0: GeometryContainer<S>,
    c1: GeometryContainer<S>,
    c2: GeometryContainer<S>,
)
    requires
        fresh_ids(c0, c1),
        fresh_ids(c1, c2),
    ensures
        fresh_ids(c0, c2),
{
    assert forall|i: int| 0 <= i < c2.geometries@.len() implies #[trigger] c2.geometries@[i].0
        >= c0.index || c0.contains(c2.geometries@[i].0) by {
        if c2.geometries@[i].0 < c1.index {
            let j = c1.slot(c2.geometries@[i].0);
            assert(c1.geometries@[j].0 == c2.geometries@[i].0);
        }
    }
}

/// A preview moves exactly the points at an index of at least the progress;
/// the committed ones stay as they are.
pub proof fn lemma_preview_range<S>(g: Geometry<S>, p: Point<S>)
    requires
        g.wf(),
    ensures
        g.previewed(p).construction_point == g.construction_point,
        forall|k: int|
            0 <= k < CONSTRUCTION_POINTS ==> #[trigger] g.previewed(p).way.point(k) == if k
                < g.construction_point {
                g.way.point(k)
            } else {
                p
            },
{
}

/// A pointer move changes only the active construction, and of it only the
/// points not yet committed.
pub proof fn lemma_move_range<S>(
    c0: GeometryContainer<S>,
    c1: GeometryContainer<S>,
    x: S,
    y: S,
    hits: Seq<Option<SnapHit<S>>>,
)
    requires
        c0.wf(),
        c0.moved(c1, x, y, hits),
    ensures
        c0.active is None ==> c1.geometries@ == c0.geometries@,
        c0.active matches Some(a) ==> {
            &&& forall|i: int|
                0 <= i < c0.geometries@.len() && i != c0.slot(a) ==> #[trigger] c1.geometries@[i]
                    == c0.geometries@[i]
            &&& c1.geometries@[c0.slot(a)].0 == a
            &&& c1.geometries@[c0.slot(a)].1 == c0.geometry_of(a).previewed(
                c0.landing(x, y, hits),
            )
        },
{
    if let Some(a) = c0.active {
        lemma_preview_range(c0.geometry_of(a), c0.landing(x, y, hits));
    }
}

} // verus!
