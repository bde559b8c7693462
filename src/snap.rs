use vstd::prelude::*;
use crate::curve::Point;
use crate::construction::Geometry;

verus! {

/// A point on a stored curve that a query location may attach to.
#[derive(Clone, Copy, Debug)]
pub struct Snap<S> {
    /// Identifier of the curve.
    pub geometry_index: usize,
    /// Parameter of the closest point.
    pub t: S,
    /// The curve's point at `t`.
    pub point: Point<S>,
}

/// What the host's geometry measured for one stored curve that lies within
/// the snap tolerance of a query location.
#[derive(Clone, Copy, Debug)]
pub struct SnapHit<S> {
    /// Parameter of the closest point.
    pub t: S,
    /// The curve's point at `t`.
    pub point: Point<S>,
    /// Orders hits by distance: a nearer hit has a smaller rank.
    pub rank: u64,
}

/// The hit measured for the entry at position `i`; positions past the end
/// of `hits` have none.
pub open spec fn hit_at<S>(hits: Seq<Option<SnapHit<S>>>, i: int) -> Option<SnapHit<S>> {
    if 0 <= i < hits.len() {
        hits[i]
    } else {
        None
    }
}

/// The entry at position `i` may be snapped to: it has a hit and is not the
/// curve under construction.
pub open spec fn eligible<S>(
    entries: Seq<(usize, Geometry<S>)>,
    active: Option<usize>,
    hits: Seq<Option<SnapHit<S>>>,
    i: int,
) -> bool {
    &&& 0 <= i < entries.len()
    &&& hit_at(hits, i) is Some
    &&& active != Some(entries[i].0)
}

/// Position of the nearest eligible entry among the first `n`, the earliest
/// one on equal rank.
pub open spec fn best<S>(
    entries: Seq<(usize, Geometry<S>)>,
    active: Option<usize>,
    hits: Seq<Option<SnapHit<S>>>,
    n: int,
) -> Option<int>
    decreases n,
{
    if n <= 0 {
        None
    } else {
        let prev = best(entries, active, hits, n - 1);
        if eligible(entries, active, hits, n - 1) && (prev is None || hit_at(hits, n - 1)->0.rank
            < hit_at(hits, prev->0)->0.rank) {
            Some(n - 1)
        } else {
            prev
        }
    }
}

/// The snap candidate chosen among `entries` given the measured `hits`.
pub open spec fn snap_choice<S>(
    entries: Seq<(usize, Geometry<S>)>,
    active: Option<usize>,
    hits: Seq<Option<SnapHit<S>>>,
) -> Option<Snap<S>> {
    match best(entries, active, hits, entries.len() as int) {
        None => None,
        Some(i) => Some(
            Snap {
                geometry_index: entries[i].0,
                t: hit_at(hits, i)->0.t,
                point: hit_at(hits, i)->0.point,
            },
        ),
    }
}

/// `best` picks an eligible entry of least rank, and finds one whenever one
/// exists.
pub proof fn lemma_best<S>(
    entries: Seq<(usize, Geometry<S>)>,
    active: Option<usize>,
    hits: Seq<Option<SnapHit<S>>>,
    n: int,
)
    requires
        0 <= n <= entries.len(),
    ensures
        match best(entries, active, hits, n) {
            Some(i) => {
                &&& 0 <= i < n
                &&& eligible(entries, active, hits, i)
                &&& forall|j: int|
                    0 <= j < n && eligible(entries, active, hits, j) ==> hit_at(hits, i)->0.rank
                        <= #[trigger] hit_at(hits, j)->0.rank
                &&& forall|j: int|
                    0 <= j < i && eligible(entries, active, hits, j) ==> hit_at(hits, i)->0.rank
                        < #[trigger] hit_at(hits, j)->0.rank
            },
            None => forall|j: int| 0 <= j < n ==> !#[trigger] eligible(entries, active, hits, j),
        },
    decreases n,
{
    if n > 0 {
        lemma_best(entries, active, hits, n - 1);
    }
}

} // verus!
