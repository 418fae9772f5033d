//! The docking decision: pick the nearest receptacle.
//!
//! When a panel's manual grab ends, every known receptacle is asked for its
//! distance to the panel; queries run elsewhere and may fail.  This module
//! holds the pure decision over the collected answers: drop the failed
//! queries, compare the others by absolute distance, and accept the nearest
//! receptacle only when it is strictly closer than the acceptance threshold.

use vstd::prelude::*;
use crate::fixed::COORD_LIMIT;

verus! {

/// A receptacle farther away than this (in `SCALE` units, 0.05 meters) is
/// never docked onto.
pub const MAX_ACCEPT_DISTANCE: i64 = 50_000;

/// One receptacle candidate at resolution time: its identity and what its
/// distance query returned, `None` when the query failed or came back
/// absent.
#[derive(Debug)]
pub struct CandidateDistance {
    pub id: String,
    pub distance: Option<i64>,
}

pub open spec fn abs_val(d: int) -> int {
    if d < 0 {
        -d
    } else {
        d
    }
}

/// The distances of a candidate sequence.
pub open spec fn distances_of(cs: Seq<CandidateDistance>) -> Seq<Option<i64>> {
    cs.map_values(|c: CandidateDistance| c.distance)
}

/// The winning candidate of a sequence of query answers: the index and
/// absolute distance of the first candidate whose absolute distance is
/// minimal, ignoring failed queries.  `None` when every query failed.
pub open spec fn best_candidate(ds: Seq<Option<i64>>) -> Option<(int, int)>
    decreases ds.len(),
{
    if ds.len() == 0 {
        Option::None
    } else {
        let prev = best_candidate(ds.drop_last());
        match ds.last() {
            Option::None => prev,
            Option::Some(d) => match prev {
                Option::None => Option::Some((ds.len() - 1, abs_val(d as int))),
                Option::Some(p) => if abs_val(d as int) < p.1 {
                    Option::Some((ds.len() - 1, abs_val(d as int)))
                } else {
                    prev
                },
            },
        }
    }
}

/// One docking resolution over the collected query answers.
///
/// Returns the index of the receptacle to capture onto: the first one of
/// minimal absolute distance, provided that distance is strictly below
/// `threshold`.  Returns `None` — the panel stays un-docked — when every
/// query failed or none cleared the threshold.
pub fn resolve(candidates: &Vec<CandidateDistance>, threshold: i64) -> (r: Option<usize>)
    requires
        forall|i: int|
            0 <= i < candidates@.len() ==> ((#[trigger] candidates@[i].distance) matches Some(d)
                ==> -COORD_LIMIT <= d <= COORD_LIMIT),
    ensures
        match r {
            Some(i) => {
                &&& i < candidates@.len()
                &&& best_candidate(distances_of(candidates@)) matches Some(b) && b.0 == i as int
                    && b.1 < threshold
            },
            None => (best_candidate(distances_of(candidates@)) matches Some(b) ==> b.1
                >= threshold),
        },
{
    let ghost ds = distances_of(candidates@);
    let mut nearest: Option<(usize, i64)> = Option::None;
    let mut i: usize = 0;
    while i < candidates.len()
        invariant
            0 <= i <= candidates@.len(),
            ds == distances_of(candidates@),
            forall|k: int|
                0 <= k < candidates@.len() ==> ((#[trigger] candidates@[k].distance) matches Some(
                d) ==> -COORD_LIMIT <= d <= COORD_LIMIT),
            match nearest {
                Option::Some(n) => n.0 < i && 0 <= n.1 && best_candidate(ds.take(i as int))
                    == Option::Some((n.0 as int, n.1 as int)),
                Option::None => best_candidate(ds.take(i as int)) is None,
            },
        decreases candidates@.len() - i,
    {
        proof {
            assert(ds.take(i + 1).drop_last() =~= ds.take(i as int));
            assert(ds.take(i + 1).last() == ds[i as int]);
            assert(ds[i as int] == candidates@[i as int].distance);
        }
        match candidates[i].distance {
            Option::Some(d) => {
                let a: i64 = if d < 0 {
                    -d
                } else {
                    d
                };
                nearest = match nearest {
                    Option::Some(n) => if a < n.1 {
                        Option::Some((i, a))
                    } else {
                        Option::Some(n)
                    },
                    Option::None => Option::Some((i, a)),
                };
            },
            Option::None => {},
        }
        i += 1;
    }
    proof {
        assert(ds.take(ds.len() as int) =~= ds);
    }
    match nearest {
        Option::Some(n) => if n.1 < threshold {
            Option::Some(n.0)
        } else {
            Option::None
        },
        Option::None => Option::None,
    }
}

} // verus!
