//! The verdict on the function bodies of a module.
//!
//! The bodies can be checked in any order and at the same time. So that the
//! verdict does not depend on which check finishes first, the failure that
//! counts is that of the function with the lowest index.

use vstd::prelude::*;
use crate::error::BinaryReaderError;

verus! {

/// How the check of one function body ended.
#[derive(Clone, Copy, Debug, PartialEq, Eq, Structural)]
pub struct Outcome {
    /// The index of the function.
    pub index: u32,
    /// Why the body was refused, if it was.
    pub error: Option<BinaryReaderError>,
}

/// The better of a failure found so far and another outcome: a failure with a
/// lower index takes its place.
pub open spec fn better(found: Option<Outcome>, o: Outcome) -> Option<Outcome> {
    if o.error is None {
        found
    } else {
        match found {
            None => Some(o),
            Some(b) => if o.index < b.index {
                Some(o)
            } else {
                found
            },
        }
    }
}

/// The failure with the lowest index; of several with that index, the first.
pub open spec fn lowest_failure(outcomes: Seq<Outcome>) -> Option<Outcome>
    decreases outcomes.len(),
{
    if outcomes.len() == 0 {
        None
    } else {
        better(lowest_failure(outcomes.drop_last()), outcomes.last())
    }
}

/// Whether `verdict` is a failure among the outcomes that no other failure
/// has a lower index than, or nothing where nothing failed.
pub open spec fn is_first_failure(outcomes: Seq<Outcome>, verdict: Option<Outcome>) -> bool {
    match verdict {
        None => forall|i: int| 0 <= i < outcomes.len() ==> (#[trigger] outcomes[i]).error is None,
        Some(o) => {
            &&& o.error is Some
            &&& exists|i: int| 0 <= i < outcomes.len() && #[trigger] outcomes[i] == o
            &&& forall|i: int|
                0 <= i < outcomes.len() && (#[trigger] outcomes[i]).error is Some ==> o.index
                    <= outcomes[i].index
        },
    }
}

/// Whether two sequences hold the same outcomes, in whatever order.
pub open spec fn same_outcomes(a: Seq<Outcome>, b: Seq<Outcome>) -> bool {
    &&& forall|i: int| 0 <= i < a.len() ==> exists|j: int| 0 <= j < b.len() && #[trigger] b[j] == #[trigger] a[i]
    &&& forall|j: int| 0 <= j < b.len() ==> exists|i: int| 0 <= i < a.len() && #[trigger] a[i] == #[trigger] b[j]
}

/// Whether no two failures are for the same function.
pub open spec fn failures_distinct(a: Seq<Outcome>) -> bool {
    forall|i: int, j: int|
        0 <= i < a.len() && 0 <= j < a.len() && i != j && (#[trigger] a[i]).error is Some && (
        #[trigger] a[j]).error is Some ==> a[i].index != a[j].index
}

/// The failure with the lowest index is a failure among the outcomes, and no
/// failure has a lower index.
pub proof fn lemma_lowest_is_first(outcomes: Seq<Outcome>)
    ensures
        is_first_failure(outcomes, lowest_failure(outcomes)),
    decreases outcomes.len(),
{
    if outcomes.len() > 0 {
        let rest = outcomes.drop_last();
        let last = outcomes.last();
        lemma_lowest_is_first(rest);
        let found = lowest_failure(rest);
        let verdict = better(found, last);
        match verdict {
            None => {
                assert forall|i: int| 0 <= i < outcomes.len() implies (
                #[trigger] outcomes[i]).error is None by {
                    if i < rest.len() {
                        assert(rest[i] == outcomes[i]);
                    }
                }
            },
            Some(o) => {
                if found == verdict {
                    let k = choose|k: int| 0 <= k < rest.len() && #[trigger] rest[k] == o;
                    assert(outcomes[k] == o);
                } else {
                    assert(outcomes[outcomes.len() - 1] == o);
                }
                assert forall|i: int|
                    0 <= i < outcomes.len() && (#[trigger] outcomes[i]).error is Some implies o.index
                    <= outcomes[i].index by {
                    if i < rest.len() {
                        assert(rest[i] == outcomes[i]);
                    }
                }
            },
        }
    }
}

/// The verdict does not depend on the order in which the checks finish: where
/// no two failures are for the same function, sequences of the same outcomes
/// have the same failure with the lowest index.
pub proof fn lemma_verdict_order_free(a: Seq<Outcome>, b: Seq<Outcome>)
    requires
        same_outcomes(a, b),
        failures_distinct(a),
    ensures
        lowest_failure(a) == lowest_failure(b),
{
    lemma_lowest_is_first(a);
    lemma_lowest_is_first(b);
    let va = lowest_failure(a);
    let vb = lowest_failure(b);
    match va {
        None => {
            if vb is Some {
                let j = choose|j: int| 0 <= j < b.len() && #[trigger] b[j] == vb->0;
                let i = choose|i: int| 0 <= i < a.len() && #[trigger] a[i] == b[j];
                assert(a[i].error is None);
            }
        },
        Some(o) => {
            let i = choose|i: int| 0 <= i < a.len() && #[trigger] a[i] == o;
            let j = choose|j: int| 0 <= j < b.len() && #[trigger] b[j] == a[i];
            assert(b[j].error is Some);
            assert(vb is Some);
            let p = vb->0;
            let j2 = choose|j2: int| 0 <= j2 < b.len() && #[trigger] b[j2] == p;
            let i2 = choose|i2: int| 0 <= i2 < a.len() && #[trigger] a[i2] == b[j2];
            assert(p.index <= b[j].index);
            assert(o.index <= a[i2].index);
            assert(i == i2);
        },
    }
}

/// The failure that counts among the outcomes of the checks of the function
/// bodies: that of the function with the lowest index.
pub fn first_failure(outcomes: &Vec<Outcome>) -> (verdict: Option<Outcome>)
    ensures
        verdict == lowest_failure(outcomes@),
        is_first_failure(outcomes@, verdict),
{
    let mut found: Option<Outcome> = None;
    let mut i: usize = 0;
    assert(outcomes@.take(0) =~= Seq::empty());
    while i < outcomes.len()
        invariant
            i <= outcomes.len(),
            found == lowest_failure(outcomes@.take(i as int)),
        decreases outcomes.len() - i,
    {
        let o: Outcome = outcomes[i];
        assert(outcomes@.take(i + 1).drop_last() =~= outcomes@.take(i as int));
        assert(outcomes@.take(i + 1).last() == o);
        if o.error.is_some() {
            found = match found {
                None => Some(o),
                Some(b) => if o.index < b.index {
                    Some(o)
                } else {
                    found
                },
            };
        }
        i += 1;
    }
    assert(outcomes@.take(i as int) =~= outcomes@);
    proof {
        lemma_lowest_is_first(outcomes@);
    }
    found
}

} // verus!
