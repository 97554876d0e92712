//! The first failure in a sequence of checks.

use vstd::prelude::*;

verus! {

/// The first entry that holds something.
pub open spec fn first_some<T>(s: Seq<Option<T>>) -> Option<T>
    decreases s.len(),
{
    if s.len() == 0 {
        None
    } else if s[0] is Some {
        s[0]
    } else {
        first_some(s.drop_first())
    }
}

/// An entry that holds something, after entries that hold nothing, is the
/// first that does.
pub proof fn lemma_first_some_found<T>(s: Seq<Option<T>>, i: int)
    requires
        0 <= i < s.len(),
        s[i] is Some,
        forall|j: int| 0 <= j < i ==> (#[trigger] s[j]) is None,
    ensures
        first_some(s) == s[i],
    decreases i,
{
    if i > 0 {
        assert(s[0] is None);
        let rest = s.drop_first();
        assert forall|j: int| 0 <= j < i - 1 implies (#[trigger] rest[j]) is None by {
            assert(rest[j] == s[j + 1]);
        }
        lemma_first_some_found(rest, i - 1);
    }
}

/// No entry is the first to hold something exactly if every entry holds
/// nothing.
pub proof fn lemma_first_some_none<T>(s: Seq<Option<T>>)
    ensures
        first_some(s) is None <==> forall|j: int| 0 <= j < s.len() ==> (#[trigger] s[j]) is None,
    decreases s.len(),
{
    if s.len() > 0 {
        let rest = s.drop_first();
        lemma_first_some_none(rest);
        if first_some(s) is None {
            assert forall|j: int| 0 <= j < s.len() implies (#[trigger] s[j]) is None by {
                if j > 0 {
                    assert(rest[j - 1] == s[j]);
                }
            }
        }
        if forall|j: int| 0 <= j < s.len() ==> (#[trigger] s[j]) is None {
            assert(s[0] is None);
            assert forall|j: int| 0 <= j < rest.len() implies (#[trigger] rest[j]) is None by {
                assert(rest[j] == s[j + 1]);
            }
        }
    }
}

} // verus!
