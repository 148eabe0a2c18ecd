//! Finding the first position at which something holds.

use vstd::prelude::*;

verus! {

/// The least index at which `flags` holds `true`, if there is one.
pub open spec fn first_true(flags: Seq<bool>) -> Option<int>
    decreases flags.len(),
{
    if flags.len() == 0 {
        None
    } else {
        match first_true(flags.drop_last()) {
            Some(k) => Some(k),
            None => if flags.last() {
                Some(flags.len() - 1)
            } else {
                None
            },
        }
    }
}

/// `first_true` gives the least index that holds `true`, and nothing exactly if none does.
pub proof fn lemma_first_true(flags: Seq<bool>)
    ensures
        first_true(flags) matches Some(k) ==> {
            &&& 0 <= k < flags.len()
            &&& flags[k]
            &&& forall|j: int| 0 <= j < k ==> !flags[j]
        },
        first_true(flags) is None ==> forall|j: int| 0 <= j < flags.len() ==> !flags[j],
    decreases flags.len(),
{
    if flags.len() > 0 {
        let front = flags.drop_last();
        lemma_first_true(front);
        assert(forall|j: int| 0 <= j < front.len() ==> front[j] == flags[j]);
    }
}

/// An index that holds `true` after none that does is the one that `first_true` gives.
pub proof fn lemma_first_true_is(flags: Seq<bool>, k: int)
    requires
        0 <= k < flags.len(),
        flags[k],
        forall|j: int| 0 <= j < k ==> !flags[j],
    ensures
        first_true(flags) == Some(k),
{
    lemma_first_true(flags);
}

/// Where no index holds `true`, `first_true` gives nothing.
pub proof fn lemma_first_true_none(flags: Seq<bool>)
    requires
        forall|j: int| 0 <= j < flags.len() ==> !flags[j],
    ensures
        first_true(flags) is None,
{
    lemma_first_true(flags);
}

} // verus!
