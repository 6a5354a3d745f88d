//! Counting and distinctness: the spec functions that define what the stored
//! tallies and the `active_proposals` counter mean, with the lemmas the
//! operations use to maintain them.

use vstd::prelude::*;

use crate::state::{AccountId, Proposal};

verus! {

/// How many `true` ballots a sequence of choices holds.
pub open spec fn count_true(s: Seq<bool>) -> nat
    decreases s.len(),
{
    if s.len() == 0 {
        0
    } else {
        count_true(s.drop_last()) + (if s.last() {
            1nat
        } else {
            0nat
        })
    }
}

/// How many `false` ballots a sequence of choices holds.
pub open spec fn count_false(s: Seq<bool>) -> nat
    decreases s.len(),
{
    if s.len() == 0 {
        0
    } else {
        count_false(s.drop_last()) + (if s.last() {
            0nat
        } else {
            1nat
        })
    }
}

/// What one proposal contributes to the count of active proposals.
pub open spec fn active_contribution(p: Proposal) -> nat {
    if p.is_active {
        1
    } else {
        0
    }
}

/// How many proposals in `s` are currently active.
pub open spec fn count_active(s: Seq<Proposal>) -> nat
    decreases s.len(),
{
    if s.len() == 0 {
        0
    } else {
        count_active(s.drop_last()) + active_contribution(s.last())
    }
}

/// No identity appears twice.
pub open spec fn distinct_accounts(s: Seq<AccountId>) -> bool {
    forall|i: int, j: int| 0 <= i < j < s.len() ==> s[i] != s[j]
}

/// Appending a ballot raises exactly the matching tally by one.
pub proof fn lemma_count_push(s: Seq<bool>, b: bool)
    ensures
        count_true(s.push(b)) == count_true(s) + (if b {
            1nat
        } else {
            0nat
        }),
        count_false(s.push(b)) == count_false(s) + (if b {
            0nat
        } else {
            1nat
        }),
{
    assert(s.push(b).drop_last() =~= s);
}

/// The two tallies always add up to the number of ballots cast.
pub proof fn lemma_count_sum(s: Seq<bool>)
    ensures
        count_true(s) + count_false(s) == s.len(),
    decreases s.len(),
{
    if s.len() > 0 {
        lemma_count_sum(s.drop_last());
    }
}

/// Appending a proposal adds its own contribution to the active count.
pub proof fn lemma_count_active_push(s: Seq<Proposal>, p: Proposal)
    ensures
        count_active(s.push(p)) == count_active(s) + active_contribution(p),
{
    assert(s.push(p).drop_last() =~= s);
}

/// Replacing one proposal changes the active count by the difference of the
/// two contributions.
pub proof fn lemma_count_active_update(s: Seq<Proposal>, i: int, p: Proposal)
    requires
        0 <= i < s.len(),
    ensures
        count_active(s.update(i, p)) + active_contribution(s[i]) == count_active(s)
            + active_contribution(p),
    decreases s.len(),
{
    if i == s.len() - 1 {
        assert(s.update(i, p).drop_last() =~= s.drop_last());
    } else {
        assert(s.update(i, p).drop_last() =~= s.drop_last().update(i, p));
        lemma_count_active_update(s.drop_last(), i, p);
    }
}

/// Appending an identity that is not yet present keeps the members distinct.
pub proof fn lemma_distinct_push(s: Seq<AccountId>, x: AccountId)
    requires
        distinct_accounts(s),
        !s.contains(x),
    ensures
        distinct_accounts(s.push(x)),
{
    assert forall|i: int, j: int| 0 <= i < j < s.push(x).len() implies s.push(x)[i] != s.push(x)[j] by {
        if j == s.len() {
            assert(s.push(x)[i] == s[i]);
            assert(s[i] != x) by {
                assert(s.contains(s[i]));
            }
        }
    }
}

/// Removing one member of a distinct sequence keeps the rest distinct,
/// removes that member entirely, and keeps every other member.
pub proof fn lemma_distinct_remove(s: Seq<AccountId>, i: int)
    requires
        0 <= i < s.len(),
        distinct_accounts(s),
    ensures
        distinct_accounts(s.remove(i)),
        !s.remove(i).contains(s[i]),
        forall|y: AccountId| y != s[i] ==> (s.remove(i).contains(y) <==> s.contains(y)),
{
    let r = s.remove(i);
    assert forall|j: int| 0 <= j < r.len() implies r[j] == (if j < i {
        s[j]
    } else {
        s[j + 1]
    }) by {}
    assert forall|j: int, k: int| 0 <= j < k < r.len() implies r[j] != r[k] by {}
    assert forall|j: int| 0 <= j < r.len() implies r[j] != s[i] by {}
    assert forall|y: AccountId| y != s[i] && s.contains(y) implies r.contains(y) by {
        let k = choose|k: int| 0 <= k < s.len() && s[k] == y;
        if k < i {
            assert(r[k] == y);
        } else {
            assert(r[k - 1] == y);
        }
    }
    assert forall|y: AccountId| y != s[i] && r.contains(y) implies s.contains(y) by {
        let k = choose|k: int| 0 <= k < r.len() && r[k] == y;
        if k < i {
            assert(s[k] == y);
        } else {
            assert(s[k + 1] == y);
        }
    }
}

} // verus!
