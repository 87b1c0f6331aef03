use vstd::prelude::*;

use crate::common::AccountId;

verus! {

/// Number of slots of `s` held by `a`.
pub open spec fn count_owned(s: Seq<Option<AccountId>>, a: AccountId) -> nat
    decreases s.len(),
{
    if s.len() == 0 {
        0
    } else {
        count_owned(s.drop_last(), a) + if s.last() == Some(a) {
            1nat
        } else {
            0nat
        }
    }
}

/// Number of slots of `s` held by anyone.
pub open spec fn count_live(s: Seq<Option<AccountId>>) -> nat
    decreases s.len(),
{
    if s.len() == 0 {
        0
    } else {
        count_live(s.drop_last()) + if s.last() is Some {
            1nat
        } else {
            0nat
        }
    }
}

/// Appending a slot adds it to the counts.
pub proof fn lemma_count_push(s: Seq<Option<AccountId>>, x: Option<AccountId>, a: AccountId)
    ensures
        count_owned(s.push(x), a) == count_owned(s, a) + if x == Some(a) {
            1nat
        } else {
            0nat
        },
        count_live(s.push(x)) == count_live(s) + if x is Some {
            1nat
        } else {
            0nat
        },
{
    assert(s.push(x).drop_last() =~= s);
}

/// Rewriting one slot changes the counts by that slot alone.
pub proof fn lemma_count_update(
    s: Seq<Option<AccountId>>,
    i: int,
    x: Option<AccountId>,
    a: AccountId,
)
    requires
        0 <= i < s.len(),
    ensures
        count_owned(s.update(i, x), a) + (if s[i] == Some(a) {
            1int
        } else {
            0int
        }) == count_owned(s, a) + (if x == Some(a) {
            1int
        } else {
            0int
        }),
        count_live(s.update(i, x)) + (if s[i] is Some {
            1int
        } else {
            0int
        }) == count_live(s) + (if x is Some {
            1int
        } else {
            0int
        }),
    decreases s.len(),
{
    let t = s.update(i, x);
    if i == s.len() - 1 {
        assert(t.drop_last() =~= s.drop_last());
    } else {
        assert(t.drop_last() =~= s.drop_last().update(i, x));
        lemma_count_update(s.drop_last(), i, x, a);
    }
}

/// Nobody holds more slots than are held in all, nor more than there are.
pub proof fn lemma_count_bounds(s: Seq<Option<AccountId>>, a: AccountId)
    ensures
        count_owned(s, a) <= count_live(s),
        count_live(s) <= s.len(),
    decreases s.len(),
{
    if s.len() > 0 {
        lemma_count_bounds(s.drop_last(), a);
    }
}

/// A held slot is counted for its holder.
pub proof fn lemma_count_owned_positive(s: Seq<Option<AccountId>>, i: int, a: AccountId)
    requires
        0 <= i < s.len(),
        s[i] == Some(a),
    ensures
        count_owned(s, a) >= 1,
        count_live(s) >= 1,
{
    lemma_count_update(s, i, None, a);
}

} // verus!
