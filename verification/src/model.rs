//! Mathematical model of the ledger: a sequence of `(account, balance)`
//! entries with pairwise-distinct account identifiers, together with the
//! lemmas that relate lookups and the balance sum to sequence edits.

use vstd::prelude::*;

verus! {

/// The account identifiers of the entries are pairwise distinct.
pub open spec fn uniq_keys(s: Seq<(String, u128)>) -> bool {
    forall|i: int, j: int| 0 <= i < j < s.len() ==> s[i].0@ != s[j].0@
}

/// Some entry carries the identifier `id`.
pub open spec fn is_registered(s: Seq<(String, u128)>, id: Seq<char>) -> bool {
    exists|i: int| 0 <= i < s.len() && s[i].0@ == id
}

/// The index of the entry carrying `id` (meaningful only when registered
/// and the keys are distinct).
pub open spec fn index_of(s: Seq<(String, u128)>, id: Seq<char>) -> int {
    choose|i: int| 0 <= i < s.len() && s[i].0@ == id
}

/// The balance recorded for `id`, defaulting to zero for an unregistered
/// account (read-only views tolerate unregistered accounts).
pub open spec fn balance_in(s: Seq<(String, u128)>, id: Seq<char>) -> u128 {
    if is_registered(s, id) {
        s[index_of(s, id)].1
    } else {
        0
    }
}

/// The sum of all recorded balances.
pub open spec fn sum_balances(s: Seq<(String, u128)>) -> int
    decreases s.len(),
{
    if s.len() == 0 {
        0
    } else {
        s[0].1 + sum_balances(s.drop_first())
    }
}

/// The balance sum is never negative.
pub proof fn lemma_sum_nonneg(s: Seq<(String, u128)>)
    ensures
        sum_balances(s) >= 0,
    decreases s.len(),
{
    if s.len() > 0 {
        lemma_sum_nonneg(s.drop_first());
    }
}

/// Each single balance is bounded by the sum of all balances.
pub proof fn lemma_sum_le(s: Seq<(String, u128)>, i: int)
    requires
        0 <= i < s.len(),
    ensures
        s[i].1 <= sum_balances(s),
    decreases s.len(),
{
    if i == 0 {
        lemma_sum_nonneg(s.drop_first());
    } else {
        lemma_sum_le(s.drop_first(), i - 1);
    }
}

/// No recorded balance exceeds the sum of all balances.
pub proof fn lemma_balance_le_sum(s: Seq<(String, u128)>, id: Seq<char>)
    ensures
        balance_in(s, id) <= sum_balances(s),
{
    if is_registered(s, id) {
        let i = index_of(s, id);
        lemma_sum_le(s, i);
    } else {
        lemma_sum_nonneg(s);
    }
}

/// Replacing the entry at `i` shifts the sum by the difference of the
/// balances.
pub proof fn lemma_sum_update(s: Seq<(String, u128)>, i: int, e: (String, u128))
    requires
        0 <= i < s.len(),
    ensures
        sum_balances(s.update(i, e)) == sum_balances(s) - s[i].1 + e.1,
    decreases s.len(),
{
    if i == 0 {
        assert(s.update(0, e).drop_first() =~= s.drop_first());
    } else {
        assert(s.update(i, e).drop_first() =~= s.drop_first().update(i - 1, e));
        lemma_sum_update(s.drop_first(), i - 1, e);
    }
}

/// Removing the entry at `i` removes exactly its balance from the sum.
pub proof fn lemma_sum_remove(s: Seq<(String, u128)>, i: int)
    requires
        0 <= i < s.len(),
    ensures
        sum_balances(s.remove(i)) == sum_balances(s) - s[i].1,
    decreases s.len(),
{
    if i == 0 {
        assert(s.remove(0) =~= s.drop_first());
    } else {
        assert(s.remove(i).drop_first() =~= s.drop_first().remove(i - 1));
        lemma_sum_remove(s.drop_first(), i - 1);
    }
}

/// Appending an entry adds exactly its balance to the sum.
pub proof fn lemma_sum_push(s: Seq<(String, u128)>, e: (String, u128))
    ensures
        sum_balances(s.push(e)) == sum_balances(s) + e.1,
    decreases s.len(),
{
    if s.len() == 0 {
        assert(s.push(e)[0] == e);
        assert(s.push(e).drop_first() =~= Seq::<(String, u128)>::empty());
        assert(sum_balances(Seq::<(String, u128)>::empty()) == 0);
    } else {
        assert(s.push(e).drop_first() =~= s.drop_first().push(e));
        lemma_sum_push(s.drop_first(), e);
    }
}

/// With distinct keys, the entry found for the identifier at position `j`
/// is position `j` itself.
pub proof fn lemma_index_of(s: Seq<(String, u128)>, j: int)
    requires
        uniq_keys(s),
        0 <= j < s.len(),
    ensures
        is_registered(s, s[j].0@),
        index_of(s, s[j].0@) == j,
        balance_in(s, s[j].0@) == s[j].1,
{
    assert(is_registered(s, s[j].0@)) by {
        assert(0 <= j < s.len() && s[j].0@ == s[j].0@);
    }
    let i = index_of(s, s[j].0@);
    assert(0 <= i < s.len() && s[i].0@ == s[j].0@);
    if i < j {
        assert(s[i].0@ != s[j].0@);
    } else if j < i {
        assert(s[j].0@ != s[i].0@);
    }
}

/// Replacing the balance at `j` (keeping its identifier) changes only that
/// account's balance and registers or unregisters nobody.
pub proof fn lemma_update_entry(s: Seq<(String, u128)>, j: int, e: (String, u128))
    requires
        uniq_keys(s),
        0 <= j < s.len(),
        e.0@ == s[j].0@,
    ensures
        uniq_keys(s.update(j, e)),
        forall|id: Seq<char>| is_registered(s.update(j, e), id) == is_registered(s, id),
        balance_in(s.update(j, e), s[j].0@) == e.1,
        forall|id: Seq<char>|
            id != s[j].0@ ==> balance_in(s.update(j, e), id) == balance_in(s, id),
{
    let s2 = s.update(j, e);
    assert(forall|i: int| 0 <= i < s.len() ==> s2[i].0@ == s[i].0@);
    assert forall|id: Seq<char>| is_registered(s2, id) == is_registered(s, id) by {
        if is_registered(s, id) {
            let i = index_of(s, id);
            assert(0 <= i < s2.len() && s2[i].0@ == id);
        }
        if is_registered(s2, id) {
            let i = choose|i: int| 0 <= i < s2.len() && s2[i].0@ == id;
            assert(0 <= i < s.len() && s[i].0@ == id);
        }
    }
    assert(balance_in(s2, s[j].0@) == e.1) by {
        lemma_index_of(s2, j);
    }
    assert forall|id: Seq<char>|
        id != s[j].0@ implies balance_in(s2, id) == balance_in(s, id) by {
        if is_registered(s2, id) {
            let i = index_of(s2, id);
            assert(0 <= i < s2.len() && s2[i].0@ == id);
            assert(i != j);
            lemma_index_of(s2, i);
            lemma_index_of(s, i);
        }
    }
}

/// Appending an entry for a fresh identifier registers exactly that
/// identifier, with exactly that balance.
pub proof fn lemma_push_entry(s: Seq<(String, u128)>, e: (String, u128))
    requires
        uniq_keys(s),
        !is_registered(s, e.0@),
    ensures
        uniq_keys(s.push(e)),
        is_registered(s.push(e), e.0@),
        balance_in(s.push(e), e.0@) == e.1,
        forall|id: Seq<char>|
            id != e.0@ ==> is_registered(s.push(e), id) == is_registered(s, id),
        forall|id: Seq<char>|
            id != e.0@ ==> balance_in(s.push(e), id) == balance_in(s, id),
{
    let s2 = s.push(e);
    assert(forall|i: int| 0 <= i < s.len() ==> s2[i] == s[i]);
    assert(uniq_keys(s2)) by {
        assert forall|i: int, j: int| 0 <= i < j < s2.len() implies s2[i].0@ != s2[j].0@ by {
            if j == s.len() {
                assert(s2[j].0@ == e.0@);
                if s2[i].0@ == e.0@ {
                    assert(is_registered(s, e.0@)) by {
                        assert(0 <= i < s.len() && s[i].0@ == e.0@);
                    }
                }
            }
        }
    }
    lemma_index_of(s2, s.len() as int);
    assert forall|id: Seq<char>|
        id != e.0@ implies is_registered(s2, id) == is_registered(s, id) by {
        if is_registered(s, id) {
            let i = index_of(s, id);
            assert(0 <= i < s2.len() && s2[i].0@ == id);
        }
        if is_registered(s2, id) {
            let i = choose|i: int| 0 <= i < s2.len() && s2[i].0@ == id;
            assert(i != s.len());
            assert(0 <= i < s.len() && s[i].0@ == id);
        }
    }
    assert forall|id: Seq<char>|
        id != e.0@ implies balance_in(s2, id) == balance_in(s, id) by {
        if is_registered(s2, id) {
            let i = index_of(s2, id);
            assert(0 <= i < s2.len() && s2[i].0@ == id);
            assert(i != s.len());
            lemma_index_of(s2, i);
            lemma_index_of(s, i);
        }
    }
}

/// Removing the entry at `j` unregisters exactly its identifier and leaves
/// every other account's registration and balance unchanged.
pub proof fn lemma_remove_entry(s: Seq<(String, u128)>, j: int)
    requires
        uniq_keys(s),
        0 <= j < s.len(),
    ensures
        uniq_keys(s.remove(j)),
        !is_registered(s.remove(j), s[j].0@),
        forall|id: Seq<char>|
            id != s[j].0@ ==> is_registered(s.remove(j), id) == is_registered(s, id),
        forall|id: Seq<char>|
            id != s[j].0@ ==> balance_in(s.remove(j), id) == balance_in(s, id),
{
    let s2 = s.remove(j);
    assert(forall|i: int| 0 <= i < j ==> s2[i] == s[i]);
    assert(forall|i: int| j <= i < s2.len() ==> s2[i] == s[i + 1]);
    assert(uniq_keys(s2)) by {
        assert forall|i: int, k: int| 0 <= i < k < s2.len() implies s2[i].0@ != s2[k].0@ by {
            let i0: int = if i < j { i } else { i + 1 };
            let k0: int = if k < j { k } else { k + 1 };
            assert(s2[i].0@ == s[i0].0@);
            assert(s2[k].0@ == s[k0].0@);
            assert(0 <= i0 < k0 < s.len());
        }
    }
    assert(!is_registered(s2, s[j].0@)) by {
        if is_registered(s2, s[j].0@) {
            let i = choose|i: int| 0 <= i < s2.len() && s2[i].0@ == s[j].0@;
            let i0: int = if i < j { i } else { i + 1 };
            assert(s[i0].0@ == s[j].0@);
            assert(i0 != j);
            if i0 < j {
                assert(s[i0].0@ != s[j].0@);
            } else {
                assert(s[j].0@ != s[i0].0@);
            }
        }
    }
    assert forall|id: Seq<char>|
        id != s[j].0@ implies is_registered(s2, id) == is_registered(s, id) by {
        if is_registered(s, id) {
            let i = index_of(s, id);
            assert(0 <= i < s.len() && s[i].0@ == id);
            assert(i != j);
            let i2: int = if i < j { i } else { i - 1 };
            assert(s2[i2].0@ == id);
        }
        if is_registered(s2, id) {
            let i = choose|i: int| 0 <= i < s2.len() && s2[i].0@ == id;
            let i0: int = if i < j { i } else { i + 1 };
            assert(0 <= i0 < s.len() && s[i0].0@ == id);
        }
    }
    assert forall|id: Seq<char>|
        id != s[j].0@ implies balance_in(s2, id) == balance_in(s, id) by {
        if is_registered(s2, id) {
            let i = index_of(s2, id);
            assert(0 <= i < s2.len() && s2[i].0@ == id);
            let i0: int = if i < j { i } else { i + 1 };
            assert(s2[i] == s[i0]);
            lemma_index_of(s2, i);
            lemma_index_of(s, i0);
        }
    }
}

} // verus!
