//! The balance store: a vector of `(account, balance)` entries with unique
//! keys, read and written through total lookup/store operations. An account
//! without an entry holds exactly zero units, so the store models a mapping
//! from every account to a balance.

use crate::Account;
use crate::Balance;
use vstd::assert_seqs_equal;
use vstd::pervasive::VecAdditionalExecFns;
use vstd::prelude::*;

verus! {

/// The balance recorded under key `k`: the first entry with that key, or zero
/// when no entry has it.
pub open spec fn bal_get(s: Seq<(Account, Balance)>, k: Account) -> Balance
    decreases s.len(),
{
    if s.len() == 0 {
        0
    } else if s[0].0 == k {
        s[0].1
    } else {
        bal_get(s.drop_first(), k)
    }
}

/// No two entries record a balance for the same account.
pub open spec fn bal_keys_unique(s: Seq<(Account, Balance)>) -> bool {
    forall|i: int, j: int| 0 <= i < j < s.len() ==> s[i].0 != s[j].0
}

/// The sum of every recorded balance.
pub open spec fn bal_sum(s: Seq<(Account, Balance)>) -> int
    decreases s.len(),
{
    if s.len() == 0 {
        0
    } else {
        s[0].1 + bal_sum(s.drop_first())
    }
}

proof fn lemma_sum_nonneg(s: Seq<(Account, Balance)>)
    ensures
        bal_sum(s) >= 0,
    decreases s.len(),
{
    if s.len() > 0 {
        lemma_sum_nonneg(s.drop_first());
    }
}

/// Any single recorded balance is bounded by the sum of them all.
pub proof fn lemma_get_le_sum(s: Seq<(Account, Balance)>, k: Account)
    ensures
        bal_get(s, k) <= bal_sum(s),
    decreases s.len(),
{
    if s.len() == 0 {
    } else if s[0].0 == k {
        lemma_sum_nonneg(s.drop_first());
    } else {
        lemma_get_le_sum(s.drop_first(), k);
        lemma_sum_nonneg(s.drop_first());
    }
}

proof fn lemma_get_at_first_match(s: Seq<(Account, Balance)>, k: Account, i: int)
    requires
        0 <= i < s.len(),
        s[i].0 == k,
        forall|j: int| 0 <= j < i ==> s[j].0 != k,
    ensures
        bal_get(s, k) == s[i].1,
    decreases i,
{
    if i > 0 {
        assert(forall|j: int| 0 <= j < i - 1 ==> s.drop_first()[j] == s[j + 1]);
        lemma_get_at_first_match(s.drop_first(), k, i - 1);
    }
}

proof fn lemma_get_absent(s: Seq<(Account, Balance)>, k: Account)
    requires
        forall|j: int| 0 <= j < s.len() ==> s[j].0 != k,
    ensures
        bal_get(s, k) == 0,
    decreases s.len(),
{
    if s.len() > 0 {
        assert(forall|j: int| 0 <= j < s.len() - 1 ==> s.drop_first()[j] == s[j + 1]);
        lemma_get_absent(s.drop_first(), k);
    }
}

proof fn lemma_store_update(s: Seq<(Account, Balance)>, k: Account, v: Balance, i: int)
    requires
        bal_keys_unique(s),
        0 <= i < s.len(),
        s[i].0 == k,
    ensures
        bal_keys_unique(s.update(i, (k, v))),
        bal_get(s.update(i, (k, v)), k) == v,
        forall|a: Account| a != k ==> bal_get(s.update(i, (k, v)), a) == bal_get(s, a),
        bal_sum(s.update(i, (k, v))) == bal_sum(s) - s[i].1 + v,
        bal_get(s, k) == s[i].1,
    decreases i,
{
    let t = s.update(i, (k, v));
    assert(forall|j: int| 0 <= j < s.len() ==> t[j].0 == s[j].0);
    if i == 0 {
        assert_seqs_equal!(t.drop_first(), s.drop_first());
        assert forall|a: Account| a != k implies bal_get(t, a) == bal_get(s, a) by {
            assert(bal_get(t, a) == bal_get(t.drop_first(), a));
            assert(bal_get(s, a) == bal_get(s.drop_first(), a));
        }
    } else {
        assert(s[0].0 != k);
        assert(bal_keys_unique(s.drop_first())) by {
            assert(forall|j: int| 0 <= j < s.len() - 1 ==> s.drop_first()[j] == s[j + 1]);
        }
        assert(s.drop_first()[i - 1].0 == k);
        lemma_store_update(s.drop_first(), k, v, i - 1);
        assert_seqs_equal!(t.drop_first(), s.drop_first().update(i - 1, (k, v)));
        assert(s.drop_first()[i - 1] == s[i]);
        assert(bal_get(t, k) == bal_get(t.drop_first(), k));
        assert(bal_get(s, k) == bal_get(s.drop_first(), k));
        assert forall|a: Account| a != k implies bal_get(t, a) == bal_get(s, a) by {
            if s[0].0 == a {
                assert(t[0] == s[0]);
                assert(bal_get(t, a) == t[0].1);
                assert(bal_get(s, a) == s[0].1);
            } else {
                assert(bal_get(t, a) == bal_get(t.drop_first(), a));
                assert(bal_get(s, a) == bal_get(s.drop_first(), a));
            }
        }
        assert(bal_sum(t) == t[0].1 + bal_sum(t.drop_first()));
        assert(bal_sum(s) == s[0].1 + bal_sum(s.drop_first()));
    }
}

proof fn lemma_store_push(s: Seq<(Account, Balance)>, k: Account, v: Balance)
    requires
        bal_keys_unique(s),
        forall|j: int| 0 <= j < s.len() ==> s[j].0 != k,
    ensures
        bal_keys_unique(s.push((k, v))),
        bal_get(s.push((k, v)), k) == v,
        forall|a: Account| a != k ==> bal_get(s.push((k, v)), a) == bal_get(s, a),
        bal_sum(s.push((k, v))) == bal_sum(s) + v,
        bal_get(s, k) == 0,
    decreases s.len(),
{
    let t = s.push((k, v));
    lemma_get_absent(s, k);
    assert forall|i: int, j: int| 0 <= i < j < t.len() implies t[i].0 != t[j].0 by {
        if j == s.len() {
            assert(t[i] == s[i]);
            assert(t[j] == (k, v));
        } else {
            assert(t[i] == s[i] && t[j] == s[j]);
        }
    }
    if s.len() == 0 {
        assert(t[0] == (k, v));
        assert_seqs_equal!(t.drop_first(), Seq::<(Account, Balance)>::empty());
        assert(bal_sum(t.drop_first()) == 0);
        assert(bal_sum(t) == t[0].1 + bal_sum(t.drop_first()));
        assert forall|a: Account| a != k implies bal_get(t, a) == bal_get(s, a) by {
            assert(bal_get(t.drop_first(), a) == 0);
            assert(bal_get(t, a) == bal_get(t.drop_first(), a));
            assert(bal_get(s, a) == 0);
        }
    } else {
        assert(forall|j: int| 0 <= j < s.len() - 1 ==> s.drop_first()[j] == s[j + 1]);
        assert(bal_keys_unique(s.drop_first()));
        lemma_store_push(s.drop_first(), k, v);
        assert_seqs_equal!(t.drop_first(), s.drop_first().push((k, v)));
        assert(t[0] == s[0]);
        assert(bal_get(t, k) == bal_get(t.drop_first(), k));
        assert forall|a: Account| a != k implies bal_get(t, a) == bal_get(s, a) by {
            if s[0].0 == a {
                assert(bal_get(t, a) == t[0].1);
                assert(bal_get(s, a) == s[0].1);
            } else {
                assert(bal_get(t, a) == bal_get(t.drop_first(), a));
                assert(bal_get(s, a) == bal_get(s.drop_first(), a));
            }
        }
        assert(bal_sum(t) == t[0].1 + bal_sum(t.drop_first()));
        assert(bal_sum(s) == s[0].1 + bal_sum(s.drop_first()));
    }
}

/// Look up the balance of account `k`, zero when no entry records one.
pub fn bal_lookup(v: &Vec<(Account, Balance)>, k: Account) -> (r: Balance)
    ensures
        r == bal_get(v@, k),
{
    let mut i: usize = 0;
    while i < v.len()
        invariant
            i <= v.len(),
            forall|j: int| 0 <= j < i ==> v@[j].0 != k,
        decreases v.len() - i,
    {
        if v[i].0 == k {
            proof {
                lemma_get_at_first_match(v@, k, i as int);
            }
            return v[i].1;
        }
        i = i + 1;
    }
    proof {
        lemma_get_absent(v@, k);
    }
    0
}

/// Record `new_value` as the balance of account `k`, replacing any earlier
/// entry. Every other account's balance is untouched, and the sum of all
/// balances changes by exactly the difference between the new and old value.
pub fn bal_store(v: &mut Vec<(Account, Balance)>, k: Account, new_value: Balance)
    requires
        bal_keys_unique(old(v)@),
    ensures
        bal_keys_unique(final(v)@),
        bal_get(final(v)@, k) == new_value,
        forall|a: Account| a != k ==> bal_get(final(v)@, a) == bal_get(old(v)@, a),
        bal_sum(final(v)@) == bal_sum(old(v)@) - bal_get(old(v)@, k) + new_value,
    {
    let mut i: usize = 0;
    while i < v.len()
        invariant
            i <= v.len(),
            v@ == old(v)@,
            bal_keys_unique(v@),
            forall|j: int| 0 <= j < i ==> v@[j].0 != k,
        decreases v.len() - i,
    {
        if v[i].0 == k {
            proof {
                lemma_store_update(v@, k, new_value, i as int);
            }
            v.set(i, (k, new_value));
            return;
        }
        i = i + 1;
    }
    proof {
        lemma_store_push(v@, k, new_value);
    }
    v.push((k, new_value));
}

} // verus!
