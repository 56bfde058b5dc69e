//! The allowance store: a vector of `((owner, spender), balance)` entries with
//! unique key pairs. A pair without an entry carries exactly zero allowance,
//! so the store models a mapping from every ordered pair of accounts to the
//! quantity the spender may move out of the owner's balance.

use crate::Account;
use crate::Balance;
use vstd::assert_seqs_equal;
use vstd::pervasive::VecAdditionalExecFns;
use vstd::prelude::*;

verus! {

/// The allowance recorded for the ordered pair `(owner, spender)`: the first
/// entry with that key, or zero when no entry has it.
pub open spec fn allow_get(s: Seq<((Account, Account), Balance)>, owner: Account, spender: Account) -> Balance
    decreases s.len(),
{
    if s.len() == 0 {
        0
    } else if s[0].0 == (owner, spender) {
        s[0].1
    } else {
        allow_get(s.drop_first(), owner, spender)
    }
}

/// No two entries record an allowance for the same ordered pair.
pub open spec fn allow_keys_unique(s: Seq<((Account, Account), Balance)>) -> bool {
    forall|i: int, j: int| 0 <= i < j < s.len() ==> s[i].0 != s[j].0
}

proof fn lemma_allow_get_at_first_match(
    s: Seq<((Account, Account), Balance)>,
    owner: Account,
    spender: Account,
    i: int,
)
    requires
        0 <= i < s.len(),
        s[i].0 == (owner, spender),
        forall|j: int| 0 <= j < i ==> s[j].0 != (owner, spender),
    ensures
        allow_get(s, owner, spender) == s[i].1,
    decreases i,
{
    if i > 0 {
        assert(forall|j: int| 0 <= j < i - 1 ==> s.drop_first()[j] == s[j + 1]);
        lemma_allow_get_at_first_match(s.drop_first(), owner, spender, i - 1);
    }
}

proof fn lemma_allow_get_absent(s: Seq<((Account, Account), Balance)>, owner: Account, spender: Account)
    requires
        forall|j: int| 0 <= j < s.len() ==> s[j].0 != (owner, spender),
    ensures
        allow_get(s, owner, spender) == 0,
    decreases s.len(),
{
    if s.len() > 0 {
        assert(forall|j: int| 0 <= j < s.len() - 1 ==> s.drop_first()[j] == s[j + 1]);
        lemma_allow_get_absent(s.drop_first(), owner, spender);
    }
}

proof fn lemma_allow_store_update(
    s: Seq<((Account, Account), Balance)>,
    owner: Account,
    spender: Account,
    v: Balance,
    i: int,
)
    requires
        allow_keys_unique(s),
        0 <= i < s.len(),
        s[i].0 == (owner, spender),
    ensures
        allow_keys_unique(s.update(i, ((owner, spender), v))),
        allow_get(s.update(i, ((owner, spender), v)), owner, spender) == v,
        forall|o: Account, p: Account| !(o == owner && p == spender)
            ==> allow_get(s.update(i, ((owner, spender), v)), o, p) == allow_get(s, o, p),
    decreases i,
{
    let t = s.update(i, ((owner, spender), v));
    assert(forall|j: int| 0 <= j < s.len() ==> t[j].0 == s[j].0);
    if i == 0 {
        assert_seqs_equal!(t.drop_first(), s.drop_first());
        assert forall|o: Account, p: Account| !(o == owner && p == spender)
            implies allow_get(t, o, p) == allow_get(s, o, p) by {
            assert(allow_get(t, o, p) == allow_get(t.drop_first(), o, p));
            assert(allow_get(s, o, p) == allow_get(s.drop_first(), o, p));
        }
    } else {
        assert(s[0].0 != (owner, spender));
        assert(allow_keys_unique(s.drop_first())) by {
            assert(forall|j: int| 0 <= j < s.len() - 1 ==> s.drop_first()[j] == s[j + 1]);
        }
        assert(s.drop_first()[i - 1].0 == (owner, spender));
        lemma_allow_store_update(s.drop_first(), owner, spender, v, i - 1);
        assert_seqs_equal!(t.drop_first(), s.drop_first().update(i - 1, ((owner, spender), v)));
        assert(allow_get(t, owner, spender) == allow_get(t.drop_first(), owner, spender));
        assert forall|o: Account, p: Account| !(o == owner && p == spender)
            implies allow_get(t, o, p) == allow_get(s, o, p) by {
            if s[0].0 == (o, p) {
                assert(t[0] == s[0]);
                assert(allow_get(t, o, p) == t[0].1);
                assert(allow_get(s, o, p) == s[0].1);
            } else {
                assert(allow_get(t, o, p) == allow_get(t.drop_first(), o, p));
                assert(allow_get(s, o, p) == allow_get(s.drop_first(), o, p));
            }
        }
    }
}

proof fn lemma_allow_store_push(
    s: Seq<((Account, Account), Balance)>,
    owner: Account,
    spender: Account,
    v: Balance,
)
    requires
        allow_keys_unique(s),
        forall|j: int| 0 <= j < s.len() ==> s[j].0 != (owner, spender),
    ensures
        allow_keys_unique(s.push(((owner, spender), v))),
        allow_get(s.push(((owner, spender), v)), owner, spender) == v,
        forall|o: Account, p: Account| !(o == owner && p == spender)
            ==> allow_get(s.push(((owner, spender), v)), o, p) == allow_get(s, o, p),
    decreases s.len(),
{
    let t = s.push(((owner, spender), v));
    assert forall|i: int, j: int| 0 <= i < j < t.len() implies t[i].0 != t[j].0 by {
        if j == s.len() {
            assert(t[i] == s[i]);
            assert(t[j] == ((owner, spender), v));
        } else {
            assert(t[i] == s[i] && t[j] == s[j]);
        }
    }
    if s.len() == 0 {
        assert(t[0] == ((owner, spender), v));
        assert_seqs_equal!(t.drop_first(), Seq::<((Account, Account), Balance)>::empty());
        assert forall|o: Account, p: Account| !(o == owner && p == spender)
            implies allow_get(t, o, p) == allow_get(s, o, p) by {
            assert(allow_get(t.drop_first(), o, p) == 0);
            assert(allow_get(t, o, p) == allow_get(t.drop_first(), o, p));
            assert(allow_get(s, o, p) == 0);
        }
    } else {
        assert(forall|j: int| 0 <= j < s.len() - 1 ==> s.drop_first()[j] == s[j + 1]);
        assert(allow_keys_unique(s.drop_first()));
        lemma_allow_store_push(s.drop_first(), owner, spender, v);
        assert_seqs_equal!(t.drop_first(), s.drop_first().push(((owner, spender), v)));
        assert(t[0] == s[0]);
        assert(allow_get(t, owner, spender) == allow_get(t.drop_first(), owner, spender));
        assert forall|o: Account, p: Account| !(o == owner && p == spender)
            implies allow_get(t, o, p) == allow_get(s, o, p) by {
            if s[0].0 == (o, p) {
                assert(allow_get(t, o, p) == t[0].1);
                assert(allow_get(s, o, p) == s[0].1);
            } else {
                assert(allow_get(t, o, p) == allow_get(t.drop_first(), o, p));
                assert(allow_get(s, o, p) == allow_get(s.drop_first(), o, p));
            }
        }
    }
}

/// Look up the allowance granted by `owner` to `spender`, zero when no entry
/// records one.
pub fn allow_lookup(v: &Vec<((Account, Account), Balance)>, owner: Account, spender: Account) -> (r: Balance)
    ensures
        r == allow_get(v@, owner, spender),
{
    let mut i: usize = 0;
    while i < v.len()
        invariant
            i <= v.len(),
            forall|j: int| 0 <= j < i ==> v@[j].0 != (owner, spender),
        decreases v.len() - i,
    {
        if v[i].0.0 == owner && v[i].0.1 == spender {
            proof {
                lemma_allow_get_at_first_match(v@, owner, spender, i as int);
            }
            return v[i].1;
        }
        i = i + 1;
    }
    proof {
        lemma_allow_get_absent(v@, owner, spender);
    }
    0
}

/// Record `new_value` as the allowance of the ordered pair `(owner, spender)`,
/// replacing any earlier entry. Every other pair's allowance is untouched.
pub fn allow_store(
    v: &mut Vec<((Account, Account), Balance)>,
    owner: Account,
    spender: Account,
    new_value: Balance,
)
    requires
        allow_keys_unique(old(v)@),
    ensures
        allow_keys_unique(final(v)@),
        allow_get(final(v)@, owner, spender) == new_value,
        forall|o: Account, p: Account| !(o == owner && p == spender)
            ==> allow_get(final(v)@, o, p) == allow_get(old(v)@, o, p),
{
    let mut i: usize = 0;
    while i < v.len()
        invariant
            i <= v.len(),
            v@ == old(v)@,
            allow_keys_unique(v@),
            forall|j: int| 0 <= j < i ==> v@[j].0 != (owner, spender),
        decreases v.len() - i,
    {
        if v[i].0.0 == owner && v[i].0.1 == spender {
            proof {
                lemma_allow_store_update(v@, owner, spender, new_value, i as int);
            }
            v.set(i, ((owner, spender), new_value));
            return;
        }
        i = i + 1;
    }
    proof {
        lemma_allow_store_push(v@, owner, spender, new_value);
    }
    v.push(((owner, spender), new_value));
}

} // verus!
