//! The ledger: a fixed total supply, a balance per account, and an allowance
//! per ordered pair of accounts. Every mutation keeps the conservation
//! invariant: the stored balances always sum to exactly the total supply.
//!
//! The hosting environment that dispatches calls is kept outside: the caller's
//! identity is an explicit parameter of every mutating operation, and each
//! successful mutation returns the notification it emits instead of pushing it
//! into an event bus.

use crate::Account;
use crate::Balance;
use crate::allowances::allow_get;
use crate::allowances::allow_keys_unique;
use crate::allowances::allow_lookup;
use crate::allowances::allow_store;
use crate::balances::bal_get;
use crate::balances::bal_keys_unique;
use crate::balances::bal_lookup;
use crate::balances::bal_store;
use crate::balances::bal_sum;
use crate::balances::lemma_get_le_sum;
use vstd::prelude::*;

verus! {

/// Notification emitted by every successful transfer: `value` units moved
/// from `from` to `to`.
#[derive(Clone, Copy, Debug, PartialEq, Eq, Structural)]
pub struct Transfer {
    pub from: Account,
    pub to: Account,
    pub value: Balance,
}

/// Notification emitted by every approval: `owner` granted `spender` the
/// right to move up to `value` units out of the owner's balance.
#[derive(Clone, Copy, Debug, PartialEq, Eq, Structural)]
pub struct Approve {
    pub owner: Account,
    pub spender: Account,
    pub value: Balance,
}

/// The two ways an operation can fail. Both are recoverable: the caller gets
/// the value back and the ledger is left exactly as it was.
#[derive(Clone, Copy, Debug, PartialEq, Eq, Structural)]
pub enum Error {
    /// The source account holds fewer units than the requested transfer.
    InsufficientBalance,
    /// The spender's remaining allowance is below the requested transfer.
    InsufficientAllowance,
}

/// The fungible-token ledger.
pub struct Erc20 {
    total_supply: Balance,
    balances: Vec<(Account, Balance)>,
    allowances: Vec<((Account, Account), Balance)>,
}

impl Erc20 {
    /// Well-formedness: both stores have unique keys, and the balances sum to
    /// exactly the total supply. Every operation preserves this, which is the
    /// conservation law: transfers move units, never create or destroy them.
    pub closed spec fn wf(self) -> bool {
        &&& bal_keys_unique(self.balances@)
        &&& allow_keys_unique(self.allowances@)
        &&& bal_sum(self.balances@) == self.total_supply
    }

    /// The fixed number of units in existence.
    pub closed spec fn spec_total_supply(self) -> Balance {
        self.total_supply
    }

    /// The balance of `account`; an account never touched holds zero.
    pub closed spec fn spec_balance_of(self, account: Account) -> Balance {
        bal_get(self.balances@, account)
    }

    /// The allowance `owner` has granted `spender`; zero when never granted.
    pub closed spec fn spec_allowance(self, owner: Account, spender: Account) -> Balance {
        allow_get(self.allowances@, owner, spender)
    }

    /// Create a ledger whose whole supply is held by `deployer`. A zero
    /// supply is permitted and yields a ledger with nothing to move.
    pub fn new(initial_supply: Balance, deployer: Account) -> (r: Erc20)
        ensures
            r.wf(),
            r.spec_total_supply() == initial_supply,
            r.spec_balance_of(deployer) == initial_supply,
            forall|a: Account| a != deployer ==> r.spec_balance_of(a) == 0,
            forall|o: Account, s: Account| r.spec_allowance(o, s) == 0,
    {
        let mut balances: Vec<(Account, Balance)> = Vec::new();
        balances.push((deployer, initial_supply));
        let r = Erc20 { total_supply: initial_supply, balances, allowances: Vec::new() };
        proof {
            assert(r.balances@.drop_first() =~= Seq::<(Account, Balance)>::empty());
            assert forall|a: Account| a != deployer implies r.spec_balance_of(a) == 0 by {
                assert(bal_get(r.balances@.drop_first(), a) == 0);
            }
            assert(bal_sum(r.balances@.drop_first()) == 0);
            assert forall|o: Account, s: Account| r.spec_allowance(o, s) == 0 by {
                assert(allow_get(r.allowances@, o, s) == 0);
            }
        }
        r
    }

    /// The fixed total supply.
    pub fn total_supply(&self) -> (r: Balance)
        ensures
            r == self.spec_total_supply(),
    {
        self.total_supply
    }

    /// The balance held by `owner`, zero for an account never credited.
    pub fn balance_of(&self, owner: Account) -> (r: Balance)
        ensures
            r == self.spec_balance_of(owner),
    {
        bal_lookup(&self.balances, owner)
    }

    /// The remaining allowance `owner` has granted `spender`.
    pub fn allowance(&self, owner: Account, spender: Account) -> (r: Balance)
        ensures
            r == self.spec_allowance(owner, spender),
    {
        allow_lookup(&self.allowances, owner, spender)
    }

    /// Move `value` units from `caller` to `to`. Fails with
    /// `InsufficientBalance` — leaving the ledger untouched — exactly when the
    /// caller holds fewer than `value` units; otherwise debits the caller,
    /// credits `to`, and returns the `Transfer` notification to emit.
    pub fn transfer(&mut self, caller: Account, to: Account, value: Balance) -> (r: Result<
        Transfer,
        Error,
    >)
        requires
            old(self).wf(),
        ensures
            final(self).wf(),
            old(self).spec_balance_of(caller) >= value ==> r == Ok::<Transfer, Error>(
                (Transfer { from: caller, to, value }),
            ) && transfer_ok_post(*old(self), *final(self), caller, to, value),
            old(self).spec_balance_of(caller) < value ==> r == Err::<Transfer, Error>(
                Error::InsufficientBalance,
            ) && *final(self) == *old(self),
    {
        self.transfer_help(caller, to, value)
    }

    /// The shared transfer primitive. It re-checks the source balance itself,
    /// so it is correct even when called without an earlier validation.
    fn transfer_help(&mut self, from: Account, to: Account, value: Balance) -> (r: Result<
        Transfer,
        Error,
    >)
        requires
            old(self).wf(),
        ensures
            final(self).wf(),
            old(self).spec_balance_of(from) >= value ==> r == Ok::<Transfer, Error>(
                (Transfer { from, to, value }),
            ) && transfer_ok_post(*old(self), *final(self), from, to, value),
            old(self).spec_balance_of(from) < value ==> r == Err::<Transfer, Error>(
                Error::InsufficientBalance,
            ) && *final(self) == *old(self),
    {
        let from_balance = bal_lookup(&self.balances, from);
        if from_balance < value {
            return Err(Error::InsufficientBalance);
        }
        bal_store(&mut self.balances, from, from_balance - value);
        let to_balance = bal_lookup(&self.balances, to);
        proof {
            lemma_get_le_sum(self.balances@, to);
        }
        bal_store(&mut self.balances, to, to_balance + value);
        Ok(Transfer { from, to, value })
    }

    /// Delegated transfer: `caller` moves `value` units out of `from`'s
    /// balance to `to`, spending its allowance. The allowance is checked
    /// strictly before the balance, so too small an allowance reports
    /// `InsufficientAllowance` even when the balance is also too small; a
    /// balance failure consumes no allowance. Either failure leaves the
    /// ledger untouched. On success the spent allowance is reduced by `value`
    /// and the `Transfer` notification is returned.
    pub fn transfer_from(
        &mut self,
        caller: Account,
        from: Account,
        to: Account,
        value: Balance,
    ) -> (r: Result<Transfer, Error>)
        requires
            old(self).wf(),
        ensures
            final(self).wf(),
            old(self).spec_allowance(from, caller) < value ==> r == Err::<Transfer, Error>(
                Error::InsufficientAllowance,
            ) && *final(self) == *old(self),
            old(self).spec_allowance(from, caller) >= value && old(self).spec_balance_of(from)
                < value ==> r == Err::<Transfer, Error>(Error::InsufficientBalance) && *final(self)
                == *old(self),
            old(self).spec_allowance(from, caller) >= value && old(self).spec_balance_of(from)
                >= value ==> r == Ok::<Transfer, Error>((Transfer { from, to, value }))
                && transfer_from_ok_post(*old(self), *final(self), caller, from, to, value),
    {
        let allowance_balance = allow_lookup(&self.allowances, from, caller);
        if allowance_balance < value {
            return Err(Error::InsufficientAllowance);
        }
        match self.transfer_help(from, to, value) {
            Ok(notification) => {
                allow_store(&mut self.allowances, from, caller, allowance_balance - value);
                Ok(notification)
            },
            Err(e) => Err(e),
        }
    }

    /// Grant `spender` the right to move up to `value` units out of the
    /// caller's balance. The new value overwrites any earlier allowance — it
    /// never accumulates — and zero revokes it. The caller's balance is not
    /// consulted: an allowance may exceed it, checked only at spend time.
    /// Always succeeds, returning the `Approve` notification to emit.
    pub fn approve(&mut self, caller: Account, spender: Account, value: Balance) -> (r: Result<
        Approve,
        Error,
    >)
        requires
            old(self).wf(),
        ensures
            final(self).wf(),
            r == Ok::<Approve, Error>((Approve { owner: caller, spender, value })),
            approve_post(*old(self), *final(self), caller, spender, value),
    {
        allow_store(&mut self.allowances, caller, spender, value);
        Ok(Approve { owner: caller, spender, value })
    }
}

/// How balances change in a successful transfer of `value` from `from` to
/// `to`: the source is debited, the destination credited, and every other
/// account is untouched. A self-transfer nets out to no change at all.
pub open spec fn balances_moved(
    pre: Erc20,
    post: Erc20,
    from: Account,
    to: Account,
    value: Balance,
) -> bool {
    if from == to {
        forall|a: Account| post.spec_balance_of(a) == pre.spec_balance_of(a)
    } else {
        &&& post.spec_balance_of(from) == pre.spec_balance_of(from) - value
        &&& post.spec_balance_of(to) == pre.spec_balance_of(to) + value
        &&& forall|a: Account|
            a != from && a != to ==> post.spec_balance_of(a) == pre.spec_balance_of(a)
    }
}

/// A successful direct transfer: the source held enough, the supply constant
/// is unchanged, the balances move, and no allowance is touched.
pub open spec fn transfer_ok_post(
    pre: Erc20,
    post: Erc20,
    from: Account,
    to: Account,
    value: Balance,
) -> bool {
    &&& pre.spec_balance_of(from) >= value
    &&& post.spec_total_supply() == pre.spec_total_supply()
    &&& balances_moved(pre, post, from, to, value)
    &&& forall|o: Account, s: Account| post.spec_allowance(o, s) == pre.spec_allowance(o, s)
}

/// A successful approval: the allowance of `(owner, spender)` is overwritten
/// with `value` and nothing else in the ledger changes.
pub open spec fn approve_post(
    pre: Erc20,
    post: Erc20,
    owner: Account,
    spender: Account,
    value: Balance,
) -> bool {
    &&& post.spec_total_supply() == pre.spec_total_supply()
    &&& post.spec_allowance(owner, spender) == value
    &&& forall|o: Account, s: Account|
        !(o == owner && s == spender) ==> post.spec_allowance(o, s) == pre.spec_allowance(o, s)
    &&& forall|a: Account| post.spec_balance_of(a) == pre.spec_balance_of(a)
}

/// A successful delegated transfer: the balances move as in a direct
/// transfer, and exactly the spender's allowance from the owner shrinks by
/// the value spent.
pub open spec fn transfer_from_ok_post(
    pre: Erc20,
    post: Erc20,
    caller: Account,
    from: Account,
    to: Account,
    value: Balance,
) -> bool {
    &&& pre.spec_allowance(from, caller) >= value
    &&& pre.spec_balance_of(from) >= value
    &&& post.spec_total_supply() == pre.spec_total_supply()
    &&& balances_moved(pre, post, from, to, value)
    &&& post.spec_allowance(from, caller) == pre.spec_allowance(from, caller) - value
    &&& forall|o: Account, s: Account|
        !(o == from && s == caller) ==> post.spec_allowance(o, s) == pre.spec_allowance(o, s)
}

/// Law: conservation. A successful transfer moves units between exactly two
/// balances — source plus destination hold the same total afterwards, every
/// other account is untouched, and the supply constant never changes. Since
/// every operation also preserves well-formedness, the stored balances keep
/// summing to exactly the total supply across any sequence of calls.
pub proof fn lemma_conservation(pre: Erc20, post: Erc20, from: Account, to: Account, value: Balance)
    requires
        transfer_ok_post(pre, post, from, to, value),
    ensures
        post.spec_total_supply() == pre.spec_total_supply(),
        post.spec_balance_of(from) + post.spec_balance_of(to) == pre.spec_balance_of(from)
            + pre.spec_balance_of(to),
        forall|a: Account|
            a != from && a != to ==> post.spec_balance_of(a) == pre.spec_balance_of(a),
{
}

/// Law: approval overwrites, never accumulates. Approving the same spender
/// twice leaves exactly the second value.
pub proof fn lemma_approve_overwrites(
    l0: Erc20,
    l1: Erc20,
    l2: Erc20,
    owner: Account,
    spender: Account,
    first: Balance,
    second: Balance,
)
    requires
        approve_post(l0, l1, owner, spender, first),
        approve_post(l1, l2, owner, spender, second),
    ensures
        l2.spec_allowance(owner, spender) == second,
{
}

/// Law: allowance consumption. After granting `granted` and then successfully
/// spending `value` of it through a delegated transfer, exactly the
/// difference remains.
pub proof fn lemma_allowance_consumed(
    l0: Erc20,
    l1: Erc20,
    l2: Erc20,
    owner: Account,
    spender: Account,
    to: Account,
    granted: Balance,
    value: Balance,
)
    requires
        approve_post(l0, l1, owner, spender, granted),
        transfer_from_ok_post(l1, l2, spender, owner, to, value),
    ensures
        l2.spec_allowance(owner, spender) == granted - value,
{
}

} // verus!
