use vstd::prelude::*;

pub mod allowances;
pub mod balances;
pub mod ledger;

pub use ledger::Approve;
pub use ledger::Erc20;
pub use ledger::Error;
pub use ledger::Transfer;

verus! {

/// An account identifier. Addresses are opaque to the ledger: it only ever
/// compares them for equality, so a plain integer key stands in for one.
pub type Account = u64;

/// A quantity of token units.
pub type Balance = u128;

} // verus!
