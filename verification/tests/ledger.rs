use erc20::Approve;
use erc20::Erc20;
use erc20::Error;
use erc20::Transfer;

// Accounts used throughout: 1 is alice (the deployer), 2 is bob, 3 is carol.

#[test]
fn create_contract_works() {
    let erc20 = Erc20::new(1000, 1);
    assert_eq!(erc20.total_supply(), 1000);
}

#[test]
fn balance_of_works() {
    let erc20 = Erc20::new(1000, 1);
    assert_eq!(erc20.balance_of(1), 1000);
    assert_eq!(erc20.balance_of(2), 0);
}

#[test]
fn transfer_works() {
    let mut erc20 = Erc20::new(1000, 1);
    assert!(erc20.transfer(1, 2, 100).is_ok());
    assert_eq!(erc20.balance_of(2), 100);
}

#[test]
fn tranfer_failed_insufficent() {
    let mut erc20 = Erc20::new(1000, 1);
    assert!(erc20.transfer(1, 2, 100).is_ok());
    assert_eq!(erc20.transfer(1, 2, 1000), Err(Error::InsufficientBalance));
}

#[test]
fn tranfer_approve_work() {
    let mut erc20 = Erc20::new(1000, 1);
    assert!(erc20.approve(1, 2, 500).is_ok());
    assert_eq!(erc20.allowance(1, 2), 500);
    assert_eq!(erc20.allowance(2, 1), 0);
}

#[test]
fn construction_gives_whole_supply_to_deployer() {
    let ledger = Erc20::new(1000, 1);
    assert_eq!(ledger.total_supply(), 1000);
    assert_eq!(ledger.balance_of(1), 1000);
    assert_eq!(ledger.balance_of(2), 0);
    assert_eq!(ledger.balance_of(3), 0);
}

#[test]
fn zero_supply_is_permitted() {
    let ledger = Erc20::new(0, 1);
    assert_eq!(ledger.total_supply(), 0);
    assert_eq!(ledger.balance_of(1), 0);
}

#[test]
fn transfer_returns_the_notification() {
    let mut ledger = Erc20::new(1000, 1);
    assert_eq!(
        ledger.transfer(1, 2, 100),
        Ok(Transfer { from: 1, to: 2, value: 100 })
    );
}

#[test]
fn conservation_across_transfers() {
    let mut ledger = Erc20::new(1000, 1);
    assert!(ledger.transfer(1, 2, 400).is_ok());
    assert!(ledger.transfer(2, 3, 150).is_ok());
    assert!(ledger.transfer(1, 3, 100).is_ok());
    let sum = ledger.balance_of(1) + ledger.balance_of(2) + ledger.balance_of(3);
    assert_eq!(sum, ledger.total_supply());
    assert_eq!(sum, 1000);
}

#[test]
fn self_transfer_is_a_no_op_with_a_notification() {
    let mut ledger = Erc20::new(1000, 1);
    assert_eq!(
        ledger.transfer(1, 1, 400),
        Ok(Transfer { from: 1, to: 1, value: 400 })
    );
    assert_eq!(ledger.balance_of(1), 1000);
}

#[test]
fn failed_transfer_leaves_state_untouched() {
    let mut ledger = Erc20::new(1000, 1);
    assert_eq!(ledger.transfer(1, 2, 5000), Err(Error::InsufficientBalance));
    assert_eq!(ledger.balance_of(1), 1000);
    assert_eq!(ledger.balance_of(2), 0);
}

#[test]
fn approve_overwrites_instead_of_accumulating() {
    let mut ledger = Erc20::new(1000, 1);
    assert!(ledger.approve(1, 2, 500).is_ok());
    assert!(ledger.approve(1, 2, 300).is_ok());
    assert_eq!(ledger.allowance(1, 2), 300);
}

#[test]
fn approve_zero_revokes() {
    let mut ledger = Erc20::new(1000, 1);
    assert!(ledger.approve(1, 2, 500).is_ok());
    assert!(ledger.approve(1, 2, 0).is_ok());
    assert_eq!(ledger.allowance(1, 2), 0);
}

#[test]
fn approve_may_exceed_balance_and_returns_the_notification() {
    let mut ledger = Erc20::new(10, 1);
    assert_eq!(
        ledger.approve(1, 2, 1_000_000),
        Ok(Approve { owner: 1, spender: 2, value: 1_000_000 })
    );
    assert_eq!(ledger.allowance(1, 2), 1_000_000);
}

#[test]
fn transfer_from_consumes_allowance() {
    let mut ledger = Erc20::new(1000, 1);
    assert!(ledger.approve(1, 2, 500).is_ok());
    assert_eq!(
        ledger.transfer_from(2, 1, 3, 200),
        Ok(Transfer { from: 1, to: 3, value: 200 })
    );
    assert_eq!(ledger.allowance(1, 2), 300);
    assert_eq!(ledger.balance_of(1), 800);
    assert_eq!(ledger.balance_of(3), 200);
}

#[test]
fn allowance_is_checked_before_balance() {
    let mut ledger = Erc20::new(10, 1);
    assert!(ledger.approve(1, 2, 50).is_ok());
    assert_eq!(ledger.transfer_from(2, 1, 3, 100), Err(Error::InsufficientAllowance));
    assert_eq!(ledger.balance_of(1), 10);
    assert_eq!(ledger.balance_of(3), 0);
    assert_eq!(ledger.allowance(1, 2), 50);
}

#[test]
fn balance_failure_consumes_no_allowance() {
    let mut ledger = Erc20::new(100, 1);
    assert!(ledger.approve(1, 2, 500).is_ok());
    assert_eq!(ledger.transfer_from(2, 1, 3, 200), Err(Error::InsufficientBalance));
    assert_eq!(ledger.allowance(1, 2), 500);
    assert_eq!(ledger.balance_of(1), 100);
    assert_eq!(ledger.balance_of(3), 0);
}

#[test]
fn end_to_end_scenario() {
    let mut ledger = Erc20::new(1000, 1);
    assert!(ledger.transfer(1, 2, 100).is_ok());
    assert_eq!(ledger.balance_of(2), 100);
    assert_eq!(ledger.balance_of(1), 900);
    assert_eq!(ledger.transfer(1, 2, 1000), Err(Error::InsufficientBalance));
    assert_eq!(ledger.balance_of(1), 900);
    assert_eq!(ledger.balance_of(2), 100);
}

#[test]
fn zero_value_transfer_succeeds() {
    let mut ledger = Erc20::new(1000, 1);
    assert_eq!(
        ledger.transfer(2, 1, 0),
        Ok(Transfer { from: 2, to: 1, value: 0 })
    );
    assert_eq!(ledger.balance_of(1), 1000);
    assert_eq!(ledger.balance_of(2), 0);
}
