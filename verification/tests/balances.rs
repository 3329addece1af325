use pallet_agents_vm::Balances;
use pallet_agents_vm::TransferError;

#[test]
fn transfer_moves_value_between_accounts() {
    let mut balances = Balances::new();
    balances.set_balance(1, 100);
    assert_eq!(balances.transfer(1, 2, 30), Ok(()));
    assert_eq!(balances.free_balance(1), 70);
    assert_eq!(balances.free_balance(2), 30);
}

#[test]
fn transfer_may_drain_the_source_to_zero() {
    let mut balances = Balances::new();
    balances.set_balance(1, 100);
    assert_eq!(balances.transfer(1, 2, 100), Ok(()));
    assert_eq!(balances.free_balance(1), 0);
    assert_eq!(balances.free_balance(2), 100);
}

#[test]
fn transfer_of_zero_value_succeeds_from_an_empty_account() {
    let mut balances = Balances::new();
    assert_eq!(balances.transfer(9, 2, 0), Ok(()));
    assert_eq!(balances.free_balance(9), 0);
    assert_eq!(balances.free_balance(2), 0);
}

#[test]
fn transfer_fails_on_insufficient_balance() {
    let mut balances = Balances::new();
    balances.set_balance(1, 100);
    assert_eq!(
        balances.transfer(1, 2, 101),
        Err(TransferError::InsufficientBalance)
    );
    assert_eq!(balances.free_balance(1), 100);
    assert_eq!(balances.free_balance(2), 0);
}

#[test]
fn transfer_fails_when_the_destination_would_overflow() {
    let mut balances = Balances::new();
    balances.set_balance(1, 100);
    balances.set_balance(2, u64::MAX);
    assert_eq!(balances.transfer(1, 2, 1), Err(TransferError::Overflow));
    assert_eq!(balances.free_balance(1), 100);
    assert_eq!(balances.free_balance(2), u64::MAX);
}

#[test]
fn transfer_to_the_same_account_changes_nothing() {
    let mut balances = Balances::new();
    balances.set_balance(1, 100);
    assert_eq!(balances.transfer(1, 1, 40), Ok(()));
    assert_eq!(balances.free_balance(1), 100);
}
