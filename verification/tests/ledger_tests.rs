use clawnch_protocol::account::AccountId;
use clawnch_protocol::error::ClawnchError;
use clawnch_protocol::ledger::{checked_credit, checked_debit, VaultLedger};
use clawnch_protocol::state::{FeeVault, TokenTreasury};

fn id(tag: u8) -> AccountId {
    AccountId::new([tag; 32])
}

#[test]
fn checked_credit_adds_or_overflows() {
    assert_eq!(checked_credit(1, 2), Ok(3));
    assert_eq!(checked_credit(0, u64::MAX), Ok(u64::MAX));
    assert_eq!(checked_credit(u64::MAX, 0), Ok(u64::MAX));
    assert_eq!(checked_credit(u64::MAX, 1), Err(ClawnchError::Overflow));
    assert_eq!(checked_credit(u64::MAX, u64::MAX), Err(ClawnchError::Overflow));
}

#[test]
fn checked_debit_subtracts_or_refuses() {
    assert_eq!(checked_debit(3, 2), Ok(1));
    assert_eq!(checked_debit(3, 3), Ok(0));
    assert_eq!(checked_debit(3, 4), Err(ClawnchError::InsufficientBalance));
    assert_eq!(checked_debit(0, 1), Err(ClawnchError::InsufficientBalance));
    assert_eq!(checked_debit(0, 0), Ok(0));
}

#[test]
fn an_untouched_account_holds_nothing() {
    let ledger: VaultLedger = VaultLedger::new();
    assert_eq!(ledger.get_balance(id(1)), 0);
}

#[test]
fn set_balance_writes_one_account() {
    let mut ledger: VaultLedger = VaultLedger::new();
    ledger.set_balance(id(1), 10);
    ledger.set_balance(id(2), 20);
    assert_eq!(ledger.get_balance(id(1)), 10);
    assert_eq!(ledger.get_balance(id(2)), 20);
    ledger.set_balance(id(1), 11);
    assert_eq!(ledger.get_balance(id(1)), 11);
    assert_eq!(ledger.get_balance(id(2)), 20);
    assert_eq!(ledger.get_balance(id(3)), 0);
}

#[test]
fn credit_adds_to_one_account() {
    let mut ledger: VaultLedger = VaultLedger::new();
    assert_eq!(ledger.credit(id(1), 5), Ok(()));
    assert_eq!(ledger.credit(id(1), 7), Ok(()));
    assert_eq!(ledger.credit(id(2), 1), Ok(()));
    assert_eq!(ledger.get_balance(id(1)), 12);
    assert_eq!(ledger.get_balance(id(2)), 1);
}

#[test]
fn credit_fails_on_overflow_and_changes_nothing() {
    let mut ledger: VaultLedger = VaultLedger::new();
    ledger.set_balance(id(1), u64::MAX - 1);
    assert_eq!(ledger.credit(id(1), 2), Err(ClawnchError::Overflow));
    assert_eq!(ledger.get_balance(id(1)), u64::MAX - 1);
    assert_eq!(ledger.credit(id(1), 1), Ok(()));
    assert_eq!(ledger.get_balance(id(1)), u64::MAX);
}

#[test]
fn debit_takes_from_one_account() {
    let mut ledger: VaultLedger = VaultLedger::new();
    ledger.set_balance(id(1), 10);
    ledger.set_balance(id(2), 10);
    assert_eq!(ledger.debit(id(1), 4), Ok(()));
    assert_eq!(ledger.get_balance(id(1)), 6);
    assert_eq!(ledger.get_balance(id(2)), 10);
    assert_eq!(ledger.debit(id(1), 6), Ok(()));
    assert_eq!(ledger.get_balance(id(1)), 0);
}

#[test]
fn debit_fails_when_the_account_holds_less() {
    let mut ledger: VaultLedger = VaultLedger::new();
    ledger.set_balance(id(1), 10);
    assert_eq!(ledger.debit(id(1), 11), Err(ClawnchError::InsufficientBalance));
    assert_eq!(ledger.get_balance(id(1)), 10);
    assert_eq!(ledger.debit(id(2), 1), Err(ClawnchError::InsufficientBalance));
    assert_eq!(ledger.get_balance(id(2)), 0);
    assert_eq!(ledger.debit(id(2), 0), Ok(()));
}

#[test]
fn a_clone_holds_the_same_balances_and_is_independent() {
    let mut ledger: VaultLedger = VaultLedger::new();
    ledger.set_balance(id(1), 10);
    let copy: VaultLedger = ledger.clone();
    ledger.set_balance(id(1), 99);
    assert_eq!(copy.get_balance(id(1)), 10);
    assert_eq!(ledger.get_balance(id(1)), 99);
}

#[test]
fn many_accounts_stay_apart() {
    let mut ledger: VaultLedger = VaultLedger::new();
    for tag in 0..100u8 {
        assert_eq!(ledger.credit(id(tag), tag as u64 + 1), Ok(()));
    }
    for tag in 0..100u8 {
        assert_eq!(ledger.get_balance(id(tag)), tag as u64 + 1);
    }
    let mut other: [u8; 32] = [7; 32];
    other[0] = 8;
    assert_eq!(ledger.get_balance(AccountId::new(other)), 0);
}

#[test]
fn fee_vault_credit_adds_or_overflows() {
    let mut vault: FeeVault = FeeVault::new(id(1));
    assert_eq!(vault, FeeVault { authority: id(1), balance: 0 });
    assert_eq!(vault.credit(5), Ok(()));
    assert_eq!(vault.balance, 5);
    assert_eq!(vault.credit(u64::MAX), Err(ClawnchError::Overflow));
    assert_eq!(vault, FeeVault { authority: id(1), balance: 5 });
}

#[test]
fn treasury_credit_adds_or_overflows() {
    let mut treasury: TokenTreasury = TokenTreasury::new(id(1), id(2));
    assert_eq!(treasury, TokenTreasury { authority: id(1), mint: id(2), balance: 0 });
    assert_eq!(treasury.credit(u64::MAX), Ok(()));
    assert_eq!(treasury.credit(1), Err(ClawnchError::Overflow));
    assert_eq!(treasury.balance, u64::MAX);
}

#[test]
fn treasury_debit_fails_and_never_clamps() {
    let mut treasury: TokenTreasury = TokenTreasury::new(id(1), id(2));
    assert_eq!(treasury.credit(10), Ok(()));
    assert_eq!(treasury.debit(11), Err(ClawnchError::InsufficientTreasuryBalance));
    assert_eq!(treasury.balance, 10);
    assert_eq!(treasury.debit(10), Ok(()));
    assert_eq!(treasury.balance, 0);
    assert_eq!(treasury.authority, id(1));
    assert_eq!(treasury.mint, id(2));
}
