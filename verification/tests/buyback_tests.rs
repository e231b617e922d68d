use clawnch_protocol::account::AccountId;
use clawnch_protocol::buyback::execute_buyback;
use clawnch_protocol::error::ClawnchError;
use clawnch_protocol::events::BuybackExecuted;
use clawnch_protocol::state::TokenTreasury;

fn id(tag: u8) -> AccountId {
    AccountId::new([tag; 32])
}

fn treasury_with(balance: u64) -> TokenTreasury {
    TokenTreasury { authority: id(1), mint: id(2), balance }
}

#[test]
fn a_buyback_debits_the_treasury() {
    let mut treasury: TokenTreasury = treasury_with(1_000);
    let event: BuybackExecuted = execute_buyback(&mut treasury, id(7), id(1), 400).unwrap();
    assert_eq!(event, BuybackExecuted { treasury: id(7), amount: 400, authority: id(1) });
    assert_eq!(treasury, treasury_with(600));
}

#[test]
fn a_buyback_may_empty_the_treasury() {
    let mut treasury: TokenTreasury = treasury_with(1_000);
    assert!(execute_buyback(&mut treasury, id(7), id(1), 1_000).is_ok());
    assert_eq!(treasury.balance, 0);
    assert!(execute_buyback(&mut treasury, id(7), id(1), 0).is_ok());
    assert_eq!(treasury.balance, 0);
}

#[test]
fn a_buyback_beyond_the_balance_is_rejected() {
    let mut treasury: TokenTreasury = treasury_with(1_000);
    assert_eq!(
        execute_buyback(&mut treasury, id(7), id(1), 1_001),
        Err(ClawnchError::InsufficientTreasuryBalance)
    );
    assert_eq!(treasury, treasury_with(1_000));
}

#[test]
fn a_buyback_by_a_stranger_is_unauthorized() {
    let mut treasury: TokenTreasury = treasury_with(1_000);
    assert_eq!(
        execute_buyback(&mut treasury, id(7), id(3), 1),
        Err(ClawnchError::Unauthorized)
    );
    // The caller is checked before the balance.
    assert_eq!(
        execute_buyback(&mut treasury, id(7), id(3), 5_000),
        Err(ClawnchError::Unauthorized)
    );
    assert_eq!(treasury, treasury_with(1_000));
}
