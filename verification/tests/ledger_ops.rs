//! End-to-end scenarios and law checks on the ledger engine.

use token_ledger::account::{Account, AuthProof};
use token_ledger::error::Error;
use token_ledger::ledger::Ledger;

fn initialized_ledger() -> (Ledger, Account, Account, AuthProof, AuthProof) {
    let a = Account::new(1);
    let b = Account::new(2);
    let mut l = Ledger::new();
    let r = l.initialize(a, "T".to_string(), "TK".to_string(), 2, 1000);
    assert_eq!(r, Ok(()));
    let auth_a = AuthProof::for_account(a);
    let auth_b = AuthProof::for_account(b);
    (l, a, b, auth_a, auth_b)
}

#[test]
fn initialize_credits_admin() {
    let (l, a, _b, _auth_a, _auth_b) = initialized_ledger();
    assert_eq!(l.balance(a), 1000);
    assert_eq!(l.total_supply(), 1000);
    assert!(!l.is_paused());
    assert_eq!(l.name(), "T");
    assert_eq!(l.symbol(), "TK");
    assert_eq!(l.decimals(), 2);
    assert_eq!(l.admin(), Ok(a));
}

#[test]
fn transfer_moves_balance() {
    let (mut l, a, b, auth_a, _auth_b) = initialized_ledger();
    assert_eq!(l.transfer(&auth_a, a, b, 300), Ok(()));
    assert_eq!(l.balance(a), 700);
    assert_eq!(l.balance(b), 300);
    assert_eq!(l.total_supply(), 1000);
}

#[test]
fn transfer_insufficient_balance_changes_nothing() {
    let (mut l, a, b, auth_a, _auth_b) = initialized_ledger();
    assert_eq!(l.transfer(&auth_a, a, b, 300), Ok(()));
    assert_eq!(l.transfer(&auth_a, a, b, 800), Err(Error::InsufficientBalance));
    assert_eq!(l.balance(a), 700);
    assert_eq!(l.balance(b), 300);
}

#[test]
fn paused_blocks_transfer() {
    let (mut l, a, b, auth_a, _auth_b) = initialized_ledger();
    assert_eq!(l.transfer(&auth_a, a, b, 300), Ok(()));
    assert_eq!(l.pause(&auth_a), Ok(()));
    assert!(l.is_paused());
    assert_eq!(l.transfer(&auth_a, a, b, 1), Err(Error::Paused));
    assert_eq!(l.mint(&auth_a, b, 1), Err(Error::Paused));
    assert_eq!(l.burn(&auth_a, a, 1), Err(Error::Paused));
    assert_eq!(l.balance(a), 700);
    assert_eq!(l.balance(b), 300);
    assert_eq!(l.total_supply(), 1000);
    assert_eq!(l.unpause(&auth_a), Ok(()));
    assert!(!l.is_paused());
    assert_eq!(l.transfer(&auth_a, a, b, 1), Ok(()));
    assert_eq!(l.balance(a), 699);
}

#[test]
fn mint_needs_admin_and_raises_supply() {
    let (mut l, a, b, auth_a, auth_b) = initialized_ledger();
    assert_eq!(l.transfer(&auth_a, a, b, 300), Ok(()));
    assert_eq!(l.mint(&auth_b, b, 500), Err(Error::Unauthorized));
    assert_eq!(l.balance(b), 300);
    assert_eq!(l.mint(&auth_a, b, 500), Ok(()));
    assert_eq!(l.balance(b), 800);
    // The conservation law fixes the supply: 700 + 800.
    assert_eq!(l.total_supply(), 1500);
    assert_eq!(l.total_supply(), l.balance(a) + l.balance(b));
}

#[test]
fn burn_lowers_balance_and_supply() {
    let (mut l, a, b, auth_a, auth_b) = initialized_ledger();
    assert_eq!(l.transfer(&auth_a, a, b, 300), Ok(()));
    assert_eq!(l.mint(&auth_a, b, 500), Ok(()));
    assert_eq!(l.burn(&auth_a, a, 700), Ok(()));
    assert_eq!(l.balance(a), 0);
    assert_eq!(l.total_supply(), 800);
    assert_eq!(l.total_supply(), l.balance(b));
    assert_eq!(l.burn(&auth_b, b, 900), Err(Error::InsufficientBalance));
}

#[test]
fn self_transfer_is_noop() {
    let (mut l, a, _b, auth_a, _auth_b) = initialized_ledger();
    assert_eq!(l.transfer(&auth_a, a, a, 400), Ok(()));
    assert_eq!(l.balance(a), 1000);
    assert_eq!(l.total_supply(), 1000);
}

#[test]
fn mint_then_burn_restores_state() {
    let (mut l, a, b, auth_a, auth_b) = initialized_ledger();
    assert_eq!(l.mint(&auth_a, b, 50), Ok(()));
    assert_eq!(l.burn(&auth_b, b, 50), Ok(()));
    assert_eq!(l.balance(a), 1000);
    assert_eq!(l.balance(b), 0);
    assert_eq!(l.total_supply(), 1000);
}

#[test]
fn pause_is_idempotent() {
    let (mut l, a, b, auth_a, auth_b) = initialized_ledger();
    assert_eq!(l.pause(&auth_a), Ok(()));
    assert_eq!(l.pause(&auth_a), Ok(()));
    assert!(l.is_paused());
    assert_eq!(l.balance(a), 1000);
    assert_eq!(l.balance(b), 0);
    assert_eq!(l.total_supply(), 1000);
    assert_eq!(l.pause(&auth_b), Err(Error::Unauthorized));
}

#[test]
fn second_initialize_is_rejected() {
    let (mut l, a, b, _auth_a, _auth_b) = initialized_ledger();
    let r = l.initialize(b, "U".to_string(), "UK".to_string(), 9, 5);
    assert_eq!(r, Err(Error::AlreadyInitialized));
    assert_eq!(l.admin(), Ok(a));
    assert_eq!(l.name(), "T");
    assert_eq!(l.symbol(), "TK");
    assert_eq!(l.decimals(), 2);
    assert_eq!(l.balance(a), 1000);
    assert_eq!(l.balance(b), 0);
    assert_eq!(l.total_supply(), 1000);
}

#[test]
fn nonpositive_amounts_are_rejected() {
    let (mut l, a, b, auth_a, auth_b) = initialized_ledger();
    assert_eq!(l.transfer(&auth_a, a, b, 0), Err(Error::InvalidAmount));
    assert_eq!(l.transfer(&auth_a, a, b, -5), Err(Error::InvalidAmount));
    assert_eq!(l.mint(&auth_a, b, 0), Err(Error::InvalidAmount));
    assert_eq!(l.mint(&auth_a, b, -1), Err(Error::InvalidAmount));
    assert_eq!(l.burn(&auth_b, b, 0), Err(Error::InvalidAmount));
    assert_eq!(l.burn(&auth_b, b, -7), Err(Error::InvalidAmount));
    assert_eq!(l.balance(a), 1000);
    assert_eq!(l.balance(b), 0);
    assert_eq!(l.total_supply(), 1000);
}

#[test]
fn uninitialized_ledger_refuses_operations() {
    let a = Account::new(1);
    let b = Account::new(2);
    let auth_a = AuthProof::for_account(a);
    let mut l = Ledger::new();
    assert_eq!(l.transfer(&auth_a, a, b, 1), Err(Error::NotInitialized));
    assert_eq!(l.mint(&auth_a, a, 1), Err(Error::NotInitialized));
    assert_eq!(l.burn(&auth_a, a, 1), Err(Error::NotInitialized));
    assert_eq!(l.pause(&auth_a), Err(Error::NotInitialized));
    assert_eq!(l.unpause(&auth_a), Err(Error::NotInitialized));
    assert_eq!(l.admin(), Err(Error::NotInitialized));
    assert_eq!(l.balance(a), 0);
    assert_eq!(l.total_supply(), 0);
}

#[test]
fn unauthorized_caller_cannot_move_funds() {
    let (mut l, a, b, _auth_a, auth_b) = initialized_ledger();
    assert_eq!(l.transfer(&auth_b, a, b, 10), Err(Error::Unauthorized));
    assert_eq!(l.burn(&auth_b, a, 10), Err(Error::Unauthorized));
    assert_eq!(l.balance(a), 1000);
}

#[test]
fn checks_run_in_specified_order() {
    let (mut l, a, b, auth_a, auth_b) = initialized_ledger();
    // Authorization is checked before the pause switch and the funds.
    assert_eq!(l.pause(&auth_a), Ok(()));
    assert_eq!(l.transfer(&auth_b, a, b, 5000), Err(Error::Unauthorized));
    // The pause switch is checked before the amount and the funds.
    assert_eq!(l.transfer(&auth_a, a, b, 5000), Err(Error::Paused));
    assert_eq!(l.unpause(&auth_a), Ok(()));
    // A non-positive amount is reported before missing funds.
    assert_eq!(l.transfer(&auth_b, b, a, -1), Err(Error::InvalidAmount));
    assert_eq!(l.transfer(&auth_b, b, a, 1), Err(Error::InsufficientBalance));
}

#[test]
fn balance_of_unknown_account_is_zero() {
    let (l, _a, _b, _auth_a, _auth_b) = initialized_ledger();
    assert_eq!(l.balance(Account::new(77)), 0);
}

#[test]
fn initialize_with_zero_supply() {
    let a = Account::new(4);
    let mut l = Ledger::new();
    assert_eq!(l.initialize(a, "Z".to_string(), "ZT".to_string(), 0, 0), Ok(()));
    assert_eq!(l.balance(a), 0);
    assert_eq!(l.total_supply(), 0);
}
