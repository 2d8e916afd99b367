//! The three contract front ends: abort-style, basic, and result-style with
//! allowances.

use token_ledger::account::{Account, AuthProof};
use token_ledger::error::Error;
use token_ledger::token_advanced::TokenAdvanced;
use token_ledger::token_basic::TokenBasic;
use token_ledger::token_contract::TokenContract;

#[test]
fn advanced_token_full_flow() {
    let a = Account::new(1);
    let b = Account::new(2);
    let auth_a = AuthProof::for_account(a);
    let auth_b = AuthProof::for_account(b);
    let mut t = TokenAdvanced::new();
    t.initialize(a, "Advanced".to_string(), "ADV".to_string(), 7, 1000);
    assert_eq!(t.name(), "Advanced");
    assert_eq!(t.symbol(), "ADV");
    assert_eq!(t.decimals(), 7);
    assert_eq!(t.total_supply(), 1000);
    assert_eq!(t.balance(a), 1000);
    t.transfer(&auth_a, a, b, 250);
    assert_eq!(t.balance(a), 750);
    assert_eq!(t.balance(b), 250);
    t.mint(&auth_a, b, 100);
    assert_eq!(t.balance(b), 350);
    assert_eq!(t.total_supply(), 1100);
    t.burn(&auth_b, b, 300);
    assert_eq!(t.balance(b), 50);
    assert_eq!(t.total_supply(), 800);
    t.pause(&auth_a);
    assert!(t.is_paused());
    t.pause(&auth_a);
    assert!(t.is_paused());
    t.unpause(&auth_a);
    assert!(!t.is_paused());
}

#[test]
fn basic_token_flow() {
    let a = Account::new(5);
    let b = Account::new(6);
    let mut t = TokenBasic::new();
    t.initialize(a, "Basic".to_string(), "BSC".to_string(), 2);
    assert_eq!(t.name(), "Basic");
    assert_eq!(t.symbol(), "BSC");
    assert_eq!(t.decimals(), 2);
    // This variant creates no supply, so every balance reads as the
    // defined default of 0.
    assert_eq!(t.balance(a), 0);
    assert_eq!(t.balance(b), 0);
}

#[test]
fn contract_metadata_and_admin() {
    let a = Account::new(1);
    let mut t = TokenContract::new();
    assert_eq!(t.admin(), Err(Error::NotInitialized));
    assert_eq!(t.initialize(a, "T".to_string(), "TK".to_string(), 2, 1000), Ok(()));
    let m = t.metadata();
    assert_eq!(m.name, "T");
    assert_eq!(m.symbol, "TK");
    assert_eq!(m.decimals, 2);
    assert_eq!(t.name(), "T");
    assert_eq!(t.symbol(), "TK");
    assert_eq!(t.decimals(), 2);
    assert_eq!(t.admin(), Ok(a));
    assert_eq!(
        t.initialize(a, "U".to_string(), "UK".to_string(), 3, 4),
        Err(Error::AlreadyInitialized)
    );
    assert_eq!(t.name(), "T");
}

#[test]
fn contract_transfer_mint_burn() {
    let a = Account::new(1);
    let b = Account::new(2);
    let auth_a = AuthProof::for_account(a);
    let auth_b = AuthProof::for_account(b);
    let mut t = TokenContract::new();
    assert_eq!(t.initialize(a, "T".to_string(), "TK".to_string(), 2, 1000), Ok(()));
    assert_eq!(t.transfer(&auth_a, a, b, 300), Ok(()));
    assert_eq!(t.balance(a), 700);
    assert_eq!(t.balance(b), 300);
    assert_eq!(t.mint(&auth_b, b, 500), Err(Error::Unauthorized));
    assert_eq!(t.mint(&auth_a, b, 500), Ok(()));
    assert_eq!(t.balance(b), 800);
    assert_eq!(t.total_supply(), 1500);
    assert_eq!(t.burn(&auth_a, a, 700), Ok(()));
    assert_eq!(t.balance(a), 0);
    assert_eq!(t.total_supply(), 800);
}

#[test]
fn approve_records_allowance() {
    let a = Account::new(1);
    let s = Account::new(3);
    let auth_a = AuthProof::for_account(a);
    let mut t = TokenContract::new();
    assert_eq!(t.initialize(a, "T".to_string(), "TK".to_string(), 2, 1000), Ok(()));
    assert_eq!(t.allowance(a, s), 0);
    assert_eq!(t.approve(&auth_a, a, s, 100), Ok(()));
    assert_eq!(t.allowance(a, s), 100);
    // Overwriting replaces, and 0 revokes.
    assert_eq!(t.approve(&auth_a, a, s, 40), Ok(()));
    assert_eq!(t.allowance(a, s), 40);
    assert_eq!(t.approve(&auth_a, a, s, 0), Ok(()));
    assert_eq!(t.allowance(a, s), 0);
    assert_eq!(t.approve(&auth_a, a, s, -1), Err(Error::InvalidAmount));
    let auth_s = AuthProof::for_account(s);
    assert_eq!(t.approve(&auth_s, a, s, 100), Err(Error::Unauthorized));
}

#[test]
fn transfer_from_spends_allowance() {
    let a = Account::new(1);
    let b = Account::new(2);
    let s = Account::new(3);
    let auth_a = AuthProof::for_account(a);
    let auth_s = AuthProof::for_account(s);
    let mut t = TokenContract::new();
    assert_eq!(t.initialize(a, "T".to_string(), "TK".to_string(), 2, 1000), Ok(()));
    assert_eq!(t.approve(&auth_a, a, s, 100), Ok(()));
    assert_eq!(t.transfer_from(&auth_s, s, a, b, 60), Ok(()));
    assert_eq!(t.balance(a), 940);
    assert_eq!(t.balance(b), 60);
    assert_eq!(t.allowance(a, s), 40);
    // Beyond the remaining allowance the spender is not sanctioned.
    assert_eq!(t.transfer_from(&auth_s, s, a, b, 50), Err(Error::Unauthorized));
    assert_eq!(t.balance(a), 940);
    assert_eq!(t.allowance(a, s), 40);
    // Spending the exact remainder works and empties the allowance.
    assert_eq!(t.transfer_from(&auth_s, s, a, b, 40), Ok(()));
    assert_eq!(t.allowance(a, s), 0);
    assert_eq!(t.balance(b), 100);
}

#[test]
fn transfer_from_checks_funds_and_amount() {
    let a = Account::new(1);
    let b = Account::new(2);
    let s = Account::new(3);
    let auth_a = AuthProof::for_account(a);
    let auth_s = AuthProof::for_account(s);
    let mut t = TokenContract::new();
    assert_eq!(t.initialize(a, "T".to_string(), "TK".to_string(), 2, 10), Ok(()));
    assert_eq!(t.approve(&auth_a, a, s, 100), Ok(()));
    assert_eq!(t.transfer_from(&auth_s, s, a, b, 0), Err(Error::InvalidAmount));
    assert_eq!(t.transfer_from(&auth_s, s, a, b, 50), Err(Error::InsufficientBalance));
    assert_eq!(t.transfer_from(&auth_a, s, a, b, 5), Err(Error::Unauthorized));
    assert_eq!(t.balance(a), 10);
    assert_eq!(t.balance(b), 0);
    assert_eq!(t.allowance(a, s), 100);
}
