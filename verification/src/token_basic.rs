//! The minimal abort-style token front end: metadata and transfers only.
//!
//! This variant has no supply control and no pause switch, so its invariant
//! adds to the engine's well-formedness that the pause switch is never set.

use vstd::prelude::*;
use crate::account::{Account, AuthProof};
use crate::ledger::Ledger;

verus! {

/// A bare token: metadata, balances and transfers.
pub struct TokenBasic {
    pub ledger: Ledger,
}

impl TokenBasic {
    /// Well-formed, and never paused: this variant offers no pause switch.
    pub open spec fn wf(self) -> bool {
        &&& self.ledger.wf()
        &&& !self.ledger.paused
    }

    /// A fresh, uninitialized token.
    pub fn new() -> (t: TokenBasic)
        ensures
            t.wf(),
            !t.ledger.initialized(),
    {
        TokenBasic { ledger: Ledger::new() }
    }

    /// Write admin and metadata; callable only once. This variant starts
    /// with no supply: balances exist only through transfers from outside
    /// (of which there are none), so every balance is 0.
    pub fn initialize(&mut self, admin: Account, name: String, symbol: String, decimals: u32)
        requires
            old(self).wf(),
            !old(self).ledger.initialized(),
        ensures
            final(self).wf(),
            Ledger::initialize_applied(
                old(self).ledger,
                final(self).ledger,
                admin,
                name,
                symbol,
                decimals,
                0,
            ),
    {
        let _ = self.ledger.initialize(admin, name, symbol, decimals, 0);
    }

    /// The token name.
    pub fn name(&self) -> (r: String)
        requires
            self.ledger.initialized(),
        ensures
            r@ == self.ledger.name@,
    {
        self.ledger.name()
    }

    /// The token symbol.
    pub fn symbol(&self) -> (r: String)
        requires
            self.ledger.initialized(),
        ensures
            r@ == self.ledger.symbol@,
    {
        self.ledger.symbol()
    }

    /// The token decimals.
    pub fn decimals(&self) -> (r: u32)
        requires
            self.ledger.initialized(),
        ensures
            r == self.ledger.decimals,
    {
        self.ledger.decimals()
    }

    /// The balance of `owner`; 0 without an entry.
    pub fn balance(&self, owner: Account) -> (r: i128)
        ensures
            r == self.ledger.spec_balance(owner),
    {
        self.ledger.balance(owner)
    }

    /// Move `amount` from `from` to `to`; `from` must have sanctioned the
    /// call, and the funds must be there.
    pub fn transfer(&mut self, auth: &AuthProof, from: Account, to: Account, amount: i128)
        requires
            old(self).wf(),
            old(self).ledger.initialized(),
            auth.account == from,
            0 < amount,
            amount <= old(self).ledger.spec_balance(from),
        ensures
            final(self).wf(),
            Ledger::transfer_applied(old(self).ledger, final(self).ledger, from, to, amount),
    {
        let _ = self.ledger.transfer(auth, from, to, amount);
    }
}

} // verus!
