//! The abort-style token front end with supply control and a pause switch.
//!
//! This variant reports no errors: every condition that would make an
//! operation fail — missing authorization, the pause switch, insufficient
//! funds, a non-positive amount — is stated as a precondition instead, so a
//! verified caller can never trip one. The effects are the engine's
//! transition predicates, unchanged.

use vstd::prelude::*;
use crate::account::{Account, AuthProof};
use crate::ledger::Ledger;

verus! {

/// A token with mint, burn and a pause switch, in the abort style.
pub struct TokenAdvanced {
    pub ledger: Ledger,
}

impl TokenAdvanced {
    /// A fresh, uninitialized token.
    pub fn new() -> (t: TokenAdvanced)
        ensures
            t.ledger.wf(),
            !t.ledger.initialized(),
    {
        TokenAdvanced { ledger: Ledger::new() }
    }

    /// Write admin, metadata and initial supply; callable only once.
    pub fn initialize(
        &mut self,
        admin: Account,
        name: String,
        symbol: String,
        decimals: u32,
        initial_supply: i128,
    )
        requires
            old(self).ledger.wf(),
            !old(self).ledger.initialized(),
            0 <= initial_supply,
        ensures
            final(self).ledger.wf(),
            Ledger::initialize_applied(
                old(self).ledger,
                final(self).ledger,
                admin,
                name,
                symbol,
                decimals,
                initial_supply,
            ),
    {
        let _ = self.ledger.initialize(admin, name, symbol, decimals, initial_supply);
    }

    /// The token name.
    pub fn name(&self) -> (r: String)
        requires
            self.ledger.initialized(),
        ensures
            r@ == self.ledger.name@,
    {
        self.ledger.name()
    }

    /// The token symbol.
    pub fn symbol(&self) -> (r: String)
        requires
            self.ledger.initialized(),
        ensures
            r@ == self.ledger.symbol@,
    {
        self.ledger.symbol()
    }

    /// The token decimals.
    pub fn decimals(&self) -> (r: u32)
        requires
            self.ledger.initialized(),
        ensures
            r == self.ledger.decimals,
    {
        self.ledger.decimals()
    }

    /// The aggregate supply.
    pub fn total_supply(&self) -> (r: i128)
        ensures
            r == self.ledger.supply,
    {
        self.ledger.total_supply()
    }

    /// The balance of `owner`; 0 without an entry.
    pub fn balance(&self, owner: Account) -> (r: i128)
        ensures
            r == self.ledger.spec_balance(owner),
    {
        self.ledger.balance(owner)
    }

    /// Move `amount` from `from` to `to`; `from` must have sanctioned the
    /// call, the token must not be paused, and the funds must be there.
    pub fn transfer(&mut self, auth: &AuthProof, from: Account, to: Account, amount: i128)
        requires
            old(self).ledger.wf(),
            old(self).ledger.initialized(),
            auth.account == from,
            !old(self).ledger.paused,
            0 < amount,
            amount <= old(self).ledger.spec_balance(from),
        ensures
            final(self).ledger.wf(),
            Ledger::transfer_applied(old(self).ledger, final(self).ledger, from, to, amount),
    {
        let _ = self.ledger.transfer(auth, from, to, amount);
    }

    /// Create `amount` new units on `to`'s balance; admin only, not while
    /// paused.
    pub fn mint(&mut self, auth: &AuthProof, to: Account, amount: i128)
        requires
            old(self).ledger.wf(),
            old(self).ledger.initialized(),
            auth.account == old(self).ledger.spec_admin(),
            !old(self).ledger.paused,
            0 < amount,
            old(self).ledger.supply + amount <= i128::MAX,
        ensures
            final(self).ledger.wf(),
            Ledger::mint_applied(old(self).ledger, final(self).ledger, to, amount),
    {
        let _ = self.ledger.mint(auth, to, amount);
    }

    /// Destroy `amount` units of `from`'s balance; `from` must have
    /// sanctioned the call, and the funds must be there.
    pub fn burn(&mut self, auth: &AuthProof, from: Account, amount: i128)
        requires
            old(self).ledger.wf(),
            old(self).ledger.initialized(),
            auth.account == from,
            !old(self).ledger.paused,
            0 < amount,
            amount <= old(self).ledger.spec_balance(from),
        ensures
            final(self).ledger.wf(),
            Ledger::burn_applied(old(self).ledger, final(self).ledger, from, amount),
    {
        let _ = self.ledger.burn(auth, from, amount);
    }

    /// Set the pause switch; admin only. Idempotent.
    pub fn pause(&mut self, auth: &AuthProof)
        requires
            old(self).ledger.wf(),
            old(self).ledger.initialized(),
            auth.account == old(self).ledger.spec_admin(),
        ensures
            final(self).ledger.wf(),
            Ledger::pause_applied(old(self).ledger, final(self).ledger),
    {
        let _ = self.ledger.pause(auth);
    }

    /// Clear the pause switch; admin only. Idempotent.
    pub fn unpause(&mut self, auth: &AuthProof)
        requires
            old(self).ledger.wf(),
            old(self).ledger.initialized(),
            auth.account == old(self).ledger.spec_admin(),
        ensures
            final(self).ledger.wf(),
            Ledger::unpause_applied(old(self).ledger, final(self).ledger),
    {
        let _ = self.ledger.unpause(auth);
    }

    /// Whether the pause switch is set.
    pub fn is_paused(&self) -> (r: bool)
        ensures
            r == self.ledger.paused,
    {
        self.ledger.is_paused()
    }
}

} // verus!
