//! The canonical ledger engine.
//!
//! A [`Ledger`] value is the whole durable state of one token instance:
//! admin identity, metadata, pause switch, balance table and aggregate
//! supply. Each operation validates every precondition before it mutates
//! anything, so a refused call returns its [`Error`] with the state exactly
//! as it was, and a successful call satisfies the transition predicate
//! (`initialize_applied`, `transfer_applied`, ...) stated for it.
//!
//! The well-formedness predicate [`Ledger::wf`] carries the supply
//! invariant — the aggregate supply equals the sum of all balances, and no
//! balance is negative — through every operation.

use vstd::prelude::*;
use crate::account::{Account, AuthProof};
use crate::entries::{
    BalanceEntry, entries_nonneg, entries_unique, lemma_lookup_absent, lemma_lookup_found,
    lemma_lookup_le_sum, lemma_lookup_nonneg, lemma_lookup_push_other, lemma_lookup_update_other,
    lemma_sum_nonneg, lemma_sum_push, lemma_sum_update, lookup_amount, sum_amounts,
};
use crate::error::Error;

verus! {

/// The durable state of one token instance.
#[verifier::ext_equal]
pub struct Ledger {
    /// The single privileged identity; `None` until `initialize`.
    pub admin: Option<Account>,
    /// Token name, written once at initialization.
    pub name: String,
    /// Token symbol, written once at initialization.
    pub symbol: String,
    /// Token decimals, written once at initialization.
    pub decimals: u32,
    /// The pause switch: while set, no value moves.
    pub paused: bool,
    /// The aggregate supply; always the sum of all balances.
    pub supply: i128,
    /// The balance table, one entry per account.
    pub balances: Vec<BalanceEntry>,
}

impl Ledger {
    /// Whether `initialize` has completed on this ledger.
    pub open spec fn initialized(self) -> bool {
        self.admin is Some
    }

    /// The admin identity, meaningful once initialized.
    pub open spec fn spec_admin(self) -> Account
        recommends
            self.initialized(),
    {
        self.admin->Some_0
    }

    /// The balance of `account`; an account without an entry holds 0.
    pub open spec fn spec_balance(self, account: Account) -> int {
        lookup_amount(self.balances@, account)
    }

    /// Well-formedness: one entry per account, no negative balance, the
    /// supply equal to the sum of all balances, and nothing recorded before
    /// initialization.
    pub open spec fn wf(self) -> bool {
        &&& entries_unique(self.balances@)
        &&& entries_nonneg(self.balances@)
        &&& self.supply == sum_amounts(self.balances@)
        &&& (!self.initialized() ==> self.balances@.len() == 0 && !self.paused && self.supply
            == 0)
    }

    /// The result `initialize` owes on a ledger in state `pre`.
    pub open spec fn initialize_check(pre: Ledger) -> Result<(), Error> {
        if pre.initialized() {
            Err(Error::AlreadyInitialized)
        } else {
            Ok(())
        }
    }

    /// The result `transfer` owes, with the checks in their specified
    /// order: authorization, pause switch, amount validity, funds.
    pub open spec fn transfer_check(
        pre: Ledger,
        caller: Account,
        from: Account,
        amount: i128,
    ) -> Result<(), Error> {
        if !pre.initialized() {
            Err(Error::NotInitialized)
        } else if caller != from {
            Err(Error::Unauthorized)
        } else if pre.paused {
            Err(Error::Paused)
        } else if amount <= 0 {
            Err(Error::InvalidAmount)
        } else if pre.spec_balance(from) < amount {
            Err(Error::InsufficientBalance)
        } else {
            Ok(())
        }
    }

    /// The result `mint` owes: only the admin mints, never while paused.
    pub open spec fn mint_check(pre: Ledger, caller: Account, amount: i128) -> Result<
        (),
        Error,
    > {
        if !pre.initialized() {
            Err(Error::NotInitialized)
        } else if caller != pre.spec_admin() {
            Err(Error::Unauthorized)
        } else if pre.paused {
            Err(Error::Paused)
        } else if amount <= 0 {
            Err(Error::InvalidAmount)
        } else {
            Ok(())
        }
    }

    /// The result `burn` owes: the holder authorizes, never while paused,
    /// and only up to the held balance.
    pub open spec fn burn_check(pre: Ledger, caller: Account, from: Account, amount: i128) -> Result<
        (),
        Error,
    > {
        if !pre.initialized() {
            Err(Error::NotInitialized)
        } else if caller != from {
            Err(Error::Unauthorized)
        } else if pre.paused {
            Err(Error::Paused)
        } else if amount <= 0 {
            Err(Error::InvalidAmount)
        } else if pre.spec_balance(from) < amount {
            Err(Error::InsufficientBalance)
        } else {
            Ok(())
        }
    }

    /// The result `pause` and `unpause` owe: only the admin flips the switch.
    pub open spec fn pause_check(pre: Ledger, caller: Account) -> Result<(), Error> {
        if !pre.initialized() {
            Err(Error::NotInitialized)
        } else if caller != pre.spec_admin() {
            Err(Error::Unauthorized)
        } else {
            Ok(())
        }
    }

    /// What a successful `initialize` did.
    pub open spec fn initialize_applied(
        pre: Ledger,
        post: Ledger,
        admin: Account,
        name: String,
        symbol: String,
        decimals: u32,
        initial_supply: i128,
    ) -> bool {
        &&& post.initialized()
        &&& post.admin == Some(admin)
        &&& post.name == name
        &&& post.symbol == symbol
        &&& post.decimals == decimals
        &&& !post.paused
        &&& post.supply == initial_supply
        &&& post.spec_balance(admin) == initial_supply
        &&& forall|b: Account| b != admin ==> post.spec_balance(b) == 0
    }

    /// What a successful `transfer` did: value conserved, a self-transfer a
    /// no-op, every uninvolved account and all singleton state untouched.
    pub open spec fn transfer_applied(
        pre: Ledger,
        post: Ledger,
        from: Account,
        to: Account,
        amount: i128,
    ) -> bool {
        &&& (from != to ==> post.spec_balance(from) == pre.spec_balance(from) - amount
            && post.spec_balance(to) == pre.spec_balance(to) + amount)
        &&& (from == to ==> post.spec_balance(from) == pre.spec_balance(from))
        &&& forall|b: Account|
            b != from && b != to ==> post.spec_balance(b) == pre.spec_balance(b)
        &&& post.supply == pre.supply
        &&& post.admin == pre.admin
        &&& post.name == pre.name
        &&& post.symbol == pre.symbol
        &&& post.decimals == pre.decimals
        &&& post.paused == pre.paused
    }

    /// What a successful `mint` did: one balance and the supply raised by
    /// the same amount, all else untouched.
    pub open spec fn mint_applied(pre: Ledger, post: Ledger, to: Account, amount: i128) -> bool {
        &&& post.spec_balance(to) == pre.spec_balance(to) + amount
        &&& forall|b: Account| b != to ==> post.spec_balance(b) == pre.spec_balance(b)
        &&& post.supply == pre.supply + amount
        &&& post.admin == pre.admin
        &&& post.name == pre.name
        &&& post.symbol == pre.symbol
        &&& post.decimals == pre.decimals
        &&& post.paused == pre.paused
    }

    /// What a successful `burn` did: one balance and the supply lowered by
    /// the same amount, all else untouched.
    pub open spec fn burn_applied(pre: Ledger, post: Ledger, from: Account, amount: i128) -> bool {
        &&& post.spec_balance(from) == pre.spec_balance(from) - amount
        &&& forall|b: Account| b != from ==> post.spec_balance(b) == pre.spec_balance(b)
        &&& post.supply == pre.supply - amount
        &&& post.admin == pre.admin
        &&& post.name == pre.name
        &&& post.symbol == pre.symbol
        &&& post.decimals == pre.decimals
        &&& post.paused == pre.paused
    }

    /// What a successful `pause` did: the switch set, all else untouched.
    pub open spec fn pause_applied(pre: Ledger, post: Ledger) -> bool {
        &&& post.paused
        &&& post.admin == pre.admin
        &&& post.name == pre.name
        &&& post.symbol == pre.symbol
        &&& post.decimals == pre.decimals
        &&& post.supply == pre.supply
        &&& post.balances@ == pre.balances@
    }

    /// What a successful `unpause` did: the switch cleared, all else
    /// untouched.
    pub open spec fn unpause_applied(pre: Ledger, post: Ledger) -> bool {
        &&& !post.paused
        &&& post.admin == pre.admin
        &&& post.name == pre.name
        &&& post.symbol == pre.symbol
        &&& post.decimals == pre.decimals
        &&& post.supply == pre.supply
        &&& post.balances@ == pre.balances@
    }

    /// A fresh, uninitialized ledger.
    pub fn new() -> (l: Ledger)
        ensures
            l.wf(),
            !l.initialized(),
            !l.paused,
            l.supply == 0,
            l.decimals == 0,
            l.name@ == Seq::<char>::empty(),
            l.symbol@ == Seq::<char>::empty(),
            forall|b: Account| l.spec_balance(b) == 0,
    {
        let l = Ledger {
            admin: None,
            name: String::new(),
            symbol: String::new(),
            decimals: 0,
            paused: false,
            supply: 0,
            balances: Vec::new(),
        };
        proof {
            assert forall|b: Account| l.spec_balance(b) == 0 by {
                lemma_lookup_absent(l.balances@, b);
            }
        }
        l
    }

    /// The index of `account`'s entry in the balance table, if any.
    fn find_index(&self, account: Account) -> (r: Option<usize>)
        ensures
            match r {
                Some(i) => i < self.balances@.len() && self.balances@[i as int].account == account
                    && forall|k: int|
                    0 <= k < i ==> (#[trigger] self.balances@[k]).account != account,
                None => forall|k: int|
                    0 <= k < self.balances@.len() ==> (#[trigger] self.balances@[k]).account
                        != account,
            },
    {
        let mut i: usize = 0;
        while i < self.balances.len()
            invariant
                i <= self.balances@.len(),
                forall|k: int| 0 <= k < i ==> (#[trigger] self.balances@[k]).account != account,
            decreases self.balances@.len() - i,
        {
            if self.balances[i].account == account {
                return Some(i);
            }
            i = i + 1;
        }
        None
    }

    /// The balance of `account`; 0 for an account without an entry.
    pub fn balance(&self, account: Account) -> (r: i128)
        ensures
            r == self.spec_balance(account),
    {
        match self.find_index(account) {
            Some(i) => {
                proof {
                    lemma_lookup_found(self.balances@, account, i as int);
                }
                self.balances[i].amount
            },
            None => {
                proof {
                    lemma_lookup_absent(self.balances@, account);
                }
                0
            },
        }
    }

    /// Record `amount` as the balance of `account`, overwriting its entry
    /// or appending one.
    fn set_balance(&mut self, account: Account, amount: i128)
        requires
            entries_unique(old(self).balances@),
            entries_nonneg(old(self).balances@),
            0 <= amount,
        ensures
            entries_unique(final(self).balances@),
            entries_nonneg(final(self).balances@),
            final(self).spec_balance(account) == amount,
            forall|b: Account|
                b != account ==> final(self).spec_balance(b) == old(self).spec_balance(b),
            sum_amounts(final(self).balances@) == sum_amounts(old(self).balances@) - old(
                self,
            ).spec_balance(account) + amount,
            final(self).admin == old(self).admin,
            final(self).name == old(self).name,
            final(self).symbol == old(self).symbol,
            final(self).decimals == old(self).decimals,
            final(self).paused == old(self).paused,
            final(self).supply == old(self).supply,
    {
        let e = BalanceEntry { account, amount };
        match self.find_index(account) {
            Some(i) => {
                proof {
                    lemma_lookup_found(self.balances@, account, i as int);
                    lemma_sum_update(self.balances@, i as int, e);
                }
                self.balances.set(i, e);
                proof {
                    let pre = old(self).balances@;
                    let post = self.balances@;
                    lemma_lookup_found(post, account, i as int);
                    assert forall|b: Account|
                        b != account implies lookup_amount(post, b) == lookup_amount(
                        pre,
                        b,
                    ) by {
                        lemma_lookup_update_other(pre, i as int, e, b);
                    }
                    assert forall|p: int, q: int|
                        0 <= p < q < post.len() implies (#[trigger] post[p]).account != (
                    #[trigger] post[q]).account by {
                        assert(pre[p].account != pre[q].account);
                    }
                }
            },
            None => {
                proof {
                    lemma_lookup_absent(self.balances@, account);
                    lemma_sum_push(self.balances@, e);
                }
                self.balances.push(e);
                proof {
                    let pre = old(self).balances@;
                    let post = self.balances@;
                    lemma_lookup_found(post, account, pre.len() as int);
                    assert forall|b: Account|
                        b != account implies lookup_amount(post, b) == lookup_amount(
                        pre,
                        b,
                    ) by {
                        lemma_lookup_push_other(pre, e, b);
                    }
                    assert forall|p: int, q: int|
                        0 <= p < q < post.len() implies (#[trigger] post[p]).account != (
                    #[trigger] post[q]).account by {
                        if q < pre.len() {
                            assert(pre[p].account != pre[q].account);
                        } else {
                            assert(pre[p].account != account);
                        }
                    }
                }
            },
        }
    }

    /// Create the whole token state in one step: admin, metadata, pause
    /// switch cleared, and the initial supply credited to the admin. The
    /// only operation allowed on an uninitialized ledger, and allowed only
    /// once.
    pub fn initialize(
        &mut self,
        admin: Account,
        name: String,
        symbol: String,
        decimals: u32,
        initial_supply: i128,
    ) -> (r: Result<(), Error>)
        requires
            old(self).wf(),
            0 <= initial_supply,
        ensures
            final(self).wf(),
            r == Ledger::initialize_check(*old(self)),
            r is Err ==> *final(self) == *old(self),
            r is Ok ==> Ledger::initialize_applied(
                *old(self),
                *final(self),
                admin,
                name,
                symbol,
                decimals,
                initial_supply,
            ),
    {
        if self.admin.is_some() {
            return Err(Error::AlreadyInitialized);
        }
        self.admin = Some(admin);
        self.name = name;
        self.symbol = symbol;
        self.decimals = decimals;
        self.paused = false;
        self.supply = initial_supply;
        if initial_supply > 0 {
            let e = BalanceEntry { account: admin, amount: initial_supply };
            proof {
                lemma_sum_push(self.balances@, e);
            }
            self.balances.push(e);
            proof {
                let post = self.balances@;
                lemma_lookup_found(post, admin, 0);
                assert forall|b: Account| b != admin implies lookup_amount(post, b) == 0 by {
                    lemma_lookup_absent(post, b);
                }
            }
        } else {
            proof {
                assert forall|b: Account| #[trigger] self.spec_balance(b) == 0 by {
                    lemma_lookup_absent(self.balances@, b);
                }
            }
        }
        Ok(())
    }

    /// Move `amount` from `from` to `to`, sanctioned by `from`. The supply
    /// is conserved; a transfer to oneself changes nothing.
    pub fn transfer(
        &mut self,
        auth: &AuthProof,
        from: Account,
        to: Account,
        amount: i128,
    ) -> (r: Result<(), Error>)
        requires
            old(self).wf(),
        ensures
            final(self).wf(),
            r == Ledger::transfer_check(*old(self), auth.account, from, amount),
            r is Err ==> *final(self) == *old(self),
            r is Ok ==> Ledger::transfer_applied(*old(self), *final(self), from, to, amount),
    {
        if self.admin.is_none() {
            return Err(Error::NotInitialized);
        }
        if !auth.authorizes(from) {
            return Err(Error::Unauthorized);
        }
        if self.paused {
            return Err(Error::Paused);
        }
        if amount <= 0 {
            return Err(Error::InvalidAmount);
        }
        let from_balance = self.balance(from);
        if from_balance < amount {
            return Err(Error::InsufficientBalance);
        }
        self.set_balance(from, from_balance - amount);
        let to_balance = self.balance(to);
        proof {
            lemma_lookup_nonneg(self.balances@, to);
            lemma_lookup_le_sum(self.balances@, to);
        }
        self.set_balance(to, to_balance + amount);
        Ok(())
    }

    /// Create `amount` new units on `to`'s balance; admin only, never while
    /// paused. The supply grows by the same amount.
    pub fn mint(&mut self, auth: &AuthProof, to: Account, amount: i128) -> (r: Result<(), Error>)
        requires
            old(self).wf(),
            amount > 0 ==> old(self).supply + amount <= i128::MAX,
        ensures
            final(self).wf(),
            r == Ledger::mint_check(*old(self), auth.account, amount),
            r is Err ==> *final(self) == *old(self),
            r is Ok ==> Ledger::mint_applied(*old(self), *final(self), to, amount),
    {
        let admin = match self.admin {
            Some(a) => a,
            None => {
                return Err(Error::NotInitialized);
            },
        };
        if !auth.authorizes(admin) {
            return Err(Error::Unauthorized);
        }
        if self.paused {
            return Err(Error::Paused);
        }
        if amount <= 0 {
            return Err(Error::InvalidAmount);
        }
        let to_balance = self.balance(to);
        proof {
            lemma_lookup_nonneg(self.balances@, to);
            lemma_lookup_le_sum(self.balances@, to);
        }
        self.set_balance(to, to_balance + amount);
        self.supply = self.supply + amount;
        Ok(())
    }

    /// Destroy `amount` units of `from`'s balance, sanctioned by `from`;
    /// never while paused. The supply shrinks by the same amount.
    pub fn burn(&mut self, auth: &AuthProof, from: Account, amount: i128) -> (r: Result<(), Error>)
        requires
            old(self).wf(),
        ensures
            final(self).wf(),
            r == Ledger::burn_check(*old(self), auth.account, from, amount),
            r is Err ==> *final(self) == *old(self),
            r is Ok ==> Ledger::burn_applied(*old(self), *final(self), from, amount),
    {
        if self.admin.is_none() {
            return Err(Error::NotInitialized);
        }
        if !auth.authorizes(from) {
            return Err(Error::Unauthorized);
        }
        if self.paused {
            return Err(Error::Paused);
        }
        if amount <= 0 {
            return Err(Error::InvalidAmount);
        }
        let from_balance = self.balance(from);
        if from_balance < amount {
            return Err(Error::InsufficientBalance);
        }
        proof {
            lemma_sum_nonneg(self.balances@);
            lemma_lookup_le_sum(self.balances@, from);
        }
        self.set_balance(from, from_balance - amount);
        self.supply = self.supply - amount;
        Ok(())
    }

    /// Set the pause switch; admin only. Idempotent.
    pub fn pause(&mut self, auth: &AuthProof) -> (r: Result<(), Error>)
        requires
            old(self).wf(),
        ensures
            final(self).wf(),
            r == Ledger::pause_check(*old(self), auth.account),
            r is Err ==> *final(self) == *old(self),
            r is Ok ==> Ledger::pause_applied(*old(self), *final(self)),
    {
        let admin = match self.admin {
            Some(a) => a,
            None => {
                return Err(Error::NotInitialized);
            },
        };
        if !auth.authorizes(admin) {
            return Err(Error::Unauthorized);
        }
        self.paused = true;
        Ok(())
    }

    /// Clear the pause switch; admin only. Idempotent.
    pub fn unpause(&mut self, auth: &AuthProof) -> (r: Result<(), Error>)
        requires
            old(self).wf(),
        ensures
            final(self).wf(),
            r == Ledger::pause_check(*old(self), auth.account),
            r is Err ==> *final(self) == *old(self),
            r is Ok ==> Ledger::unpause_applied(*old(self), *final(self)),
    {
        let admin = match self.admin {
            Some(a) => a,
            None => {
                return Err(Error::NotInitialized);
            },
        };
        if !auth.authorizes(admin) {
            return Err(Error::Unauthorized);
        }
        self.paused = false;
        Ok(())
    }

    /// The token name.
    pub fn name(&self) -> (r: String)
        ensures
            r@ == self.name@,
    {
        self.name.clone()
    }

    /// The token symbol.
    pub fn symbol(&self) -> (r: String)
        ensures
            r@ == self.symbol@,
    {
        self.symbol.clone()
    }

    /// The token decimals.
    pub fn decimals(&self) -> (r: u32)
        ensures
            r == self.decimals,
    {
        self.decimals
    }

    /// The aggregate supply.
    pub fn total_supply(&self) -> (r: i128)
        ensures
            r == self.supply,
    {
        self.supply
    }

    /// Whether the pause switch is set.
    pub fn is_paused(&self) -> (r: bool)
        ensures
            r == self.paused,
    {
        self.paused
    }

    /// The admin identity, once initialized.
    pub fn admin(&self) -> (r: Result<Account, Error>)
        ensures
            r == (if self.initialized() {
                Ok::<Account, Error>(self.spec_admin())
            } else {
                Err::<Account, Error>(Error::NotInitialized)
            }),
    {
        match self.admin {
            Some(a) => Ok(a),
            None => Err(Error::NotInitialized),
        }
    }
}

} // verus!
