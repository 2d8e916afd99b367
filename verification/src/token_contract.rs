//! The result-style token front end.
//!
//! This variant reports every violated precondition as a typed [`Error`]
//! and guarantees that a refused call leaves all state untouched. Besides
//! the engine's operations it carries the sketched delegation extension: an
//! allowance table, written by `approve` and spent by `transfer_from`.

use vstd::prelude::*;
use crate::account::{Account, AuthProof};
use crate::error::Error;
use crate::ledger::Ledger;

verus! {

/// The token descriptors, as one value.
pub struct TokenMetadata {
    pub name: String,
    pub symbol: String,
    pub decimals: u32,
}

/// One row of the allowance table: what `spender` may still move out of
/// `owner`'s balance.
#[derive(Clone, Copy, PartialEq, Eq, Structural, Debug)]
pub struct AllowanceEntry {
    pub owner: Account,
    pub spender: Account,
    pub amount: i128,
}

/// No (owner, spender) pair appears in two entries.
pub open spec fn allowances_unique(s: Seq<AllowanceEntry>) -> bool {
    forall|i: int, j: int|
        0 <= i < j < s.len() ==> !((#[trigger] s[i]).owner == (#[trigger] s[j]).owner
            && s[i].spender == s[j].spender)
}

/// Every recorded allowance is non-negative.
pub open spec fn allowances_nonneg(s: Seq<AllowanceEntry>) -> bool {
    forall|i: int| 0 <= i < s.len() ==> 0 <= (#[trigger] s[i]).amount
}

/// The allowance recorded for the pair, or 0 when there is none.
pub open spec fn allowance_lookup(s: Seq<AllowanceEntry>, owner: Account, spender: Account) -> int
    decreases s.len(),
{
    if s.len() == 0 {
        0
    } else if s[0].owner == owner && s[0].spender == spender {
        s[0].amount as int
    } else {
        allowance_lookup(s.drop_first(), owner, spender)
    }
}

proof fn lemma_allowance_found(s: Seq<AllowanceEntry>, owner: Account, spender: Account, i: int)
    requires
        0 <= i < s.len(),
        s[i].owner == owner,
        s[i].spender == spender,
        forall|k: int|
            0 <= k < i ==> !((#[trigger] s[k]).owner == owner && s[k].spender == spender),
    ensures
        allowance_lookup(s, owner, spender) == s[i].amount,
    decreases s.len(),
{
    if i > 0 {
        assert(!(s[0].owner == owner && s[0].spender == spender));
        assert(s.drop_first()[i - 1] == s[i]);
        assert forall|k: int|
            0 <= k < i - 1 implies !((#[trigger] s.drop_first()[k]).owner == owner
            && s.drop_first()[k].spender == spender) by {
            assert(s.drop_first()[k] == s[k + 1]);
        }
        lemma_allowance_found(s.drop_first(), owner, spender, i - 1);
    }
}

proof fn lemma_allowance_absent(s: Seq<AllowanceEntry>, owner: Account, spender: Account)
    requires
        forall|k: int|
            0 <= k < s.len() ==> !((#[trigger] s[k]).owner == owner && s[k].spender == spender),
    ensures
        allowance_lookup(s, owner, spender) == 0,
    decreases s.len(),
{
    if s.len() > 0 {
        assert forall|k: int|
            0 <= k < s.drop_first().len() implies !((#[trigger] s.drop_first()[k]).owner == owner
            && s.drop_first()[k].spender == spender) by {
            assert(s.drop_first()[k] == s[k + 1]);
        }
        lemma_allowance_absent(s.drop_first(), owner, spender);
    }
}

proof fn lemma_allowance_update_other(
    s: Seq<AllowanceEntry>,
    i: int,
    e: AllowanceEntry,
    owner: Account,
    spender: Account,
)
    requires
        0 <= i < s.len(),
        !(owner == e.owner && spender == e.spender),
        !(owner == s[i].owner && spender == s[i].spender),
    ensures
        allowance_lookup(s.update(i, e), owner, spender) == allowance_lookup(s, owner, spender),
    decreases s.len(),
{
    if i == 0 {
        assert(s.update(0, e).drop_first() =~= s.drop_first());
    } else {
        assert(s.update(i, e)[0] == s[0]);
        if !(s[0].owner == owner && s[0].spender == spender) {
            assert(s.update(i, e).drop_first() =~= s.drop_first().update(i - 1, e));
            lemma_allowance_update_other(s.drop_first(), i - 1, e, owner, spender);
        }
    }
}

proof fn lemma_allowance_push_other(
    s: Seq<AllowanceEntry>,
    e: AllowanceEntry,
    owner: Account,
    spender: Account,
)
    requires
        !(owner == e.owner && spender == e.spender),
    ensures
        allowance_lookup(s.push(e), owner, spender) == allowance_lookup(s, owner, spender),
    decreases s.len(),
{
    if s.len() == 0 {
        assert(s.push(e).drop_first() =~= s);
    } else {
        assert(s.push(e)[0] == s[0]);
        if !(s[0].owner == owner && s[0].spender == spender) {
            assert(s.push(e).drop_first() =~= s.drop_first().push(e));
            lemma_allowance_push_other(s.drop_first(), e, owner, spender);
        }
    }
}

/// A token whose operations return typed errors, with an allowance table.
pub struct TokenContract {
    pub ledger: Ledger,
    pub allowances: Vec<AllowanceEntry>,
}

impl TokenContract {
    /// Well-formedness: the engine's invariant, and an allowance table with
    /// one non-negative entry per (owner, spender) pair.
    pub open spec fn wf(self) -> bool {
        &&& self.ledger.wf()
        &&& allowances_unique(self.allowances@)
        &&& allowances_nonneg(self.allowances@)
    }

    /// What `spender` may still move out of `owner`'s balance.
    pub open spec fn spec_allowance(self, owner: Account, spender: Account) -> int {
        allowance_lookup(self.allowances@, owner, spender)
    }

    /// The result `approve` owes: the owner authorizes, and a negative
    /// allowance is meaningless (0 revokes).
    pub open spec fn approve_check(pre: TokenContract, caller: Account, from: Account, amount: i128) -> Result<
        (),
        Error,
    > {
        if !pre.ledger.initialized() {
            Err(Error::NotInitialized)
        } else if caller != from {
            Err(Error::Unauthorized)
        } else if amount < 0 {
            Err(Error::InvalidAmount)
        } else {
            Ok(())
        }
    }

    /// The result `transfer_from` owes: the spender authorizes, and is
    /// sanctioned only up to the recorded allowance.
    pub open spec fn transfer_from_check(
        pre: TokenContract,
        caller: Account,
        spender: Account,
        from: Account,
        amount: i128,
    ) -> Result<(), Error> {
        if !pre.ledger.initialized() {
            Err(Error::NotInitialized)
        } else if caller != spender {
            Err(Error::Unauthorized)
        } else if pre.ledger.paused {
            Err(Error::Paused)
        } else if amount <= 0 {
            Err(Error::InvalidAmount)
        } else if pre.spec_allowance(from, spender) < amount {
            Err(Error::Unauthorized)
        } else if pre.ledger.spec_balance(from) < amount {
            Err(Error::InsufficientBalance)
        } else {
            Ok(())
        }
    }

    /// What a successful `approve` did: one allowance set, nothing else.
    pub open spec fn approve_applied(
        pre: TokenContract,
        post: TokenContract,
        from: Account,
        spender: Account,
        amount: i128,
    ) -> bool {
        &&& post.spec_allowance(from, spender) == amount
        &&& forall|o: Account, s: Account|
            !(o == from && s == spender) ==> post.spec_allowance(o, s) == pre.spec_allowance(o, s)
        &&& post.ledger == pre.ledger
    }

    /// What a successful `transfer_from` did: the transfer, and the spent
    /// allowance lowered by the amount.
    pub open spec fn transfer_from_applied(
        pre: TokenContract,
        post: TokenContract,
        spender: Account,
        from: Account,
        to: Account,
        amount: i128,
    ) -> bool {
        &&& Ledger::transfer_applied(pre.ledger, post.ledger, from, to, amount)
        &&& post.spec_allowance(from, spender) == pre.spec_allowance(from, spender) - amount
        &&& forall|o: Account, s: Account|
            !(o == from && s == spender) ==> post.spec_allowance(o, s) == pre.spec_allowance(o, s)
    }

    /// A fresh, uninitialized token.
    pub fn new() -> (t: TokenContract)
        ensures
            t.wf(),
            !t.ledger.initialized(),
            forall|o: Account, s: Account| t.spec_allowance(o, s) == 0,
    {
        let t = TokenContract { ledger: Ledger::new(), allowances: Vec::new() };
        proof {
            assert forall|o: Account, s: Account| t.spec_allowance(o, s) == 0 by {
                lemma_allowance_absent(t.allowances@, o, s);
            }
        }
        t
    }

    /// The index of the pair's entry in the allowance table, if any.
    fn find_allowance_index(&self, owner: Account, spender: Account) -> (r: Option<usize>)
        ensures
            match r {
                Some(i) => i < self.allowances@.len() && self.allowances@[i as int].owner == owner
                    && self.allowances@[i as int].spender == spender && forall|k: int|
                    0 <= k < i ==> !((#[trigger] self.allowances@[k]).owner == owner
                        && self.allowances@[k].spender == spender),
                None => forall|k: int|
                    0 <= k < self.allowances@.len() ==> !((#[trigger] self.allowances@[k]).owner
                        == owner && self.allowances@[k].spender == spender),
            },
    {
        let mut i: usize = 0;
        while i < self.allowances.len()
            invariant
                i <= self.allowances@.len(),
                forall|k: int|
                    0 <= k < i ==> !((#[trigger] self.allowances@[k]).owner == owner
                        && self.allowances@[k].spender == spender),
            decreases self.allowances@.len() - i,
        {
            let e = self.allowances[i];
            if e.owner == owner && e.spender == spender {
                return Some(i);
            }
            i = i + 1;
        }
        None
    }

    /// Record `amount` as the pair's allowance, overwriting its entry or
    /// appending one.
    fn set_allowance(&mut self, owner: Account, spender: Account, amount: i128)
        requires
            allowances_unique(old(self).allowances@),
            allowances_nonneg(old(self).allowances@),
            0 <= amount,
        ensures
            allowances_unique(final(self).allowances@),
            allowances_nonneg(final(self).allowances@),
            final(self).spec_allowance(owner, spender) == amount,
            forall|o: Account, s: Account|
                !(o == owner && s == spender) ==> final(self).spec_allowance(o, s) == old(
                    self,
                ).spec_allowance(o, s),
            final(self).ledger == old(self).ledger,
    {
        let e = AllowanceEntry { owner, spender, amount };
        match self.find_allowance_index(owner, spender) {
            Some(i) => {
                self.allowances.set(i, e);
                proof {
                    let pre = old(self).allowances@;
                    let post = self.allowances@;
                    lemma_allowance_found(post, owner, spender, i as int);
                    assert forall|o: Account, s: Account|
                        !(o == owner && s == spender) implies allowance_lookup(post, o, s)
                        == allowance_lookup(pre, o, s) by {
                        lemma_allowance_update_other(pre, i as int, e, o, s);
                    }
                    assert forall|p: int, q: int|
                        0 <= p < q < post.len() implies !((#[trigger] post[p]).owner == (
                    #[trigger] post[q]).owner && post[p].spender == post[q].spender) by {
                        assert(!(pre[p].owner == pre[q].owner && pre[p].spender
                            == pre[q].spender));
                    }
                }
            },
            None => {
                proof {
                    lemma_allowance_absent(self.allowances@, owner, spender);
                }
                self.allowances.push(e);
                proof {
                    let pre = old(self).allowances@;
                    let post = self.allowances@;
                    lemma_allowance_found(post, owner, spender, pre.len() as int);
                    assert forall|o: Account, s: Account|
                        !(o == owner && s == spender) implies allowance_lookup(post, o, s)
                        == allowance_lookup(pre, o, s) by {
                        lemma_allowance_push_other(pre, e, o, s);
                    }
                    assert forall|p: int, q: int|
                        0 <= p < q < post.len() implies !((#[trigger] post[p]).owner == (
                    #[trigger] post[q]).owner && post[p].spender == post[q].spender) by {
                        if q < pre.len() {
                            assert(!(pre[p].owner == pre[q].owner && pre[p].spender
                                == pre[q].spender));
                        } else {
                            assert(!(pre[p].owner == owner && pre[p].spender == spender));
                        }
                    }
                }
            },
        }
    }

    /// Create the whole token state in one step; refused with
    /// `AlreadyInitialized` from the second call on.
    pub fn initialize(
        &mut self,
        admin: Account,
        name: String,
        symbol: String,
        decimals: u32,
        initial_supply: i128,
    ) -> (r: Result<(), Error>)
        requires
            old(self).wf(),
            0 <= initial_supply,
        ensures
            final(self).wf(),
            r == Ledger::initialize_check(old(self).ledger),
            r is Err ==> *final(self) == *old(self),
            r is Ok ==> Ledger::initialize_applied(
                old(self).ledger,
                final(self).ledger,
                admin,
                name,
                symbol,
                decimals,
                initial_supply,
            ),
            final(self).allowances == old(self).allowances,
    {
        self.ledger.initialize(admin, name, symbol, decimals, initial_supply)
    }

    /// The token name; empty until initialization.
    pub fn name(&self) -> (r: String)
        ensures
            r@ == self.ledger.name@,
    {
        self.ledger.name()
    }

    /// The token symbol; empty until initialization.
    pub fn symbol(&self) -> (r: String)
        ensures
            r@ == self.ledger.symbol@,
    {
        self.ledger.symbol()
    }

    /// The token decimals; 0 until initialization.
    pub fn decimals(&self) -> (r: u32)
        ensures
            r == self.ledger.decimals,
    {
        self.ledger.decimals()
    }

    /// The three descriptors as one value.
    pub fn metadata(&self) -> (m: TokenMetadata)
        ensures
            m.name@ == self.ledger.name@,
            m.symbol@ == self.ledger.symbol@,
            m.decimals == self.ledger.decimals,
    {
        TokenMetadata {
            name: self.ledger.name(),
            symbol: self.ledger.symbol(),
            decimals: self.ledger.decimals(),
        }
    }

    /// The aggregate supply.
    pub fn total_supply(&self) -> (r: i128)
        ensures
            r == self.ledger.supply,
    {
        self.ledger.total_supply()
    }

    /// The balance of `owner`; 0 without an entry.
    pub fn balance(&self, owner: Account) -> (r: i128)
        ensures
            r == self.ledger.spec_balance(owner),
    {
        self.ledger.balance(owner)
    }

    /// The admin identity, once initialized.
    pub fn admin(&self) -> (r: Result<Account, Error>)
        ensures
            r == (if self.ledger.initialized() {
                Ok::<Account, Error>(self.ledger.spec_admin())
            } else {
                Err::<Account, Error>(Error::NotInitialized)
            }),
    {
        self.ledger.admin()
    }

    /// Move `amount` from `from` to `to`, sanctioned by `from`.
    pub fn transfer(
        &mut self,
        auth: &AuthProof,
        from: Account,
        to: Account,
        amount: i128,
    ) -> (r: Result<(), Error>)
        requires
            old(self).wf(),
        ensures
            final(self).wf(),
            r == Ledger::transfer_check(old(self).ledger, auth.account, from, amount),
            r is Err ==> *final(self) == *old(self),
            r is Ok ==> Ledger::transfer_applied(
                old(self).ledger,
                final(self).ledger,
                from,
                to,
                amount,
            ),
            final(self).allowances == old(self).allowances,
    {
        self.ledger.transfer(auth, from, to, amount)
    }

    /// Create `amount` new units on `to`'s balance; admin only.
    pub fn mint(&mut self, auth: &AuthProof, to: Account, amount: i128) -> (r: Result<(), Error>)
        requires
            old(self).wf(),
            amount > 0 ==> old(self).ledger.supply + amount <= i128::MAX,
        ensures
            final(self).wf(),
            r == Ledger::mint_check(old(self).ledger, auth.account, amount),
            r is Err ==> *final(self) == *old(self),
            r is Ok ==> Ledger::mint_applied(old(self).ledger, final(self).ledger, to, amount),
            final(self).allowances == old(self).allowances,
    {
        self.ledger.mint(auth, to, amount)
    }

    /// Destroy `amount` units of `from`'s balance, sanctioned by `from`.
    pub fn burn(&mut self, auth: &AuthProof, from: Account, amount: i128) -> (r: Result<(), Error>)
        requires
            old(self).wf(),
        ensures
            final(self).wf(),
            r == Ledger::burn_check(old(self).ledger, auth.account, from, amount),
            r is Err ==> *final(self) == *old(self),
            r is Ok ==> Ledger::burn_applied(old(self).ledger, final(self).ledger, from, amount),
            final(self).allowances == old(self).allowances,
    {
        self.ledger.burn(auth, from, amount)
    }

    /// What `spender` may still move out of `from`'s balance.
    pub fn allowance(&self, from: Account, spender: Account) -> (r: i128)
        ensures
            r == self.spec_allowance(from, spender),
    {
        match self.find_allowance_index(from, spender) {
            Some(i) => {
                proof {
                    lemma_allowance_found(self.allowances@, from, spender, i as int);
                }
                self.allowances[i].amount
            },
            None => {
                proof {
                    lemma_allowance_absent(self.allowances@, from, spender);
                }
                0
            },
        }
    }

    /// Sanction `spender` to move up to `amount` out of `from`'s balance;
    /// 0 revokes.
    pub fn approve(
        &mut self,
        auth: &AuthProof,
        from: Account,
        spender: Account,
        amount: i128,
    ) -> (r: Result<(), Error>)
        requires
            old(self).wf(),
        ensures
            final(self).wf(),
            r == TokenContract::approve_check(*old(self), auth.account, from, amount),
            r is Err ==> *final(self) == *old(self),
            r is Ok ==> TokenContract::approve_applied(
                *old(self),
                *final(self),
                from,
                spender,
                amount,
            ),
    {
        if self.ledger.admin().is_err() {
            return Err(Error::NotInitialized);
        }
        if !auth.authorizes(from) {
            return Err(Error::Unauthorized);
        }
        if amount < 0 {
            return Err(Error::InvalidAmount);
        }
        self.set_allowance(from, spender, amount);
        Ok(())
    }

    /// Move `amount` from `from` to `to`, sanctioned by `spender`'s
    /// authorization together with a sufficient recorded allowance, which
    /// the move consumes.
    pub fn transfer_from(
        &mut self,
        auth: &AuthProof,
        spender: Account,
        from: Account,
        to: Account,
        amount: i128,
    ) -> (r: Result<(), Error>)
        requires
            old(self).wf(),
        ensures
            final(self).wf(),
            r == TokenContract::transfer_from_check(*old(self), auth.account, spender, from, amount),
            r is Err ==> *final(self) == *old(self),
            r is Ok ==> TokenContract::transfer_from_applied(
                *old(self),
                *final(self),
                spender,
                from,
                to,
                amount,
            ),
    {
        if self.ledger.admin().is_err() {
            return Err(Error::NotInitialized);
        }
        if !auth.authorizes(spender) {
            return Err(Error::Unauthorized);
        }
        if self.ledger.is_paused() {
            return Err(Error::Paused);
        }
        if amount <= 0 {
            return Err(Error::InvalidAmount);
        }
        let granted = self.allowance(from, spender);
        if granted < amount {
            return Err(Error::Unauthorized);
        }
        let from_auth = AuthProof::for_account(from);
        let moved = self.ledger.transfer(&from_auth, from, to, amount);
        match moved {
            Ok(()) => {
                self.set_allowance(from, spender, granted - amount);
                Ok(())
            },
            Err(e) => Err(e),
        }
    }
}

} // verus!
