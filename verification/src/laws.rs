//! The ledger's laws, stated once and proved for every reachable state.
//!
//! Each lemma here is part of the library's public statement: it speaks over
//! the same spec functions and transition predicates that the operations'
//! `ensures` clauses use, so everything a caller learns from an operation
//! feeds directly into these laws.

use vstd::prelude::*;
use crate::account::Account;
use crate::entries::{lemma_lookup_le_sum, lemma_lookup_nonneg, sum_amounts};
use crate::ledger::Ledger;

verus! {

/// The supply invariant: in every well-formed ledger the aggregate supply
/// equals the sum of all recorded balances. Every operation keeps `wf`, so
/// this holds at every observation point between calls.
pub proof fn lemma_supply_is_sum_of_balances(l: Ledger)
    requires
        l.wf(),
    ensures
        l.supply == sum_amounts(l.balances@),
{
}

/// No account's balance is ever negative, and none exceeds the supply.
pub proof fn lemma_balance_nonneg(l: Ledger, account: Account)
    requires
        l.wf(),
    ensures
        0 <= l.spec_balance(account),
        l.spec_balance(account) <= l.supply,
{
    lemma_lookup_nonneg(l.balances@, account);
    lemma_lookup_le_sum(l.balances@, account);
}

/// One step of any operation after initialization: either a successful
/// economic or pause transition, or a refused call, which leaves the state
/// as it was.
pub open spec fn post_init_step(pre: Ledger, post: Ledger) -> bool {
    ||| exists|from: Account, to: Account, amount: i128|
        Ledger::transfer_applied(pre, post, from, to, amount)
    ||| exists|to: Account, amount: i128| Ledger::mint_applied(pre, post, to, amount)
    ||| exists|from: Account, amount: i128| Ledger::burn_applied(pre, post, from, amount)
    ||| Ledger::pause_applied(pre, post)
    ||| Ledger::unpause_applied(pre, post)
    ||| post == pre
}

/// Metadata and admin identity never change after initialization: no
/// operation other than `initialize` touches them, and `initialize` refuses
/// to run twice.
pub proof fn lemma_admin_and_metadata_immutable(pre: Ledger, post: Ledger)
    requires
        post_init_step(pre, post),
    ensures
        post.admin == pre.admin,
        post.name == pre.name,
        post.symbol == pre.symbol,
        post.decimals == pre.decimals,
{
}

/// Transfer conservation: a transfer between distinct accounts moves the
/// amount from one balance to the other and leaves the supply unchanged.
pub proof fn lemma_transfer_conserves(
    pre: Ledger,
    post: Ledger,
    from: Account,
    to: Account,
    amount: i128,
)
    requires
        Ledger::transfer_applied(pre, post, from, to, amount),
        from != to,
    ensures
        post.spec_balance(from) == pre.spec_balance(from) - amount,
        post.spec_balance(to) == pre.spec_balance(to) + amount,
        post.supply == pre.supply,
{
}

/// A self-transfer is a no-op on all observable state: every balance, the
/// supply, the pause switch, the metadata and the admin are unchanged.
pub proof fn lemma_self_transfer_noop(pre: Ledger, post: Ledger, account: Account, amount: i128)
    requires
        Ledger::transfer_applied(pre, post, account, account, amount),
    ensures
        forall|b: Account| post.spec_balance(b) == pre.spec_balance(b),
        post.supply == pre.supply,
        post.paused == pre.paused,
        post.admin == pre.admin,
        post.name == pre.name,
        post.symbol == pre.symbol,
        post.decimals == pre.decimals,
{
    assert forall|b: Account| post.spec_balance(b) == pre.spec_balance(b) by {
        if b != account {
            assert(post.spec_balance(b) == pre.spec_balance(b));
        }
    }
}

/// Mint and burn are exact inverses: minting an amount onto an account and
/// then burning the same amount from it restores every balance and the
/// supply.
pub proof fn lemma_mint_then_burn_restores(
    l0: Ledger,
    l1: Ledger,
    l2: Ledger,
    account: Account,
    amount: i128,
)
    requires
        Ledger::mint_applied(l0, l1, account, amount),
        Ledger::burn_applied(l1, l2, account, amount),
    ensures
        forall|b: Account| l2.spec_balance(b) == l0.spec_balance(b),
        l2.supply == l0.supply,
        l2.paused == l0.paused,
        l2.admin == l0.admin,
        l2.name == l0.name,
        l2.symbol == l0.symbol,
        l2.decimals == l0.decimals,
{
    assert forall|b: Account| l2.spec_balance(b) == l0.spec_balance(b) by {
        if b != account {
            assert(l1.spec_balance(b) == l0.spec_balance(b));
            assert(l2.spec_balance(b) == l1.spec_balance(b));
        }
    }
}

/// Pausing twice is the same as pausing once: the second `pause` leaves the
/// state exactly where the first left it.
pub proof fn lemma_pause_idempotent(l0: Ledger, l1: Ledger, l2: Ledger)
    requires
        Ledger::pause_applied(l0, l1),
        Ledger::pause_applied(l1, l2),
    ensures
        l2.paused == l1.paused,
        l2.balances@ == l1.balances@,
        l2.supply == l1.supply,
        l2.admin == l1.admin,
        l2.name == l1.name,
        l2.symbol == l1.symbol,
        l2.decimals == l1.decimals,
{
}

/// A second `initialize` is always refused, whatever its arguments; the
/// operation's own contract then guarantees the state is untouched.
pub proof fn lemma_reinitialize_refused(l: Ledger)
    requires
        l.initialized(),
    ensures
        Ledger::initialize_check(l) == Err::<(), crate::error::Error>(
            crate::error::Error::AlreadyInitialized,
        ),
{
}

} // verus!
