//! The balance table: entries, their aggregate sum, and keyed lookup.
//!
//! The ledger keeps one entry per account. Its two central spec functions,
//! [`sum_amounts`] and [`lookup_amount`], give the aggregate supply and the
//! balance of one account; the lemmas here relate them across the updates the
//! ledger performs (overwriting one entry, appending a fresh one).

use vstd::prelude::*;
use crate::account::Account;

verus! {

/// One row of the balance table.
#[derive(Clone, Copy, PartialEq, Eq, Structural, Debug)]
pub struct BalanceEntry {
    pub account: Account,
    pub amount: i128,
}

/// No account appears in two entries.
pub open spec fn entries_unique(s: Seq<BalanceEntry>) -> bool {
    forall|i: int, j: int|
        0 <= i < j < s.len() ==> (#[trigger] s[i]).account != (#[trigger] s[j]).account
}

/// Every recorded amount is non-negative.
pub open spec fn entries_nonneg(s: Seq<BalanceEntry>) -> bool {
    forall|i: int| 0 <= i < s.len() ==> 0 <= (#[trigger] s[i]).amount
}

/// The sum of all recorded amounts.
pub open spec fn sum_amounts(s: Seq<BalanceEntry>) -> int
    decreases s.len(),
{
    if s.len() == 0 {
        0
    } else {
        s[0].amount + sum_amounts(s.drop_first())
    }
}

/// The amount recorded for `account`: the first matching entry, or 0 when
/// there is none. Under [`entries_unique`] a match is unique.
pub open spec fn lookup_amount(s: Seq<BalanceEntry>, account: Account) -> int
    decreases s.len(),
{
    if s.len() == 0 {
        0
    } else if s[0].account == account {
        s[0].amount as int
    } else {
        lookup_amount(s.drop_first(), account)
    }
}

proof fn lemma_nonneg_drop_first(s: Seq<BalanceEntry>)
    requires
        entries_nonneg(s),
        s.len() > 0,
    ensures
        entries_nonneg(s.drop_first()),
{
    assert forall|i: int| 0 <= i < s.drop_first().len() implies 0 <= (#[trigger] s.drop_first()[i]).amount by {
        assert(s.drop_first()[i] == s[i + 1]);
    }
}

pub proof fn lemma_sum_nonneg(s: Seq<BalanceEntry>)
    requires
        entries_nonneg(s),
    ensures
        0 <= sum_amounts(s),
    decreases s.len(),
{
    if s.len() > 0 {
        lemma_nonneg_drop_first(s);
        lemma_sum_nonneg(s.drop_first());
    }
}

/// Overwriting the entry at `i` moves the sum by the difference of amounts.
pub proof fn lemma_sum_update(s: Seq<BalanceEntry>, i: int, e: BalanceEntry)
    requires
        0 <= i < s.len(),
    ensures
        sum_amounts(s.update(i, e)) == sum_amounts(s) - s[i].amount + e.amount,
    decreases s.len(),
{
    if i == 0 {
        assert(s.update(0, e).drop_first() =~= s.drop_first());
    } else {
        assert(s.update(i, e).drop_first() =~= s.drop_first().update(i - 1, e));
        lemma_sum_update(s.drop_first(), i - 1, e);
    }
}

/// Appending an entry raises the sum by its amount.
pub proof fn lemma_sum_push(s: Seq<BalanceEntry>, e: BalanceEntry)
    ensures
        sum_amounts(s.push(e)) == sum_amounts(s) + e.amount,
    decreases s.len(),
{
    if s.len() == 0 {
        assert(s.push(e).drop_first() =~= s);
    } else {
        assert(s.push(e).drop_first() =~= s.drop_first().push(e));
        lemma_sum_push(s.drop_first(), e);
    }
}

pub proof fn lemma_lookup_nonneg(s: Seq<BalanceEntry>, account: Account)
    requires
        entries_nonneg(s),
    ensures
        0 <= lookup_amount(s, account),
    decreases s.len(),
{
    if s.len() > 0 && s[0].account != account {
        lemma_nonneg_drop_first(s);
        lemma_lookup_nonneg(s.drop_first(), account);
    }
}

/// No single balance exceeds the sum of all of them.
pub proof fn lemma_lookup_le_sum(s: Seq<BalanceEntry>, account: Account)
    requires
        entries_nonneg(s),
    ensures
        lookup_amount(s, account) <= sum_amounts(s),
    decreases s.len(),
{
    if s.len() > 0 {
        lemma_nonneg_drop_first(s);
        if s[0].account == account {
            lemma_sum_nonneg(s.drop_first());
        } else {
            lemma_lookup_le_sum(s.drop_first(), account);
        }
    }
}

/// An entry whose account appears nowhere before it gives the lookup result.
pub proof fn lemma_lookup_found(s: Seq<BalanceEntry>, account: Account, i: int)
    requires
        0 <= i < s.len(),
        s[i].account == account,
        forall|k: int| 0 <= k < i ==> (#[trigger] s[k]).account != account,
    ensures
        lookup_amount(s, account) == s[i].amount,
    decreases s.len(),
{
    if i > 0 {
        assert(s[0].account != account);
        assert(s.drop_first()[i - 1] == s[i]);
        assert forall|k: int| 0 <= k < i - 1 implies (#[trigger] s.drop_first()[k]).account != account by {
            assert(s.drop_first()[k] == s[k + 1]);
        }
        lemma_lookup_found(s.drop_first(), account, i - 1);
    }
}

/// An account with no entry reads as 0.
pub proof fn lemma_lookup_absent(s: Seq<BalanceEntry>, account: Account)
    requires
        forall|k: int| 0 <= k < s.len() ==> (#[trigger] s[k]).account != account,
    ensures
        lookup_amount(s, account) == 0,
    decreases s.len(),
{
    if s.len() > 0 {
        assert forall|k: int| 0 <= k < s.drop_first().len() implies (#[trigger] s.drop_first()[k]).account != account by {
            assert(s.drop_first()[k] == s[k + 1]);
        }
        lemma_lookup_absent(s.drop_first(), account);
    }
}

/// Overwriting one entry leaves every other account's lookup unchanged.
pub proof fn lemma_lookup_update_other(s: Seq<BalanceEntry>, i: int, e: BalanceEntry, other: Account)
    requires
        0 <= i < s.len(),
        other != e.account,
        other != s[i].account,
    ensures
        lookup_amount(s.update(i, e), other) == lookup_amount(s, other),
    decreases s.len(),
{
    if i == 0 {
        assert(s.update(0, e).drop_first() =~= s.drop_first());
    } else {
        assert(s.update(i, e)[0] == s[0]);
        if s[0].account != other {
            assert(s.update(i, e).drop_first() =~= s.drop_first().update(i - 1, e));
            lemma_lookup_update_other(s.drop_first(), i - 1, e, other);
        }
    }
}

/// Appending an entry leaves every other account's lookup unchanged.
pub proof fn lemma_lookup_push_other(s: Seq<BalanceEntry>, e: BalanceEntry, other: Account)
    requires
        other != e.account,
    ensures
        lookup_amount(s.push(e), other) == lookup_amount(s, other),
    decreases s.len(),
{
    if s.len() == 0 {
        assert(s.push(e).drop_first() =~= s);
    } else {
        assert(s.push(e)[0] == s[0]);
        if s[0].account != other {
            assert(s.push(e).drop_first() =~= s.drop_first().push(e));
            lemma_lookup_push_other(s.drop_first(), e, other);
        }
    }
}

} // verus!
