//! Sums over the investment log and the investor ledger, the lookup of one
//! investor's cumulative amount, and the lemmas that relate them under
//! appends and in-place updates.

use vstd::prelude::*;

use crate::model::{Address, Investment, LedgerEntry};

verus! {

/// Total of all amounts in an investment log.
pub open spec fn sum_investments(s: Seq<Investment>) -> int
    decreases s.len(),
{
    if s.len() == 0 {
        0
    } else {
        sum_investments(s.drop_last()) + s.last().amount
    }
}

/// Total of all amounts in an investor ledger.
pub open spec fn sum_ledger(s: Seq<LedgerEntry>) -> int
    decreases s.len(),
{
    if s.len() == 0 {
        0
    } else {
        sum_ledger(s.drop_last()) + s.last().amount
    }
}

/// The cumulative amount recorded for `who`, or 0 if `who` has no entry.
/// The latest entry wins; under `unique_investors` there is at most one.
pub open spec fn ledger_amount_in(s: Seq<LedgerEntry>, who: Address) -> int
    decreases s.len(),
{
    if s.len() == 0 {
        0
    } else if s.last().investor == who {
        s.last().amount as int
    } else {
        ledger_amount_in(s.drop_last(), who)
    }
}

/// No investor appears in two entries of the ledger.
pub open spec fn unique_investors(s: Seq<LedgerEntry>) -> bool {
    forall|i: int, j: int|
        0 <= i < j < s.len() ==> (#[trigger] s[i]).investor != (#[trigger] s[j]).investor
}

pub proof fn lemma_sum_investments_push(s: Seq<Investment>, x: Investment)
    ensures
        sum_investments(s.push(x)) == sum_investments(s) + x.amount,
{
    assert(s.push(x).drop_last() =~= s);
}

pub proof fn lemma_sum_ledger_push(s: Seq<LedgerEntry>, e: LedgerEntry)
    ensures
        sum_ledger(s.push(e)) == sum_ledger(s) + e.amount,
{
    assert(s.push(e).drop_last() =~= s);
}

pub proof fn lemma_amount_push(s: Seq<LedgerEntry>, e: LedgerEntry, who: Address)
    ensures
        ledger_amount_in(s.push(e), who) == if who == e.investor {
            e.amount as int
        } else {
            ledger_amount_in(s, who)
        },
{
    assert(s.push(e).drop_last() =~= s);
}

/// An investor with no entry has cumulative amount 0.
pub proof fn lemma_amount_absent(s: Seq<LedgerEntry>, who: Address)
    requires
        forall|k: int| 0 <= k < s.len() ==> (#[trigger] s[k]).investor != who,
    ensures
        ledger_amount_in(s, who) == 0,
    decreases s.len(),
{
    if s.len() > 0 {
        assert(s[s.len() - 1].investor != who);
        lemma_amount_absent(s.drop_last(), who);
    }
}

/// In a ledger without duplicate investors, the lookup returns exactly the
/// amount of the entry that holds the investor.
pub proof fn lemma_amount_at(s: Seq<LedgerEntry>, j: int)
    requires
        unique_investors(s),
        0 <= j < s.len(),
    ensures
        ledger_amount_in(s, s[j].investor) == s[j].amount,
    decreases s.len(),
{
    if j < s.len() - 1 {
        assert(s[j].investor != s[s.len() - 1].investor);
        assert(unique_investors(s.drop_last()));
        lemma_amount_at(s.drop_last(), j);
    }
}

pub proof fn lemma_sum_ledger_update(s: Seq<LedgerEntry>, j: int, e: LedgerEntry)
    requires
        0 <= j < s.len(),
    ensures
        sum_ledger(s.update(j, e)) == sum_ledger(s) - s[j].amount + e.amount,
    decreases s.len(),
{
    let t = s.update(j, e);
    if j == s.len() - 1 {
        assert(t.drop_last() =~= s.drop_last());
    } else {
        assert(t.drop_last() =~= s.drop_last().update(j, e));
        lemma_sum_ledger_update(s.drop_last(), j, e);
    }
}

/// Replacing the entry at `j` by one for the same investor changes only
/// that investor's cumulative amount.
pub proof fn lemma_amount_update(s: Seq<LedgerEntry>, j: int, e: LedgerEntry, who: Address)
    requires
        unique_investors(s),
        0 <= j < s.len(),
        e.investor == s[j].investor,
    ensures
        ledger_amount_in(s.update(j, e), who) == if who == e.investor {
            e.amount as int
        } else {
            ledger_amount_in(s, who)
        },
    decreases s.len(),
{
    let t = s.update(j, e);
    if j == s.len() - 1 {
        assert(t.drop_last() =~= s.drop_last());
    } else {
        assert(s[j].investor != s[s.len() - 1].investor);
        assert(t.drop_last() =~= s.drop_last().update(j, e));
        assert(unique_investors(s.drop_last()));
        lemma_amount_update(s.drop_last(), j, e, who);
        assert(t.last() == s.last());
    }
}

pub proof fn lemma_sum_ledger_nonneg(s: Seq<LedgerEntry>)
    requires
        forall|k: int| 0 <= k < s.len() ==> (#[trigger] s[k]).amount >= 0,
    ensures
        sum_ledger(s) >= 0,
    decreases s.len(),
{
    if s.len() > 0 {
        assert(s[s.len() - 1].amount >= 0);
        lemma_sum_ledger_nonneg(s.drop_last());
    }
}

/// In a ledger of non-negative entries, no single entry exceeds the total.
pub proof fn lemma_entry_le_sum(s: Seq<LedgerEntry>, j: int)
    requires
        0 <= j < s.len(),
        forall|k: int| 0 <= k < s.len() ==> (#[trigger] s[k]).amount >= 0,
    ensures
        s[j].amount <= sum_ledger(s),
    decreases s.len(),
{
    if j == s.len() - 1 {
        lemma_sum_ledger_nonneg(s.drop_last());
    } else {
        assert(s[s.len() - 1].amount >= 0);
        lemma_entry_le_sum(s.drop_last(), j);
    }
}

/// Credits `amount` to `who` in the ledger: raises the existing entry, or
/// appends one at `amount` if `who` has none.
pub(crate) fn credit_ledger(ledger: &mut Vec<LedgerEntry>, who: Address, amount: i128)
    requires
        unique_investors(old(ledger)@),
        forall|k: int| 0 <= k < old(ledger)@.len() ==> (#[trigger] old(ledger)@[k]).amount > 0,
        amount > 0,
        sum_ledger(old(ledger)@) + amount <= i128::MAX,
    ensures
        unique_investors(final(ledger)@),
        forall|k: int| 0 <= k < final(ledger)@.len() ==> (#[trigger] final(ledger)@[k]).amount > 0,
        sum_ledger(final(ledger)@) == sum_ledger(old(ledger)@) + amount,
        ledger_amount_in(final(ledger)@, who) == ledger_amount_in(old(ledger)@, who) + amount,
        forall|a: Address|
            a != who ==> #[trigger] ledger_amount_in(final(ledger)@, a) == ledger_amount_in(
                old(ledger)@,
                a,
            ),
{
    let ghost pre = ledger@;
    let n = ledger.len();
    let mut j: usize = 0;
    while j < n
        invariant
            pre == old(ledger)@,
            ledger@ == pre,
            n == pre.len(),
            j <= n,
            unique_investors(pre),
            forall|k: int| 0 <= k < pre.len() ==> (#[trigger] pre[k]).amount > 0,
            amount > 0,
            sum_ledger(pre) + amount <= i128::MAX,
            forall|k: int| 0 <= k < j as int ==> (#[trigger] pre[k]).investor != who,
        decreases n - j,
    {
        if ledger[j].investor == who {
            let e = ledger[j];
            proof {
                lemma_entry_le_sum(pre, j as int);
                lemma_amount_at(pre, j as int);
            }
            let updated = LedgerEntry { investor: who, amount: e.amount + amount };
            let _ = ledger.remove(j);
            ledger.insert(j, updated);
            proof {
                assert(ledger@ =~= pre.update(j as int, updated));
                lemma_sum_ledger_update(pre, j as int, updated);
                lemma_amount_update(pre, j as int, updated, who);
                assert(forall|a: Address|
                    a != who ==> #[trigger] ledger_amount_in(ledger@, a) == ledger_amount_in(
                        pre,
                        a,
                    )) by {
                    assert forall|a: Address| a != who implies #[trigger] ledger_amount_in(
                        ledger@,
                        a,
                    ) == ledger_amount_in(pre, a) by {
                        lemma_amount_update(pre, j as int, updated, a);
                    }
                }
                assert forall|i: int, k: int|
                    0 <= i < k < ledger@.len() implies (#[trigger] ledger@[i]).investor != (
                #[trigger] ledger@[k]).investor by {
                    assert(pre[i].investor != pre[k].investor);
                }
            }
            return ;
        }
        j += 1;
    }
    proof {
        lemma_amount_absent(pre, who);
    }
    let entry = LedgerEntry { investor: who, amount };
    ledger.push(entry);
    proof {
        lemma_sum_ledger_push(pre, entry);
        assert(forall|a: Address|
            a != who ==> #[trigger] ledger_amount_in(ledger@, a) == ledger_amount_in(pre, a)) by {
            assert forall|a: Address| a != who implies #[trigger] ledger_amount_in(ledger@, a)
                == ledger_amount_in(pre, a) by {
                lemma_amount_push(pre, entry, a);
            }
        }
        lemma_amount_push(pre, entry, who);
        assert forall|i: int, k: int|
            0 <= i < k < ledger@.len() implies (#[trigger] ledger@[i]).investor != (
        #[trigger] ledger@[k]).investor by {
            if k < pre.len() {
                assert(pre[i].investor != pre[k].investor);
            } else {
                assert(pre[i].investor != who);
            }
        }
    }
}

/// Reads `who`'s cumulative amount out of the ledger, 0 if absent.
pub(crate) fn ledger_lookup(ledger: &Vec<LedgerEntry>, who: Address) -> (r: i128)
    requires
        unique_investors(ledger@),
    ensures
        r as int == ledger_amount_in(ledger@, who),
{
    let n = ledger.len();
    let mut j: usize = 0;
    while j < n
        invariant
            n == ledger@.len(),
            j <= n,
            unique_investors(ledger@),
            forall|k: int| 0 <= k < j as int ==> (#[trigger] ledger@[k]).investor != who,
        decreases n - j,
    {
        if ledger[j].investor == who {
            proof {
                lemma_amount_at(ledger@, j as int);
            }
            return ledger[j].amount;
        }
        j += 1;
    }
    proof {
        lemma_amount_absent(ledger@, who);
    }
    0
}

} // verus!
