//! The refund records of one payment: how much is already refunded and how
//! much is reserved by refunds still under way.
use vstd::prelude::*;
use crate::user::status::RefundStatus;

verus! {

/// One refund record of a payment.
#[derive(Debug, Clone, Copy, PartialEq, Eq, Structural)]
pub struct RefundLine {
    pub amount: i64,
    pub status: RefundStatus,
}

/// Whether a record takes part in the tally; rejected records may be left
/// out.
pub open spec fn counted(l: RefundLine, skip_rejected: bool) -> bool {
    !(skip_rejected && l.status == RefundStatus::Rejected)
}

/// Sum of the counted records that have not succeeded.
pub open spec fn open_total(lines: Seq<RefundLine>, skip_rejected: bool) -> int
    decreases lines.len(),
{
    if lines.len() == 0 {
        0
    } else {
        let l = lines.last();
        open_total(lines.drop_last(), skip_rejected) + if counted(l, skip_rejected) && l.status
            != RefundStatus::Success {
            l.amount as int
        } else {
            0
        }
    }
}

/// Sum of the counted records that have succeeded.
pub open spec fn success_total(lines: Seq<RefundLine>, skip_rejected: bool) -> int
    decreases lines.len(),
{
    if lines.len() == 0 {
        0
    } else {
        let l = lines.last();
        success_total(lines.drop_last(), skip_rejected) + if counted(l, skip_rejected)
            && l.status == RefundStatus::Success {
            l.amount as int
        } else {
            0
        }
    }
}

/// Every counted record refunds a positive amount.
pub open spec fn amounts_positive(lines: Seq<RefundLine>, skip_rejected: bool) -> bool {
    forall|i: int|
        0 <= i < lines.len() && counted(#[trigger] lines[i], skip_rejected) ==> lines[i].amount > 0
}

/// The tally of a payment's refunds: the open amount added to `start` and,
/// when `success_reserves`, the succeeded amount too; and the succeeded
/// amount. `None` when a counted record is not positive or a running total
/// leaves the `i64` range.
pub open spec fn tally_spec(
    lines: Seq<RefundLine>,
    skip_rejected: bool,
    start: int,
    success_reserves: bool,
) -> Option<(int, int)> {
    let reserved = start + open_total(lines, skip_rejected) + if success_reserves {
        success_total(lines, skip_rejected)
    } else {
        0
    };
    if amounts_positive(lines, skip_rejected) && reserved <= i64::MAX && success_total(
        lines,
        skip_rejected,
    ) <= i64::MAX {
        Some((reserved, success_total(lines, skip_rejected)))
    } else {
        None
    }
}

/// With positive counted amounts, the totals of any prefix of the refunds
/// are non-negative and no larger than the totals of all of them.
pub proof fn lemma_totals_monotone(lines: Seq<RefundLine>, skip: bool, k: int)
    requires
        0 <= k <= lines.len(),
        amounts_positive(lines, skip),
    ensures
        open_total(lines.take(k), skip) <= open_total(lines, skip),
        success_total(lines.take(k), skip) <= success_total(lines, skip),
        0 <= open_total(lines.take(k), skip),
        0 <= success_total(lines.take(k), skip),
    decreases lines.len() - k,
{
    let p = lines.take(k);
    assert forall|i: int| 0 <= i < p.len() && counted(#[trigger] p[i], skip) implies p[i].amount
        > 0 by {
        assert(p[i] == lines[i]);
    }
    lemma_totals_nonneg(p, skip);
    if k < lines.len() {
        lemma_totals_monotone(lines, skip, k + 1);
        let t = lines.take(k + 1);
        assert(t.drop_last() =~= lines.take(k));
        assert(t.last() == lines[k]);
        assert(counted(lines[k], skip) ==> lines[k].amount > 0);
    } else {
        assert(lines.take(k) =~= lines);
        lemma_totals_nonneg(lines, skip);
    }
}

/// With positive counted amounts, the open and succeeded totals are never
/// negative.
pub proof fn lemma_totals_nonneg(lines: Seq<RefundLine>, skip: bool)
    requires
        amounts_positive(lines, skip),
    ensures
        0 <= open_total(lines, skip),
        0 <= success_total(lines, skip),
    decreases lines.len(),
{
    if lines.len() > 0 {
        let d = lines.drop_last();
        assert forall|i: int| 0 <= i < d.len() && counted(#[trigger] d[i], skip) implies d[i].amount
            > 0 by {
            assert(d[i] == lines[i]);
        }
        lemma_totals_nonneg(d, skip);
        assert(counted(lines.last(), skip) ==> lines.last().amount > 0) by {
            assert(lines.last() == lines[lines.len() - 1]);
        }
    }
}

/// Tallies a payment's refund records with checked arithmetic.
pub fn tally(lines: &[RefundLine], skip_rejected: bool, start: i64, success_reserves: bool) -> (r:
    Option<(i64, i64)>)
    requires
        start >= 0,
    ensures
        r matches Some(v) ==> tally_spec(lines@, skip_rejected, start as int, success_reserves)
            == Some((v.0 as int, v.1 as int)),
        r is None ==> tally_spec(lines@, skip_rejected, start as int, success_reserves) is None,
{
    let mut reserved: i64 = start;
    let mut success: i64 = 0;
    let mut i: usize = 0;
    while i < lines.len()
        invariant
            start >= 0,
            i <= lines@.len(),
            amounts_positive(lines@.take(i as int), skip_rejected),
            reserved == start + open_total(lines@.take(i as int), skip_rejected) + if success_reserves {
                success_total(lines@.take(i as int), skip_rejected)
            } else {
                0
            },
            success == success_total(lines@.take(i as int), skip_rejected),
        decreases lines@.len() - i,
    {
        let l = lines[i];
        let ghost pre = lines@.take(i as int);
        let ghost next = lines@.take(i + 1);
        assert(next.drop_last() =~= pre);
        assert(next.last() == l);
        let count = !(skip_rejected && l.status == RefundStatus::Rejected);
        if count {
            if l.amount <= 0 {
                proof {
                    assert(!amounts_positive(lines@, skip_rejected)) by {
                        assert(counted(lines@[i as int], skip_rejected));
                    }
                }
                return None;
            }
            let is_success = l.status == RefundStatus::Success;
            if !is_success || success_reserves {
                match reserved.checked_add(l.amount) {
                    Some(v) => {
                        reserved = v;
                    },
                    None => {
                        proof {
                            if amounts_positive(lines@, skip_rejected) {
                                lemma_totals_monotone(lines@, skip_rejected, i + 1);
                            }
                        }
                        return None;
                    },
                }
            }
            if is_success {
                match success.checked_add(l.amount) {
                    Some(v) => {
                        success = v;
                    },
                    None => {
                        proof {
                            if amounts_positive(lines@, skip_rejected) {
                                lemma_totals_monotone(lines@, skip_rejected, i + 1);
                            }
                        }
                        return None;
                    },
                }
            }
        }
        proof {
            assert forall|j: int|
                0 <= j < next.len() && counted(#[trigger] next[j], skip_rejected) implies next[j].amount
                > 0 by {
                if j < i {
                    assert(next[j] == pre[j]);
                }
            }
        }
        i = i + 1;
    }
    assert(lines@.take(lines@.len() as int) =~= lines@);
    Some((reserved, success))
}

} // verus!
