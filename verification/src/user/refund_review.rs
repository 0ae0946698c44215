//! Finance review of charge refunds: two approvals by two different people,
//! bound to a snapshot of the refund, or a rejection while the second
//! approval is awaited.
use vstd::prelude::*;
use crate::text::{is_text, note_ok, str_eq, string_eq, trim};
use crate::user::ledger::{tally_spec, tally, RefundLine};
use crate::user::status::{ChargeStatus, PaymentStatus, RefundStatus};

verus! {

#[derive(Debug, Clone, Copy, PartialEq, Eq, Structural)]
pub enum ReviewError {
    /// No approver, or the comment or reason is empty, too long or holds
    /// control characters.
    InvalidNote,
    /// No single refund has that number.
    NotFound,
    /// The refund, its payment or the review changed.
    Conflict,
    /// Only a charge refund awaiting its second approval can be rejected.
    NotAwaitingSecond,
}

/// A approver's approval or rejection, as the admin service sends it.
pub struct Approval {
    pub actor_id: u64,
    pub comment: String,
}

/// Where a review stands.
#[derive(Debug, Clone, Copy, PartialEq, Eq, Structural)]
pub enum ReviewState {
    AwaitingSecond { first: u64 },
    Approved { first: u64, second: u64 },
}

/// A approver and a note: an approver id and an acceptable note.
pub open spec fn signature_ok(actor: u64, note: Seq<char>) -> bool {
    actor != 0 && note_ok(note)
}

/// Checks an approver's signature and returns the trimmed note.
pub fn check_signature(actor: u64, note: &str) -> (r: Result<&str, ReviewError>)
    ensures
        signature_ok(actor, note@) ==> (r matches Ok(t) && t@ == trim(note@)),
        !signature_ok(actor, note@) ==> r == Err::<&str, ReviewError>(ReviewError::InvalidNote),
{
    let (ok, t) = crate::text::check_note(note);
    if actor == 0 || !ok {
        return Err(ReviewError::InvalidNote);
    }
    Ok(t)
}

/// The refund as a review signs it: what it returns, to whom, from which
/// payment, and why.
pub struct ReviewSnapshot {
    pub refund_no: String,
    pub payment_order_id: u64,
    pub user_id: u64,
    pub charge_order_id: u64,
    pub refund_cents: i64,
    pub reason: Option<String>,
    pub total_cents: i64,
    pub paid_cents: i64,
}

/// A stored snapshot is the refund as it stands: every field the same.
pub open spec fn snapshot_same(a: ReviewSnapshot, b: ReviewSnapshot) -> bool {
    &&& a.refund_no@ == b.refund_no@
    &&& a.payment_order_id == b.payment_order_id
    &&& a.user_id == b.user_id
    &&& a.charge_order_id == b.charge_order_id
    &&& a.refund_cents == b.refund_cents
    &&& match (a.reason, b.reason) {
        (Some(x), Some(y)) => x@ == y@,
        (None, None) => true,
        _ => false,
    }
    &&& a.total_cents == b.total_cents
    &&& a.paid_cents == b.paid_cents
}

/// Compares the snapshot a review signed with the refund as it stands; an
/// approval, and the execution of an approved refund, go on only where they
/// agree.
pub fn same_snapshot(stored: &ReviewSnapshot, current: &ReviewSnapshot) -> (r: bool)
    ensures
        r == snapshot_same(*stored, *current),
{
    let reason_ok = match (&stored.reason, &current.reason) {
        (Some(x), Some(y)) => string_eq(x, y),
        (None, None) => true,
        _ => false,
    };
    string_eq(&stored.refund_no, &current.refund_no) && stored.payment_order_id
        == current.payment_order_id && stored.user_id == current.user_id && stored.charge_order_id
        == current.charge_order_id && stored.refund_cents == current.refund_cents && reason_ok
        && stored.total_cents == current.total_cents && stored.paid_cents == current.paid_cents
}

/// The review recorded so far.
pub struct ReviewRecord {
    /// Whether the stored snapshot is the refund as it stands now, as
    /// `same_snapshot` decides.
    pub snapshot_matches: bool,
    pub first_signer: u64,
    pub first_comment: String,
    pub second_signer: Option<u64>,
    pub second_comment: Option<String>,
}

/// What an existing review means for a new approval: `Ok(Some(state))`
/// where the approver already signed with the same comment (the approval is
/// a replay), `Ok(None)` where the approver may sign second.
pub open spec fn prior_spec(r: ReviewRecord, actor: u64, comment: Seq<char>) -> Result<
    Option<ReviewState>,
    ReviewError,
> {
    if !r.snapshot_matches {
        Err(ReviewError::Conflict)
    } else if actor == r.first_signer || r.second_signer == Some(actor) {
        let same = if actor == r.first_signer {
            r.first_comment@ == comment
        } else {
            r.second_comment matches Some(c) && c@ == comment
        };
        if !same {
            Err(ReviewError::Conflict)
        } else {
            match r.second_signer {
                Some(s) => Ok(Some(ReviewState::Approved { first: r.first_signer, second: s })),
                None => Ok(Some(ReviewState::AwaitingSecond { first: r.first_signer })),
            }
        }
    } else if r.second_signer is Some {
        Err(ReviewError::Conflict)
    } else {
        Ok(None)
    }
}

pub fn prior(r: &ReviewRecord, actor: u64, comment: &str) -> (res: Result<
    Option<ReviewState>,
    ReviewError,
>)
    ensures
        res == prior_spec(*r, actor, comment@),
{
    if !r.snapshot_matches {
        return Err(ReviewError::Conflict);
    }
    if actor == r.first_signer || r.second_signer == Some(actor) {
        let same = if actor == r.first_signer {
            str_eq(r.first_comment.as_str(), comment)
        } else {
            match &r.second_comment {
                Some(c) => str_eq(c.as_str(), comment),
                None => false,
            }
        };
        if !same {
            return Err(ReviewError::Conflict);
        }
        return match r.second_signer {
            Some(s) => Ok(Some(ReviewState::Approved { first: r.first_signer, second: s })),
            None => Ok(Some(ReviewState::AwaitingSecond { first: r.first_signer })),
        };
    }
    if r.second_signer.is_some() {
        return Err(ReviewError::Conflict);
    }
    Ok(None)
}

/// A refund record of the payment under review.
pub struct ReviewRefund {
    pub user_id: u64,
    pub biz_id: u64,
    pub biz_type: String,
    pub amount: i64,
    pub status: RefundStatus,
    pub claimed: bool,
}

/// The payment the refund returns money from.
pub struct ReviewPayment {
    pub user_id: u64,
    pub biz_id: u64,
    pub biz_type: String,
    pub pay_method: String,
    pub total_cents: i64,
    pub paid_cents: i64,
    pub refunded_cents: i64,
    pub status: PaymentStatus,
}

/// The refund belongs to a WeChat charge payment of the same user and order.
pub open spec fn record_spec(row: ReviewRefund, pay: ReviewPayment) -> bool {
    &&& row.status != RefundStatus::Rejected
    &&& row.biz_type@ == "charge"@
    &&& pay.biz_type@ == "charge"@
    &&& pay.pay_method@ == "wechat"@
    &&& pay.user_id == row.user_id
    &&& pay.biz_id == row.biz_id
}

pub fn check_record(row: &ReviewRefund, pay: &ReviewPayment) -> (r: Result<(), ReviewError>)
    ensures
        record_spec(*row, *pay) ==> r is Ok,
        !record_spec(*row, *pay) ==> r == Err::<(), ReviewError>(ReviewError::Conflict),
{
    if row.status == RefundStatus::Rejected || !is_text(&row.biz_type, "charge") || !is_text(
        &pay.biz_type,
        "charge",
    ) || !is_text(&pay.pay_method, "wechat") || pay.user_id != row.user_id || pay.biz_id
        != row.biz_id {
        return Err(ReviewError::Conflict);
    }
    Ok(())
}

/// The charge order of the refund, as stored.
pub struct ReviewOrder {
    pub user_id: u64,
    pub payment_order_id: Option<u64>,
    pub status: ChargeStatus,
}

/// Whether a new approval may be signed: the refund is pending, unclaimed
/// and not executing; its order is the user's, paid by this payment and
/// finished; the payment is paid in full and not wholly refunded; and the
/// refunds not rejected, this one included, fit in what was paid while the
/// succeeded ones are exactly what the payment shows refunded.
pub open spec fn approvable_spec(
    row: ReviewRefund,
    pay: ReviewPayment,
    pid: u64,
    executed: bool,
    orders: Seq<ReviewOrder>,
    refunds: Seq<RefundLine>,
) -> bool {
    &&& row.status == RefundStatus::Pending
    &&& !row.claimed
    &&& !executed
    &&& orders.len() == 1
    &&& orders[0].user_id == row.user_id
    &&& orders[0].payment_order_id == Some(pid)
    &&& (orders[0].status == ChargeStatus::Completed || orders[0].status == ChargeStatus::Failed
        || orders[0].status == ChargeStatus::Cancelled)
    &&& row.amount > 0
    &&& pay.paid_cents > 0
    &&& pay.paid_cents == pay.total_cents
    &&& (pay.status == PaymentStatus::Paid || pay.status == PaymentStatus::PartialRefunded)
    &&& tally_spec(refunds, true, 0, true) matches Some(t) && t.0 <= pay.paid_cents && t.1
        == pay.refunded_cents
}

pub fn check_approvable(
    row: &ReviewRefund,
    pay: &ReviewPayment,
    pid: u64,
    executed: bool,
    orders: &[ReviewOrder],
    refunds: &[RefundLine],
) -> (r: Result<(), ReviewError>)
    ensures
        approvable_spec(*row, *pay, pid, executed, orders@, refunds@) ==> r is Ok,
        !approvable_spec(*row, *pay, pid, executed, orders@, refunds@) ==> r == Err::<
            (),
            ReviewError,
        >(ReviewError::Conflict),
{
    if row.status != RefundStatus::Pending || row.claimed || executed {
        return Err(ReviewError::Conflict);
    }
    if orders.len() != 1 {
        return Err(ReviewError::Conflict);
    }
    let o = &orders[0];
    let finished = o.status == ChargeStatus::Completed || o.status == ChargeStatus::Failed
        || o.status == ChargeStatus::Cancelled;
    if o.user_id != row.user_id || o.payment_order_id != Some(pid) || !finished {
        return Err(ReviewError::Conflict);
    }
    if row.amount <= 0 || pay.paid_cents <= 0 || pay.paid_cents != pay.total_cents || !(pay.status
        == PaymentStatus::Paid || pay.status == PaymentStatus::PartialRefunded) {
        return Err(ReviewError::Conflict);
    }
    match tally(refunds, true, 0, true) {
        Some((reserved, success)) => {
            if reserved > pay.paid_cents || success != pay.refunded_cents {
                return Err(ReviewError::Conflict);
            }
            Ok(())
        },
        None => Err(ReviewError::Conflict),
    }
}

/// The state a new approval leads to: the second signature where a first
/// one is recorded, the first otherwise.
pub open spec fn signed_spec(review: Option<ReviewRecord>, actor: u64) -> ReviewState {
    match review {
        Some(r) => ReviewState::Approved { first: r.first_signer, second: actor },
        None => ReviewState::AwaitingSecond { first: actor },
    }
}

pub fn signed(review: &Option<ReviewRecord>, actor: u64) -> (r: ReviewState)
    ensures
        r == signed_spec(*review, actor),
{
    match review {
        Some(r) => ReviewState::Approved { first: r.first_signer, second: actor },
        None => ReviewState::AwaitingSecond { first: actor },
    }
}

/// An approval is complete only with two different signers: where a review
/// is recorded and an approver may sign anew, that approver is not the first
/// signer, so an approved refund always has two distinct approvers.
pub proof fn lemma_two_distinct_signers(r: ReviewRecord, actor: u64, comment: Seq<char>)
    requires
        prior_spec(r, actor, comment) == Ok::<Option<ReviewState>, ReviewError>(None),
    ensures
        signed_spec(Some(r), actor) matches ReviewState::Approved { first, second } && first
            != second,
{
}

/// A rejection recorded before, by approver and reason.
pub struct PriorRejection {
    pub actor_id: u64,
    pub reason: String,
}

/// Whether a rejection may be recorded, or replays one already recorded:
/// `Ok(true)` for a replay, `Ok(false)` to reject now. `second_pending` is
/// whether a review exists whose second signature is missing.
pub open spec fn reject_spec(
    row: ReviewRefund,
    prior: Option<PriorRejection>,
    actor: u64,
    reason: Seq<char>,
    second_pending: bool,
    executing: bool,
) -> Result<bool, ReviewError> {
    match prior {
        Some(p) => if p.actor_id == actor && p.reason@ == reason && row.status
            == RefundStatus::Rejected {
            Ok(true)
        } else {
            Err(ReviewError::Conflict)
        },
        None => if row.status != RefundStatus::Pending || row.biz_type@ != "charge"@ || row.claimed {
            Err(ReviewError::Conflict)
        } else if !second_pending {
            Err(ReviewError::NotAwaitingSecond)
        } else if executing {
            Err(ReviewError::Conflict)
        } else {
            Ok(false)
        },
    }
}

pub fn check_reject(
    row: &ReviewRefund,
    prior: &Option<PriorRejection>,
    actor: u64,
    reason: &str,
    second_pending: bool,
    executing: bool,
) -> (r: Result<bool, ReviewError>)
    ensures
        r == reject_spec(*row, *prior, actor, reason@, second_pending, executing),
{
    match prior {
        Some(p) => {
            if p.actor_id == actor && str_eq(p.reason.as_str(), reason) && row.status
                == RefundStatus::Rejected {
                Ok(true)
            } else {
                Err(ReviewError::Conflict)
            }
        },
        None => {
            if row.status != RefundStatus::Pending || !is_text(&row.biz_type, "charge")
                || row.claimed {
                Err(ReviewError::Conflict)
            } else if !second_pending {
                Err(ReviewError::NotAwaitingSecond)
            } else if executing {
                Err(ReviewError::Conflict)
            } else {
                Ok(false)
            }
        },
    }
}

} // verus!
