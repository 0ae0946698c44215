//! Requests of the refund workflow run by the admin service.
use vstd::prelude::*;
use crate::user::status::{PaymentStatus, RefundStatus};

verus! {

/// A finance user's claim of a pending refund.
pub struct ClaimReq {
    pub event_id: String,
    pub refund_no: String,
    pub admin_user_id: u64,
}

/// A refund can be claimed once: while it is pending and nobody holds it.
pub fn claimable(status: RefundStatus, claimed_by: Option<u64>) -> (r: bool)
    ensures
        r == (status == RefundStatus::Pending && claimed_by is None),
{
    status == RefundStatus::Pending && claimed_by.is_none()
}

/// The outcome of a refund as the payment provider reported it.
pub struct ResultReq {
    pub refund_no: String,
    pub success: bool,
    pub wechat_refund_id: Option<String>,
    pub failure_reason: Option<String>,
}

/// How many times a failed refund is marked failed again.
pub const MAX_REFUND_RETRIES: u32 = 3;

/// What a reported outcome does to the refund and to its payment.
#[derive(Debug, Clone, Copy, PartialEq, Eq, Structural)]
pub enum ResultUpdate {
    /// The refund succeeded: the payment has now `refunded` cents refunded
    /// and the given status.
    Succeeded { refunded: i64, status: PaymentStatus },
    /// The refund failed; `marked` where it is recorded as failed, which
    /// happens only while it was retried fewer than three times.
    Failed { marked: bool },
}

/// The update a reported outcome makes. A success adds the refund to what
/// the payment had refunded; the payment is refunded once that reaches its
/// total, partly refunded before. `None` where the sum does not fit.
pub open spec fn result_update_spec(
    success: bool,
    refunded_cents: int,
    refund_cents: int,
    total_cents: int,
    retry_count: u32,
) -> Option<ResultUpdate> {
    if success {
        let sum = refunded_cents + refund_cents;
        if sum < i64::MIN || sum > i64::MAX {
            None
        } else {
            Some(
                ResultUpdate::Succeeded {
                    refunded: sum as i64,
                    status: if sum >= total_cents {
                        PaymentStatus::Refunded
                    } else {
                        PaymentStatus::PartialRefunded
                    },
                },
            )
        }
    } else {
        Some(ResultUpdate::Failed { marked: retry_count < MAX_REFUND_RETRIES })
    }
}

pub fn result_update(
    req: &ResultReq,
    refunded_cents: i64,
    refund_cents: i64,
    total_cents: i64,
    retry_count: u32,
) -> (r: Option<ResultUpdate>)
    ensures
        r == result_update_spec(
            req.success,
            refunded_cents as int,
            refund_cents as int,
            total_cents as int,
            retry_count,
        ),
{
    if req.success {
        match refunded_cents.checked_add(refund_cents) {
            Some(sum) => Some(
                ResultUpdate::Succeeded {
                    refunded: sum,
                    status: if sum >= total_cents {
                        PaymentStatus::Refunded
                    } else {
                        PaymentStatus::PartialRefunded
                    },
                },
            ),
            None => None,
        }
    } else {
        Some(ResultUpdate::Failed { marked: retry_count < MAX_REFUND_RETRIES })
    }
}

} // verus!
