//! Checkout: the quote's amount becomes the payment amount, and a pending
//! order may be cancelled by its user within a minute.
use vstd::prelude::*;
use crate::billing::api_types::QuoteResponse;
use crate::user::status::{ChargeStatus, PaymentStatus};

verus! {

#[derive(Debug, Clone, Copy, PartialEq, Eq, Structural)]
pub enum QuoteError {
    /// The amounts are negative, zero in total, or do not add up.
    InvalidAmount,
    /// The total exceeds what a payment can carry.
    TooLarge,
}

/// The error of a quote, where it has one.
pub open spec fn quote_error(q: QuoteResponse) -> Option<QuoteError> {
    if q.electric_cents < 0 || q.service_cents < 0 || q.total_cents <= 0 || q.electric_cents
        + q.service_cents != q.total_cents {
        Some(QuoteError::InvalidAmount)
    } else if q.total_cents > i32::MAX {
        Some(QuoteError::TooLarge)
    } else {
        None
    }
}

/// Checks a quote's amounts and returns the payment amount.
pub fn validate_quote(q: &QuoteResponse) -> (r: Result<i32, QuoteError>)
    ensures
        match quote_error(*q) {
            Some(e) => r == Err::<i32, QuoteError>(e),
            None => r == Ok::<i32, QuoteError>(q.total_cents as i32),
        },
{
    let sum_ok = match q.electric_cents.checked_add(q.service_cents) {
        Some(v) => v == q.total_cents,
        None => false,
    };
    if q.electric_cents < 0 || q.service_cents < 0 || q.total_cents <= 0 || !sum_ok {
        return Err(QuoteError::InvalidAmount);
    }
    if q.total_cents > i32::MAX as i64 {
        return Err(QuoteError::TooLarge);
    }
    Ok(q.total_cents as i32)
}

#[derive(Debug, Clone, Copy, PartialEq, Eq, Structural)]
pub enum CancelError {
    /// The user has no such order.
    NotFound,
    /// The order has no payment.
    MissingPayment,
    /// The payment does not exist.
    PaymentNotFound,
    /// Order and payment do not point at each other.
    Mismatch,
    /// Paid already, or no longer pending payment (business code 2018).
    NotPending,
    /// More than 60 seconds after creation (business code 2019).
    WindowClosed,
}

impl CancelError {
    /// The business code the error is reported with, where it has one.
    pub fn code(&self) -> (r: Option<u32>)
        ensures
            *self == CancelError::NotPending ==> r == Some(2018u32),
            *self == CancelError::WindowClosed ==> r == Some(2019u32),
            !(*self == CancelError::NotPending || *self == CancelError::WindowClosed) ==> r is None,
    {
        match self {
            CancelError::NotPending => Some(2018),
            CancelError::WindowClosed => Some(2019),
            _ => None,
        }
    }
}

/// The payment as the cancellation finds it: status and the order it pays.
pub struct CancelPayment {
    pub status: PaymentStatus,
    pub biz_id: u64,
}

/// The order as the cancellation finds it.
pub struct CancelOrder {
    pub status: ChargeStatus,
    pub payment_order_id: Option<u64>,
    /// Whether it was created less than 60 seconds ago.
    pub in_window: bool,
}

/// The outcome of a cancellation: `Ok(true)` to cancel now, `Ok(false)` for
/// one already done (the port is handed back again for cleanup).
pub open spec fn cancel_spec(
    id: u64,
    payment_id: Option<u64>,
    payment: Option<CancelPayment>,
    order: Option<CancelOrder>,
) -> Result<bool, CancelError> {
    match payment_id {
        None => Err(CancelError::MissingPayment),
        Some(pid) => match payment {
            None => Err(CancelError::PaymentNotFound),
            Some(p) => match order {
                None => Err(CancelError::NotFound),
                Some(o) => if p.biz_id != id || o.payment_order_id != Some(pid) {
                    Err(CancelError::Mismatch)
                } else if o.status == ChargeStatus::Cancelled && p.status == PaymentStatus::Closed {
                    Ok(false)
                } else if o.status != ChargeStatus::PendingPayment || p.status
                    != PaymentStatus::Initiated {
                    Err(CancelError::NotPending)
                } else if !o.in_window {
                    Err(CancelError::WindowClosed)
                } else {
                    Ok(true)
                },
            },
        },
    }
}

pub fn cancel_decision(
    id: u64,
    payment_id: Option<u64>,
    payment: &Option<CancelPayment>,
    order: &Option<CancelOrder>,
) -> (r: Result<bool, CancelError>)
    ensures
        r == cancel_spec(id, payment_id, *payment, *order),
{
    let pid = match payment_id {
        Some(p) => p,
        None => {
            return Err(CancelError::MissingPayment);
        },
    };
    let p = match payment {
        Some(p) => p,
        None => {
            return Err(CancelError::PaymentNotFound);
        },
    };
    let o = match order {
        Some(o) => o,
        None => {
            return Err(CancelError::NotFound);
        },
    };
    if p.biz_id != id || o.payment_order_id != Some(pid) {
        return Err(CancelError::Mismatch);
    }
    if o.status == ChargeStatus::Cancelled && p.status == PaymentStatus::Closed {
        return Ok(false);
    }
    if o.status != ChargeStatus::PendingPayment || p.status != PaymentStatus::Initiated {
        return Err(CancelError::NotPending);
    }
    if !o.in_window {
        return Err(CancelError::WindowClosed);
    }
    Ok(true)
}

/// Cancelling twice is harmless: once an order is cancelled with its
/// payment closed, cancelling it again succeeds and changes nothing.
pub proof fn lemma_cancel_is_idempotent(id: u64, pid: u64, p: CancelPayment, o: CancelOrder)
    requires
        p.biz_id == id,
        o.payment_order_id == Some(pid),
        o.status == ChargeStatus::Cancelled,
        p.status == PaymentStatus::Closed,
    ensures
        cancel_spec(id, Some(pid), Some(p), Some(o)) == Ok::<bool, CancelError>(false),
{
}

} // verus!
