//! Lifecycle states of charge orders, payments and refunds, as stored.
use vstd::prelude::*;
use crate::text::str_eq;

verus! {

#[derive(Debug, Clone, Copy, PartialEq, Eq, Structural)]
pub enum ChargeStatus {
    PendingPayment,
    Paid,
    Charging,
    Completed,
    Cancelled,
    Failed,
    Refunding,
    Refunded,
    /// Any other stored value.
    Other,
}

#[derive(Debug, Clone, Copy, PartialEq, Eq, Structural)]
pub enum PaymentStatus {
    Initiated,
    Paid,
    PartialRefunded,
    Refunded,
    Closed,
    Failed,
    Other,
}

#[derive(Debug, Clone, Copy, PartialEq, Eq, Structural)]
pub enum RefundStatus {
    Pending,
    Processing,
    Success,
    Failed,
    Rejected,
    Other,
}

pub open spec fn charge_status_of(s: Seq<char>) -> ChargeStatus {
    if s == "pending_payment"@ {
        ChargeStatus::PendingPayment
    } else if s == "paid"@ {
        ChargeStatus::Paid
    } else if s == "charging"@ {
        ChargeStatus::Charging
    } else if s == "completed"@ {
        ChargeStatus::Completed
    } else if s == "cancelled"@ {
        ChargeStatus::Cancelled
    } else if s == "failed"@ {
        ChargeStatus::Failed
    } else if s == "refunding"@ {
        ChargeStatus::Refunding
    } else if s == "refunded"@ {
        ChargeStatus::Refunded
    } else {
        ChargeStatus::Other
    }
}

pub open spec fn payment_status_of(s: Seq<char>) -> PaymentStatus {
    if s == "initiated"@ {
        PaymentStatus::Initiated
    } else if s == "paid"@ {
        PaymentStatus::Paid
    } else if s == "partial_refunded"@ {
        PaymentStatus::PartialRefunded
    } else if s == "refunded"@ {
        PaymentStatus::Refunded
    } else if s == "closed"@ {
        PaymentStatus::Closed
    } else if s == "failed"@ {
        PaymentStatus::Failed
    } else {
        PaymentStatus::Other
    }
}

pub open spec fn refund_status_of(s: Seq<char>) -> RefundStatus {
    if s == "pending"@ {
        RefundStatus::Pending
    } else if s == "processing"@ {
        RefundStatus::Processing
    } else if s == "success"@ {
        RefundStatus::Success
    } else if s == "failed"@ {
        RefundStatus::Failed
    } else if s == "rejected"@ {
        RefundStatus::Rejected
    } else {
        RefundStatus::Other
    }
}

impl ChargeStatus {
    /// The status a stored text names.
    pub fn parse(s: &str) -> (r: ChargeStatus)
        ensures
            r == charge_status_of(s@),
    {
        if str_eq(s, "pending_payment") {
            ChargeStatus::PendingPayment
        } else if str_eq(s, "paid") {
            ChargeStatus::Paid
        } else if str_eq(s, "charging") {
            ChargeStatus::Charging
        } else if str_eq(s, "completed") {
            ChargeStatus::Completed
        } else if str_eq(s, "cancelled") {
            ChargeStatus::Cancelled
        } else if str_eq(s, "failed") {
            ChargeStatus::Failed
        } else if str_eq(s, "refunding") {
            ChargeStatus::Refunding
        } else if str_eq(s, "refunded") {
            ChargeStatus::Refunded
        } else {
            ChargeStatus::Other
        }
    }
}

impl PaymentStatus {
    /// The status a stored text names.
    pub fn parse(s: &str) -> (r: PaymentStatus)
        ensures
            r == payment_status_of(s@),
    {
        if str_eq(s, "initiated") {
            PaymentStatus::Initiated
        } else if str_eq(s, "paid") {
            PaymentStatus::Paid
        } else if str_eq(s, "partial_refunded") {
            PaymentStatus::PartialRefunded
        } else if str_eq(s, "refunded") {
            PaymentStatus::Refunded
        } else if str_eq(s, "closed") {
            PaymentStatus::Closed
        } else if str_eq(s, "failed") {
            PaymentStatus::Failed
        } else {
            PaymentStatus::Other
        }
    }
}

impl RefundStatus {
    /// The status a stored text names.
    pub fn parse(s: &str) -> (r: RefundStatus)
        ensures
            r == refund_status_of(s@),
    {
        if str_eq(s, "pending") {
            RefundStatus::Pending
        } else if str_eq(s, "processing") {
            RefundStatus::Processing
        } else if str_eq(s, "success") {
            RefundStatus::Success
        } else if str_eq(s, "failed") {
            RefundStatus::Failed
        } else if str_eq(s, "rejected") {
            RefundStatus::Rejected
        } else {
            RefundStatus::Other
        }
    }
}

} // verus!
