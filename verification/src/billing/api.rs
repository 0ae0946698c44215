//! Computations of the billing service's internal API.
use vstd::prelude::*;
use crate::billing::api_types::{RefundCalcRequest, RefundCalcResponse};

verus! {

/// A refund goes back the way it was paid, for the whole amount actually
/// paid.
pub fn refund_calc(req: &RefundCalcRequest) -> (r: RefundCalcResponse)
    ensures
        r.refund_cents == req.actual_paid_cents,
        r.note@ == "原路返回"@,
{
    RefundCalcResponse { refund_cents: req.actual_paid_cents, note: String::from_str("原路返回") }
}

} // verus!
