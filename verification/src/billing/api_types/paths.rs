//! Routes of the billing service's internal API.
use vstd::prelude::*;

verus! {

pub const QUOTE: &'static str = "/api/v1/internal/quote";
pub const CALCULATE: &'static str = "/api/v1/internal/calculate";
pub const FEE_BREAKDOWN: &'static str = "/api/v1/internal/orders/:order_id/fee-breakdown";
pub const SPLIT: &'static str = "/api/v1/internal/split";
pub const ORDER_SPLIT: &'static str = "/api/v1/internal/orders/:order_id/split";
pub const SETTLEMENT_DETAIL: &'static str = "/api/v1/internal/settlements/:settlement_id";
pub const INVOICE_SETTLE_DETAIL: &'static str = "/api/v1/internal/invoices/:invoice_id/settle-detail";
pub const REFUND_CALC: &'static str = "/api/v1/internal/refunds/:refund_id/calc";
pub const WITHDRAW_REQUESTS: &'static str = "/api/v1/internal/withdraw-requests";
pub const HEALTH: &'static str = "/api/v1/health";

} // verus!
