//! Request and response bodies of the billing service's internal API.
use vstd::prelude::*;

pub mod paths;

verus! {

pub struct QuoteRequest {
    pub port_id: String,
    pub user_id: u64,
    pub estimated_minutes: i64,
}

pub struct SplitRequest {
    pub fee_calculation_id: u64,
    pub split_template_id: u64,
}

pub struct RefundCalcRequest {
    pub payment_order_id: u64,
    pub actual_paid_cents: i64,
}

pub struct WithdrawCreateRequest {
    pub party_id: u64,
    pub amount_cents: i64,
}

/// An amount split into its energy and service parts, in cents.
#[derive(Debug, Clone, Copy, PartialEq, Eq, Structural)]
pub struct QuoteResponse {
    pub total_cents: i64,
    pub electric_cents: i64,
    pub service_cents: i64,
}

pub struct CalculateResponse {
    pub calculation_id: u64,
    pub calculation_no: String,
    pub electric_cents: i64,
    pub service_cents: i64,
    pub total_cents: i64,
}

pub struct FeeBreakdownResponse {
    pub calculation_no: String,
    pub electric_cents: i64,
    pub service_cents: i64,
    pub total_cents: i64,
}

pub struct SplitAllocation {
    pub party_id: u64,
    pub party_code: String,
    pub amount_cents: i64,
}

pub struct SplitResponse {
    pub settlement_id: u64,
    pub settlement_no: String,
    pub allocations: Vec<SplitAllocation>,
}

pub struct OrderSplitParty {
    pub party_id: u64,
    pub party_code: String,
    pub amount_cents: i64,
}

pub struct OrderSplitResponse {
    pub settlement_id: u64,
    pub settlement_no: String,
    pub mode: String,
    pub total_cents: i64,
    pub split_pool_cents: i64,
    pub parties: Vec<OrderSplitParty>,
}

pub struct SettlementDetailResponse {
    pub id: u64,
    pub settlement_no: String,
    pub total_cents: i64,
    pub status: String,
}

pub struct InvoiceSettleDetailResponse {
    pub invoice_id: u64,
    pub found: bool,
    pub total_cents: Option<i64>,
}

pub struct RefundCalcResponse {
    pub refund_cents: i64,
    pub note: String,
}

pub struct WithdrawCreateResponse {
    pub withdraw_no: String,
}

pub struct InternalSplitParty {
    pub id: u64,
    pub party_code: String,
    pub ratio_bp: u32,
}

} // verus!
