//! Bodies exchanged between the billing, gateway and user services.
use vstd::prelude::*;
use crate::billing::api_types::QuoteResponse;
use crate::billing::quote_pricing::DevicePricing;
use crate::text::{string_eq, Instant};
use crate::user::quote_confirmation::{quote_same, same_quote};

verus! {

/// The final reading a device reports with a confirmed STOP.
#[derive(Debug, Clone, Copy, PartialEq, Eq, Structural)]
pub struct ChargeEndMeter {
    pub charged_wh: u64,
    pub charged_seconds: u32,
    /// End of charging: seconds since the epoch and nanoseconds past them.
    pub ended_secs: i64,
    pub ended_nanos: u32,
}

impl ChargeEndMeter {
    /// The end of charging as an instant.
    pub open spec fn ended(self) -> Instant {
        (self.ended_secs, self.ended_nanos)
    }
}

/// A quote the user confirmed: the amount, the tariff and the estimates.
pub struct PriceQuote {
    pub amount: QuoteResponse,
    pub pricing: DevicePricing,
    pub estimated_kwh: String,
    pub estimated_minutes: i64,
    pub quote_expires_at: String,
    pub estimation_basis: String,
}

/// A completed order as billing sees it: the confirmed quote and the final
/// meter reading.
pub struct MeteredOrder {
    pub charge_order_id: u64,
    pub order_no: String,
    pub user_id: u64,
    /// Start of charging.
    pub started_at: Instant,
    pub meter: ChargeEndMeter,
    pub quote: PriceQuote,
}

/// Two metered orders are the same record: every field, the quote as
/// `quote_same` compares it.
pub open spec fn metered_same(a: MeteredOrder, b: MeteredOrder) -> bool {
    &&& a.charge_order_id == b.charge_order_id
    &&& a.order_no@ == b.order_no@
    &&& a.user_id == b.user_id
    &&& a.started_at == b.started_at
    &&& a.meter == b.meter
    &&& quote_same(a.quote, b.quote)
}

pub fn same_metered(a: &MeteredOrder, b: &MeteredOrder) -> (r: bool)
    ensures
        r == metered_same(*a, *b),
{
    a.charge_order_id == b.charge_order_id && string_eq(&a.order_no, &b.order_no) && a.user_id
        == b.user_id && a.started_at.0 == b.started_at.0 && a.started_at.1 == b.started_at.1 && a.meter == b.meter && same_quote(
        &a.quote,
        &b.quote,
    )
}

/// The final fee billing delivers for a metered order.
pub struct FeeResult {
    pub calculation_no: String,
    pub source: MeteredOrder,
    pub electric_cents: i64,
    pub service_cents: i64,
    pub total_cents: i64,
}

/// A device's answer to a START command, as the gateway reports it.
pub struct StartResultRequest {
    pub order_no: String,
    pub command_id: String,
    pub device_id: String,
    pub port_no: u8,
    pub port_id: Option<u64>,
    pub success: bool,
    pub error: Option<String>,
}

/// A confirmed STOP with its final reading, as the gateway reports it.
pub struct ChargeEndRequest {
    pub order_no: String,
    pub start_command_id: String,
    pub stop_command_id: String,
    pub device_id: String,
    pub port_no: u8,
    pub port_id: u64,
    pub meter: ChargeEndMeter,
}

/// One port found by a scan.
pub struct ScanPortDetail {
    pub port_id: String,
    pub port_code: String,
    pub device_id: String,
    pub port_no: u8,
    pub status: String,
}

} // verus!
