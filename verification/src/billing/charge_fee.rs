//! The final fee of a completed order, calculated once from the user's
//! confirmed tariff and the device's meter receipt.
use vstd::prelude::*;
use crate::billing::api_types::QuoteResponse;
use crate::billing::metered_pricing::{calculate, metered_fee, meter_valid};
use crate::billing::quote_pricing::PricingError;
use crate::contracts::{metered_same, same_metered, MeteredOrder};
use crate::billing::split::div_trunc;
use crate::text::{duration_between, duration_nanos, str_eq, Instant};

verus! {

#[derive(Debug, Clone, Copy, PartialEq, Eq, Structural)]
pub enum SettleError {
    /// The request names no order.
    MissingOrder,
    /// The metered order is not the one requested.
    IdentityMismatch,
    /// The tariff or the meter reading is refused.
    Pricing(PricingError),
}

/// A stop within 60 seconds (whole milliseconds of the elapsed time,
/// truncated toward zero as chrono's `num_milliseconds` counts them), or
/// more than ten hours of charging, is free.
pub open spec fn full_refund(started: Instant, ended: Instant, charged_seconds: int) -> bool {
    div_trunc(duration_nanos(ended, started), 1_000_000) <= 60000 || charged_seconds > 36000
}

pub open spec fn settle_spec(cid: u64, order_no: Seq<char>, source: MeteredOrder) -> Result<
    QuoteResponse,
    SettleError,
> {
    if cid == 0 || order_no.len() == 0 {
        Err(SettleError::MissingOrder)
    } else if source.charge_order_id != cid || source.order_no@ != order_no {
        Err(SettleError::IdentityMismatch)
    } else {
        match metered_fee(
            source.quote.pricing,
            source.started_at,
            source.meter.ended(),
            source.meter.charged_wh as int,
            source.meter.charged_seconds as int,
        ) {
            Err(e) => Err(SettleError::Pricing(e)),
            Ok(fee) => if full_refund(
                source.started_at,
                source.meter.ended(),
                source.meter.charged_seconds as int,
            ) {
                Ok(QuoteResponse { total_cents: 0, electric_cents: 0, service_cents: 0 })
            } else {
                Ok(fee)
            },
        }
    }
}

/// Refuses a request that names no order, before anything is fetched.
pub fn check_target(cid: u64, order_no: &str) -> (r: Result<(), SettleError>)
    ensures
        r is Err <==> (cid == 0 || order_no@.len() == 0),
        r matches Err(e) ==> e == SettleError::MissingOrder,
{
    if cid == 0 || order_no.unicode_len() == 0 {
        Err(SettleError::MissingOrder)
    } else {
        Ok(())
    }
}

/// The fee owed for order `cid` / `order_no`, given its metered record.
pub fn settle(cid: u64, order_no: &str, source: &MeteredOrder) -> (r: Result<
    QuoteResponse,
    SettleError,
>)
    ensures
        r == settle_spec(cid, order_no@, *source),
{
    if cid == 0 || order_no.unicode_len() == 0 {
        return Err(SettleError::MissingOrder);
    }
    if source.charge_order_id != cid || !str_eq(source.order_no.as_str(), order_no) {
        return Err(SettleError::IdentityMismatch);
    }
    let meter = &source.meter;
    let fee = match calculate(
        &source.quote.pricing,
        source.started_at,
        (meter.ended_secs, meter.ended_nanos),
        meter.charged_wh,
        meter.charged_seconds,
    ) {
        Ok(v) => v,
        Err(e) => {
            return Err(SettleError::Pricing(e));
        },
    };
    assert(meter_valid(
        source.started_at,
        meter.ended(),
        meter.charged_wh as int,
        meter.charged_seconds as int,
    ));
    let ended = (meter.ended_secs, meter.ended_nanos);
    let d = duration_between(ended, source.started_at);
    proof {
        crate::billing::metered_pricing::lemma_duration_range(ended, source.started_at);
    }
    let elapsed_ms = crate::billing::metered_pricing::trunc_div(d, 1_000_000);
    if elapsed_ms <= 60000 || meter.charged_seconds > 36000 {
        return Ok(QuoteResponse { total_cents: 0, electric_cents: 0, service_cents: 0 });
    }
    Ok(fee)
}

/// What a calculation does with the receipt already kept for its order.
#[derive(Debug, Clone, Copy, PartialEq, Eq, Structural)]
pub enum CalcStep {
    /// Calculated before: answer with the stored calculation.
    Replay(u64),
    /// Not calculated yet: calculate and record.
    Create,
}

/// A fee is calculated once per order: the receipt keeps the metered order
/// it was first asked for and, once made, the calculation. A later request
/// with the same metered order gets the stored calculation; one whose
/// metered order changed is refused.
pub open spec fn calc_step_spec(
    stored: MeteredOrder,
    calculation: Option<u64>,
    source: MeteredOrder,
) -> Option<CalcStep> {
    if !metered_same(stored, source) {
        None
    } else {
        match calculation {
            Some(id) => Some(CalcStep::Replay(id)),
            None => Some(CalcStep::Create),
        }
    }
}

pub fn calc_step(stored: &MeteredOrder, calculation: Option<u64>, source: &MeteredOrder) -> (r:
    Result<CalcStep, ()>)
    ensures
        match calc_step_spec(*stored, calculation, *source) {
            Some(s) => r == Ok::<CalcStep, ()>(s),
            None => r is Err,
        },
{
    if !same_metered(stored, source) {
        return Err(());
    }
    match calculation {
        Some(id) => Ok(CalcStep::Replay(id)),
        None => Ok(CalcStep::Create),
    }
}

/// Calculating twice gives one calculation: once a calculation is stored,
/// the same metered order always gets it back, and a changed one never
/// gets a new one.
pub proof fn lemma_calculated_once(stored: MeteredOrder, id: u64, source: MeteredOrder)
    ensures
        metered_same(stored, source) ==> calc_step_spec(stored, Some(id), source) == Some(
            CalcStep::Replay(id),
        ),
        !metered_same(stored, source) ==> calc_step_spec(stored, Some(id), source) is None,
        calc_step_spec(stored, Some(id), source) != Some(CalcStep::Create),
{
}

} // verus!
