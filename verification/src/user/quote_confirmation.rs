//! A quote the user agreed to is bound to the user, the port, the tariff and
//! the estimates, and holds for at most five minutes.
use vstd::prelude::*;
use crate::billing::quote_pricing::{DevicePricing, Period};
use crate::contracts::PriceQuote;
use crate::text::{
    canonical_uuid, instant_before, instant_lt, parse_rfc3339, rfc3339_instant, string_eq,
    uuid_canonical, Instant,
};
use crate::user::orders::instant_le;
use crate::user::checkout::{quote_error, validate_quote, QuoteError};

verus! {

#[derive(Debug, Clone, Copy, PartialEq, Eq, Structural)]
pub enum ConfirmError {
    /// The quote id is not a UUID.
    InvalidId,
    /// The quoted amounts are invalid.
    Quote(QuoteError),
    /// The quote's expiry cannot be read.
    InvalidExpiry,
    /// The quote expired, or changed since the user saw it.
    Stale,
    /// No quote for this user and port.
    NotFound,
}

/// The canonical form of a quote id.
pub fn canonical_id(id: &str) -> (r: Result<String, ConfirmError>)
    ensures
        match uuid_canonical(id@) {
            Some(c) => r matches Ok(s) && s@ == c,
            None => r == Err::<String, ConfirmError>(ConfirmError::InvalidId),
        },
{
    match canonical_uuid(id) {
        Some(c) => Ok(c),
        None => Err(ConfirmError::InvalidId),
    }
}

/// How long a saved quote holds at most, in seconds.
pub const QUOTE_HOLD_SECS: i64 = 300;

/// When a quote saved at `now` expires: its own expiry, but no later than
/// five minutes from now (`now` is a clock reading, never inside a leap
/// second); `Err` where the expiry cannot be read or is not after now.
pub open spec fn save_expiry_spec(expires: Seq<char>, now: Instant) -> Result<(int, int), ConfirmError> {
    match rfc3339_instant(expires) {
        None => Err(ConfirmError::InvalidExpiry),
        Some(e) => {
            let cap = (now.0 + QUOTE_HOLD_SECS, now.1 as int);
            let at = if instant_le(cap, e) && cap != e {
                cap
            } else {
                e
            };
            if instant_le(at, (now.0 as int, now.1 as int)) {
                Err(ConfirmError::Stale)
            } else {
                Ok(at)
            }
        },
    }
}

pub fn save_expiry(expires: &str, now: Instant) -> (r: Result<Instant, ConfirmError>)
    requires
        now.0 <= i64::MAX - QUOTE_HOLD_SECS,
        now.1 < 1_000_000_000,
    ensures
        match save_expiry_spec(expires@, now) {
            Ok(v) => r matches Ok(t) && t.0 == v.0 && t.1 == v.1,
            Err(e) => r == Err::<Instant, ConfirmError>(e),
        },
{
    let e = match parse_rfc3339(expires) {
        Some(v) => v,
        None => {
            return Err(ConfirmError::InvalidExpiry);
        },
    };
    let cap: Instant = (now.0 + QUOTE_HOLD_SECS, now.1);
    let at = if instant_before(cap, e) {
        cap
    } else {
        e
    };
    if !instant_before(now, at) {
        return Err(ConfirmError::Stale);
    }
    Ok(at)
}

/// A quote saved for a user and port.
pub struct SavedQuote {
    pub user_id: u64,
    pub port_id: String,
    /// Expiry.
    pub expires_at: Instant,
    pub quote: PriceQuote,
}

/// Checks that a loaded quote is this user's for this port and still holds.
pub fn check_loaded(saved: &SavedQuote, user_id: u64, port_id: &String, now: Instant) -> (r: Result<
    (),
    ConfirmError,
>)
    ensures
        (saved.user_id != user_id || saved.port_id@ != port_id@) ==> r == Err::<(), ConfirmError>(
            ConfirmError::NotFound,
        ),
        (saved.user_id == user_id && saved.port_id@ == port_id@) ==> r == if !instant_lt(
            now,
            saved.expires_at,
        ) {
            Err::<(), ConfirmError>(ConfirmError::Stale)
        } else {
            Ok::<(), ConfirmError>(())
        },
{
    if saved.user_id != user_id || !string_eq(&saved.port_id, port_id) {
        return Err(ConfirmError::NotFound);
    }
    if !instant_before(now, saved.expires_at) {
        return Err(ConfirmError::Stale);
    }
    Ok(())
}

pub open spec fn period_same(a: Period, b: Period) -> bool {
    &&& a.period@ == b.period@
    &&& a.start@ == b.start@
    &&& a.end@ == b.end@
    &&& a.electric_price_cents == b.electric_price_cents
    &&& a.service_price_cents == b.service_price_cents
}

/// Two tariffs are the same: every field, and every period in order.
pub open spec fn pricing_same(a: DevicePricing, b: DevicePricing) -> bool {
    &&& a.station_id == b.station_id
    &&& a.station_name@ == b.station_name@
    &&& a.rule_id == b.rule_id
    &&& a.name@ == b.name@
    &&& a.version == b.version
    &&& a.mode@ == b.mode@
    &&& a.time_of_use@.len() == b.time_of_use@.len()
    &&& (forall|i: int|
        0 <= i < a.time_of_use@.len() ==> period_same(
            #[trigger] a.time_of_use@[i],
            b.time_of_use@[i],
        ))
    &&& a.service_fee_cents_per_kwh == b.service_fee_cents_per_kwh
    &&& a.service_fee_cents_per_min == b.service_fee_cents_per_min
    &&& a.min_charge_cents == b.min_charge_cents
}

fn same_period(a: &Period, b: &Period) -> (r: bool)
    ensures
        r == period_same(*a, *b),
{
    string_eq(&a.period, &b.period) && string_eq(&a.start, &b.start) && string_eq(&a.end, &b.end)
        && a.electric_price_cents == b.electric_price_cents && a.service_price_cents
        == b.service_price_cents
}

pub fn same_pricing(a: &DevicePricing, b: &DevicePricing) -> (r: bool)
    ensures
        r == pricing_same(*a, *b),
{
    if !(a.station_id == b.station_id && string_eq(&a.station_name, &b.station_name) && a.rule_id
        == b.rule_id && string_eq(&a.name, &b.name) && a.version == b.version && string_eq(
        &a.mode,
        &b.mode,
    ) && a.time_of_use.len() == b.time_of_use.len() && a.service_fee_cents_per_kwh
        == b.service_fee_cents_per_kwh && a.service_fee_cents_per_min == b.service_fee_cents_per_min
        && a.min_charge_cents == b.min_charge_cents) {
        return false;
    }
    let mut i: usize = 0;
    while i < a.time_of_use.len()
        invariant
            a.time_of_use@.len() == b.time_of_use@.len(),
            i <= a.time_of_use@.len(),
            forall|j: int| 0 <= j < i ==> period_same(#[trigger] a.time_of_use@[j], b.time_of_use@[j]),
        decreases a.time_of_use@.len() - i,
    {
        if !same_period(&a.time_of_use[i], &b.time_of_use[i]) {
            return false;
        }
        i = i + 1;
    }
    true
}

/// Two quotes are the same quote: the same tariff, amounts, estimates,
/// expiry text and estimation basis.
pub open spec fn quote_same(a: PriceQuote, b: PriceQuote) -> bool {
    &&& pricing_same(a.pricing, b.pricing)
    &&& a.amount == b.amount
    &&& a.estimated_kwh@ == b.estimated_kwh@
    &&& a.estimated_minutes == b.estimated_minutes
    &&& a.quote_expires_at@ == b.quote_expires_at@
    &&& a.estimation_basis@ == b.estimation_basis@
}

pub fn same_quote(a: &PriceQuote, b: &PriceQuote) -> (r: bool)
    ensures
        r == quote_same(*a, *b),
{
    same_pricing(&a.pricing, &b.pricing) && a.amount == b.amount && string_eq(
        &a.estimated_kwh,
        &b.estimated_kwh,
    ) && a.estimated_minutes == b.estimated_minutes && string_eq(
        &a.quote_expires_at,
        &b.quote_expires_at,
    ) && string_eq(&a.estimation_basis, &b.estimation_basis)
}

/// Whether the current quote is the saved one: unexpired, and with the same
/// tariff, amounts and estimates.
pub open spec fn unchanged(saved: SavedQuote, current: PriceQuote, now: Instant) -> bool {
    &&& instant_lt(now, saved.expires_at)
    &&& pricing_same(saved.quote.pricing, current.pricing)
    &&& saved.quote.amount == current.amount
    &&& saved.quote.estimated_kwh@ == current.estimated_kwh@
    &&& saved.quote.estimated_minutes == current.estimated_minutes
}

/// Checks that the price the user agreed to is still the price: a drift in
/// the tariff or the amounts is refused even where the total is unchanged.
pub fn verify(saved: &SavedQuote, current: &PriceQuote, now: Instant) -> (r: Result<(), ConfirmError>)
    ensures
        match quote_error(current.amount) {
            Some(e) => r == Err::<(), ConfirmError>(ConfirmError::Quote(e)),
            None => r == if unchanged(*saved, *current, now) {
                Ok::<(), ConfirmError>(())
            } else {
                Err::<(), ConfirmError>(ConfirmError::Stale)
            },
        },
{
    match validate_quote(&current.amount) {
        Ok(_) => {},
        Err(e) => {
            return Err(ConfirmError::Quote(e));
        },
    }
    if !instant_before(now, saved.expires_at) || !same_pricing(&saved.quote.pricing, &current.pricing)
        || saved.quote.amount != current.amount || !string_eq(
        &saved.quote.estimated_kwh,
        &current.estimated_kwh,
    ) || saved.quote.estimated_minutes != current.estimated_minutes {
        return Err(ConfirmError::Stale);
    }
    Ok(())
}

} // verus!
