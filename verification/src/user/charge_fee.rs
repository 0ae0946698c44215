//! The final fee of a charge, as billing delivers it: checked against the
//! order, its meter and its payment, and turned into the refund of what was
//! paid beyond the fee and the shortfall of what was not.
use vstd::prelude::*;
use crate::contracts::{metered_same, same_metered, ChargeEndMeter, FeeResult, PriceQuote};
use crate::user::quote_confirmation::{quote_same, same_quote};
use crate::text::{is_text, string_eq, utf8_len, Instant};
use crate::user::ledger::{tally, tally_spec, RefundLine};
use crate::user::status::{ChargeStatus, PaymentStatus};

verus! {

/// The fee disagrees with the order, its meter or its refunds.
#[derive(Debug, Clone, Copy, PartialEq, Eq, Structural)]
pub enum FeeConflict {
    Conflict,
}

/// The fee's own shape: for this order, numbered, with amounts that are not
/// negative, add up, and fit a 32-bit payment amount.
pub open spec fn fee_shape_ok(cid: u64, req: FeeResult) -> bool {
    &&& cid != 0
    &&& req.source.charge_order_id == cid
    &&& req.calculation_no@.len() > 0
    &&& utf8_len(req.calculation_no@) <= 64
    &&& req.electric_cents >= 0
    &&& req.service_cents >= 0
    &&& 0 <= req.total_cents <= i32::MAX
    &&& req.electric_cents + req.service_cents == req.total_cents
}

pub fn check_shape(cid: u64, req: &FeeResult) -> (r: bool)
    ensures
        r == fee_shape_ok(cid, *req),
{
    let n = req.calculation_no.as_str();
    let sum_ok = match req.electric_cents.checked_add(req.service_cents) {
        Some(v) => v == req.total_cents,
        None => false,
    };
    cid != 0 && req.source.charge_order_id == cid && !n.is_empty() && n.len() <= 64
        && req.electric_cents >= 0 && req.service_cents >= 0 && req.total_cents >= 0
        && req.total_cents <= i32::MAX as i64 && sum_ok
}

/// The charge order, as stored.
pub struct FeeOrder {
    pub order_no: String,
    pub user_id: u64,
    pub payment_order_id: Option<u64>,
    pub status: ChargeStatus,
}

/// The payment, as stored.
pub struct FeePayment {
    pub user_id: u64,
    pub biz_id: u64,
    pub biz_type: String,
    pub paid_cents: i64,
    pub refunded_cents: i64,
    pub status: PaymentStatus,
}

/// The order is the completed order the fee names, paid by this payment.
pub open spec fn order_ok(cid: u64, pid: u64, o: FeeOrder, p: FeePayment, req: FeeResult) -> bool {
    let uid = req.source.user_id;
    &&& o.order_no@ == req.source.order_no@
    &&& o.user_id == uid
    &&& o.payment_order_id == Some(pid)
    &&& o.status == ChargeStatus::Completed
    &&& p.user_id == uid
    &&& p.biz_id == cid
    &&& p.biz_type@ == "charge"@
    &&& (p.status == PaymentStatus::Paid || p.status == PaymentStatus::PartialRefunded || p.status
        == PaymentStatus::Refunded)
}

pub fn check_order(cid: u64, pid: u64, o: &FeeOrder, p: &FeePayment, req: &FeeResult) -> (r: bool)
    ensures
        r == order_ok(cid, pid, *o, *p, *req),
{
    let uid = req.source.user_id;
    string_eq(&o.order_no, &req.source.order_no) && o.user_id == uid && o.payment_order_id == Some(
        pid,
    ) && o.status == ChargeStatus::Completed && p.user_id == uid && p.biz_id == cid && is_text(
        &p.biz_type,
        "charge",
    ) && (p.status == PaymentStatus::Paid || p.status == PaymentStatus::PartialRefunded || p.status
        == PaymentStatus::Refunded)
}

/// The fee was computed from the recorded reading, the recorded start and
/// the quote the user confirmed.
pub open spec fn source_ok(
    meter: ChargeEndMeter,
    started_at: Instant,
    quote: PriceQuote,
    req: FeeResult,
) -> bool {
    &&& req.source.meter == meter
    &&& req.source.started_at == started_at
    &&& quote_same(quote, req.source.quote)
}

pub fn check_source(meter: &ChargeEndMeter, started_at: Instant, quote: &PriceQuote, req: &FeeResult) -> (r:
    bool)
    ensures
        r == source_ok(*meter, started_at, *quote, *req),
{
    req.source.meter == *meter && req.source.started_at.0 == started_at.0 && req.source.started_at.1 == started_at.1 && same_quote(
        quote,
        &req.source.quote,
    )
}

/// Two fee results are the same delivery: every field, the metered order as
/// `metered_same` compares it.
pub open spec fn fee_same(a: FeeResult, b: FeeResult) -> bool {
    &&& a.calculation_no@ == b.calculation_no@
    &&& metered_same(a.source, b.source)
    &&& a.electric_cents == b.electric_cents
    &&& a.service_cents == b.service_cents
    &&& a.total_cents == b.total_cents
}

/// What a delivered fee does, given the fee already recorded for the order.
#[derive(Debug, Clone, Copy, PartialEq, Eq, Structural)]
pub enum FeeStep {
    /// The same fee was recorded before: nothing more to do.
    Replay,
    /// No fee is recorded yet: check it against the order and settle it.
    Settle,
}

/// A fee is recorded once: a redelivery of the recorded fee is answered as
/// done, any other fee for the order is refused.
pub open spec fn fee_step_spec(saved: Option<FeeResult>, req: FeeResult) -> Option<FeeStep> {
    match saved {
        Some(s) => if fee_same(s, req) {
            Some(FeeStep::Replay)
        } else {
            None
        },
        None => Some(FeeStep::Settle),
    }
}

pub fn fee_step(saved: &Option<FeeResult>, req: &FeeResult) -> (r: Result<FeeStep, FeeConflict>)
    ensures
        match fee_step_spec(*saved, *req) {
            Some(s) => r == Ok::<FeeStep, FeeConflict>(s),
            None => r == Err::<FeeStep, FeeConflict>(FeeConflict::Conflict),
        },
{
    match saved {
        Some(s) => {
            if string_eq(&s.calculation_no, &req.calculation_no) && same_metered(
                &s.source,
                &req.source,
            ) && s.electric_cents == req.electric_cents && s.service_cents == req.service_cents
                && s.total_cents == req.total_cents {
                Ok(FeeStep::Replay)
            } else {
                Err(FeeConflict::Conflict)
            }
        },
        None => Ok(FeeStep::Settle),
    }
}

/// What settling the fee does to the payment.
#[derive(Debug, Clone, Copy, PartialEq, Eq, Structural)]
pub struct Settlement {
    /// The refund to add of what was paid beyond the fee; 0 for none.
    pub refund_cents: i64,
    /// What the fee exceeds the payment by; 0 for none.
    pub shortfall_cents: i64,
}

/// The settlement of a fee of `total` cents against a payment of `paid`
/// cents of which `refunded` were refunded and with the given refund
/// records: everything paid beyond the fee is refunded, counting the
/// refunds already under way.
pub open spec fn settle_spec(paid: int, refunded: int, refunds: Seq<RefundLine>, total: int) -> Option<
    Settlement,
> {
    let target = if paid - total > 0 {
        paid - total
    } else {
        0
    };
    if paid < 0 || refunded < 0 || refunded > paid {
        None
    } else {
        match tally_spec(refunds, false, refunded, false) {
            None => None,
            Some(t) => if t.1 != refunded || t.0 > target {
                None
            } else {
                Some(
                    Settlement {
                        refund_cents: (target - t.0) as i64,
                        shortfall_cents: (if total - paid > 0 {
                            total - paid
                        } else {
                            0
                        }) as i64,
                    },
                )
            },
        }
    }
}

pub fn settle(pay: &FeePayment, refunds: &[RefundLine], total: i64) -> (r: Result<Settlement, FeeConflict>)
    requires
        0 <= total <= i32::MAX,
    ensures
        match settle_spec(pay.paid_cents as int, pay.refunded_cents as int, refunds@, total as int) {
            Some(s) => r == Ok::<Settlement, FeeConflict>(s),
            None => r is Err,
        },
{
    let paid = pay.paid_cents;
    let refunded = pay.refunded_cents;
    if paid < 0 || refunded < 0 || refunded > paid {
        return Err(FeeConflict::Conflict);
    }
    let target = if paid - total > 0 {
        paid - total
    } else {
        0
    };
    match tally(refunds, false, refunded, false) {
        None => Err(FeeConflict::Conflict),
        Some((reserved, successful)) => {
            if successful != refunded || reserved > target {
                return Err(FeeConflict::Conflict);
            }
            let shortfall = if total - paid > 0 {
                total - paid
            } else {
                0
            };
            proof {
                crate::user::ledger::lemma_totals_nonneg(refunds@, false);
            }
            Ok(Settlement { refund_cents: target - reserved, shortfall_cents: shortfall })
        },
    }
}

/// Settling keeps exactly the fee: what stays with the operator after all
/// refunds, those under way and the new one, is the fee where the payment
/// covers it, and the whole payment otherwise, with the shortfall owed.
pub proof fn lemma_settlement_keeps_the_fee(
    paid: int,
    refunded: int,
    refunds: Seq<RefundLine>,
    total: int,
)
    requires
        0 <= total <= i64::MAX,
        paid <= i64::MAX,
        settle_spec(paid, refunded, refunds, total) is Some,
    ensures
        ({
            let s = settle_spec(paid, refunded, refunds, total)->0;
            let t = tally_spec(refunds, false, refunded, false)->0;
            let reserved = t.0;
            &&& s.refund_cents >= 0
            &&& paid - reserved - s.refund_cents == if total <= paid {
                total
            } else {
                paid
            }
            &&& s.shortfall_cents == if total > paid {
                total - paid
            } else {
                0
            }
        }),
{
    crate::user::ledger::lemma_totals_nonneg(refunds, false);
}

} // verus!
