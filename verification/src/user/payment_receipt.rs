//! What a verified WeChat payment notification does to the payment, its
//! charge order or the payer's wallet. The notification is trusted for
//! nothing it does not agree on with the stored payment.
use vstd::prelude::*;
use crate::text::{is_text, string_eq};
use crate::user::status::{ChargeStatus, PaymentStatus};

verus! {

/// The notification disagrees with the stored records.
#[derive(Debug, Clone, Copy, PartialEq, Eq, Structural)]
pub enum ReceiptConflict {
    Conflict,
}

/// The fields of a payment notification the decisions read.
pub struct PaymentNotice {
    pub out_trade_no: String,
    pub transaction_id: String,
    pub payer_openid: String,
    pub amount_total: i64,
}

/// The payment order the notification names, as stored.
pub struct ReceiptPayment {
    pub id: u64,
    pub biz_type: String,
    pub biz_id: u64,
    pub user_id: u64,
    pub pay_method: String,
    pub total_cents: i64,
    pub paid_cents: i64,
    pub status: PaymentStatus,
    pub wechat_transaction_id: Option<String>,
    /// Expiry of the payment, in milliseconds since the epoch.
    pub expired_ms: Option<i64>,
}

/// Exactly one payment matches, paid by WeChat, for the notified amount.
pub open spec fn payment_agrees(rows: Seq<ReceiptPayment>, n: PaymentNotice) -> bool {
    rows.len() == 1 && rows[0].pay_method@ == "wechat"@ && rows[0].total_cents == n.amount_total
}

/// Checks the payment rows found for the notification.
pub fn check_payment(rows: &[ReceiptPayment], n: &PaymentNotice) -> (r: Result<(), ReceiptConflict>)
    ensures
        r is Ok <==> payment_agrees(rows@, *n),
{
    if rows.len() != 1 {
        return Err(ReceiptConflict::Conflict);
    }
    if !is_text(&rows[0].pay_method, "wechat") || rows[0].total_cents != n.amount_total {
        return Err(ReceiptConflict::Conflict);
    }
    Ok(())
}

/// The payer must be the payment's user: a stored user whose openid is the
/// notified one. Returns whether that user is active.
pub fn check_owner(owner: &Option<(String, String)>, n: &PaymentNotice) -> (r: Result<
    bool,
    ReceiptConflict,
>)
    ensures
        match owner {
            Some(o) => if o.0@ == n.payer_openid@ {
                r == Ok::<bool, ReceiptConflict>(o.1@ == "active"@)
            } else {
                r is Err
            },
            None => r is Err,
        },
{
    match owner {
        Some(o) => {
            if !string_eq(&o.0, &n.payer_openid) {
                return Err(ReceiptConflict::Conflict);
            }
            Ok(is_text(&o.1, "active"))
        },
        None => Err(ReceiptConflict::Conflict),
    }
}

/// What to do once the notification's digest has been recorded.
#[derive(Debug, Clone, Copy, PartialEq, Eq, Structural)]
pub enum ReceiptStep {
    /// The same notification was recorded before and took effect: nothing
    /// more to do.
    Replay,
    /// A first notification: record the payment; `refund` where the payment
    /// had already been closed or had failed, so the money goes back.
    Record { refund: bool },
}

pub open spec fn settled_status(s: PaymentStatus) -> bool {
    s == PaymentStatus::Paid || s == PaymentStatus::PartialRefunded || s == PaymentStatus::Refunded
}

pub open spec fn open_status(s: PaymentStatus) -> bool {
    s == PaymentStatus::Initiated || s == PaymentStatus::Closed || s == PaymentStatus::Failed
}

/// The step a notification takes, given whether its transaction id was newly
/// recorded and whether the recorded digest is its own.
pub open spec fn step_spec(inserted: bool, digest_matches: bool, p: ReceiptPayment, n: PaymentNotice) -> Option<
    ReceiptStep,
> {
    if !digest_matches {
        None
    } else if !inserted {
        if p.wechat_transaction_id matches Some(t) && t@ == n.transaction_id@ && p.paid_cents
            == p.total_cents && settled_status(p.status) {
            Some(ReceiptStep::Replay)
        } else {
            None
        }
    } else if p.wechat_transaction_id is Some || !open_status(p.status) || p.paid_cents != 0 {
        None
    } else {
        Some(ReceiptStep::Record { refund: p.status != PaymentStatus::Initiated })
    }
}

/// Decides between replay and first recording of a notification.
pub fn step(inserted: bool, digest_matches: bool, p: &ReceiptPayment, n: &PaymentNotice) -> (r:
    Result<ReceiptStep, ReceiptConflict>)
    ensures
        match step_spec(inserted, digest_matches, *p, *n) {
            Some(s) => r == Ok::<ReceiptStep, ReceiptConflict>(s),
            None => r is Err,
        },
{
    if !digest_matches {
        return Err(ReceiptConflict::Conflict);
    }
    if !inserted {
        let same = match &p.wechat_transaction_id {
            Some(t) => string_eq(t, &n.transaction_id),
            None => false,
        };
        let settled = p.status == PaymentStatus::Paid || p.status == PaymentStatus::PartialRefunded
            || p.status == PaymentStatus::Refunded;
        if same && p.paid_cents == p.total_cents && settled {
            return Ok(ReceiptStep::Replay);
        }
        return Err(ReceiptConflict::Conflict);
    }
    let open = p.status == PaymentStatus::Initiated || p.status == PaymentStatus::Closed
        || p.status == PaymentStatus::Failed;
    if p.wechat_transaction_id.is_some() || !open || p.paid_cents != 0 {
        return Err(ReceiptConflict::Conflict);
    }
    Ok(ReceiptStep::Record { refund: p.status != PaymentStatus::Initiated })
}

/// The charge order a charge payment pays for, as stored.
pub struct ReceiptCharge {
    pub user_id: u64,
    pub payment_order_id: Option<u64>,
    pub status: ChargeStatus,
}

/// What recording the payment does besides marking it paid.
#[derive(Debug, Clone, Copy, PartialEq, Eq, Structural)]
pub enum ReceiptEffect {
    /// Refund the whole payment; for a charge still pending payment, cancel
    /// the order too.
    Refund { cancel_order: bool },
    /// Mark the charge order paid and ask the gateway to start it.
    StartCharge,
    /// Credit the payment to the payer's wallet.
    CreditWallet,
}

/// The effect of recording a payment. A charge payment is refunded where the
/// payment had closed, the order is no longer pending payment, the payment
/// has no expiry or expired by `now_ms`, or the payer is not active; a
/// wallet recharge is refunded only where the payment had closed.
/// (`now_ms` is the clock's `timestamp_millis`; stored expiries are whole
/// milliseconds, so comparing milliseconds orders them as the instants are.)
pub open spec fn effect_spec(
    p: ReceiptPayment,
    refund: bool,
    charges: Seq<ReceiptCharge>,
    owner_active: bool,
    now_ms: int,
) -> Option<ReceiptEffect> {
    if p.biz_type@ == "charge"@ {
        if charges.len() != 1 {
            None
        } else {
            let c = charges[0];
            if c.user_id != p.user_id || c.payment_order_id != Some(p.id) || !(c.status
                == ChargeStatus::PendingPayment || c.status == ChargeStatus::Cancelled || c.status
                == ChargeStatus::Failed) {
                None
            } else {
                let expired = match p.expired_ms {
                    Some(t) => t <= now_ms,
                    None => true,
                };
                if refund || c.status != ChargeStatus::PendingPayment || expired || !owner_active {
                    Some(ReceiptEffect::Refund { cancel_order: c.status == ChargeStatus::PendingPayment })
                } else {
                    Some(ReceiptEffect::StartCharge)
                }
            }
        }
    } else if p.biz_type@ == "wallet_recharge"@ {
        if refund {
            Some(ReceiptEffect::Refund { cancel_order: false })
        } else {
            Some(ReceiptEffect::CreditWallet)
        }
    } else {
        None
    }
}

/// Decides what recording the payment does.
pub fn effect(
    p: &ReceiptPayment,
    refund: bool,
    charges: &[ReceiptCharge],
    owner_active: bool,
    now_ms: i64,
) -> (r: Result<ReceiptEffect, ReceiptConflict>)
    ensures
        match effect_spec(*p, refund, charges@, owner_active, now_ms as int) {
            Some(e) => r == Ok::<ReceiptEffect, ReceiptConflict>(e),
            None => r is Err,
        },
{
    if is_text(&p.biz_type, "charge") {
        if charges.len() != 1 {
            return Err(ReceiptConflict::Conflict);
        }
        let c = &charges[0];
        let linked = match c.payment_order_id {
            Some(id) => id == p.id,
            None => false,
        };
        let open = c.status == ChargeStatus::PendingPayment || c.status == ChargeStatus::Cancelled
            || c.status == ChargeStatus::Failed;
        if c.user_id != p.user_id || !linked || !open {
            return Err(ReceiptConflict::Conflict);
        }
        let expired = match p.expired_ms {
            Some(t) => t <= now_ms,
            None => true,
        };
        let pending = c.status == ChargeStatus::PendingPayment;
        if refund || !pending || expired || !owner_active {
            Ok(ReceiptEffect::Refund { cancel_order: pending })
        } else {
            Ok(ReceiptEffect::StartCharge)
        }
    } else if is_text(&p.biz_type, "wallet_recharge") {
        if refund {
            Ok(ReceiptEffect::Refund { cancel_order: false })
        } else {
            Ok(ReceiptEffect::CreditWallet)
        }
    } else {
        Err(ReceiptConflict::Conflict)
    }
}

/// The payer's wallet after a recharge: `(false, b)` to update the one wallet
/// to balance `b`, `(true, b)` to open a wallet with balance `b`.
pub fn credit_wallet(balances: &[i64], total: i64) -> (r: Result<(bool, i64), ReceiptConflict>)
    ensures
        balances@.len() > 1 ==> r is Err,
        balances@.len() == 1 ==> match r {
            Ok(v) => !v.0 && v.1 == balances@[0] + total,
            Err(_) => balances@[0] + total > i64::MAX || balances@[0] + total < i64::MIN,
        },
        balances@.len() == 0 ==> r == Ok::<(bool, i64), ReceiptConflict>((true, total)),
{
    if balances.len() > 1 {
        return Err(ReceiptConflict::Conflict);
    }
    if balances.len() == 0 {
        return Ok((true, total));
    }
    match balances[0].checked_add(total) {
        Some(b) => Ok((false, b)),
        None => Err(ReceiptConflict::Conflict),
    }
}

/// A notification replayed after it took effect is answered as a replay:
/// once the payment holds the notified transaction, the full amount and a
/// settled status, a second delivery whose digest is already recorded
/// changes nothing.
pub proof fn lemma_replay_changes_nothing(p: ReceiptPayment, n: PaymentNotice)
    requires
        p.wechat_transaction_id matches Some(t) && t@ == n.transaction_id@,
        p.paid_cents == p.total_cents,
        settled_status(p.status),
    ensures
        step_spec(false, true, p, n) == Some(ReceiptStep::Replay),
{
}

/// A payment that arrives after its charge order stopped waiting for it, or
/// after it expired, never starts the charge: it is refunded.
pub proof fn lemma_late_payment_is_refunded(
    p: ReceiptPayment,
    refund: bool,
    charges: Seq<ReceiptCharge>,
    owner_active: bool,
    now_ms: int,
)
    requires
        p.biz_type@ == "charge"@,
        charges.len() == 1,
        charges[0].status != ChargeStatus::PendingPayment || (p.expired_ms matches Some(t) && t
            <= now_ms),
    ensures
        effect_spec(p, refund, charges, owner_active, now_ms) != Some(ReceiptEffect::StartCharge),
{
}

/// A payment that had already closed when its notice came (`refund`) is
/// never credited to a wallet nor starts a charge, whatever its business:
/// whatever recording it does besides marking it paid is a refund. A wallet
/// recharge is always accepted: refunded where it had closed, credited to
/// the wallet where it had not.
pub proof fn lemma_closed_payment_is_refunded(
    p: ReceiptPayment,
    refund: bool,
    charges: Seq<ReceiptCharge>,
    owner_active: bool,
    now_ms: int,
)
    ensures
        refund ==> (effect_spec(p, refund, charges, owner_active, now_ms) matches Some(e) ==> e is Refund),
        p.biz_type@ == "wallet_recharge"@ && refund ==> effect_spec(p, refund, charges, owner_active, now_ms)
            == (Some(ReceiptEffect::Refund { cancel_order: false })),
        p.biz_type@ == "wallet_recharge"@ && !refund ==> effect_spec(p, refund, charges, owner_active, now_ms)
            == Some(ReceiptEffect::CreditWallet),
{
    reveal_strlit("charge");
    reveal_strlit("wallet_recharge");
    assert("charge"@.len() != "wallet_recharge"@.len());
    assert("charge"@ != "wallet_recharge"@);
}

/// A charge payment for its own charge order starts the charge only where
/// the payment was still open, the order still waits for it, the payment
/// has an expiry later than now and the payer is active; in every other
/// case it is refunded, cancelling the order where the order still waits.
/// A payment for another user's order, for an order that names another
/// payment, or for an order that has moved on is refused.
pub proof fn lemma_charge_payment_effect(
    p: ReceiptPayment,
    refund: bool,
    charges: Seq<ReceiptCharge>,
    owner_active: bool,
    now_ms: int,
)
    requires
        p.biz_type@ == "charge"@,
        charges.len() == 1,
    ensures
        ({
            let c = charges[0];
            let linked = c.user_id == p.user_id && c.payment_order_id == Some(p.id);
            let waiting = c.status == ChargeStatus::PendingPayment;
            let closed = c.status == ChargeStatus::Cancelled || c.status == ChargeStatus::Failed;
            let starts = !refund && waiting && owner_active && (p.expired_ms matches Some(t) && t
                > now_ms);
            &&& !(linked && (waiting || closed)) ==> effect_spec(p, refund, charges, owner_active, now_ms)
                is None
            &&& linked && (waiting || closed) && starts ==> effect_spec(p, refund, charges, owner_active, now_ms)
                == Some(ReceiptEffect::StartCharge)
            &&& linked && (waiting || closed) && !starts ==> effect_spec(p, refund, charges, owner_active, now_ms)
                == (Some(ReceiptEffect::Refund { cancel_order: waiting }))
        }),
{
}

/// Whether the digest recorded for the notification's transaction is its
/// own digest.
pub fn recorded_matches(recorded: &Option<String>, digest: &String) -> (r: bool)
    ensures
        r == (recorded matches Some(d) && d@ == digest@),
{
    match recorded {
        Some(d) => string_eq(d, digest),
        None => false,
    }
}

} // verus!
