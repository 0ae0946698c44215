//! A device's answer to START: validated, matched against the order and its
//! payment, and turned into a started charge or a failed one with a refund of
//! what is still free.
use vstd::prelude::*;
use crate::contracts::StartResultRequest;
use crate::text::{
    any_control, byte_count, canonical_uuid, char_count, has_control, string_eq, str_eq,
    utf8_len, uuid_canonical,
};
use crate::user::ledger::{amounts_positive, open_total, RefundLine};
use crate::user::status::{ChargeStatus, PaymentStatus, RefundStatus};

verus! {

#[derive(Debug, Clone, Copy, PartialEq, Eq, Structural)]
pub enum StartError {
    /// The order number, device, port or error text is missing or malformed.
    InvalidRequest,
    /// The command id is not a UUID.
    InvalidCommandId,
    /// The answer disagrees with the order, its payment or the port.
    Conflict,
}

/// The shape a START answer must have before anything is looked up.
pub open spec fn start_request_ok(path: Seq<char>, req: StartResultRequest) -> bool {
    &&& path == req.order_no@
    &&& path.len() > 0
    &&& utf8_len(path) <= 64
    &&& req.device_id@.len() > 0
    &&& utf8_len(req.device_id@) <= 64
    &&& req.port_no != 0
    &&& req.port_id != Some(0u64)
    &&& !(req.success && req.port_id is None)
    &&& match req.error {
        Some(e) => e@.len() <= 255 && !has_control(e@),
        None => true,
    }
}

/// Checks a START answer and returns its command id in canonical form.
pub fn validate(path: &str, req: &StartResultRequest) -> (r: Result<String, StartError>)
    ensures
        !start_request_ok(path@, *req) ==> r == Err::<String, StartError>(StartError::InvalidRequest),
        start_request_ok(path@, *req) ==> match uuid_canonical(req.command_id@) {
            Some(c) => r matches Ok(s) && s@ == c,
            None => r == Err::<String, StartError>(StartError::InvalidCommandId),
        },
{
    let path_len = path.len();
    let device_len = byte_count(&req.device_id);
    let error_ok = match &req.error {
        Some(e) => char_count(e.as_str()) <= 255 && !any_control(e.as_str()),
        None => true,
    };
    let port_id_zero = match req.port_id {
        Some(p) => p == 0,
        None => false,
    };
    if !str_eq(path, req.order_no.as_str()) || path.is_empty() || path_len > 64
        || req.device_id.as_str().is_empty() || device_len > 64 || req.port_no == 0 || port_id_zero
        || (req.success && req.port_id.is_none()) || !error_ok {
        return Err(StartError::InvalidRequest);
    }
    match canonical_uuid(req.command_id.as_str()) {
        Some(c) => Ok(c),
        None => Err(StartError::InvalidCommandId),
    }
}

/// The charge order a START answer names, as stored.
pub struct StartOrder {
    pub user_id: u64,
    pub device_id: String,
    pub port_no: u8,
    pub port_code: Option<String>,
    pub payment_order_id: Option<u64>,
    pub status: ChargeStatus,
}

/// The payment of that order, as stored.
pub struct StartPayment {
    pub biz_id: u64,
    pub user_id: u64,
    pub biz_type: String,
    pub status: PaymentStatus,
    pub paid_cents: i64,
    pub refunded_cents: i64,
}

/// Whether order, payment and answer describe the same charge.
pub open spec fn start_matches(
    cid: u64,
    pid: u64,
    order: StartOrder,
    pay: StartPayment,
    req: StartResultRequest,
) -> bool {
    &&& order.payment_order_id == Some(pid)
    &&& order.device_id@ == req.device_id@
    &&& order.port_no == req.port_no
    &&& pay.biz_id == cid
    &&& pay.user_id == order.user_id
    &&& pay.biz_type@ == "charge"@
}

/// Checks that the answer belongs to the order and its payment, and returns
/// the port code the order holds.
pub fn match_order(
    cid: u64,
    pid: u64,
    order: &StartOrder,
    pay: &StartPayment,
    req: &StartResultRequest,
) -> (r: Result<String, StartError>)
    ensures
        match order.port_code {
            Some(code) => if code@.len() > 0 && start_matches(cid, pid, *order, *pay, *req) {
                r matches Ok(c) && c@ == code@
            } else {
                r == Err::<String, StartError>(StartError::Conflict)
            },
            None => r == Err::<String, StartError>(StartError::Conflict),
        },
{
    let code = match &order.port_code {
        Some(c) => c,
        None => {
            return Err(StartError::Conflict);
        },
    };
    if code.as_str().is_empty() {
        return Err(StartError::Conflict);
    }
    let linked = match order.payment_order_id {
        Some(p) => p == pid,
        None => false,
    };
    let charge = String::from_str("charge");
    proof {
        reveal_strlit("charge");
    }
    if !linked || !string_eq(&order.device_id, &req.device_id) || order.port_no != req.port_no
        || pay.biz_id != cid || pay.user_id != order.user_id || !string_eq(&pay.biz_type, &charge) {
        return Err(StartError::Conflict);
    }
    Ok(code.clone())
}

/// The receipt of an answer already recorded for the order.
pub struct StartReceipt {
    pub command_id: String,
    pub success: bool,
    pub port_id: Option<u64>,
}

/// A repeated answer is accepted only when it is the recorded one.
pub fn replay_matches(saved: &StartReceipt, command: &String, req: &StartResultRequest) -> (r: bool)
    ensures
        r == (saved.command_id@ == command@ && saved.success == req.success && saved.port_id
            == req.port_id),
{
    string_eq(&saved.command_id, command) && saved.success == req.success && saved.port_id
        == req.port_id
}

/// What the payment still has free: paid less refunded less every refund
/// record that has not succeeded. `None` where the order cannot take the
/// answer: order or payment not paid, nothing free, a success with refunds
/// already on record, a record that is not positive, or more reserved than
/// free.
pub open spec fn available_spec(
    order_status: ChargeStatus,
    pay_status: PaymentStatus,
    paid: int,
    refunded: int,
    refunds: Seq<RefundLine>,
    success: bool,
) -> Option<int> {
    let free = paid - refunded;
    if order_status == ChargeStatus::Paid && pay_status == PaymentStatus::Paid && i64::MIN <= free
        <= i64::MAX && free > 0 && !(success && (refunds.len() > 0 || refunded != 0))
        && amounts_positive(refunds, false) && free - open_total(refunds, false) >= 0 {
        Some(free - open_total(refunds, false))
    } else {
        None
    }
}

/// The amount of the payment still free once the answer is applied: refunded
/// in full when the device refused to start.
pub fn available(order: &StartOrder, pay: &StartPayment, refunds: &[RefundLine], success: bool) -> (r:
    Result<i64, StartError>)
    ensures
        match available_spec(
            order.status,
            pay.status,
            pay.paid_cents as int,
            pay.refunded_cents as int,
            refunds@,
            success,
        ) {
            Some(v) => r == Ok::<i64, StartError>(v as i64),
            None => r == Err::<i64, StartError>(StartError::Conflict),
        },
{
    if order.status != ChargeStatus::Paid || pay.status != PaymentStatus::Paid {
        return Err(StartError::Conflict);
    }
    let free = match pay.paid_cents.checked_sub(pay.refunded_cents) {
        Some(v) => v,
        None => {
            return Err(StartError::Conflict);
        },
    };
    if free <= 0 {
        return Err(StartError::Conflict);
    }
    if success && (refunds.len() > 0 || pay.refunded_cents != 0) {
        return Err(StartError::Conflict);
    }
    let mut left: i64 = free;
    let mut i: usize = 0;
    while i < refunds.len()
        invariant
            i <= refunds@.len(),
            free > 0,
            order.status == ChargeStatus::Paid,
            pay.status == PaymentStatus::Paid,
            free == pay.paid_cents - pay.refunded_cents,
            !(success && (refunds@.len() > 0 || pay.refunded_cents != 0)),
            amounts_positive(refunds@.take(i as int), false),
            left == free - open_total(refunds@.take(i as int), false),
            left >= 0,
        decreases refunds@.len() - i,
    {
        let l = refunds[i];
        let ghost pre = refunds@.take(i as int);
        let ghost next = refunds@.take(i + 1);
        assert(next.drop_last() =~= pre);
        assert(next.last() == l);
        if l.amount <= 0 {
            proof {
                assert(refunds@[i as int] == l);
                assert(crate::user::ledger::counted(refunds@[i as int], false));
                assert(!amounts_positive(refunds@, false));
            }
            return Err(StartError::Conflict);
        }
        if l.status != RefundStatus::Success {
            if l.amount > left {
                proof {
                    lemma_open_total_tail(refunds@, i as int);
                }
                return Err(StartError::Conflict);
            }
            left = left - l.amount;
        }
        proof {
            assert forall|j: int| 0 <= j < next.len() && crate::user::ledger::counted(
                #[trigger] next[j],
                false,
            ) implies next[j].amount > 0 by {
                if j < i {
                    assert(next[j] == pre[j]);
                }
            }
        }
        i = i + 1;
    }
    assert(refunds@.take(refunds@.len() as int) =~= refunds@);
    Ok(left)
}

/// Where some later prefix already over-reserves, or a later record is not
/// positive, the whole ledger is refused.
proof fn lemma_open_total_tail(lines: Seq<RefundLine>, i: int)
    requires
        0 <= i < lines.len(),
        lines[i].amount > 0,
        lines[i].status != RefundStatus::Success,
    ensures
        amounts_positive(lines, false) ==> open_total(lines, false) >= open_total(
            lines.take(i),
            false,
        ) + lines[i].amount,
    decreases lines.len() - i,
{
    if amounts_positive(lines, false) {
        crate::user::ledger::lemma_totals_monotone(lines, false, i + 1);
        let t = lines.take(i + 1);
        assert(t.drop_last() =~= lines.take(i));
        assert(t.last() == lines[i]);
    }
}

/// A row of the port occupancy table that touches the port or its slot.
pub struct ActivePort {
    pub port_id: u64,
    pub device_id: String,
    pub port_no: u8,
    pub charge_order_id: u64,
    pub ended: bool,
}

/// Whether a started charge may take the port: at most one row touches it,
/// and that row is this very port, held by this order or by none.
pub open spec fn port_takeable(
    rows: Seq<ActivePort>,
    port_id: u64,
    req: StartResultRequest,
    cid: u64,
) -> bool {
    rows.len() <= 1 && (rows.len() == 1 ==> {
        let e = rows[0];
        e.port_id == port_id && e.device_id@ == req.device_id@ && e.port_no == req.port_no && (
        e.charge_order_id == cid || e.ended)
    })
}

/// Decides whether a started charge may take the port; `Ok(true)` where the
/// existing row is to be taken over, `Ok(false)` where a row is to be added.
pub fn take_port(rows: &[ActivePort], port_id: u64, req: &StartResultRequest, cid: u64) -> (r:
    Result<bool, StartError>)
    ensures
        port_takeable(rows@, port_id, *req, cid) ==> r == Ok::<bool, StartError>(rows@.len() == 1),
        !port_takeable(rows@, port_id, *req, cid) ==> r == Err::<bool, StartError>(
            StartError::Conflict,
        ),
{
    if rows.len() > 1 {
        return Err(StartError::Conflict);
    }
    if rows.len() == 1 {
        let e = &rows[0];
        if e.port_id != port_id || !string_eq(&e.device_id, &req.device_id) || e.port_no
            != req.port_no || (e.charge_order_id != cid && !e.ended) {
            return Err(StartError::Conflict);
        }
        return Ok(true);
    }
    Ok(false)
}

/// An answer never takes a port from another charge: while the port's row
/// belongs to another order that has not ended, the answer is refused.
pub proof fn lemma_active_port_is_never_taken_over(
    rows: Seq<ActivePort>,
    port_id: u64,
    req: StartResultRequest,
    cid: u64,
)
    requires
        rows.len() == 1,
        rows[0].charge_order_id != cid,
        !rows[0].ended,
    ensures
        !port_takeable(rows, port_id, req, cid),
{
}

/// A refund already on record blocks a start, and when the device refuses,
/// what is refunded is what the payment still has free: refunds on record
/// that have not succeeded are deducted.
pub proof fn lemma_refunds_block_start_and_reduce_refund(
    order_status: ChargeStatus,
    pay_status: PaymentStatus,
    paid: int,
    refunded: int,
    refunds: Seq<RefundLine>,
)
    ensures
        refunds.len() > 0 ==> available_spec(order_status, pay_status, paid, refunded, refunds, true)
            is None,
        available_spec(order_status, pay_status, paid, refunded, refunds, false) matches Some(x)
            ==> x == paid - refunded - open_total(refunds, false) && x >= 0,
{
}

/// After a refused start, a late success is refused: it does not replay the
/// recorded failure, and the refund the failure recorded blocks it.
pub proof fn lemma_late_success_after_refusal_is_refused(
    saved: StartReceipt,
    command: Seq<char>,
    req: StartResultRequest,
    order_status: ChargeStatus,
    pay_status: PaymentStatus,
    paid: int,
    refunded: int,
    refunds: Seq<RefundLine>,
)
    requires
        !saved.success,
        req.success,
        refunds.len() > 0,
    ensures
        !(saved.command_id@ == command && saved.success == req.success && saved.port_id
            == req.port_id),
        available_spec(order_status, pay_status, paid, refunded, refunds, req.success) is None,
{
}

} // verus!
