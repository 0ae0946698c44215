//! Which refunds the payment robot may execute on its own: charge refunds
//! whose reason the order's state confirms, or that two approvers approved,
//! and wallet refunds backed by a live reservation.
use vstd::prelude::*;
use crate::text::{is_text, string_eq, utf8_len};
use crate::user::ledger::{tally, tally_spec, RefundLine};
use crate::user::refund_result::{alnum_bytes, check_refund_id, refund_id_ok};
use crate::user::status::{ChargeStatus, PaymentStatus, RefundStatus};

verus! {

/// The refund does not qualify for automatic execution.
#[derive(Debug, Clone, Copy, PartialEq, Eq, Structural)]
pub enum ExecutionConflict {
    Conflict,
}

/// The refund to execute, as stored.
pub struct ExecRefund {
    pub user_id: u64,
    pub biz_id: u64,
    pub biz_type: String,
    pub refund_cents: i64,
    pub status: RefundStatus,
    pub reason: Option<String>,
    pub claimed_by: Option<u64>,
}

/// Its payment, as stored.
pub struct ExecPayment {
    pub user_id: u64,
    pub biz_id: u64,
    pub biz_type: String,
    pub pay_method: String,
    pub total_cents: i64,
    pub paid_cents: i64,
    pub refunded_cents: i64,
    pub wechat_transaction_id: Option<String>,
    pub status: PaymentStatus,
}

/// The refund belongs to its WeChat payment, for a charge or a wallet
/// recharge, and no one claimed it by hand.
pub open spec fn owned_spec(row: ExecRefund, pay: ExecPayment) -> bool {
    &&& row.user_id == pay.user_id
    &&& row.biz_id == pay.biz_id
    &&& row.biz_type@ == pay.biz_type@
    &&& (pay.biz_type@ == "charge"@ || pay.biz_type@ == "wallet_recharge"@)
    &&& pay.pay_method@ == "wechat"@
    &&& row.claimed_by is None
}

pub fn check_owned(row: &ExecRefund, pay: &ExecPayment) -> (r: bool)
    ensures
        r == owned_spec(*row, *pay),
{
    row.user_id == pay.user_id && row.biz_id == pay.biz_id && string_eq(&row.biz_type, &pay.biz_type)
        && (is_text(&pay.biz_type, "charge") || is_text(&pay.biz_type, "wallet_recharge")) && is_text(
        &pay.pay_method,
        "wechat",
    ) && row.claimed_by.is_none()
}

/// The reason a refund was created with, read against its charge order's
/// state: a failed start, a payment after closing, or the difference after
/// the final fee (with the fee recorded).
pub open spec fn reason_allows(reason: Option<String>, status: ChargeStatus, fee_recorded: bool) -> bool {
    match reason {
        Some(r) => if r@ == "设备启动失败"@ {
            status == ChargeStatus::Failed
        } else if r@ == "订单关闭或无法启动后收到付款"@ {
            status == ChargeStatus::Cancelled || status == ChargeStatus::Failed
        } else if r@ == "充电实结差额退款"@ {
            status == ChargeStatus::Completed && fee_recorded
        } else {
            false
        },
        None => false,
    }
}

fn reason_allows_exec(reason: &Option<String>, status: ChargeStatus, fee_recorded: bool) -> (r: bool)
    ensures
        r == reason_allows(*reason, status, fee_recorded),
{
    match reason {
        Some(r) => if is_text(r, "设备启动失败") {
            status == ChargeStatus::Failed
        } else if is_text(r, "订单关闭或无法启动后收到付款") {
            status == ChargeStatus::Cancelled || status == ChargeStatus::Failed
        } else if is_text(r, "充电实结差额退款") {
            status == ChargeStatus::Completed && fee_recorded
        } else {
            false
        },
        None => false,
    }
}

/// The two-person review of a refund, where one exists.
pub struct ExecReview {
    pub first_signer: u64,
    pub second_signer: Option<u64>,
    /// Whether the stored snapshot is the refund as it stands, as
    /// `refund_review::same_snapshot` decides.
    pub snapshot_matches: bool,
}

/// The charge order of a charge refund.
pub struct ExecOrder {
    pub status: ChargeStatus,
    pub user_id: u64,
    pub payment_order_id: Option<u64>,
}

/// Whether a refund not yet claimed for execution may be claimed: it is
/// pending; any review is complete with two signers and matches; a wallet
/// refund is backed by its reservation; a charge refund's order is the
/// user's, paid by this payment, and either its reason fits the order's
/// state or it was reviewed and the order is finished.
pub open spec fn claimable_spec(
    row: ExecRefund,
    pay: ExecPayment,
    pid: u64,
    review: Option<ExecReview>,
    wallet_permitted: bool,
    orders: Seq<ExecOrder>,
    fee_recorded: bool,
) -> bool {
    let review_ok = match review {
        Some(v) => v.second_signer is Some && v.second_signer != Some(v.first_signer)
            && v.snapshot_matches,
        None => true,
    };
    let reviewed = review is Some;
    &&& row.status == RefundStatus::Pending
    &&& review_ok
    &&& if pay.biz_type@ == "wallet_recharge"@ {
        wallet_permitted
    } else {
        &&& orders.len() == 1
        &&& orders[0].user_id == pay.user_id
        &&& orders[0].payment_order_id == Some(pid)
        &&& (reason_allows(row.reason, orders[0].status, fee_recorded) || (reviewed && (
        orders[0].status == ChargeStatus::Completed || orders[0].status == ChargeStatus::Failed
            || orders[0].status == ChargeStatus::Cancelled)))
    }
}

pub fn check_claimable(
    row: &ExecRefund,
    pay: &ExecPayment,
    pid: u64,
    review: &Option<ExecReview>,
    wallet_permitted: bool,
    orders: &[ExecOrder],
    fee_recorded: bool,
) -> (r: bool)
    ensures
        r == claimable_spec(*row, *pay, pid, *review, wallet_permitted, orders@, fee_recorded),
{
    if row.status != RefundStatus::Pending {
        return false;
    }
    let reviewed = match review {
        Some(v) => {
            if v.second_signer.is_none() || v.second_signer == Some(v.first_signer)
                || !v.snapshot_matches {
                return false;
            }
            true
        },
        None => false,
    };
    if is_text(&pay.biz_type, "wallet_recharge") {
        return wallet_permitted;
    }
    if orders.len() != 1 || orders[0].user_id != pay.user_id || orders[0].payment_order_id != Some(
        pid,
    ) {
        return false;
    }
    let status = orders[0].status;
    let allowed = reason_allows_exec(&row.reason, status, fee_recorded);
    allowed || (reviewed && (status == ChargeStatus::Completed || status == ChargeStatus::Failed
        || status == ChargeStatus::Cancelled))
}

/// What the robot is told to execute.
pub struct ExecutionDetail {
    pub refund_no: String,
    pub status: RefundStatus,
    pub transaction_id: String,
    pub refund_cents: i32,
    pub total_cents: i32,
    pub wechat_refund_id: Option<String>,
}

/// Whether the payment's accounts allow executing the refund: a status the
/// robot handles; paid in full, positive, refunded within paid and in a paid
/// state; the open refunds (rejected ones left out) fit in what was paid
/// and the succeeded ones are what the payment shows refunded; a provider
/// transaction id of 1 to 32 ASCII letters and digits; and amounts that fit
/// the provider's 32-bit fields.
pub open spec fn executable_spec(row: ExecRefund, pay: ExecPayment, refunds: Seq<RefundLine>) -> bool {
    &&& (row.status == RefundStatus::Pending || row.status == RefundStatus::Processing || row.status
        == RefundStatus::Success || row.status == RefundStatus::Failed)
    &&& pay.paid_cents == pay.total_cents
    &&& pay.paid_cents > 0
    &&& pay.refunded_cents >= 0
    &&& pay.refunded_cents <= pay.paid_cents
    &&& (pay.status == PaymentStatus::Paid || pay.status == PaymentStatus::PartialRefunded
        || pay.status == PaymentStatus::Refunded)
    &&& tally_spec(refunds, true, pay.refunded_cents as int, false) matches Some(t) && t.0
        <= pay.paid_cents && t.1 == pay.refunded_cents
    &&& pay.wechat_transaction_id matches Some(t) && t@.len() > 0 && utf8_len(t@) <= 32
        && alnum_bytes(t@)
    &&& i32::MIN <= row.refund_cents <= i32::MAX
    &&& i32::MIN <= pay.total_cents <= i32::MAX
}

/// Builds the execution order for the robot; a pending refund is handed
/// out as processing.
pub fn execution(refund_no: &String, row: &ExecRefund, pay: &ExecPayment, refunds: &[RefundLine], wechat_refund_id: &Option<String>) -> (r:
    Result<ExecutionDetail, ExecutionConflict>)
    ensures
        !executable_spec(*row, *pay, refunds@) ==> r is Err,
        executable_spec(*row, *pay, refunds@) ==> (r matches Ok(d) && d.refund_no@ == refund_no@
            && d.status == (if row.status == RefundStatus::Pending {
            RefundStatus::Processing
        } else {
            row.status
        }) && (pay.wechat_transaction_id matches Some(t) && d.transaction_id@ == t@)
            && d.refund_cents == row.refund_cents && d.total_cents == pay.total_cents
            && d.wechat_refund_id == *wechat_refund_id),
{
    if !(row.status == RefundStatus::Pending || row.status == RefundStatus::Processing || row.status
        == RefundStatus::Success || row.status == RefundStatus::Failed) {
        return Err(ExecutionConflict::Conflict);
    }
    if pay.paid_cents != pay.total_cents || pay.paid_cents <= 0 || pay.refunded_cents < 0
        || pay.refunded_cents > pay.paid_cents || !(pay.status == PaymentStatus::Paid || pay.status
        == PaymentStatus::PartialRefunded || pay.status == PaymentStatus::Refunded) {
        return Err(ExecutionConflict::Conflict);
    }
    match tally(refunds, true, pay.refunded_cents, false) {
        Some((reserved, successful)) => {
            if reserved > pay.paid_cents || successful != pay.refunded_cents {
                return Err(ExecutionConflict::Conflict);
            }
        },
        None => {
            return Err(ExecutionConflict::Conflict);
        },
    }
    let transaction_id = match &pay.wechat_transaction_id {
        Some(t) => t,
        None => {
            return Err(ExecutionConflict::Conflict);
        },
    };
    if transaction_id.as_str().len() > 32 || !check_refund_id(transaction_id) {
        return Err(ExecutionConflict::Conflict);
    }
    if row.refund_cents < i32::MIN as i64 || row.refund_cents > i32::MAX as i64 || pay.total_cents
        < i32::MIN as i64 || pay.total_cents > i32::MAX as i64 {
        return Err(ExecutionConflict::Conflict);
    }
    Ok(
        ExecutionDetail {
            refund_no: refund_no.clone(),
            status: if row.status == RefundStatus::Pending {
                RefundStatus::Processing
            } else {
                row.status
            },
            transaction_id: transaction_id.clone(),
            refund_cents: row.refund_cents as i32,
            total_cents: pay.total_cents as i32,
            wechat_refund_id: wechat_refund_id.clone(),
        },
    )
}

} // verus!
