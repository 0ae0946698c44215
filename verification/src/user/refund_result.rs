//! Terminal refund accounting: a success adds the refund to the payment's
//! refunded amount exactly once, settles a wallet reservation, and is never
//! undone by a later failure notice.
use vstd::prelude::*;
use crate::text::{any_control, byte_count, char_count, is_text, str_eq, string_eq, utf8_len};
use crate::user::refund::ResultReq;
use crate::user::status::{PaymentStatus, RefundStatus};

verus! {

/// The result disagrees with the payment, the refund or a saved result.
#[derive(Debug, Clone, Copy, PartialEq, Eq, Structural)]
pub enum ResultConflict {
    Conflict,
}

pub open spec fn alnum_bytes(s: Seq<char>) -> bool {
    let b = vstd::utf8::encode_utf8(s);
    forall|i: int| 0 <= i < b.len() ==> crate::text::is_alnum_byte(#[trigger] b[i])
}

/// A provider refund id: 1 to 64 ASCII letters and digits.
pub open spec fn refund_id_ok(s: Seq<char>) -> bool {
    s.len() > 0 && utf8_len(s) <= 64 && alnum_bytes(s)
}

pub fn check_refund_id(s: &String) -> (r: bool)
    ensures
        r == refund_id_ok(s@),
{
    let t = s.as_str();
    if t.is_empty() || t.len() > 64 {
        return false;
    }
    let b = t.as_bytes();
    let mut i: usize = 0;
    while i < b.len()
        invariant
            b@ == vstd::utf8::encode_utf8(s@),
            i <= b@.len(),
            forall|j: int| 0 <= j < i ==> crate::text::is_alnum_byte(#[trigger] b@[j]),
        decreases b@.len() - i,
    {
        let c = b[i];
        if !((48 <= c && c <= 57) || (65 <= c && c <= 90) || (97 <= c && c <= 122)) {
            return false;
        }
        i = i + 1;
    }
    true
}

/// The shape of a result before anything is looked up.
pub open spec fn result_ok(path: Seq<char>, req: ResultReq) -> bool {
    &&& path == req.refund_no@
    &&& path.len() > 0
    &&& utf8_len(path) <= 64
    &&& (req.failure_reason matches Some(f) ==> f@.len() <= 255)
    &&& (req.success ==> (req.wechat_refund_id matches Some(id) && refund_id_ok(id@)))
}

pub fn check_result(path: &str, req: &ResultReq) -> (r: bool)
    ensures
        r == result_ok(path@, *req),
{
    let reason_ok = match &req.failure_reason {
        Some(f) => char_count(f.as_str()) <= 255,
        None => true,
    };
    let id_ok = match &req.wechat_refund_id {
        Some(id) => check_refund_id(id),
        None => false,
    };
    str_eq(path, req.refund_no.as_str()) && !path.is_empty() && path.len() <= 64 && reason_ok && (
    !req.success || id_ok)
}

/// The payment a refund returns money from.
pub struct ResultPayment {
    pub user_id: u64,
    pub biz_id: u64,
    pub biz_type: String,
    pub paid_cents: i64,
    pub refunded_cents: i64,
    pub status: PaymentStatus,
}

/// The refund record, as stored.
pub struct ResultRefund {
    pub payment_order_id: u64,
    pub user_id: u64,
    pub biz_type: String,
    pub biz_id: u64,
    pub refund_cents: i64,
    pub status: RefundStatus,
    pub wechat_refund_id: Option<String>,
}

/// What a result does.
#[derive(Debug, Clone, Copy, PartialEq, Eq, Structural)]
pub enum ResultEffect {
    /// Already applied, or a failure of a refund already failed.
    Keep,
    /// Mark the refund failed.
    Fail,
    /// Mark the refund succeeded and the payment refunded up to
    /// `refunded`; where a wallet reservation backs it, its frozen amount
    /// becomes `frozen`.
    Succeed { refunded: i64, status: PaymentStatus, frozen: Option<i64> },
}

/// The wallet reservation behind a wallet refund: the reserved part
/// (amount, settled) and the wallet's (balance, frozen).
pub struct WalletHold {
    pub part: Option<(i64, bool)>,
    pub wallets: Vec<(i64, i64)>,
}

pub open spec fn effect_spec(
    pid: u64,
    pay: ResultPayment,
    row: ResultRefund,
    req: ResultReq,
    hold: WalletHold,
) -> Option<ResultEffect> {
    if row.payment_order_id != pid || row.user_id != pay.user_id || row.biz_type@ != pay.biz_type@
        || row.biz_id != pay.biz_id {
        None
    } else if row.status == RefundStatus::Success {
        if req.success && row.saved_id_view() == req.wechat_refund_id_view() {
            Some(ResultEffect::Keep)
        } else {
            None
        }
    } else if !(row.status == RefundStatus::Processing || row.status == RefundStatus::Failed) {
        None
    } else if !req.success {
        if row.status == RefundStatus::Failed {
            Some(ResultEffect::Keep)
        } else {
            Some(ResultEffect::Fail)
        }
    } else {
        let cents = row.refund_cents;
        let wallet = row.biz_type@ == "wallet_recharge"@;
        let hold_ok = !wallet || (hold.part matches Some(p) && p.0 == cents && !p.1
            && hold.wallets@.len() == 1 && hold.wallets@[0].1 >= cents);
        let total = pay.refunded_cents + cents;
        if !hold_ok || total > i64::MAX || cents <= 0 || pay.refunded_cents < 0 || total
            > pay.paid_cents || !(pay.status == PaymentStatus::Paid || pay.status
            == PaymentStatus::PartialRefunded) {
            None
        } else {
            Some(
                ResultEffect::Succeed {
                    refunded: total as i64,
                    status: if total == pay.paid_cents {
                        PaymentStatus::Refunded
                    } else {
                        PaymentStatus::PartialRefunded
                    },
                    frozen: if wallet {
                        Some((hold.wallets@[0].1 - cents) as i64)
                    } else {
                        None
                    },
                },
            )
        }
    }
}

impl ResultReq {
    /// The provider refund id, as a text.
    pub open spec fn wechat_refund_id_view(self) -> Option<Seq<char>> {
        match self.wechat_refund_id {
            Some(s) => Some(s@),
            None => None,
        }
    }
}

impl ResultRefund {
    pub open spec fn saved_id_view(self) -> Option<Seq<char>> {
        match self.wechat_refund_id {
            Some(s) => Some(s@),
            None => None,
        }
    }
}

fn same_id(a: &Option<String>, b: &Option<String>) -> (r: bool)
    ensures
        r == (match (a, b) {
            (Some(x), Some(y)) => x@ == y@,
            (None, None) => true,
            _ => false,
        }),
{
    match (a, b) {
        (Some(x), Some(y)) => string_eq(x, y),
        (None, None) => true,
        _ => false,
    }
}

/// Decides what a refund result does.
pub fn decide(pid: u64, pay: &ResultPayment, row: &ResultRefund, req: &ResultReq, hold: &WalletHold) -> (r:
    Result<ResultEffect, ResultConflict>)
    ensures
        match effect_spec(pid, *pay, *row, *req, *hold) {
            Some(e) => r == Ok::<ResultEffect, ResultConflict>(e),
            None => r is Err,
        },
{
    if row.payment_order_id != pid || row.user_id != pay.user_id || !string_eq(
        &row.biz_type,
        &pay.biz_type,
    ) || row.biz_id != pay.biz_id {
        return Err(ResultConflict::Conflict);
    }
    if row.status == RefundStatus::Success {
        if req.success && same_id(&row.wechat_refund_id, &req.wechat_refund_id) {
            return Ok(ResultEffect::Keep);
        }
        return Err(ResultConflict::Conflict);
    }
    if !(row.status == RefundStatus::Processing || row.status == RefundStatus::Failed) {
        return Err(ResultConflict::Conflict);
    }
    if !req.success {
        if row.status == RefundStatus::Failed {
            return Ok(ResultEffect::Keep);
        }
        return Ok(ResultEffect::Fail);
    }
    let cents = row.refund_cents;
    let wallet = is_text(&row.biz_type, "wallet_recharge");
    if wallet {
        let part_ok = match hold.part {
            Some(p) => p.0 == cents && !p.1,
            None => false,
        };
        if !part_ok || hold.wallets.len() != 1 || hold.wallets[0].1 < cents {
            return Err(ResultConflict::Conflict);
        }
    }
    let total = match pay.refunded_cents.checked_add(cents) {
        Some(t) => t,
        None => {
            return Err(ResultConflict::Conflict);
        },
    };
    if cents <= 0 || pay.refunded_cents < 0 || total > pay.paid_cents || !(pay.status
        == PaymentStatus::Paid || pay.status == PaymentStatus::PartialRefunded) {
        return Err(ResultConflict::Conflict);
    }
    let frozen = if wallet {
        Some(hold.wallets[0].1 - cents)
    } else {
        None
    };
    Ok(
        ResultEffect::Succeed {
            refunded: total,
            status: if total == pay.paid_cents {
                PaymentStatus::Refunded
            } else {
                PaymentStatus::PartialRefunded
            },
            frozen,
        },
    )
}

/// A refund notification from the payment provider, decrypted.
pub struct RefundNotice {
    pub out_trade_no: String,
    pub transaction_id: String,
    pub out_refund_no: String,
    pub refund_id: String,
    pub refund_status: String,
    pub amount_total: i64,
    pub amount_refund: i64,
}

/// The payment as the notification must find it.
pub struct NoticePayment {
    pub order_no: String,
    pub wechat_transaction_id: Option<String>,
    pub total_cents: i64,
    pub pay_method: String,
}

/// What a notification leads to: nothing more, or a result to apply.
pub enum NoticeStep {
    Keep,
    Apply(ResultReq),
}

/// The failure reason recorded for a refund the provider did not complete.
pub open spec fn failure_text(status: Seq<char>) -> Seq<char> {
    "微信退款状态 "@ + status + "，需人工处理"@
}

pub open spec fn notice_spec_ok(
    pay: NoticePayment,
    rows: Seq<(i64, RefundStatus, Option<String>)>,
    n: RefundNotice,
) -> bool {
    &&& pay.order_no@ == n.out_trade_no@
    &&& (pay.wechat_transaction_id matches Some(t) && t@ == n.transaction_id@)
    &&& pay.total_cents == n.amount_total
    &&& pay.pay_method@ == "wechat"@
    &&& rows.len() == 1
    &&& rows[0].0 == n.amount_refund
}

/// Decides what a provider notification does. A late failure notice never
/// undoes a confirmed success: it is accepted only as the same refund and
/// then changes nothing.
pub fn notice_step(pay: &NoticePayment, rows: &[(i64, RefundStatus, Option<String>)], n: &RefundNotice) -> (r:
    Result<NoticeStep, ResultConflict>)
    ensures
        !notice_spec_ok(*pay, rows@, *n) ==> r is Err,
        notice_spec_ok(*pay, rows@, *n) ==> {
            let success = n.refund_status@ == "SUCCESS"@;
            if rows@[0].1 == RefundStatus::Success && !success {
                if rows@[0].2 matches Some(id) && id@ == n.refund_id@ {
                    r matches Ok(NoticeStep::Keep)
                } else {
                    r is Err
                }
            } else {
                r matches Ok(NoticeStep::Apply(q)) && q.refund_no@ == n.out_refund_no@ && q.success
                    == success && (q.wechat_refund_id matches Some(id) && id@ == n.refund_id@) && (
                if success {
                    q.failure_reason is None
                } else {
                    q.failure_reason matches Some(f) && f@ == failure_text(n.refund_status@)
                })
            }
        },
{
    let txn_ok = match &pay.wechat_transaction_id {
        Some(t) => string_eq(t, &n.transaction_id),
        None => false,
    };
    if !string_eq(&pay.order_no, &n.out_trade_no) || !txn_ok || pay.total_cents != n.amount_total
        || !is_text(&pay.pay_method, "wechat") {
        return Err(ResultConflict::Conflict);
    }
    if rows.len() != 1 || rows[0].0 != n.amount_refund {
        return Err(ResultConflict::Conflict);
    }
    let success = is_text(&n.refund_status, "SUCCESS");
    if rows[0].1 == RefundStatus::Success && !success {
        let same = match &rows[0].2 {
            Some(id) => string_eq(id, &n.refund_id),
            None => false,
        };
        if same {
            return Ok(NoticeStep::Keep);
        }
        return Err(ResultConflict::Conflict);
    }
    let reason = if success {
        None
    } else {
        let text = String::from_str("微信退款状态 ").concat(n.refund_status.as_str()).concat(
            "，需人工处理",
        );
        Some(text)
    };
    Ok(
        NoticeStep::Apply(
            ResultReq {
                refund_no: n.out_refund_no.clone(),
                success,
                wechat_refund_id: Some(n.refund_id.clone()),
                failure_reason: reason,
            },
        ),
    )
}

/// A success applied once is applied once only: when the refund already
/// succeeded with the same provider refund id, the same result changes
/// nothing.
pub proof fn lemma_success_applies_once(
    pid: u64,
    pay: ResultPayment,
    row: ResultRefund,
    req: ResultReq,
    hold: WalletHold,
)
    requires
        row.payment_order_id == pid,
        row.user_id == pay.user_id,
        row.biz_type@ == pay.biz_type@,
        row.biz_id == pay.biz_id,
        row.status == RefundStatus::Success,
        req.success,
        row.saved_id_view() == req.wechat_refund_id_view(),
    ensures
        effect_spec(pid, pay, row, req, hold) == Some(ResultEffect::Keep),
{
}

/// A success never refunds more than was paid, and the payment reads as
/// wholly refunded exactly when the refunded amount reaches the paid one.
pub proof fn lemma_success_keeps_refunds_within_paid(
    pid: u64,
    pay: ResultPayment,
    row: ResultRefund,
    req: ResultReq,
    hold: WalletHold,
)
    requires
        effect_spec(pid, pay, row, req, hold) matches Some(ResultEffect::Succeed { .. }),
    ensures
        effect_spec(pid, pay, row, req, hold) matches Some(
            ResultEffect::Succeed { refunded, status, .. },
        ) && refunded == pay.refunded_cents + row.refund_cents && pay.refunded_cents < refunded
            <= pay.paid_cents && (status == PaymentStatus::Refunded <==> refunded == pay.paid_cents),
{
}

} // verus!
