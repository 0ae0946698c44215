//! Resuming a checkout: the same payment, its saved WeChat request and its
//! original expiry, only while the order still waits for payment and the
//! port is still held for it.
use vstd::prelude::*;
use crate::text::{is_text, rfc3339_instant, rfc3339_millis, instant_millis, string_eq};
use crate::user::status::{ChargeStatus, PaymentStatus};

verus! {

#[derive(Debug, Clone, Copy, PartialEq, Eq, Structural)]
pub enum PrepayError {
    /// The user has no such order.
    NotFound,
    /// The order is paid, expired, no longer holds its port, or its records
    /// disagree.
    Conflict,
    /// The order has no saved payment request.
    MissingRequest,
}

/// The payment of the order, as stored.
pub struct PrepayPayment {
    pub biz_id: u64,
    pub status: PaymentStatus,
    pub total_cents: i64,
    /// Expiry, in milliseconds since the epoch.
    pub expired_ms: Option<i64>,
}

/// The order, as stored.
pub struct PrepayOrder {
    pub payment_order_id: Option<u64>,
    pub status: ChargeStatus,
    pub port_code: Option<String>,
}

/// Whether the checkout can be resumed at `now_ms` with the port still held.
/// (`now_ms` is the clock's `timestamp_millis`; stored expiries are whole
/// milliseconds, so comparing milliseconds orders them as the instants are.)
pub open spec fn resumable(
    cid: u64,
    pid: u64,
    pay: PrepayPayment,
    order: PrepayOrder,
    now_ms: int,
    held: bool,
) -> bool {
    &&& pay.biz_id == cid
    &&& order.payment_order_id == Some(pid)
    &&& pay.status == PaymentStatus::Initiated
    &&& order.status == ChargeStatus::PendingPayment
    &&& pay.expired_ms matches Some(t) && t > now_ms
    &&& order.port_code is Some
    &&& held
}

/// Picks the one order of the user with the given number and its payment id.
pub fn find_order(ids: &[(u64, Option<u64>)]) -> (r: Result<(u64, u64), PrepayError>)
    ensures
        ids@.len() != 1 ==> r == Err::<(u64, u64), PrepayError>(PrepayError::NotFound),
        ids@.len() == 1 ==> match ids@[0].1 {
            Some(pid) => r == Ok::<(u64, u64), PrepayError>((ids@[0].0, pid)),
            None => r == Err::<(u64, u64), PrepayError>(PrepayError::Conflict),
        },
{
    if ids.len() != 1 {
        return Err(PrepayError::NotFound);
    }
    match ids[0].1 {
        Some(pid) => Ok((ids[0].0, pid)),
        None => Err(PrepayError::Conflict),
    }
}

/// Checks that the checkout can be resumed; returns the expiry and the port.
pub fn check_resumable(
    cid: u64,
    pid: u64,
    pays: &[PrepayPayment],
    orders: &[PrepayOrder],
    now_ms: i64,
    held: bool,
) -> (r: Result<(i64, String), PrepayError>)
    ensures
        pays@.len() == 1 && orders@.len() == 1 && resumable(
            cid,
            pid,
            pays@[0],
            orders@[0],
            now_ms as int,
            held,
        ) ==> (r matches Ok(v) && Some(v.0) == pays@[0].expired_ms && (orders@[0].port_code
            matches Some(c) && v.1@ == c@)),
        !(pays@.len() == 1 && orders@.len() == 1 && resumable(
            cid,
            pid,
            pays@[0],
            orders@[0],
            now_ms as int,
            held,
        )) ==> r == Err::<(i64, String), PrepayError>(PrepayError::Conflict),
{
    if pays.len() != 1 || orders.len() != 1 {
        return Err(PrepayError::Conflict);
    }
    let pay = &pays[0];
    let order = &orders[0];
    let linked = match order.payment_order_id {
        Some(p) => p == pid,
        None => false,
    };
    if pay.biz_id != cid || !linked || pay.status != PaymentStatus::Initiated || order.status
        != ChargeStatus::PendingPayment {
        return Err(PrepayError::Conflict);
    }
    let expiry = match pay.expired_ms {
        Some(t) => t,
        None => {
            return Err(PrepayError::Conflict);
        },
    };
    let port = match &order.port_code {
        Some(c) => c.clone(),
        None => {
            return Err(PrepayError::Conflict);
        },
    };
    if expiry <= now_ms || !held {
        return Err(PrepayError::Conflict);
    }
    Ok((expiry, port))
}

/// The WeChat JSAPI order request saved when the checkout began.
pub struct SavedPayRequest {
    pub appid: String,
    pub mchid: String,
    pub out_trade_no: String,
    pub payer_openid: String,
    pub amount_total: i32,
    pub currency: String,
    pub time_expire: String,
}

/// Whether the saved request is the one this payment, payer, merchant and
/// expiry call for.
pub open spec fn request_agrees(
    req: SavedPayRequest,
    payment_no: Seq<char>,
    openid: Seq<char>,
    total: int,
    appid: Seq<char>,
    mchid: Seq<char>,
    expiry_ms: int,
) -> bool {
    &&& req.out_trade_no@ == payment_no
    &&& req.payer_openid@ == openid
    &&& req.amount_total == total
    &&& req.appid@ == appid
    &&& req.mchid@ == mchid
    &&& req.currency@ == "CNY"@
    &&& rfc3339_instant(req.time_expire@) matches Some(i) && instant_millis(i) == expiry_ms
}

/// Checks the saved request against the payment and the merchant settings.
pub fn check_request(
    req: &SavedPayRequest,
    payment_no: &String,
    openid: &str,
    total: i64,
    appid: &String,
    mchid: &String,
    expiry_ms: i64,
) -> (r: Result<(), PrepayError>)
    ensures
        request_agrees(*req, payment_no@, openid@, total as int, appid@, mchid@, expiry_ms as int)
            ==> r is Ok,
        !request_agrees(*req, payment_no@, openid@, total as int, appid@, mchid@, expiry_ms as int)
            ==> r == Err::<(), PrepayError>(PrepayError::Conflict),
{
    let expiry_ok = match rfc3339_millis(req.time_expire.as_str()) {
        Some(m) => m == expiry_ms,
        None => false,
    };
    if !string_eq(&req.out_trade_no, payment_no) || !crate::text::str_eq(
        req.payer_openid.as_str(),
        openid,
    ) || req.amount_total as i64 != total || !string_eq(&req.appid, appid) || !string_eq(
        &req.mchid,
        mchid,
    ) || !is_text(&req.currency, "CNY") || !expiry_ok {
        return Err(PrepayError::Conflict);
    }
    Ok(())
}

} // verus!
