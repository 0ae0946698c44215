//! The wallet: recharge requests, balance and the transaction ledger as the
//! user sees them.
use vstd::prelude::*;
use crate::text::{canonical_uuid, is_text, string_eq, uuid_canonical};

verus! {

/// A recharge request.
pub struct RechargeReq {
    pub request_id: String,
    pub amount_cents: i64,
    pub client_ip: Option<String>,
}

#[derive(Debug, Clone, Copy, PartialEq, Eq, Structural)]
pub enum WalletError {
    /// The request id is not a UUID in canonical form.
    InvalidRequestId,
    /// A recharge outside 1 to 1 000 000 yuan.
    InvalidAmount,
    /// More than one wallet on record.
    Duplicate,
    /// Page or page size outside their ranges.
    BadPage,
    /// Not a transaction type.
    BadType,
    /// A stored amount is negative.
    CorruptAmount,
    /// The request id was already used by another user or for another
    /// amount.
    RequestReused,
}

/// The smallest and largest recharge, in cents.
pub const MIN_RECHARGE: i64 = 100;

pub const MAX_RECHARGE: i64 = 100_000_000;

/// A recharge request must carry a UUID written in canonical form and an
/// amount from 1 to 1 000 000 yuan.
pub open spec fn recharge_ok(r: RechargeReq) -> Option<WalletError> {
    match uuid_canonical(r.request_id@) {
        None => Some(WalletError::InvalidRequestId),
        Some(c) => if c != r.request_id@ || r.amount_cents < MIN_RECHARGE || r.amount_cents
            > MAX_RECHARGE {
            Some(WalletError::InvalidAmount)
        } else {
            None
        },
    }
}

pub fn check_recharge(r: &RechargeReq) -> (res: Result<(), WalletError>)
    ensures
        match recharge_ok(*r) {
            Some(e) => res == Err::<(), WalletError>(e),
            None => res is Ok,
        },
{
    let id = match canonical_uuid(r.request_id.as_str()) {
        Some(c) => c,
        None => {
            return Err(WalletError::InvalidRequestId);
        },
    };
    if !string_eq(&id, &r.request_id) || r.amount_cents < MIN_RECHARGE || r.amount_cents
        > MAX_RECHARGE {
        return Err(WalletError::InvalidAmount);
    }
    Ok(())
}

/// The amount a direct recharge may have: more than nothing and at most
/// one million yuan.
pub fn recharge_amount_ok(amount_cents: i64) -> (r: bool)
    ensures
        r == (0 < amount_cents <= MAX_RECHARGE),
{
    amount_cents > 0 && amount_cents <= MAX_RECHARGE
}

/// A recharge request id already on record must name the same request: the
/// same user and the same amount. A retry then resumes the payment it began.
pub fn same_recharge(stored_user: u64, stored_amount: i64, user_id: u64, amount: i64) -> (r: Result<
    (),
    WalletError,
>)
    ensures
        r == if stored_user == user_id && stored_amount == amount {
            Ok::<(), WalletError>(())
        } else {
            Err(WalletError::RequestReused)
        },
{
    if stored_user != user_id || stored_amount != amount {
        return Err(WalletError::RequestReused);
    }
    Ok(())
}

/// Whether a recharge can still be paid at `now_ms`: its payment is open
/// and has not expired.
/// (`now_ms` is the clock's `timestamp_millis`; stored expiries are whole
/// milliseconds, so comparing milliseconds orders them as the instants are.)
pub open spec fn can_pay(status: Seq<char>, expires_ms: int, now_ms: int) -> bool {
    status == "initiated"@ && expires_ms > now_ms
}

pub fn payable(status: &String, expires_ms: i64, now_ms: i64) -> (r: bool)
    ensures
        r == can_pay(status@, expires_ms as int, now_ms as int),
{
    is_text(status, "initiated") && expires_ms > now_ms
}

/// The balance the user sees.
pub struct Balance {
    pub balance_cents: i64,
    pub available_cents: i64,
    pub frozen_cents: i64,
    pub status: String,
}

/// The balance from the wallet rows on record: none reads as an empty active
/// wallet, more than one is an inconsistency.
pub fn balance_of(rows: &[(i64, i64, String)]) -> (r: Result<Balance, WalletError>)
    ensures
        rows@.len() > 1 ==> r == Err::<Balance, WalletError>(WalletError::Duplicate),
        rows@.len() == 1 ==> (r matches Ok(b) && b.balance_cents == rows@[0].0 && b.available_cents
            == rows@[0].0 && b.frozen_cents == rows@[0].1 && b.status@ == rows@[0].2@),
        rows@.len() == 0 ==> (r matches Ok(b) && b.balance_cents == 0 && b.available_cents == 0
            && b.frozen_cents == 0 && b.status@ == "active"@),
{
    if rows.len() > 1 {
        return Err(WalletError::Duplicate);
    }
    if rows.len() == 1 {
        let (available, frozen, status) = &rows[0];
        return Ok(
            Balance {
                balance_cents: *available,
                available_cents: *available,
                frozen_cents: *frozen,
                status: status.clone(),
            },
        );
    }
    Ok(
        Balance {
            balance_cents: 0,
            available_cents: 0,
            frozen_cents: 0,
            status: String::from_str("active"),
        },
    )
}

/// A query over the wallet ledger.
pub struct TxnQuery {
    pub page: Option<u32>,
    pub page_size: Option<u32>,
    pub kind: Option<String>,
}

/// One entry of the ledger as the user sees it.
pub struct Txn {
    pub txn_no: String,
    pub txn_type: String,
    pub direction: String,
    pub amount_cents: i64,
    pub balance_after_cents: i64,
    pub remark: Option<String>,
    pub created_at: String,
}

/// A page of the ledger.
pub struct TxnPage {
    pub page: u32,
    pub page_size: u32,
    pub total: i64,
    pub items: Vec<Txn>,
}

/// The stored transaction type a requested type filters on: `consume` is
/// stored as `pay`, `admin_adjust` as `adjust`; no type or an empty one
/// filters nothing.
pub open spec fn kind_filter(kind: Option<Seq<char>>) -> Result<Option<Seq<char>>, WalletError> {
    match kind {
        None => Ok(None),
        Some(k) => if k.len() == 0 {
            Ok(None)
        } else if k == "consume"@ {
            Ok(Some("pay"@))
        } else if k == "admin_adjust"@ {
            Ok(Some("adjust"@))
        } else if k == "recharge"@ || k == "refund"@ || k == "freeze"@ || k == "unfreeze"@ || k
            == "gift"@ {
            Ok(Some(k))
        } else {
            Err(WalletError::BadType)
        },
    }
}

/// Validates a ledger query: the page (default 1) and page size (default
/// 20, at most 100), and the type filter.
pub fn txn_filter(q: &TxnQuery) -> (r: Result<(u32, u32, Option<String>), WalletError>)
    ensures
        ({
            let page = match q.page {
                Some(p) => p,
                None => 1u32,
            };
            let size = match q.page_size {
                Some(s) => s,
                None => 20u32,
            };
            let k = match q.kind {
                Some(k) => Some(k@),
                None => None,
            };
            if page == 0 || size < 1 || size > 100 {
                r == Err::<(u32, u32, Option<String>), WalletError>(WalletError::BadPage)
            } else {
                match kind_filter(k) {
                    Err(e) => r == Err::<(u32, u32, Option<String>), WalletError>(e),
                    Ok(f) => r matches Ok(v) && v.0 == page && v.1 == size && match (v.2, f) {
                        (Some(a), Some(b)) => a@ == b,
                        (None, None) => true,
                        _ => false,
                    },
                }
            }
        }),
{
    let page = match q.page {
        Some(p) => p,
        None => 1,
    };
    let size = match q.page_size {
        Some(s) => s,
        None => 20,
    };
    if page == 0 || size < 1 || size > 100 {
        return Err(WalletError::BadPage);
    }
    let filter = match &q.kind {
        None => None,
        Some(k) => {
            proof {
                reveal_strlit("pay");
                reveal_strlit("adjust");
            }
            if k.as_str().is_empty() {
                None
            } else if is_text(k, "consume") {
                Some(String::from_str("pay"))
            } else if is_text(k, "admin_adjust") {
                Some(String::from_str("adjust"))
            } else if is_text(k, "recharge") || is_text(k, "refund") || is_text(k, "freeze")
                || is_text(k, "unfreeze") || is_text(k, "gift") {
                Some(k.clone())
            } else {
                return Err(WalletError::BadType);
            }
        },
    };
    Ok((page, size, filter))
}

/// The type the user sees for a stored type.
pub open spec fn shown_type(stored: Seq<char>) -> Seq<char> {
    if stored == "pay"@ {
        "consume"@
    } else if stored == "adjust"@ {
        "admin_adjust"@
    } else {
        stored
    }
}

/// A ledger entry as shown: its type renamed, and an outgoing amount
/// negative. Stored amounts are never negative.
pub fn show_txn(
    txn_no: String,
    stored_type: &String,
    direction: String,
    amount: i64,
    balance_after: i64,
    remark: Option<String>,
    created_at: String,
) -> (r: Result<Txn, WalletError>)
    ensures
        amount < 0 ==> r == Err::<Txn, WalletError>(WalletError::CorruptAmount),
        amount >= 0 ==> (r matches Ok(t) && t.txn_type@ == shown_type(stored_type@)
            && t.amount_cents == (if direction@ == "out"@ {
            -amount
        } else {
            amount as int
        }) && t.direction@ == direction@ && t.balance_after_cents == balance_after && t.txn_no@
            == txn_no@),
{
    if amount < 0 {
        return Err(WalletError::CorruptAmount);
    }
    let txn_type = if is_text(stored_type, "pay") {
        String::from_str("consume")
    } else if is_text(stored_type, "adjust") {
        String::from_str("admin_adjust")
    } else {
        stored_type.clone()
    };
    let signed = if is_text(&direction, "out") {
        -amount
    } else {
        amount
    };
    Ok(
        Txn {
            txn_no,
            txn_type,
            direction,
            amount_cents: signed,
            balance_after_cents: balance_after,
            remark,
            created_at,
        },
    )
}

/// A page of the user's recharges.
pub struct ListQuery {
    pub page: Option<u32>,
}

/// The page of a recharge listing (default 1, at most 100 000) and its
/// offset, twenty to a page.
pub fn recharge_page(q: &ListQuery) -> (r: Option<(u32, u64)>)
    ensures
        ({
            let page = match q.page {
                Some(p) => p,
                None => 1u32,
            };
            if page == 0 || page > 100_000 {
                r is None
            } else {
                r == Some((page, ((page - 1) * 20) as u64))
            }
        }),
{
    let page = match q.page {
        Some(p) => p,
        None => 1,
    };
    if page == 0 || page > 100_000 {
        return None;
    }
    Some((page, (page as u64 - 1) * 20))
}

} // verus!
