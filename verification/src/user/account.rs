//! Accounts and the small services around them: login, profile, coupons,
//! invoices, station reports and payment bodies.
use vstd::prelude::*;
use crate::text::{is_text, string_eq, utf8_len};

verus! {

#[derive(Debug, Clone, Copy, PartialEq, Eq, Structural)]
pub enum LoginError {
    /// The provider returned an empty or over-long identity.
    BadIdentity,
    /// More than one account holds the identity.
    Duplicate,
    /// The account is disabled or deleted.
    Disabled,
    /// The account is linked to another WeChat union id.
    UnionMismatch,
}

/// A provider identity: an openid, and a union id where given, each of 1 to
/// 64 bytes.
pub open spec fn identity_ok(openid: Seq<char>, unionid: Option<Seq<char>>) -> bool {
    openid.len() > 0 && utf8_len(openid) <= 64 && (unionid matches Some(u) ==> u.len() > 0
        && utf8_len(u) <= 64)
}

/// An account holding an openid.
pub struct AccountRow {
    pub id: u64,
    pub active: bool,
    pub deleted: bool,
    pub unionid: Option<String>,
}

/// What a login does: `Ok(Some(id))` signs in the existing account,
/// `Ok(None)` creates one.
pub open spec fn login_spec(openid: Seq<char>, unionid: Option<Seq<char>>, rows: Seq<AccountRow>) -> Result<
    Option<u64>,
    LoginError,
> {
    if !identity_ok(openid, unionid) {
        Err(LoginError::BadIdentity)
    } else if rows.len() > 1 {
        Err(LoginError::Duplicate)
    } else if rows.len() == 1 {
        let a = rows[0];
        if a.deleted || !a.active {
            Err(LoginError::Disabled)
        } else if (a.unionid matches Some(old) && (unionid matches Some(new) && old@ != new)) {
            Err(LoginError::UnionMismatch)
        } else {
            Ok(Some(a.id))
        }
    } else {
        Ok(None)
    }
}

pub fn resolve_user(openid: &str, unionid: Option<&str>, rows: &[AccountRow]) -> (r: Result<
    Option<u64>,
    LoginError,
>)
    ensures
        r == login_spec(
            openid@,
            match unionid {
                Some(u) => Some(u@),
                None => None,
            },
            rows@,
        ),
{
    let union_ok = match unionid {
        Some(u) => !u.is_empty() && u.len() <= 64,
        None => true,
    };
    if openid.is_empty() || openid.len() > 64 || !union_ok {
        return Err(LoginError::BadIdentity);
    }
    if rows.len() > 1 {
        return Err(LoginError::Duplicate);
    }
    if rows.len() == 1 {
        let a = &rows[0];
        if a.deleted || !a.active {
            return Err(LoginError::Disabled);
        }
        let clash = match (&a.unionid, unionid) {
            (Some(old), Some(new)) => !crate::text::str_eq(old.as_str(), new),
            _ => false,
        };
        if clash {
            return Err(LoginError::UnionMismatch);
        }
        return Ok(Some(a.id));
    }
    Ok(None)
}

/// A disabled account stays disabled: signing in never succeeds for it.
pub proof fn lemma_disabled_stays_disabled(
    openid: Seq<char>,
    unionid: Option<Seq<char>>,
    a: AccountRow,
)
    requires
        a.deleted || !a.active,
    ensures
        login_spec(openid, unionid, seq![a]) is Err,
{
}

/// The wallet part of a profile.
pub struct Wallet {
    pub available_cents: i64,
    pub frozen_cents: i64,
    pub status: String,
}

/// A membership card.
pub struct Membership {
    pub card_type: String,
    pub start_at: String,
    pub end_at: String,
}

/// The profile a user sees.
pub struct Profile {
    pub user_id: u64,
    pub nickname: Option<String>,
    pub avatar_url: Option<String>,
    pub gender: String,
    pub phone_bound: bool,
    pub registered_at: String,
    pub balance_cents: i64,
    pub wallet: Wallet,
    pub coupon_unused_count: i64,
    pub membership_card: Option<Membership>,
}

/// A fault report from a user.
pub struct ReportFaultRequest {
    pub device_id: String,
    pub fault_type: String,
    pub description: Option<String>,
    pub images: Option<Vec<String>>,
}

pub struct ReportFaultResponse {
    pub submitted: bool,
}

pub struct CouponQuery {
    pub status: Option<String>,
}

/// A coupon grant event asks for a coupon for a user; the grant's source
/// defaults to `activity`.
pub struct CouponGrant {
    pub user_id: u64,
    pub coupon_id: u64,
    pub source: String,
}

/// The grant an event makes: none where the user or the coupon is missing
/// or zero.
pub fn coupon_grant(user_id: Option<u64>, coupon_id: Option<u64>, source: Option<&str>) -> (r:
    Option<CouponGrant>)
    ensures
        ({
            let u = match user_id {
                Some(u) => u,
                None => 0u64,
            };
            let c = match coupon_id {
                Some(c) => c,
                None => 0u64,
            };
            if u == 0 || c == 0 {
                r is None
            } else {
                r matches Some(g) && g.user_id == u && g.coupon_id == c && g.source@ == match source {
                    Some(s) => s@,
                    None => "activity"@,
                }
            }
        }),
{
    let u = match user_id {
        Some(u) => u,
        None => 0,
    };
    let c = match coupon_id {
        Some(c) => c,
        None => 0,
    };
    if u == 0 || c == 0 {
        return None;
    }
    let source = match source {
        Some(s) => String::from_str(s),
        None => String::from_str("activity"),
    };
    Some(CouponGrant { user_id: u, coupon_id: c, source })
}

/// How long a granted coupon stays valid, in hours: the coupon's own
/// validity, or 30 days where none is on record.
pub fn grant_hours(valid_hours: Option<i64>) -> (r: i64)
    ensures
        r == match valid_hours {
            Some(h) => h,
            None => 720,
        },
{
    match valid_hours {
        Some(h) => h,
        None => 720,
    }
}

pub struct CouponPreviewReq {
    pub coupon_grant_id: u64,
    pub estimated_total_cents: i64,
}

pub struct StatsQuery {
    pub coupon_id: u64,
}

#[derive(Debug, Clone, Copy, PartialEq, Eq, Structural)]
pub enum CouponError {
    /// The coupon was used or expired.
    NotUnused,
    /// The estimate is below the coupon's minimum charge.
    BelowMinimum,
}

/// A coupon applies to an unused grant and an estimate reaching its minimum.
pub fn check_preview(status: &String, estimated: i64, min_charge: i64) -> (r: Result<(), CouponError>)
    ensures
        status@ != "unused"@ ==> r == Err::<(), CouponError>(CouponError::NotUnused),
        status@ == "unused"@ ==> r == if estimated < min_charge {
            Err::<(), CouponError>(CouponError::BelowMinimum)
        } else {
            Ok::<(), CouponError>(())
        },
{
    if !is_text(status, "unused") {
        return Err(CouponError::NotUnused);
    }
    if estimated < min_charge {
        return Err(CouponError::BelowMinimum);
    }
    Ok(())
}

/// The discount of a coupon that is not a percentage: an amount coupon gives
/// its value up to the estimate, a time-free coupon the whole estimate, any
/// other kind nothing. `None` for a percentage coupon.
pub open spec fn fixed_discount_spec(kind: Seq<char>, value: Option<i64>, estimated: i64) -> Option<i64> {
    if kind == "amount"@ {
        let v = match value {
            Some(x) => x,
            None => 0i64,
        };
        Some(if v <= estimated {
            v
        } else {
            estimated
        })
    } else if kind == "percentage"@ {
        None
    } else if kind == "time_free"@ {
        Some(estimated)
    } else {
        Some(0i64)
    }
}

pub fn fixed_discount(kind: &String, value: Option<i64>, estimated: i64) -> (r: Option<i64>)
    ensures
        r == fixed_discount_spec(kind@, value, estimated),
{
    if is_text(kind, "amount") {
        let v = match value {
            Some(x) => x,
            None => 0,
        };
        Some(if v <= estimated {
            v
        } else {
            estimated
        })
    } else if is_text(kind, "percentage") {
        None
    } else if is_text(kind, "time_free") {
        Some(estimated)
    } else {
        Some(0)
    }
}

/// What is left to pay after a discount, never below zero.
pub fn final_cents(estimated: i64, discount: i64) -> (r: i64)
    requires
        i64::MIN <= estimated - discount <= i64::MAX,
    ensures
        r == if estimated - discount > 0 {
            estimated - discount
        } else {
            0
        },
{
    let left = estimated - discount;
    if left > 0 {
        left
    } else {
        0
    }
}

/// Counts of a coupon's grants by status: the count given for each of
/// `used`, `unused` and `expired` (the last one given where repeated), 0
/// where absent.
pub open spec fn count_of(rows: Seq<(String, i64)>, status: Seq<char>) -> i64
    decreases rows.len(),
{
    if rows.len() == 0 {
        0
    } else if rows.last().0@ == status {
        rows.last().1
    } else {
        count_of(rows.drop_last(), status)
    }
}

pub fn coupon_stats(rows: &[(String, i64)]) -> (r: (i64, i64, i64))
    ensures
        r == (count_of(rows@, "used"@), count_of(rows@, "unused"@), count_of(rows@, "expired"@)),
{
    let mut used: i64 = 0;
    let mut unused: i64 = 0;
    let mut expired: i64 = 0;
    let mut i: usize = 0;
    while i < rows.len()
        invariant
            i <= rows@.len(),
            used == count_of(rows@.take(i as int), "used"@),
            unused == count_of(rows@.take(i as int), "unused"@),
            expired == count_of(rows@.take(i as int), "expired"@),
        decreases rows@.len() - i,
    {
        proof {
            reveal_strlit("used");
            reveal_strlit("unused");
            reveal_strlit("expired");
            assert(rows@.take(i + 1).drop_last() =~= rows@.take(i as int));
            assert(rows@.take(i + 1).last() == rows@[i as int]);
        }
        let s = &rows[i].0;
        let c = rows[i].1;
        let ghost t = rows@.take(i + 1);
        proof {
            assert(t.last().0@ == s@);
            reveal_strlit("used");
            assert("used"@.len() == 4);
            assert("unused"@.len() == 6);
            assert("used"@ != "unused"@);
            assert("used"@ != "expired"@);
            assert("unused"@ != "expired"@);
        }
        if is_text(s, "used") {
            used = c;
        } else if is_text(s, "unused") {
            unused = c;
        } else if is_text(s, "expired") {
            expired = c;
        }
        proof {
            assert(used == count_of(t, "used"@));
            assert(unused == count_of(t, "unused"@));
            assert(expired == count_of(t, "expired"@));
        }
        i = i + 1;
    }
    assert(rows@.take(rows@.len() as int) =~= rows@);
    (used, unused, expired)
}

pub struct InvoiceApplyReq {
    pub biz_type: String,
    pub biz_id: u64,
    pub total_cents: i64,
    pub invoice_type: Option<String>,
    pub title: String,
    pub tax_no: Option<String>,
    pub email: Option<String>,
}

pub struct InvoiceQuery {
    pub page: Option<u32>,
    pub page_size: Option<u32>,
}

/// The page a listing of invoices shows: at least the first (default 1),
/// at most 100 (default 20) to a page, and the offset of its first row.
pub open spec fn invoice_window(q: InvoiceQuery) -> (int, int) {
    let page = match q.page {
        Some(p) => if p >= 1 {
            p as int
        } else {
            1
        },
        None => 1,
    };
    let size = match q.page_size {
        Some(s) => if s <= 100 {
            s as int
        } else {
            100
        },
        None => 20,
    };
    (page, size)
}

/// The page, page size and offset of an invoice listing. The offset is
/// computed in 32 bits, so pages whose offset does not fit are not served.
pub fn invoice_page(q: &InvoiceQuery) -> (r: (u32, u32, u32))
    requires
        (invoice_window(*q).0 - 1) * invoice_window(*q).1 <= u32::MAX,
    ensures
        r.0 == invoice_window(*q).0,
        r.1 == invoice_window(*q).1,
        r.2 == (invoice_window(*q).0 - 1) * invoice_window(*q).1,
{
    let page = match q.page {
        Some(p) => if p >= 1 {
            p
        } else {
            1
        },
        None => 1,
    };
    let size = match q.page_size {
        Some(s) => if s <= 100 {
            s
        } else {
            100
        },
        None => 20,
    };
    (page, size, (page - 1) * size)
}

/// An invoice is for a positive amount.
pub fn check_invoice(req: &InvoiceApplyReq) -> (r: bool)
    ensures
        r == (req.total_cents > 0),
{
    req.total_cents > 0
}

/// A WeChat payment callback body.
pub struct WechatCallbackEnvelope {
    pub id: String,
    pub create_time: String,
    pub resource_type: String,
    pub event_type: String,
    pub summary: String,
    pub resource: WechatCallbackResource,
}

/// The encrypted resource of a callback.
pub struct WechatCallbackResource {
    pub original_type: String,
    pub algorithm: String,
    pub ciphertext: String,
    pub associated_data: Option<String>,
    pub nonce: String,
}

/// A START outcome as the older gateway callback reports it.
pub struct StartResultReq {
    pub order_no: String,
    pub success: bool,
    pub error: Option<String>,
}

/// A payment as another service reads it.
pub struct PaymentDetailResp {
    pub order_no: String,
    pub pay_method: String,
    pub total_cents: i64,
    pub paid_cents: i64,
    pub status: String,
}

} // verus!
