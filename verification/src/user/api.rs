//! Request bodies of the user app's own endpoints, and the few decisions
//! those endpoints make on their own.
use vstd::prelude::*;
use crate::text::is_text;

verus! {

pub struct LoginReq {
    pub code: String,
    pub iv: Option<String>,
    pub encrypted_data: Option<String>,
}

pub struct LoginResp {
    pub token: String,
    pub user_id: u64,
    pub openid: String,
    pub is_new_user: bool,
}

pub struct RefreshReq {
    pub token: String,
}

pub struct RefreshResp {
    pub token: String,
}

pub struct SnapshotQuery {
    pub order_id: String,
}

pub struct HistoryQuery {
    pub page: Option<u32>,
    pub page_size: Option<u32>,
}

pub struct FeedbackReq {
    pub rating: Option<u8>,
    pub category: String,
    pub content: Option<String>,
    pub images: Option<Vec<String>>,
}

pub struct PhoneBindReq {
    pub iv: String,
    pub encrypted_data: String,
    pub phone_hash: String,
}

/// The page, page size and offset of a history query: the page is at least
/// 1 (default 1), the size at most 100 (default 20). The offset is computed
/// in `u32`, so it must fit there.
pub open spec fn history_window(q: HistoryQuery) -> (u32, u32, int) {
    let page = match q.page {
        Some(p) => if p < 1 {
            1u32
        } else {
            p
        },
        None => 1u32,
    };
    let size = match q.page_size {
        Some(s) => if s > 100 {
            100u32
        } else {
            s
        },
        None => 20u32,
    };
    (page, size, (page - 1) * size)
}

pub fn history_page(q: &HistoryQuery) -> (r: (u32, u32, u32))
    requires
        history_window(*q).2 <= u32::MAX,
    ensures
        r.0 == history_window(*q).0,
        r.1 == history_window(*q).1,
        r.2 == history_window(*q).2,
{
    let page = match q.page {
        Some(p) => if p < 1 {
            1
        } else {
            p
        },
        None => 1,
    };
    let size = match q.page_size {
        Some(s) => if s > 100 {
            100
        } else {
            s
        },
        None => 20,
    };
    (page, size, (page - 1) * size)
}

/// Why a scanned order cannot be cancelled.
#[derive(Debug, Clone, Copy, PartialEq, Eq, Structural)]
pub enum ScanCancelError {
    /// The order no longer waits for payment.
    NotPending,
    /// More than 60 seconds passed since the order was created.
    WindowClosed,
}

/// A scanned order can be cancelled while it waits for payment, up to 60
/// seconds after it was created (times in seconds since the epoch).
pub fn scan_cancel_check(status: &String, created_secs: i64, now_secs: i64) -> (r: Result<
    (),
    ScanCancelError,
>)
    requires
        i64::MIN <= now_secs - created_secs <= i64::MAX,
    ensures
        r == if status@ != "pending_payment"@ {
            Err(ScanCancelError::NotPending)
        } else if now_secs - created_secs > 60 {
            Err(ScanCancelError::WindowClosed)
        } else {
            Ok::<(), ScanCancelError>(())
        },
{
    if !is_text(status, "pending_payment") {
        return Err(ScanCancelError::NotPending);
    }
    if now_secs - created_secs > 60 {
        return Err(ScanCancelError::WindowClosed);
    }
    Ok(())
}

/// The state an ongoing charge shows: a paid order shows as charging, and
/// the app keeps polling while the order is paid or charging.
pub fn snapshot_state(status: &String) -> (r: (String, bool))
    ensures
        r.0@ == (if status@ == "paid"@ {
            "charging"@
        } else {
            status@
        }),
        r.1 == (status@ == "paid"@ || status@ == "charging"@),
{
    let paid = is_text(status, "paid");
    let poll = paid || is_text(status, "charging");
    let state = if paid {
        String::from_str("charging")
    } else {
        status.clone()
    };
    (state, poll)
}

} // verus!
