//! Request and response bodies of the user service's API.
use vstd::prelude::*;

pub mod paths;

verus! {

pub struct LoginRequest {
    pub code: String,
    pub iv: Option<String>,
    pub encrypted_data: Option<String>,
}

pub struct LoginResponse {
    pub token: String,
    pub user_id: u64,
    pub openid: String,
    pub is_new_user: bool,
}

pub struct RefreshRequest {
    pub token: String,
}

pub struct RefreshResponse {
    pub token: String,
}

pub struct ScanResolveRequest {
    pub code: String,
}

pub struct ScanPortRequest {
    pub port_id: String,
}

pub struct ScanStartRequest {
    pub port_id: String,
    pub quote_id: Option<String>,
    pub estimated_kwh: String,
    pub estimated_minutes: i64,
    pub coupon_grant_id: Option<u64>,
}

pub struct ScanCancelRequest {
    pub order_no: String,
}

pub struct ChargeStopRequest {
    pub order_no: String,
}

pub struct ChargeStopCommand {
    pub order_no: String,
    pub user_id: u64,
    pub source: String,
}

pub struct ChargeStopResponse {
    pub stopped: bool,
}

pub struct ChargeHistoryItem {
    pub order_no: String,
    pub status: String,
    pub total_cents: i64,
    pub started_at: Option<String>,
    pub ended_at: Option<String>,
}

pub struct ChargeHistoryResponse {
    pub page: u32,
    pub page_size: u32,
    pub items: Vec<ChargeHistoryItem>,
}

pub struct ChargeDetailResponse {
    pub order_no: String,
    pub status: String,
    pub electric_cents: Option<i64>,
    pub service_cents: Option<i64>,
    pub total_cents: Option<i64>,
    pub device_id: String,
    pub port_no: u8,
    pub started_at: Option<String>,
    pub ended_at: Option<String>,
    pub failure_reason: Option<String>,
}

pub struct OrderListResponse {
    pub items: Vec<ChargeDetailResponse>,
}

impl OrderListResponse {
    /// A list with no orders.
    pub fn empty() -> (r: Self)
        ensures
            r.items@.len() == 0,
    {
        OrderListResponse { items: Vec::new() }
    }
}

pub struct FeedbackRequest {
    pub rating: Option<u8>,
    pub category: String,
    pub content: Option<String>,
    pub images: Option<Vec<String>>,
}

pub struct ProfileResponse {
    pub user_id: u64,
    pub openid: String,
    pub nickname: Option<String>,
    pub avatar_url: Option<String>,
    pub gender: String,
    pub balance_cents: i64,
}

/// A START outcome as the gateway reports it back.
pub struct StartResultRequest {
    pub order_no: String,
    pub success: bool,
    pub error: Option<String>,
}

pub struct BillingQuoteRequest {
    pub port_id: String,
    pub user_id: u64,
    pub estimated_minutes: i64,
}

} // verus!
