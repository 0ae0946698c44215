//! Routes of the user service.
use vstd::prelude::*;

verus! {

pub const USER_SCAN_QUOTE: &'static str = "/api/v1/user/scan/quote";
pub const AUTH_LOGIN: &'static str = "/api/v1/public/auth/login";
pub const AUTH_LOGOUT: &'static str = "/api/v1/public/auth/logout";
pub const AUTH_REFRESH: &'static str = "/api/v1/public/auth/refresh";
pub const PAYMENT_WECHAT_CALLBACK: &'static str = "/api/v1/public/payment/wechat/callback";
pub const INTERNAL_START_RESULT: &'static str = "/api/v1/internal/charge-orders/:order_id/start-result";
pub const INTERNAL_REFUND_CLAIM: &'static str = "/api/v1/internal/refund-records/claim";
pub const INTERNAL_REFUND_RESULT: &'static str = "/api/v1/internal/refund-records/:refund_id/result";
pub const INTERNAL_REFUND_DETAIL: &'static str = "/api/v1/internal/refunds/:refund_id";
pub const INTERNAL_PAYMENT_DETAIL: &'static str = "/api/v1/internal/payment-orders/:payment_order_id";
pub const INTERNAL_ORDER_DETAIL: &'static str = "/api/v1/internal/orders/:order_id";
pub const INTERNAL_INVOICE_DETAIL: &'static str = "/api/v1/internal/invoices/:invoice_id";
pub const INTERNAL_COUPON_STATS: &'static str = "/api/v1/internal/coupons/stats";
pub const USER_SCAN_RESOLVE: &'static str = "/api/v1/user/scan/resolve";
pub const USER_SCAN_PORT: &'static str = "/api/v1/user/scan/port";
pub const USER_SCAN_START: &'static str = "/api/v1/user/scan/start";
pub const USER_SCAN_CANCEL: &'static str = "/api/v1/user/scan/cancel";
pub const USER_CHARGE_STOP: &'static str = "/api/v1/user/charge/stop";
pub const USER_CHARGE_ONGOING: &'static str = "/api/v1/user/charge/ongoing";
pub const USER_CHARGE_SNAPSHOT: &'static str = "/api/v1/user/charge/ongoing/snapshot";
pub const USER_CHARGE_CURVE: &'static str = "/api/v1/user/charge/ongoing/curve";
pub const USER_CHARGE_HISTORY: &'static str = "/api/v1/user/charge/history";
pub const USER_CHARGE_DETAIL: &'static str = "/api/v1/user/charge/:order_id";
pub const USER_CHARGE_HISTORICAL_CURVE: &'static str = "/api/v1/user/charge/:order_id/curve";
pub const USER_CHARGE_FEEDBACK: &'static str = "/api/v1/user/charge/:order_id/feedback";
pub const USER_PROFILE: &'static str = "/api/v1/user/profile";
pub const USER_PHONE_BIND: &'static str = "/api/v1/user/phone/bind";
pub const USER_PHONE_UNBIND: &'static str = "/api/v1/user/phone/unbind";
pub const USER_WALLET_BALANCE: &'static str = "/api/v1/user/wallet/balance";
pub const USER_WALLET_RECHARGE: &'static str = "/api/v1/user/wallet/recharge";
pub const USER_WALLET_TXNS: &'static str = "/api/v1/user/wallet/txns";
pub const USER_WALLET_REFUND: &'static str = "/api/v1/user/wallet/refund";
pub const USER_STATION_NEARBY: &'static str = "/api/v1/user/station/nearby";
pub const USER_STATION_DETAIL: &'static str = "/api/v1/user/station/:station_id";
pub const USER_DEVICE_REPORT_FAULT: &'static str = "/api/v1/user/device/report-fault";
pub const USER_COUPON_MY: &'static str = "/api/v1/user/coupon/my";
pub const USER_COUPON_PREVIEW: &'static str = "/api/v1/user/coupon/preview";
pub const USER_INVOICE_APPLY: &'static str = "/api/v1/user/invoice/apply";
pub const USER_INVOICE_MY: &'static str = "/api/v1/user/invoice/my";
pub const USER_ANNOUNCEMENT_LIST: &'static str = "/api/v1/user/announcement/list";
pub const USER_CUSTOMER_SERVICE_ENTRY: &'static str = "/api/v1/user/customer-service/entry";
pub const HEALTH: &'static str = "/api/v1/health";

} // verus!
