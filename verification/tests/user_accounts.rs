use evcharge::user::account::{
    check_invoice, coupon_grant, grant_hours, invoice_page, InvoiceApplyReq, InvoiceQuery, check_preview, coupon_stats, final_cents, fixed_discount, resolve_user, AccountRow,
    CouponError, LoginError,
};
use evcharge::user::api::{history_page, scan_cancel_check, snapshot_state, HistoryQuery, ScanCancelError};
use evcharge::user::api_types::OrderListResponse;
use evcharge::user::risk::{check_manual, check_release, release, FreezeLog, ManualRefundError, ManualRefundRequest, Release, ReleaseError};
use evcharge::user::session::{bearer, key, refresh_check, session_key, SessionError};
use evcharge::user::status::{ChargeStatus, PaymentStatus, RefundStatus};
use evcharge::user::wallet::{
    balance_of, check_recharge, payable, recharge_amount_ok, recharge_page, same_recharge, show_txn, txn_filter, ListQuery,
    RechargeReq, TxnQuery, WalletError,
};

#[test]
fn session_keys() {
    assert_eq!(session_key("abc"), "auth:user:session:abc");
    let token = format!("RT_{}", "0123456789abcdef".repeat(4));
    assert_eq!(key(&token).unwrap(), format!("auth:user:refresh:{token}"));
    assert_eq!(key("RT_123"), Err(SessionError::InvalidRefreshToken));
    let not_hex = format!("RT_{}", "g".repeat(64));
    assert_eq!(key(&not_hex), Err(SessionError::InvalidRefreshToken));
    let wrong_prefix = format!("XX_{}", "0".repeat(64));
    assert_eq!(key(&wrong_prefix), Err(SessionError::InvalidRefreshToken));
    assert_eq!(bearer(Some("Bearer eyJ.access.jwt")), Ok("eyJ.access.jwt"));
    assert_eq!(bearer(Some("Basic abc")), Err(SessionError::MissingCredential));
    assert_eq!(bearer(None), Err(SessionError::MissingCredential));
}

#[test]
fn statuses_read_from_text() {
    assert_eq!(ChargeStatus::parse("pending_payment"), ChargeStatus::PendingPayment);
    assert_eq!(ChargeStatus::parse("completed"), ChargeStatus::Completed);
    assert_eq!(ChargeStatus::parse("weird"), ChargeStatus::Other);
    assert_eq!(PaymentStatus::parse("partial_refunded"), PaymentStatus::PartialRefunded);
    assert_eq!(RefundStatus::parse("rejected"), RefundStatus::Rejected);
}

#[test]
fn recharge_requests() {
    let req = |id: &str, amount: i64| RechargeReq { request_id: id.into(), amount_cents: amount, client_ip: None };
    let id = "67e55044-10b1-426f-9247-bb680e5fe0c8";
    assert!(check_recharge(&req(id, 100)).is_ok());
    assert_eq!(check_recharge(&req(id, 99)), Err(WalletError::InvalidAmount));
    assert_eq!(check_recharge(&req(&id.to_uppercase(), 100)), Err(WalletError::InvalidAmount));
    assert_eq!(check_recharge(&req("x", 100)), Err(WalletError::InvalidRequestId));
    assert!(recharge_amount_ok(1));
    assert!(recharge_amount_ok(100_000_000));
    assert!(!recharge_amount_ok(0));
    assert!(!recharge_amount_ok(100_000_001));
    assert_eq!(same_recharge(123, 1001, 123, 1001), Ok(()));
    assert_eq!(same_recharge(123, 1001, 124, 1001), Err(WalletError::RequestReused));
    assert_eq!(same_recharge(123, 1001, 123, 1002), Err(WalletError::RequestReused));
    assert!(payable(&"initiated".into(), 10, 5));
    assert!(!payable(&"paid".into(), 10, 5));
    assert!(!payable(&"initiated".into(), 5, 5));
    assert_eq!(recharge_page(&ListQuery { page: Some(3) }), Some((3, 40)));
    assert_eq!(recharge_page(&ListQuery { page: Some(0) }), None);
}

#[test]
fn balances_and_ledger() {
    let b = balance_of(&[]).ok().unwrap();
    assert_eq!((b.balance_cents, b.frozen_cents, b.status.as_str()), (0, 0, "active"));
    let b = balance_of(&[(500, 250, "frozen".into())]).ok().unwrap();
    assert_eq!((b.available_cents, b.frozen_cents, b.status.as_str()), (500, 250, "frozen"));
    assert!(balance_of(&[(1, 0, "active".into()), (2, 0, "active".into())]).is_err());
    let f = txn_filter(&TxnQuery { page: None, page_size: None, kind: Some("consume".into()) }).unwrap();
    assert_eq!((f.0, f.1, f.2.as_deref()), (1, 20, Some("pay")));
    assert_eq!(txn_filter(&TxnQuery { page: None, page_size: None, kind: Some(String::new()) }).unwrap().2, None);
    assert!(txn_filter(&TxnQuery { page: None, page_size: None, kind: Some("bogus".into()) }).is_err());
    assert!(txn_filter(&TxnQuery { page: Some(0), page_size: None, kind: None }).is_err());
    let t = show_txn("T1".into(), &"pay".into(), "out".into(), 30, 70, None, "2026".into()).ok().unwrap();
    assert_eq!((t.txn_type.as_str(), t.amount_cents), ("consume", -30));
    assert!(show_txn("T1".into(), &"pay".into(), "out".into(), -1, 70, None, "2026".into()).is_err());
}

#[test]
fn risk_release_keeps_other_holds() {
    let id = "67e55044-10b1-426f-9247-bb680e5fe0c8";
    assert!(check_release(id, &Release { actor_id: 1, comment: "checked".into() }).is_ok());
    assert_eq!(check_release(id, &Release { actor_id: 0, comment: "checked".into() }), Err(ReleaseError::InvalidComment));
    assert_eq!(check_release("x", &Release { actor_id: 1, comment: "checked".into() }), Err(ReleaseError::InvalidId));
    let log = |id: u64, rule: &str, status: &str| FreezeLog { id, trigger_rule: rule.into(), frozen_action: "wallet_refund".into(), status: status.into() };
    let logs = vec![log(1, "wallet_refund_frequency", "frozen")];
    assert_eq!(release(1, &logs, true), Ok(true));
    assert_eq!(release(1, &logs, false), Ok(false));
    let logs = vec![log(1, "wallet_refund_frequency", "frozen"), log(2, "other", "frozen")];
    assert_eq!(release(1, &logs, true), Ok(false));
    assert_eq!(release(3, &logs, true), Err(ReleaseError::FreezeMismatch));
    let logs = vec![log(1, "wallet_refund_frequency", "unfrozen")];
    assert_eq!(release(1, &logs, true), Err(ReleaseError::CauseChanged));
}

#[test]
fn manual_refunds() {
    let req = ManualRefundRequest { request_id: "67E55044-10B1-426F-9247-BB680E5FE0C8".into(), amount_cents: 50, reason: "  broken port ".into() };
    let (id, reason, no) = check_manual(4, 7, &req).unwrap();
    assert_eq!(id, "67e55044-10b1-426f-9247-bb680e5fe0c8");
    assert_eq!(reason, "broken port");
    assert_eq!(no, "MAN67e5504410b1426f9247bb680e5fe0c8");
    assert_eq!(check_manual(0, 7, &req), Err(ManualRefundError::InvalidRequest));
    let mut big = req;
    big.amount_cents = i32::MAX as i64 + 1;
    assert_eq!(check_manual(4, 7, &big), Err(ManualRefundError::InvalidRequest));
}

#[test]
fn concurrent_login_has_one_identity_and_disabled_accounts_stay_disabled() {
    assert_eq!(resolve_user("openid", Some("union"), &[]), Ok(None));
    let active = AccountRow { id: 9, active: true, deleted: false, unionid: Some("union".into()) };
    assert_eq!(resolve_user("openid", None, &[active]), Ok(Some(9)));
    let frozen = AccountRow { id: 9, active: false, deleted: false, unionid: None };
    assert_eq!(resolve_user("openid", None, &[frozen]), Err(LoginError::Disabled));
    let deleted = AccountRow { id: 9, active: true, deleted: true, unionid: None };
    assert_eq!(resolve_user("openid", None, &[deleted]), Err(LoginError::Disabled));
    let other = AccountRow { id: 9, active: true, deleted: false, unionid: Some("old".into()) };
    assert_eq!(resolve_user("openid", Some("new"), &[other]), Err(LoginError::UnionMismatch));
    assert_eq!(resolve_user("", None, &[]), Err(LoginError::BadIdentity));
}

#[test]
fn coupons() {
    assert!(check_preview(&"unused".into(), 500, 100).is_ok());
    assert_eq!(check_preview(&"used".into(), 500, 100), Err(CouponError::NotUnused));
    assert_eq!(check_preview(&"unused".into(), 50, 100), Err(CouponError::BelowMinimum));
    assert_eq!(fixed_discount(&"amount".into(), Some(300), 500), Some(300));
    assert_eq!(fixed_discount(&"amount".into(), Some(800), 500), Some(500));
    assert_eq!(fixed_discount(&"time_free".into(), None, 500), Some(500));
    assert_eq!(fixed_discount(&"percentage".into(), None, 500), None);
    assert_eq!(fixed_discount(&"other".into(), Some(1), 500), Some(0));
    assert_eq!(final_cents(500, 300), 200);
    assert_eq!(final_cents(500, 800), 0);
    let rows = vec![("used".to_string(), 3), ("unused".to_string(), 5), ("expired".to_string(), 1)];
    assert_eq!(coupon_stats(&rows), (3, 5, 1));
}

#[test]
fn history_and_snapshots() {
    assert_eq!(history_page(&HistoryQuery { page: None, page_size: None }), (1, 20, 0));
    assert_eq!(history_page(&HistoryQuery { page: Some(0), page_size: Some(500) }), (1, 100, 0));
    assert_eq!(history_page(&HistoryQuery { page: Some(3), page_size: Some(10) }), (3, 10, 20));
    let (state, poll) = snapshot_state(&"paid".into());
    assert_eq!((state.as_str(), poll), ("charging", true));
    let (state, poll) = snapshot_state(&"completed".into());
    assert_eq!((state.as_str(), poll), ("completed", false));
    assert!(OrderListResponse::empty().items.is_empty());
}

#[test]
fn invoices() {
    let req = |total: i64| InvoiceApplyReq {
        biz_type: "charge".into(),
        biz_id: 1,
        total_cents: total,
        invoice_type: None,
        title: "ACME".into(),
        tax_no: None,
        email: None,
    };
    assert!(check_invoice(&req(1)));
    assert!(!check_invoice(&req(0)));
    assert_eq!(invoice_page(&InvoiceQuery { page: Some(0), page_size: Some(500) }), (1, 100, 0));
    assert_eq!(invoice_page(&InvoiceQuery { page: Some(3), page_size: None }), (3, 20, 40));
    assert_eq!(invoice_page(&InvoiceQuery { page: None, page_size: Some(0) }), (1, 0, 0));
}

#[test]
fn refresh_tokens_are_single_use() {
    let old = format!("RT_{}", "a".repeat(64));
    let new = format!("RT_{}", "b".repeat(64));
    assert_eq!(refresh_check(Some(&old), &old), Ok(()));
    assert_eq!(refresh_check(Some(&new), &old), Err(SessionError::SessionEnded));
    assert_eq!(refresh_check(None, &old), Err(SessionError::SessionEnded));
}

#[test]
fn scans_cancel_within_a_minute_while_unpaid() {
    let pending: String = "pending_payment".into();
    assert_eq!(scan_cancel_check(&pending, 1_000, 1_060), Ok(()));
    assert_eq!(scan_cancel_check(&pending, 1_000, 1_061), Err(ScanCancelError::WindowClosed));
    assert_eq!(scan_cancel_check(&"paid".into(), 1_000, 1_001), Err(ScanCancelError::NotPending));
}

#[test]
fn coupon_grants_need_a_user_and_a_coupon() {
    let g = coupon_grant(Some(7), Some(9), None).unwrap();
    assert_eq!((g.user_id, g.coupon_id, g.source.as_str()), (7, 9, "activity"));
    let g = coupon_grant(Some(7), Some(9), Some("signup")).unwrap();
    assert_eq!(g.source, "signup");
    assert!(coupon_grant(Some(0), Some(9), None).is_none());
    assert!(coupon_grant(Some(7), None, None).is_none());
    assert_eq!(grant_hours(Some(48)), 48);
    assert_eq!(grant_hours(None), 720);
}
