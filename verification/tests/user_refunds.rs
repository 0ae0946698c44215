use evcharge::billing::charge_fee::{calc_step, CalcStep};
use evcharge::contracts::{ChargeEndMeter, FeeResult, MeteredOrder, PriceQuote};
use evcharge::user::charge_fee::{check_shape, check_source, fee_step, settle, FeePayment, FeeStep, Settlement};
use evcharge::user::ledger::RefundLine;
use evcharge::user::refund::{claimable, result_update, ResultReq, ResultUpdate};
use evcharge::user::refund_execution::{check_claimable, check_owned, execution, ExecOrder, ExecPayment, ExecRefund, ExecReview};
use evcharge::user::refund_result::{decide, notice_step, NoticePayment, NoticeStep, RefundNotice, ResultEffect, ResultPayment, ResultRefund, WalletHold};
use evcharge::user::refund_review::{
    check_approvable, check_reject, check_signature, prior, same_snapshot, signed, PriorRejection, ReviewError, ReviewSnapshot,
    ReviewOrder, ReviewPayment, ReviewRecord, ReviewRefund, ReviewState,
};
use evcharge::user::status::{ChargeStatus, PaymentStatus, RefundStatus};
use evcharge::user::wallet_refund::{
    check_request, check_wallet, list_window, request_status, request_step, reserve, split_refund, ListQuery,
    PriorRequest, RechargeSource, RequestStep, WalletRefundError, WalletRefundReq, WalletRefundStatus,
};

fn line(amount: i64, status: RefundStatus) -> RefundLine {
    RefundLine { amount, status }
}

#[test]
fn signatures_need_an_approver_and_a_clean_note() {
    assert_eq!(check_signature(7, "  ok  "), Ok("ok"));
    assert_eq!(check_signature(0, "ok"), Err(ReviewError::InvalidNote));
    assert_eq!(check_signature(7, "   "), Err(ReviewError::InvalidNote));
    assert_eq!(check_signature(7, "bad\u{1}note"), Err(ReviewError::InvalidNote));
    assert_eq!(check_signature(7, &"x".repeat(256)), Err(ReviewError::InvalidNote));
}

fn record(second: Option<u64>) -> ReviewRecord {
    ReviewRecord {
        snapshot_matches: true,
        first_signer: 1,
        first_comment: "first".into(),
        second_signer: second,
        second_comment: second.map(|_| "second".to_string()),
    }
}

#[test]
fn two_distinct_approvers() {
    assert_eq!(prior(&record(None), 2, "second"), Ok(None));
    assert_eq!(signed(&Some(record(None)), 2), ReviewState::Approved { first: 1, second: 2 });
    assert_eq!(signed(&None, 1), ReviewState::AwaitingSecond { first: 1 });
    assert_eq!(prior(&record(None), 1, "first"), Ok(Some(ReviewState::AwaitingSecond { first: 1 })));
    assert_eq!(prior(&record(None), 1, "changed"), Err(ReviewError::Conflict));
    assert_eq!(prior(&record(Some(2)), 2, "second"), Ok(Some(ReviewState::Approved { first: 1, second: 2 })));
    assert_eq!(prior(&record(Some(2)), 3, "third"), Err(ReviewError::Conflict));
    let mut stale = record(None);
    stale.snapshot_matches = false;
    assert_eq!(prior(&stale, 2, "second"), Err(ReviewError::Conflict));
}

fn review_refund(status: RefundStatus) -> ReviewRefund {
    ReviewRefund { user_id: 123, biz_id: 4, biz_type: "charge".into(), amount: 40, status, claimed: false }
}

fn review_payment() -> ReviewPayment {
    ReviewPayment {
        user_id: 123,
        biz_id: 4,
        biz_type: "charge".into(),
        pay_method: "wechat".into(),
        total_cents: 100,
        paid_cents: 100,
        refunded_cents: 0,
        status: PaymentStatus::Paid,
    }
}

#[test]
fn approval_requires_room_for_the_refund() {
    let orders = vec![ReviewOrder { user_id: 123, payment_order_id: Some(5), status: ChargeStatus::Completed }];
    let ok = vec![line(40, RefundStatus::Pending), line(60, RefundStatus::Rejected)];
    assert!(check_approvable(&review_refund(RefundStatus::Pending), &review_payment(), 5, false, &orders, &ok).is_ok());
    let over = vec![line(40, RefundStatus::Pending), line(70, RefundStatus::Pending)];
    assert_eq!(check_approvable(&review_refund(RefundStatus::Pending), &review_payment(), 5, false, &orders, &over), Err(ReviewError::Conflict));
    assert!(check_approvable(&review_refund(RefundStatus::Pending), &review_payment(), 5, true, &orders, &ok).is_err());
    let charging = vec![ReviewOrder { user_id: 123, payment_order_id: Some(5), status: ChargeStatus::Charging }];
    assert!(check_approvable(&review_refund(RefundStatus::Pending), &review_payment(), 5, false, &charging, &ok).is_err());
}

#[test]
fn rejection_only_while_second_approval_awaited() {
    let pending = review_refund(RefundStatus::Pending);
    assert_eq!(check_reject(&pending, &None, 7, "no", true, false), Ok(false));
    assert_eq!(check_reject(&pending, &None, 7, "no", false, false), Err(ReviewError::NotAwaitingSecond));
    assert_eq!(check_reject(&pending, &None, 7, "no", true, true), Err(ReviewError::Conflict));
    let rejected = review_refund(RefundStatus::Rejected);
    let prior = Some(PriorRejection { actor_id: 7, reason: "no".into() });
    assert_eq!(check_reject(&rejected, &prior, 7, "no", false, false), Ok(true));
    assert_eq!(check_reject(&rejected, &prior, 8, "no", false, false), Err(ReviewError::Conflict));
}

fn result_payment(refunded: i64) -> ResultPayment {
    ResultPayment {
        user_id: 123,
        biz_id: 4,
        biz_type: "charge".into(),
        paid_cents: 100,
        refunded_cents: refunded,
        status: if refunded == 0 { PaymentStatus::Paid } else { PaymentStatus::PartialRefunded },
    }
}

fn result_refund(status: RefundStatus, cents: i64, id: Option<&str>) -> ResultRefund {
    ResultRefund {
        payment_order_id: 5,
        user_id: 123,
        biz_type: "charge".into(),
        biz_id: 4,
        refund_cents: cents,
        status,
        wechat_refund_id: id.map(|s| s.to_string()),
    }
}

fn success(id: &str) -> ResultReq {
    ResultReq { refund_no: "REF1".into(), success: true, wechat_refund_id: Some(id.into()), failure_reason: None }
}

fn no_hold() -> WalletHold {
    WalletHold { part: None, wallets: vec![] }
}

#[test]
fn callback_and_query_race_credits_once_and_rejects_wrong_amount() {
    let first = decide(5, &result_payment(0), &result_refund(RefundStatus::Processing, 82, None), &success("R1"), &no_hold());
    assert_eq!(first, Ok(ResultEffect::Succeed { refunded: 82, status: PaymentStatus::PartialRefunded, frozen: None }));
    let again = decide(5, &result_payment(82), &result_refund(RefundStatus::Success, 82, Some("R1")), &success("R1"), &no_hold());
    assert_eq!(again, Ok(ResultEffect::Keep));
    assert!(decide(5, &result_payment(82), &result_refund(RefundStatus::Success, 82, Some("R1")), &success("R2"), &no_hold()).is_err());
    assert!(decide(5, &result_payment(20), &result_refund(RefundStatus::Processing, 83, None), &success("R1"), &no_hold()).is_err());
    let whole = decide(5, &result_payment(18), &result_refund(RefundStatus::Processing, 82, None), &success("R1"), &no_hold());
    assert_eq!(whole, Ok(ResultEffect::Succeed { refunded: 100, status: PaymentStatus::Refunded, frozen: None }));
    let failure = ResultReq { refund_no: "REF1".into(), success: false, wechat_refund_id: None, failure_reason: Some("x".into()) };
    assert_eq!(decide(5, &result_payment(0), &result_refund(RefundStatus::Processing, 82, None), &failure, &no_hold()), Ok(ResultEffect::Fail));
    assert_eq!(decide(5, &result_payment(0), &result_refund(RefundStatus::Failed, 82, None), &failure, &no_hold()), Ok(ResultEffect::Keep));
}

#[test]
fn wallet_refund_success_releases_the_reservation() {
    let mut p = result_payment(0);
    p.biz_type = "wallet_recharge".into();
    let mut r = result_refund(RefundStatus::Processing, 50, None);
    r.biz_type = "wallet_recharge".into();
    let hold = WalletHold { part: Some((50, false)), wallets: vec![(450, 250)] };
    assert_eq!(decide(5, &p, &r, &success("R1"), &hold), Ok(ResultEffect::Succeed { refunded: 50, status: PaymentStatus::PartialRefunded, frozen: Some(200) }));
    let settled = WalletHold { part: Some((50, true)), wallets: vec![(450, 250)] };
    assert!(decide(5, &p, &r, &success("R1"), &settled).is_err());
}

#[test]
fn late_failure_notice_never_undoes_a_success() {
    let pay = NoticePayment { order_no: "PAY1".into(), wechat_transaction_id: Some("WX1".into()), total_cents: 100, pay_method: "wechat".into() };
    let notice = |status: &str| RefundNotice {
        out_trade_no: "PAY1".into(),
        transaction_id: "WX1".into(),
        out_refund_no: "REF1".into(),
        refund_id: "R1".into(),
        refund_status: status.into(),
        amount_total: 100,
        amount_refund: 82,
    };
    let done = vec![(82, RefundStatus::Success, Some("R1".to_string()))];
    assert!(matches!(notice_step(&pay, &done, &notice("ABNORMAL")), Ok(NoticeStep::Keep)));
    match notice_step(&pay, &[(82, RefundStatus::Processing, None)], &notice("ABNORMAL")) {
        Ok(NoticeStep::Apply(r)) => {
            assert!(!r.success);
            assert_eq!(r.failure_reason.as_deref(), Some("微信退款状态 ABNORMAL，需人工处理"));
        }
        _ => panic!("expected a result to apply"),
    }
    match notice_step(&pay, &[(82, RefundStatus::Processing, None)], &notice("SUCCESS")) {
        Ok(NoticeStep::Apply(r)) => {
            assert!(r.success);
            assert_eq!(r.wechat_refund_id.as_deref(), Some("R1"));
            assert!(r.failure_reason.is_none());
        }
        _ => panic!("expected a result to apply"),
    }
    assert!(notice_step(&pay, &[(83, RefundStatus::Processing, None)], &notice("SUCCESS")).is_err());
}

fn exec_refund() -> ExecRefund {
    ExecRefund { user_id: 123, biz_id: 4, biz_type: "charge".into(), refund_cents: 40, status: RefundStatus::Pending, reason: Some("设备启动失败".into()), claimed_by: None }
}

fn exec_payment() -> ExecPayment {
    ExecPayment { user_id: 123, biz_id: 4, biz_type: "charge".into(), pay_method: "wechat".into(), total_cents: 100, paid_cents: 100, refunded_cents: 0, wechat_transaction_id: Some("4200000001".into()), status: PaymentStatus::Paid }
}

#[test]
fn automatic_execution_only_where_the_order_confirms_the_reason() {
    assert!(check_owned(&exec_refund(), &exec_payment()));
    let failed = vec![ExecOrder { status: ChargeStatus::Failed, user_id: 123, payment_order_id: Some(5) }];
    let completed = vec![ExecOrder { status: ChargeStatus::Completed, user_id: 123, payment_order_id: Some(5) }];
    assert!(check_claimable(&exec_refund(), &exec_payment(), 5, &None, false, &failed, false));
    assert!(!check_claimable(&exec_refund(), &exec_payment(), 5, &None, false, &completed, false));
    let review = Some(ExecReview { first_signer: 1, second_signer: Some(2), snapshot_matches: true });
    assert!(check_claimable(&exec_refund(), &exec_payment(), 5, &review, false, &completed, false));
    let half = Some(ExecReview { first_signer: 1, second_signer: None, snapshot_matches: true });
    assert!(!check_claimable(&exec_refund(), &exec_payment(), 5, &half, false, &failed, false));
    let detail = execution(&"REF1".into(), &exec_refund(), &exec_payment(), &[line(40, RefundStatus::Pending)], &None).ok().unwrap();
    assert_eq!(detail.status, RefundStatus::Processing);
    assert_eq!((detail.refund_cents, detail.total_cents), (40, 100));
    assert_eq!(detail.transaction_id, "4200000001");
    assert_eq!(detail.wechat_refund_id, None);
    let seen = execution(&"REF1".into(), &exec_refund(), &exec_payment(), &[line(40, RefundStatus::Pending)], &Some("5030001".into())).ok().unwrap();
    assert_eq!(seen.wechat_refund_id, Some("5030001".to_string()));
    let mut bad = exec_payment();
    bad.wechat_transaction_id = Some("42-0".into());
    assert!(execution(&"REF1".into(), &exec_refund(), &bad, &[line(40, RefundStatus::Pending)], &None).is_err());
}

fn source(paid: i64, refunds: Vec<RefundLine>) -> RechargeSource {
    let refunded = refunds.iter().filter(|l| l.status == RefundStatus::Success).map(|l| l.amount).sum();
    RechargeSource { paid_cents: paid, refunded_cents: refunded, refunds }
}

#[test]
fn splits_original_payments_reserves_once_and_settles_once() {
    let sources = vec![source(200, vec![]), source(300, vec![])];
    assert_eq!(split_refund(&sources, 250).unwrap(), vec![(0, 200), (1, 50)]);
    let sources = vec![source(200, vec![line(200, RefundStatus::Pending)]), source(300, vec![line(50, RefundStatus::Success)])];
    assert_eq!(split_refund(&sources, 100).unwrap(), vec![(1, 100)]);
    assert_eq!(split_refund(&sources, 300), Err(WalletRefundError::NotRefundable));
    let broken = vec![RechargeSource { paid_cents: 100, refunded_cents: 10, refunds: vec![] }];
    assert_eq!(split_refund(&broken, 50), Err(WalletRefundError::Conflict));
    assert_eq!(reserve(500, 0, 250), Ok((250, 250)));
    assert!(reserve(500, -1, 250).is_err());
}

#[test]
fn wallet_refund_requests() {
    let req = |amount: i64, reason: Option<&str>| WalletRefundReq {
        request_id: "67E55044-10B1-426F-9247-BB680E5FE0C8".into(),
        amount_cents: amount,
        reason: reason.map(|s| s.to_string()),
    };
    assert_eq!(check_request(&req(250, None)).unwrap(), "67e55044-10b1-426f-9247-bb680e5fe0c8");
    assert_eq!(check_request(&req(0, None)), Err(WalletRefundError::InvalidRequest));
    assert_eq!(check_request(&req(100_000_001, None)), Err(WalletRefundError::InvalidRequest));
    assert_eq!(check_request(&req(5, Some("a\u{0}b"))), Err(WalletRefundError::InvalidRequest));
    let mut bad = req(5, None);
    bad.request_id = "x".into();
    assert_eq!(check_request(&bad), Err(WalletRefundError::InvalidRequestId));
    assert_eq!(check_wallet(&[(500, true)], 250), Ok(500));
    assert_eq!(check_wallet(&[(500, false)], 250), Err(WalletRefundError::Frozen));
    assert_eq!(check_wallet(&[(100, true)], 250), Err(WalletRefundError::InsufficientBalance));
    assert_eq!(check_wallet(&[], 250), Err(WalletRefundError::Conflict));
    assert_eq!(list_window(&ListQuery { page: None, page_size: None }), Some((1, 20)));
    assert_eq!(list_window(&ListQuery { page: Some(1), page_size: Some(51) }), None);
}

#[test]
fn wallet_refund_statuses() {
    assert_eq!(request_status(true, &[], 100), Ok((WalletRefundStatus::ManualReview, 0)));
    assert_eq!(request_status(false, &[], 100), Ok((WalletRefundStatus::NeedsReview, 0)));
    assert_eq!(request_status(false, &[(RefundStatus::Success, 60), (RefundStatus::Success, 40)], 100), Ok((WalletRefundStatus::Success, 100)));
    assert_eq!(request_status(false, &[(RefundStatus::Success, 60), (RefundStatus::Pending, 40)], 100), Ok((WalletRefundStatus::Processing, 60)));
    assert_eq!(request_status(false, &[(RefundStatus::Pending, 60)], 60), Ok((WalletRefundStatus::Pending, 0)));
    assert_eq!(request_status(false, &[(RefundStatus::Failed, 60)], 60), Ok((WalletRefundStatus::NeedsReview, 0)));
}

fn fee(total: i64, electric: i64, service: i64) -> FeeResult {
    FeeResult {
        calculation_no: "FEE1".into(),
        source: MeteredOrder {
            charge_order_id: 4,
            order_no: "O1".into(),
            user_id: 123,
            started_at: (0, 0),
            meter: ChargeEndMeter { charged_wh: 1000, charged_seconds: 60, ended_secs: 60, ended_nanos: 0 },
            quote: PriceQuote {
                amount: evcharge::billing::api_types::QuoteResponse { total_cents: 100, electric_cents: 70, service_cents: 30 },
                pricing: evcharge::billing::quote_pricing::DevicePricing {
                    station_id: 1,
                    station_name: "s".into(),
                    rule_id: 1,
                    name: "r".into(),
                    version: 1,
                    mode: "kwh".into(),
                    time_of_use: vec![],
                    service_fee_cents_per_kwh: 30,
                    service_fee_cents_per_min: 0,
                    min_charge_cents: 0,
                },
                estimated_kwh: "1.000".into(),
                estimated_minutes: 60,
                quote_expires_at: "2026-09-26T11:05:00Z".into(),
                estimation_basis: "test".into(),
            },
        },
        electric_cents: electric,
        service_cents: service,
        total_cents: total,
    }
}

#[test]
fn final_fee_refunds_the_difference_and_records_the_shortfall() {
    assert!(check_shape(4, &fee(60, 40, 20)));
    assert!(!check_shape(5, &fee(60, 40, 20)));
    assert!(!check_shape(4, &fee(60, 40, 21)));
    let pay = FeePayment { user_id: 123, biz_id: 4, biz_type: "charge".into(), paid_cents: 100, refunded_cents: 0, status: PaymentStatus::Paid };
    assert_eq!(settle(&pay, &[], 60), Ok(Settlement { refund_cents: 40, shortfall_cents: 0 }));
    assert_eq!(settle(&pay, &[line(10, RefundStatus::Pending)], 60), Ok(Settlement { refund_cents: 30, shortfall_cents: 0 }));
    assert_eq!(settle(&pay, &[], 130), Ok(Settlement { refund_cents: 0, shortfall_cents: 30 }));
    assert!(settle(&pay, &[line(50, RefundStatus::Pending)], 60).is_err());
}

#[test]
fn reported_refund_outcomes() {
    let ok = ResultReq { refund_no: "RFD1".into(), success: true, wechat_refund_id: Some("W1".into()), failure_reason: None };
    let failed = ResultReq { refund_no: "RFD1".into(), success: false, wechat_refund_id: None, failure_reason: Some("x".into()) };
    assert_eq!(
        result_update(&ok, 20, 30, 100, 0),
        Some(ResultUpdate::Succeeded { refunded: 50, status: PaymentStatus::PartialRefunded })
    );
    assert_eq!(
        result_update(&ok, 70, 30, 100, 0),
        Some(ResultUpdate::Succeeded { refunded: 100, status: PaymentStatus::Refunded })
    );
    assert_eq!(result_update(&ok, i64::MAX, 1, 100, 0), None);
    assert_eq!(result_update(&failed, 0, 30, 100, 2), Some(ResultUpdate::Failed { marked: true }));
    assert_eq!(result_update(&failed, 0, 30, 100, 3), Some(ResultUpdate::Failed { marked: false }));
    assert!(claimable(RefundStatus::Pending, None));
    assert!(!claimable(RefundStatus::Pending, Some(9)));
    assert!(!claimable(RefundStatus::Processing, None));
}

#[test]
fn fees_come_from_the_recorded_source_and_are_recorded_once() {
    let req = fee(60, 40, 20);
    let meter = ChargeEndMeter { charged_wh: 1000, charged_seconds: 60, ended_secs: 60, ended_nanos: 0 };
    let stored = fee(60, 40, 20).source.quote;
    assert!(check_source(&meter, (0, 0), &stored, &req));
    assert!(!check_source(&meter, (0, 1), &stored, &req));
    let mut other_tariff = fee(60, 40, 20).source.quote;
    other_tariff.pricing.service_fee_cents_per_kwh = 31;
    assert!(!check_source(&meter, (0, 0), &other_tariff, &req));
    let mut other_amount = fee(60, 40, 20).source.quote;
    other_amount.amount.total_cents = 101;
    assert!(!check_source(&meter, (0, 0), &other_amount, &req));
    assert_eq!(fee_step(&None, &req), Ok(FeeStep::Settle));
    assert_eq!(fee_step(&Some(fee(60, 40, 20)), &req), Ok(FeeStep::Replay));
    assert!(fee_step(&Some(fee(70, 50, 20)), &req).is_err());
}

#[test]
fn billing_calculates_each_order_once() {
    use_calc_step();
}

fn use_calc_step() {
    let stored = fee(60, 40, 20).source;
    let same = fee(60, 40, 20).source;
    let mut changed = fee(60, 40, 20).source;
    changed.meter.charged_wh = 1001;
    assert_eq!(calc_step(&stored, None, &same), Ok(CalcStep::Create));
    assert_eq!(calc_step(&stored, Some(9), &same), Ok(CalcStep::Replay(9)));
    assert!(calc_step(&stored, Some(9), &changed).is_err());
    assert!(calc_step(&stored, None, &changed).is_err());
}

#[test]
fn a_review_signs_one_snapshot() {
    use_snapshots();
}

fn use_snapshots() {
    let snap = |cents: i64, reason: Option<&str>| ReviewSnapshot {
        refund_no: "REF1".into(),
        payment_order_id: 5,
        user_id: 123,
        charge_order_id: 4,
        refund_cents: cents,
        reason: reason.map(|r| r.to_string()),
        total_cents: 100,
        paid_cents: 100,
    };
    assert!(same_snapshot(&snap(40, Some("fault")), &snap(40, Some("fault"))));
    assert!(!same_snapshot(&snap(40, Some("fault")), &snap(41, Some("fault"))));
    assert!(!same_snapshot(&snap(40, Some("fault")), &snap(40, None)));
}

#[test]
fn a_wallet_refund_request_id_names_one_request() {
    let req = WalletRefundReq { request_id: "67e55044-10b1-426f-9247-bb680e5fe0c8".into(), amount_cents: 150, reason: None };
    let prior = |uid: u64, amount: i64, answered: bool| PriorRequest { user_id: uid, amount_cents: amount, reason: None, answered };
    assert_eq!(request_step(&prior(7, 150, false), 7, &req), Ok(RequestStep::Apply));
    assert_eq!(request_step(&prior(7, 150, true), 7, &req), Ok(RequestStep::Replay));
    assert_eq!(request_step(&prior(8, 150, true), 7, &req), Err(WalletRefundError::Conflict));
    assert_eq!(request_step(&prior(7, 100, false), 7, &req), Err(WalletRefundError::Conflict));
}
