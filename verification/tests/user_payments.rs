use evcharge::contracts::{ChargeEndMeter, ChargeEndRequest, StartResultRequest};
use evcharge::user::charge_start::{
    available, match_order, replay_matches, take_port, validate, ActivePort, StartError, StartOrder,
    StartPayment, StartReceipt,
};
use evcharge::user::charge_end::{check_report, decide, EndEffect, EndOrder, EndRecord, StartRecord};
use evcharge::user::ledger::{tally, RefundLine};
use evcharge::user::payment_receipt::{
    check_owner, check_payment, credit_wallet, effect, step, PaymentNotice, ReceiptCharge,
    ReceiptEffect, ReceiptPayment, ReceiptStep,
};
use evcharge::user::prepay::{
    check_request, check_resumable, find_order, PrepayError, PrepayOrder, PrepayPayment,
    SavedPayRequest,
};
use evcharge::user::status::{ChargeStatus, PaymentStatus, RefundStatus};

const COMMAND: &str = "67e55044-10b1-426f-9247-bb680e5fe0c8";

fn start_req(success: bool) -> StartResultRequest {
    StartResultRequest {
        order_no: "START_1".into(),
        command_id: COMMAND.to_uppercase(),
        device_id: "DEV_1".into(),
        port_no: 1,
        port_id: Some(9_000_000_001),
        success,
        error: None,
    }
}

fn line(amount: i64, status: RefundStatus) -> RefundLine {
    RefundLine { amount, status }
}

#[test]
fn start_answers_are_validated_and_canonical() {
    assert_eq!(validate("START_1", &start_req(true)).unwrap(), COMMAND);
    assert_eq!(validate("OTHER", &start_req(true)), Err(StartError::InvalidRequest));
    let mut r = start_req(true);
    r.port_id = None;
    assert_eq!(validate("START_1", &r), Err(StartError::InvalidRequest));
    let mut r = start_req(false);
    r.port_id = None;
    r.error = Some("device_rejected".into());
    assert!(validate("START_1", &r).is_ok());
    r.error = Some("bad\u{7}".into());
    assert_eq!(validate("START_1", &r), Err(StartError::InvalidRequest));
    let mut r = start_req(true);
    r.command_id = "nope".into();
    assert_eq!(validate("START_1", &r), Err(StartError::InvalidCommandId));
}

fn start_order() -> StartOrder {
    StartOrder {
        user_id: 123,
        device_id: "DEV_1".into(),
        port_no: 1,
        port_code: Some("DEV_1:1".into()),
        payment_order_id: Some(5),
        status: ChargeStatus::Paid,
    }
}

fn start_payment() -> StartPayment {
    StartPayment {
        biz_id: 4,
        user_id: 123,
        biz_type: "charge".into(),
        status: PaymentStatus::Paid,
        paid_cents: 100,
        refunded_cents: 0,
    }
}

#[test]
fn existing_refund_blocks_start_and_is_deducted_from_failure_refund() {
    let refunds = vec![line(40, RefundStatus::Pending)];
    assert_eq!(
        available(&start_order(), &start_payment(), &refunds, true),
        Err(StartError::Conflict)
    );
    assert_eq!(available(&start_order(), &start_payment(), &refunds, false), Ok(60));
    assert_eq!(available(&start_order(), &start_payment(), &[], true), Ok(100));
    let too_much = vec![line(60, RefundStatus::Pending), line(50, RefundStatus::Pending)];
    assert_eq!(
        available(&start_order(), &start_payment(), &too_much, false),
        Err(StartError::Conflict)
    );
}

#[test]
fn start_must_match_order_and_port() {
    assert_eq!(
        match_order(4, 5, &start_order(), &start_payment(), &start_req(true)).unwrap(),
        "DEV_1:1"
    );
    let mut other = start_req(true);
    other.port_no = 2;
    assert!(match_order(4, 5, &start_order(), &start_payment(), &other).is_err());
    let free = ActivePort {
        port_id: 9_000_000_001,
        device_id: "DEV_1".into(),
        port_no: 1,
        charge_order_id: 77,
        ended: true,
    };
    assert_eq!(take_port(&[], 9_000_000_001, &start_req(true), 4), Ok(false));
    assert_eq!(take_port(&[free], 9_000_000_001, &start_req(true), 4), Ok(true));
    let busy = ActivePort {
        port_id: 9_000_000_001,
        device_id: "DEV_1".into(),
        port_no: 1,
        charge_order_id: 77,
        ended: false,
    };
    assert_eq!(take_port(&[busy], 9_000_000_001, &start_req(true), 4), Err(StartError::Conflict));
    let receipt = StartReceipt { command_id: COMMAND.into(), success: true, port_id: Some(9_000_000_001) };
    assert!(replay_matches(&receipt, &COMMAND.to_string(), &start_req(true)));
    assert!(!replay_matches(&receipt, &COMMAND.to_string(), &start_req(false)));
}

#[test]
fn ledger_tallies() {
    let lines = vec![
        line(40, RefundStatus::Pending),
        line(30, RefundStatus::Success),
        line(20, RefundStatus::Rejected),
    ];
    assert_eq!(tally(&lines, true, 30, false), Some((70, 30)));
    assert_eq!(tally(&lines, false, 30, false), Some((90, 30)));
    assert_eq!(tally(&lines, true, 0, true), Some((70, 30)));
    assert_eq!(tally(&[line(0, RefundStatus::Pending)], false, 0, false), None);
    assert_eq!(tally(&[line(0, RefundStatus::Rejected)], true, 0, false), Some((0, 0)));
    assert_eq!(tally(&[line(i64::MAX, RefundStatus::Pending)], false, 1, false), None);
}

fn notice() -> PaymentNotice {
    PaymentNotice {
        out_trade_no: "PAY_1".into(),
        transaction_id: "WX_1".into(),
        payer_openid: "openid".into(),
        amount_total: 100,
    }
}

fn receipt_payment(status: PaymentStatus) -> ReceiptPayment {
    ReceiptPayment {
        id: 5,
        biz_type: "charge".into(),
        biz_id: 4,
        user_id: 123,
        pay_method: "wechat".into(),
        total_cents: 100,
        paid_cents: 0,
        status,
        wechat_transaction_id: None,
        expired_ms: Some(2_000),
    }
}

#[test]
fn receipt_atomicity_replay_late_payment_and_wallet() {
    let p = receipt_payment(PaymentStatus::Initiated);
    assert!(check_payment(&[receipt_payment(PaymentStatus::Initiated)], &notice()).is_ok());
    let mut wrong = notice();
    wrong.amount_total = 101;
    assert!(check_payment(&[receipt_payment(PaymentStatus::Initiated)], &wrong).is_err());
    assert_eq!(check_owner(&Some(("openid".into(), "active".into())), &notice()), Ok(true));
    assert!(check_owner(&Some(("other_user".into(), "active".into())), &notice()).is_err());
    assert_eq!(step(true, true, &p, &notice()), Ok(ReceiptStep::Record { refund: false }));
    let charge = ReceiptCharge { user_id: 123, payment_order_id: Some(5), status: ChargeStatus::PendingPayment };
    assert_eq!(effect(&p, false, &[charge], true, 1_000), Ok(ReceiptEffect::StartCharge));
    let mut recorded = receipt_payment(PaymentStatus::Paid);
    recorded.paid_cents = 100;
    recorded.wechat_transaction_id = Some("WX_1".into());
    assert_eq!(step(false, true, &recorded, &notice()), Ok(ReceiptStep::Replay));
    let mut second = notice();
    second.transaction_id = "WX_12".into();
    assert!(step(false, true, &recorded, &second).is_err());
    assert!(step(true, false, &p, &notice()).is_err());
    let mut refunded = recorded;
    refunded.status = PaymentStatus::Refunded;
    assert_eq!(step(false, true, &refunded, &notice()), Ok(ReceiptStep::Replay));
    let closed = receipt_payment(PaymentStatus::Closed);
    assert_eq!(step(true, true, &closed, &notice()), Ok(ReceiptStep::Record { refund: true }));
    let cancelled = ReceiptCharge { user_id: 123, payment_order_id: Some(5), status: ChargeStatus::Cancelled };
    assert_eq!(
        effect(&closed, true, &[cancelled], true, 1_000),
        Ok(ReceiptEffect::Refund { cancel_order: false })
    );
    let pending = ReceiptCharge { user_id: 123, payment_order_id: Some(5), status: ChargeStatus::PendingPayment };
    assert_eq!(
        effect(&p, false, &[pending], true, 3_000),
        Ok(ReceiptEffect::Refund { cancel_order: true })
    );
    let mut wallet = receipt_payment(PaymentStatus::Initiated);
    wallet.biz_type = "wallet_recharge".into();
    assert_eq!(effect(&wallet, false, &[], true, 1_000), Ok(ReceiptEffect::CreditWallet));
    assert_eq!(credit_wallet(&[], 100), Ok((true, 100)));
    assert_eq!(credit_wallet(&[50], 100), Ok((false, 150)));
    assert!(credit_wallet(&[1, 2], 100).is_err());
    assert!(credit_wallet(&[i64::MAX], 1).is_err());
}

fn prepay_payment(expired_ms: Option<i64>) -> PrepayPayment {
    PrepayPayment { biz_id: 4, status: PaymentStatus::Initiated, total_cents: 100, expired_ms }
}

fn prepay_order(status: ChargeStatus) -> PrepayOrder {
    PrepayOrder { payment_order_id: Some(5), status, port_code: Some("P1".into()) }
}

#[test]
fn resumes_saved_payment_and_rejects_wrong_owner_paid_expired_or_lost_hold() {
    assert_eq!(find_order(&[]).err(), Some(PrepayError::NotFound));
    assert_eq!(find_order(&[(4, None)]).err(), Some(PrepayError::Conflict));
    assert_eq!(find_order(&[(4, Some(5))]).unwrap(), (4, 5));
    let (expiry, port) = check_resumable(
        4,
        5,
        &[prepay_payment(Some(2_000))],
        &[prepay_order(ChargeStatus::PendingPayment)],
        1_000,
        true,
    )
    .unwrap();
    assert_eq!((expiry, port.as_str()), (2_000, "P1"));
    assert!(check_resumable(4, 5, &[prepay_payment(Some(2_000))], &[prepay_order(ChargeStatus::Paid)], 1_000, true).is_err());
    assert!(check_resumable(4, 5, &[prepay_payment(Some(1_000))], &[prepay_order(ChargeStatus::PendingPayment)], 1_000, true).is_err());
    assert!(check_resumable(4, 5, &[prepay_payment(Some(2_000))], &[prepay_order(ChargeStatus::PendingPayment)], 1_000, false).is_err());
    let saved = SavedPayRequest {
        appid: "wx_app".into(),
        mchid: "1900000109".into(),
        out_trade_no: "PAY_1".into(),
        payer_openid: "openid".into(),
        amount_total: 100,
        currency: "CNY".into(),
        time_expire: "2001-09-09T01:46:40.500Z".into(),
    };
    let expiry_ms = 1_000_000_000_500;
    assert!(check_request(&saved, &"PAY_1".into(), "openid", 100, &"wx_app".into(), &"1900000109".into(), expiry_ms).is_ok());
    assert!(check_request(&saved, &"PAY_1".into(), "other", 100, &"wx_app".into(), &"1900000109".into(), expiry_ms).is_err());
    assert!(check_request(&saved, &"PAY_1".into(), "openid", 100, &"wx_app".into(), &"1900000109".into(), expiry_ms + 1).is_err());
}

fn end_request() -> ChargeEndRequest {
    ChargeEndRequest {
        order_no: "END_1".into(),
        start_command_id: COMMAND.into(),
        stop_command_id: "a8098c1a-f86e-11da-bd1a-00112444be1e".into(),
        device_id: "DEV_1".into(),
        port_no: 1,
        port_id: 9_000_000_001,
        meter: ChargeEndMeter { charged_wh: 125, charged_seconds: 126, ended_secs: 1_000_126, ended_nanos: 0 },
    }
}

#[test]
fn measured_end_is_immutable() {
    let req = end_request();
    let (start, stop) = check_report("END_1", &req, (1_000_200, 0)).unwrap();
    assert!(check_report("END_2", &req, (1_000_200, 0)).is_err());
    assert!(check_report("END_1", &req, (999_825, 999_000_000)).is_err());
    assert!(check_report("END_1", &req, (999_826, 0)).is_ok());
    let rows = vec![EndOrder {
        device_id: "DEV_1".into(),
        port_no: 1,
        status: ChargeStatus::Charging,
        started_at: (1_000_000, 0),
    }];
    let started = Some(StartRecord { command_id: COMMAND.into(), port_id: Some(9_000_000_001), success: true });
    match decide(&req, &start, &stop, &rows, &started, &None).unwrap() {
        EndEffect::Complete { kwh } => assert_eq!(kwh, "0.125"),
        EndEffect::Replay => panic!("expected completion"),
    }
    let saved = Some(EndRecord { stop_command_id: stop.clone(), meter: req.meter });
    assert!(matches!(decide(&req, &start, &stop, &rows, &started, &saved), Ok(EndEffect::Replay)));
    let mut other = req.meter;
    other.charged_wh = 126;
    let different = Some(EndRecord { stop_command_id: stop.clone(), meter: other });
    assert!(decide(&req, &start, &stop, &rows, &started, &different).is_err());
    let mut long = end_request();
    long.meter.charged_seconds = 427;
    assert!(decide(&long, &start, &stop, &rows, &started, &None).is_err());
}
