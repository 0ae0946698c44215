use evcharge::billing::api_types::QuoteResponse;
use evcharge::billing::quote_pricing::{DevicePricing, Period};
use evcharge::contracts::PriceQuote;
use evcharge::user::checkout::{
    cancel_decision, validate_quote, CancelError, CancelOrder, CancelPayment, QuoteError,
};
use evcharge::user::orders::{
    conditions, device_list, history_query, order_key, refund_summary, validate, OrderKey,
    OrderQuery, OrderQueryError, RefundSummary, UserHistoryQuery,
};
use evcharge::user::quote_confirmation::{
    canonical_id, save_expiry, verify, ConfirmError, SavedQuote,
};
use evcharge::user::status::{ChargeStatus, PaymentStatus};

fn query() -> OrderQuery {
    OrderQuery {
        page: 1,
        page_size: 20,
        status: None,
        station_id: None,
        started_from: None,
        started_to: None,
        order_no: None,
        device_id: None,
        device_ids: None,
    }
}

const NOW: (i64, u32) = (1_790_420_400, 0);

#[test]
fn rejects_inconsistent_or_unpayable_quotes() {
    for (total, electric, service) in [
        (0, 0, 0),
        (-1, 0, -1),
        (10, 5, 6),
        (10, -1, 11),
        (i64::MAX, i64::MAX, 1),
        (i32::MAX as i64 + 1, i32::MAX as i64 + 1, 0),
    ] {
        assert!(validate_quote(&QuoteResponse {
            total_cents: total,
            electric_cents: electric,
            service_cents: service
        })
        .is_err());
    }
    assert_eq!(
        validate_quote(&QuoteResponse { total_cents: 123, electric_cents: 100, service_cents: 23 })
            .unwrap(),
        123
    );
}

#[test]
fn quote_errors_tell_invalid_from_too_large() {
    assert_eq!(
        validate_quote(&QuoteResponse { total_cents: 10, electric_cents: 5, service_cents: 6 }),
        Err(QuoteError::InvalidAmount)
    );
    assert_eq!(
        validate_quote(&QuoteResponse {
            total_cents: i32::MAX as i64 + 1,
            electric_cents: i32::MAX as i64 + 1,
            service_cents: 0
        }),
        Err(QuoteError::TooLarge)
    );
}

#[test]
fn cancellation_rules() {
    let pay = |status| Some(CancelPayment { status, biz_id: 7 });
    let order = |status, in_window| {
        Some(CancelOrder { status, payment_order_id: Some(9), in_window })
    };
    assert_eq!(
        cancel_decision(7, Some(9), &pay(PaymentStatus::Initiated), &order(ChargeStatus::PendingPayment, true)),
        Ok(true)
    );
    assert_eq!(
        cancel_decision(7, Some(9), &pay(PaymentStatus::Closed), &order(ChargeStatus::Cancelled, false)),
        Ok(false)
    );
    let paid = cancel_decision(7, Some(9), &pay(PaymentStatus::Paid), &order(ChargeStatus::PendingPayment, true));
    assert_eq!(paid, Err(CancelError::NotPending));
    assert_eq!(paid.unwrap_err().code(), Some(2018));
    let late = cancel_decision(7, Some(9), &pay(PaymentStatus::Initiated), &order(ChargeStatus::PendingPayment, false));
    assert_eq!(late, Err(CancelError::WindowClosed));
    assert_eq!(late.unwrap_err().code(), Some(2019));
    assert_eq!(
        cancel_decision(8, Some(9), &pay(PaymentStatus::Initiated), &order(ChargeStatus::PendingPayment, true)),
        Err(CancelError::Mismatch)
    );
    assert_eq!(cancel_decision(7, None, &None, &None), Err(CancelError::MissingPayment));
    assert_eq!(cancel_decision(7, Some(9), &None, &None), Err(CancelError::PaymentNotFound));
    assert_eq!(CancelError::Mismatch.code(), None);
}

#[test]
fn pagination_and_time_validation() {
    let mut q = query();
    assert!(validate(&q, NOW).is_ok());
    q.page = 0;
    assert!(validate(&q, NOW).is_err());
    q.page = 1;
    q.page_size = 101;
    assert!(validate(&q, NOW).is_err());
    q.page_size = 20;
    q.started_from = Some("2026-09-25T12:00:00+08:00".into());
    q.started_to = Some("2026-09-25T03:00:00Z".into());
    assert!(validate(&q, NOW).is_err());
    q.started_to = Some("2026-09-25T05:00:00Z".into());
    assert!(validate(&q, NOW).is_ok());
}

#[test]
fn status_alias_and_empty_station_are_not_unfiltered() {
    let mut q = query();
    q.status = Some("finished".into());
    q.device_ids = Some(String::new());
    let filters = validate(&q, NOW).unwrap();
    assert_eq!(filters.status.as_deref(), Some("completed"));
    let (sql, _binds) = conditions(&q, &filters);
    assert!(sql.contains("AND 1 = 0"));
    q.status = Some("anything".into());
    assert!(validate(&q, NOW).is_err());
}

#[test]
fn query_errors_name_their_cause() {
    let mut q = query();
    q.station_id = Some(3);
    assert_eq!(validate(&q, NOW).err(), Some(OrderQueryError::StationNotResolved));
    let mut q = query();
    q.started_to = Some("yesterday".into());
    assert_eq!(validate(&q, NOW).err(), Some(OrderQueryError::BadTime));
    let mut q = query();
    q.order_no = Some(String::new());
    assert_eq!(validate(&q, NOW).err(), Some(OrderQueryError::BadIdentifier));
    let mut q = query();
    q.started_from = Some("2026-09-25T06:00:00Z".into());
    q.started_to = Some("2026-09-25T05:00:00Z".into());
    assert_eq!(validate(&q, NOW).err(), Some(OrderQueryError::FromAfterTo));
}

#[test]
fn default_window_is_a_week_before_the_end() {
    let f = validate(&query(), NOW).unwrap();
    assert_eq!(f.to, NOW);
    assert_eq!(f.from, (NOW.0 - 604_800, 0));
}

#[test]
fn conditions_bind_each_filter() {
    let mut q = query();
    q.status = Some("paid".into());
    q.order_no = Some("O1".into());
    q.device_ids = Some("D1,,D2,".into());
    let f = validate(&q, NOW).unwrap();
    let (sql, binds) = conditions(&q, &f);
    assert_eq!(
        sql,
        " WHERE c.deleted_at IS NULL AND COALESCE(c.started_at,c.created_at) >= ? AND COALESCE(c.started_at,c.created_at) <= ? AND c.status = ? AND c.order_no = ? AND c.device_id IN (?,?)"
    );
    assert_eq!(binds.len(), 6);
}

#[test]
fn device_lists_drop_empty_names() {
    assert_eq!(device_list("a,b"), vec!["a".to_string(), "b".to_string()]);
    assert_eq!(device_list(",a,,b,"), vec!["a".to_string(), "b".to_string()]);
    assert!(device_list("").is_empty());
    assert!(device_list(",,").is_empty());
}

#[test]
fn order_keys() {
    assert!(matches!(order_key("42"), Some(OrderKey::Id(42))));
    assert!(matches!(order_key("+7"), Some(OrderKey::Id(7))));
    assert!(matches!(order_key("18446744073709551615"), Some(OrderKey::Id(u64::MAX))));
    assert!(matches!(order_key("18446744073709551616"), Some(OrderKey::OrderNo(_))));
    match order_key("ORD1") {
        Some(OrderKey::OrderNo(s)) => assert_eq!(s, "ORD1"),
        _ => panic!("expected an order number"),
    }
    assert!(order_key("").is_none());
    assert!(order_key(&"x".repeat(65)).is_none());
}

#[test]
fn refund_summaries() {
    assert_eq!(refund_summary(ChargeStatus::Refunding, Some(0), Some(100)), RefundSummary::Processing);
    assert_eq!(refund_summary(ChargeStatus::Completed, Some(100), Some(100)), RefundSummary::Refunded);
    assert_eq!(refund_summary(ChargeStatus::Completed, Some(30), Some(100)), RefundSummary::PartialRefunded);
    assert_eq!(refund_summary(ChargeStatus::Completed, Some(0), Some(100)), RefundSummary::NoRefund);
    assert_eq!(refund_summary(ChargeStatus::Completed, None, None), RefundSummary::NoRefund);
}

#[test]
fn user_history_covers_everything_since_the_epoch() {
    let q = history_query(&UserHistoryQuery { page: None, page_size: Some(5), status: None });
    assert_eq!(q.page, 1);
    assert_eq!(q.page_size, 5);
    assert_eq!(q.started_from.as_deref(), Some("1970-01-01T00:00:00Z"));
    assert!(validate(&q, NOW).is_ok());
}

fn saved() -> SavedQuote {
    SavedQuote {
        user_id: 123,
        port_id: "CONFIRM_TEST:1".into(),
        expires_at: (1_000_300, 0),
        quote: PriceQuote {
            amount: QuoteResponse { electric_cents: 50, service_cents: 20, total_cents: 70 },
            pricing: DevicePricing {
                station_id: 1,
                station_name: "test".into(),
                rule_id: 1,
                name: "test".into(),
                version: 1,
                mode: "kwh".into(),
                time_of_use: Vec::<Period>::new(),
                service_fee_cents_per_kwh: 40,
                service_fee_cents_per_min: 0,
                min_charge_cents: 0,
            },
            estimated_kwh: "0.500".into(),
            estimated_minutes: 120,
            quote_expires_at: "2001-09-09T01:51:40Z".into(),
            estimation_basis: "test".into(),
        },
    }
}

fn same_quote(q: &PriceQuote) -> PriceQuote {
    PriceQuote {
        amount: q.amount,
        pricing: DevicePricing {
            station_id: q.pricing.station_id,
            station_name: q.pricing.station_name.clone(),
            rule_id: q.pricing.rule_id,
            name: q.pricing.name.clone(),
            version: q.pricing.version,
            mode: q.pricing.mode.clone(),
            time_of_use: Vec::new(),
            service_fee_cents_per_kwh: q.pricing.service_fee_cents_per_kwh,
            service_fee_cents_per_min: q.pricing.service_fee_cents_per_min,
            min_charge_cents: q.pricing.min_charge_cents,
        },
        estimated_kwh: q.estimated_kwh.clone(),
        estimated_minutes: q.estimated_minutes,
        quote_expires_at: q.quote_expires_at.clone(),
        estimation_basis: q.estimation_basis.clone(),
    }
}

#[test]
fn rejects_drift_even_when_total_is_unchanged() {
    let now = (1_000_000, 0);
    let s = saved();
    verify(&s, &same_quote(&s.quote), now).unwrap();
    let mut changed = same_quote(&s.quote);
    changed.pricing.version += 1;
    assert!(verify(&s, &changed, now).is_err());
    let mut changed = same_quote(&s.quote);
    changed.pricing.service_fee_cents_per_kwh += 1;
    assert!(verify(&s, &changed, now).is_err());
    let mut changed = same_quote(&s.quote);
    changed.amount.electric_cents = 40;
    changed.amount.service_cents = 30;
    assert!(verify(&s, &changed, now).is_err());
    let mut expired = saved();
    expired.expires_at = (999_999, 0);
    assert!(verify(&expired, &same_quote(&s.quote), now).is_err());
}

#[test]
fn quote_ids_and_expiry() {
    assert_eq!(
        canonical_id("67E55044-10B1-426F-9247-BB680E5FE0C8").unwrap(),
        "67e55044-10b1-426f-9247-bb680e5fe0c8"
    );
    assert_eq!(canonical_id("not-a-uuid"), Err(ConfirmError::InvalidId));
    let now = (1_000_000_000, 0);
    assert_eq!(save_expiry("2001-09-09T01:48:20Z", now), Ok((1_000_000_100, 0)));
    assert_eq!(save_expiry("2001-09-09T02:48:20Z", now), Ok((1_000_000_300, 0)));
    assert_eq!(save_expiry("2001-09-09T01:46:40Z", now), Err(ConfirmError::Stale));
    // Half a microsecond after now still holds.
    assert_eq!(save_expiry("2001-09-09T01:46:40.0000005Z", now), Ok((1_000_000_000, 500)));
    assert_eq!(save_expiry("2001-09-09T01:46:40.0000005Z", (1_000_000_000, 500)), Err(ConfirmError::Stale));
    assert_eq!(save_expiry("soon", now), Err(ConfirmError::InvalidExpiry));
}

#[test]
fn uuid_texts_in_every_accepted_form() {
    let canon = "67e55044-10b1-426f-9247-bb680e5fe0c8";
    assert_eq!(canonical_id("67E5504410B1426F9247BB680E5FE0C8").unwrap(), canon);
    assert_eq!(canonical_id("{67e55044-10b1-426f-9247-bb680e5fe0c8}").unwrap(), canon);
    assert_eq!(canonical_id("URN:uuid:67e55044-10b1-426f-9247-bb680e5fe0c8").unwrap(), canon);
    assert_eq!(canonical_id("67e55044_10b1-426f-9247-bb680e5fe0c8"), Err(ConfirmError::InvalidId));
    assert_eq!(canonical_id("67e55044-10b1-426f-9247-bb680e5fe0cg"), Err(ConfirmError::InvalidId));
    assert_eq!(canonical_id("(67e55044-10b1-426f-9247-bb680e5fe0c8)"), Err(ConfirmError::InvalidId));
    assert_eq!(canonical_id("urn:uuix:67e55044-10b1-426f-9247-bb680e5fe0c8"), Err(ConfirmError::InvalidId));
}
