use evcharge::billing::api_types::paths;
use evcharge::billing::engine::PricingRule;
use evcharge::billing::charge_fee::settle;
use evcharge::billing::metered_pricing::calculate;
use evcharge::contracts::{ChargeEndMeter, MeteredOrder, PriceQuote};
use evcharge::billing::quote_pricing::{
    daily_rates, estimate, format_kwh, minute, watt_hours, DevicePricing, Period, PricingError,
};
use evcharge::billing::split::{split_checked, split_pool, Party};
use evcharge::billing::stream_consumer::md5_hash;
use evcharge::user::api_types::paths as user_paths;

fn period(name: &str, start: &str, end: &str, electric: i64, service: Option<i64>) -> Period {
    Period {
        period: name.to_string(),
        start: start.to_string(),
        end: end.to_string(),
        electric_price_cents: electric,
        service_price_cents: service,
    }
}

fn pricing(names: (&str, &str), mode: &str, peak: (i64, i64), off: (i64, i64)) -> DevicePricing {
    DevicePricing {
        station_id: 1,
        station_name: "Station".to_string(),
        rule_id: 1,
        name: "Rule".to_string(),
        version: 1,
        mode: mode.to_string(),
        time_of_use: vec![
            period(names.0, "08:00", "20:00", peak.0, Some(peak.1)),
            period(names.1, "20:00", "08:00", off.0, Some(off.1)),
        ],
        service_fee_cents_per_kwh: 30,
        service_fee_cents_per_min: 2,
        min_charge_cents: 0,
    }
}

fn quote_rule() -> DevicePricing {
    pricing(("peak", "off"), "kwh", (100, 40), (50, 20))
}

fn metered_rule() -> DevicePricing {
    pricing(("day", "night"), "kwh", (100, 40), (50, 20))
}

const T_11: (i64, u32) = (1_790_420_400, 0);
const T_12: (i64, u32) = (1_790_424_000, 0);
const T_15: (i64, u32) = (1_790_434_800, 0);
const T_17: (i64, u32) = (1_790_442_000, 0);
const DAY_START: (i64, u32) = (1_790_380_800, 0);
const NEXT_DAY: (i64, u32) = (1_790_467_200, 0);
const T_01: (i64, u32) = (1_790_384_400, 0);

#[test]
fn api_types_paths_match_legacy() {
    assert_eq!(paths::QUOTE, "/api/v1/internal/quote");
    assert_eq!(paths::CALCULATE, "/api/v1/internal/calculate");
    assert_eq!(user_paths::AUTH_LOGIN, "/api/v1/public/auth/login");
    assert_eq!(user_paths::USER_SCAN_START, "/api/v1/user/scan/start");
    assert_eq!(user_paths::USER_CHARGE_DETAIL, "/api/v1/user/charge/:order_id");
    assert_eq!(
        user_paths::INTERNAL_START_RESULT,
        "/api/v1/internal/charge-orders/:order_id/start-result"
    );
}

#[test]
fn paths_match_legacy_spec() {
    assert_eq!(paths::QUOTE, "/api/v1/internal/quote");
    assert_eq!(paths::CALCULATE, "/api/v1/internal/calculate");
    assert_eq!(paths::FEE_BREAKDOWN, "/api/v1/internal/orders/:order_id/fee-breakdown");
    assert_eq!(paths::SPLIT, "/api/v1/internal/split");
    assert_eq!(paths::ORDER_SPLIT, "/api/v1/internal/orders/:order_id/split");
    assert_eq!(paths::SETTLEMENT_DETAIL, "/api/v1/internal/settlements/:settlement_id");
    assert_eq!(
        paths::INVOICE_SETTLE_DETAIL,
        "/api/v1/internal/invoices/:invoice_id/settle-detail"
    );
    assert_eq!(paths::REFUND_CALC, "/api/v1/internal/refunds/:refund_id/calc");
    assert_eq!(paths::WITHDRAW_REQUESTS, "/api/v1/internal/withdraw-requests");
}

#[test]
fn rate_for_fallback() {
    let r = PricingRule::default_default();
    assert_eq!(r.rate_for("peak"), 80);
    assert_eq!(r.rate_for("off"), 40);
    assert_eq!(r.rate_for("unknown"), 40);
}

#[test]
fn default_rule_fields() {
    let r = PricingRule::default_default();
    assert_eq!(r.mode, "kwh");
    assert_eq!(r.service_fee_cents_per_kwh, 30);
    assert_eq!(r.service_fee_cents_per_min, 0);
    assert_eq!(r.min_charge_cents, 100);
}

#[test]
fn split_10000_to_two_50_50() {
    let parties = vec![
        Party { id: 1, party_code: "a".into(), ratio_bp: 5000 },
        Party { id: 2, party_code: "b".into(), ratio_bp: 5000 },
    ];
    let r = split_pool(10000, &parties);
    assert_eq!(r[0].1, 5000);
    assert_eq!(r[1].1, 5000);
}

#[test]
fn split_remainder_to_last() {
    let parties = vec![
        Party { id: 1, party_code: "a".into(), ratio_bp: 3333 },
        Party { id: 2, party_code: "b".into(), ratio_bp: 3333 },
        Party { id: 3, party_code: "c".into(), ratio_bp: 3334 },
    ];
    let r = split_pool(10000, &parties);
    assert_eq!(r[0].1, 3333);
    assert_eq!(r[1].1, 3333);
    assert_eq!(r[2].1, 3334);
    assert_eq!(r.iter().map(|x| x.1).sum::<i64>(), 10000);
}

#[test]
fn split_conserves_an_uneven_pool() {
    let parties = vec![
        Party { id: 1, party_code: "platform".into(), ratio_bp: 5000 },
        Party { id: 2, party_code: "operator".into(), ratio_bp: 3000 },
        Party { id: 3, party_code: "site".into(), ratio_bp: 2000 },
    ];
    let r = split_pool(188, &parties);
    assert_eq!(r[0].1, 94);
    assert_eq!(r[1].1, 56);
    assert_eq!(r[2].1, 38);
    assert_eq!(r.iter().map(|x| x.1).sum::<i64>(), 188);
    assert_eq!(r[2].0.party_code, "site");
}

#[test]
fn crossing_periods_and_midnight() {
    let r = estimate(&quote_rule(), "1", 120, 19 * 60).unwrap();
    assert_eq!((r.electric_cents, r.service_cents, r.total_cents), (75, 30, 105));
    let r = estimate(&quote_rule(), "0.500", 120, 23 * 60).unwrap();
    assert_eq!((r.electric_cents, r.service_cents), (25, 10));
}

#[test]
fn minimum_and_modes() {
    let mut p = quote_rule();
    p.min_charge_cents = 100;
    let r = estimate(&p, "0.100", 60, 10 * 60).unwrap();
    assert_eq!((r.electric_cents, r.service_cents, r.total_cents), (10, 90, 100));
    p.min_charge_cents = 0;
    p.mode = "mixed".into();
    assert_eq!(estimate(&p, "1", 60, 600).unwrap().total_cents, 260);
    p.mode = "minute".into();
    assert_eq!(estimate(&p, "1", 60, 600).unwrap().total_cents, 220);
}

#[test]
fn invalid_inputs_and_configuration() {
    for input in ["0", "-1", "NaN", "1e2", "0.0001", "100.001", "1.", ".5"] {
        assert!(estimate(&quote_rule(), input, 60, 0).is_err());
    }
    assert!(estimate(&quote_rule(), "1", 0, 0).is_err());
    let mut p = quote_rule();
    p.time_of_use = vec![period("day", "08:00", "20:00", 100, None)];
    assert!(estimate(&p, "1", 60, 0).is_err());
    let duplicate = period("day", "08:00", "20:00", 100, None);
    p.time_of_use.push(duplicate);
    assert!(estimate(&p, "1", 60, 600).is_err());
}

#[test]
fn estimate_errors_name_their_cause() {
    let mut p = quote_rule();
    p.time_of_use = vec![period("day", "08:00", "20:00", 100, None)];
    assert_eq!(estimate(&p, "1", 60, 0), Err(PricingError::EstimateWithoutRate));
    p.time_of_use.push(period("day", "08:00", "20:00", 100, None));
    assert_eq!(estimate(&p, "1", 60, 600), Err(PricingError::OverlappingPeriods));
    assert_eq!(estimate(&quote_rule(), "abc", 60, 0), Err(PricingError::InvalidInput));
}

#[test]
fn watt_hours_reads_three_decimals() {
    assert_eq!(watt_hours("1"), Ok(1000));
    assert_eq!(watt_hours("0.125"), Ok(125));
    assert_eq!(watt_hours("12.5"), Ok(12500));
    assert_eq!(watt_hours("100"), Ok(100000));
    assert!(watt_hours("100.001").is_err());
    assert!(watt_hours("0.000").is_err());
}

#[test]
fn kwh_text_round_trips() {
    for wh in [1u64, 125, 1000, 12500, 99999, 100000] {
        let text = format_kwh(wh);
        assert_eq!(watt_hours(&text), Ok(wh as i64));
    }
    assert_eq!(format_kwh(125), "0.125");
    assert_eq!(format_kwh(1000), "1.000");
}

#[test]
fn clock_minutes() {
    assert_eq!(minute("08:00", false), Ok(480));
    assert_eq!(minute("24:00", true), Ok(1440));
    assert!(minute("24:00", false).is_err());
    assert!(minute("8:00", false).is_err());
}

#[test]
fn wrapped_period_covers_midnight() {
    let rates = daily_rates(&quote_rule()).unwrap();
    assert_eq!(rates.len(), 1440);
    assert_eq!(rates[0], Some((50, 20)));
    assert_eq!(rates[480], Some((100, 40)));
    assert_eq!(rates[1439], Some((50, 20)));
}

#[test]
fn exact_boundary_and_midnight() {
    let r = calculate(&metered_rule(), T_11, T_12, 125, 3600).unwrap();
    assert_eq!((r.electric_cents, r.service_cents, r.total_cents), (13, 5, 18));
    assert_eq!(calculate(&metered_rule(), T_15, T_17, 1000, 7200).unwrap().total_cents, 70);
}

#[test]
fn cross_tariff_is_not_estimated() {
    assert!(calculate(&metered_rule(), T_11, (T_12.0, 1_000_000), 1000, 3600).is_err());
    assert!(calculate(&metered_rule(), DAY_START, NEXT_DAY, 1000, 86400).is_err());
}

#[test]
fn seconds_rounding_minimum_and_zero_energy() {
    let mut p = metered_rule();
    p.mode = "mixed".into();
    let start = T_01;
    let end = (start.0 + 15, 0);
    assert_eq!(calculate(&p, start, end, 10, 15).unwrap().total_cents, 2);
    p.min_charge_cents = 100;
    assert_eq!(calculate(&p, start, end, 10, 15).unwrap().total_cents, 100);
    p.min_charge_cents = 0;
    p.mode = "kwh".into();
    assert_eq!(calculate(&p, start, (start.0 + 86_400, 0), 0, 86400).unwrap().total_cents, 0);
    assert!(calculate(&p, start, end, 1, 0).is_err());
    assert!(calculate(&p, start, end, 1, 316).is_err());
}

#[test]
fn metered_errors_name_their_cause() {
    assert_eq!(
        calculate(&metered_rule(), T_11, (T_12.0, 1_000_000), 1000, 3600),
        Err(PricingError::CrossTariff)
    );
    assert_eq!(calculate(&metered_rule(), T_12, T_11, 10, 10), Err(PricingError::InvalidMeter));
}

#[test]
fn md5_hash_is_a_placeholder() {
    assert_eq!(md5_hash(b"anything"), 0);
    assert_eq!(md5_hash(&[]), 0);
}

#[test]
fn refunds_return_what_was_paid() {
    let r = evcharge::billing::api::refund_calc(&evcharge::billing::api_types::RefundCalcRequest {
        payment_order_id: 7,
        actual_paid_cents: 1234,
    });
    assert_eq!(r.refund_cents, 1234);
    assert_eq!(r.note, "原路返回");
}

#[test]
fn splits_that_overflow_are_refused() {
    let parties = vec![
        Party { id: 1, party_code: "a".into(), ratio_bp: 5000 },
        Party { id: 2, party_code: "b".into(), ratio_bp: 5000 },
    ];
    let r = split_checked(10000, &parties).unwrap();
    assert_eq!(r.iter().map(|x| x.1).collect::<Vec<_>>(), vec![5000, 5000]);
    let big = vec![
        Party { id: 1, party_code: "a".into(), ratio_bp: 20000 },
        Party { id: 2, party_code: "b".into(), ratio_bp: 0 },
    ];
    assert!(split_checked(i64::MAX, &big).is_none());
    assert!(split_checked(i64::MAX, &parties).is_some());
    assert_eq!(split_checked(7, &[]).map(|v| v.len()), Some(0));
}

#[test]
fn elapsed_time_counts_nanoseconds() {
    let p = metered_rule();
    // 0.9991 s elapsed is 0 whole seconds, so 301 charged seconds is too many.
    assert_eq!(
        calculate(&p, (T_01.0, 900_000), (T_01.0 + 1, 0), 10, 301),
        Err(PricingError::InvalidMeter)
    );
    assert!(calculate(&p, (T_01.0, 0), (T_01.0 + 1, 0), 10, 301).is_ok());
}

fn metered_order(start: (i64, u32), end: (i64, u32), seconds: u32) -> MeteredOrder {
    MeteredOrder {
        charge_order_id: 4,
        order_no: "O1".into(),
        user_id: 123,
        started_at: start,
        meter: ChargeEndMeter { charged_wh: 10, charged_seconds: seconds, ended_secs: end.0, ended_nanos: end.1 },
        quote: PriceQuote {
            amount: evcharge::billing::api_types::QuoteResponse { total_cents: 1, electric_cents: 1, service_cents: 0 },
            pricing: metered_rule(),
            estimated_kwh: "0.010".into(),
            estimated_minutes: 1,
            quote_expires_at: "2026-09-26T11:05:00Z".into(),
            estimation_basis: "test".into(),
        },
    }
}

#[test]
fn a_stop_within_a_minute_is_free_to_the_nanosecond() {
    let start = (T_01.0, 900_000);
    // 60.0002 s: 60000 whole milliseconds, so free.
    let free = metered_order(start, (T_01.0 + 60, 1_100_000), 60);
    assert_eq!(settle(4, "O1", &free).unwrap().total_cents, 0);
    // 60.001 s: charged.
    let paid = metered_order(start, (T_01.0 + 60, 1_900_000), 60);
    assert!(settle(4, "O1", &paid).unwrap().total_cents > 0);
}
