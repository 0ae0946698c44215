//! The final fee of a charge, from the metered energy and time. Measured
//! energy is never spread over several tariff periods: a charge that
//! crosses a price boundary with energy is held for review.
use vstd::prelude::*;
use crate::billing::api_types::QuoteResponse;
use crate::billing::quote_pricing::{
    daily_rates, day_table, round_div, table_valid, valid_rate, DevicePricing, PricingError, Rate,
};
use crate::billing::split::div_trunc;
use crate::text::{
    duration_between, duration_nanos, instant_before, instant_lt, instant_millis, str_eq, Instant,
};

verus! {

/// Minutes of UTC+8 local time: the tariff table is indexed by local minute.
pub open spec fn local_index(minute: int) -> int {
    (minute + 480) % 1440
}

/// Whole seconds from `start` to `end`, truncated toward zero, as chrono's
/// `num_seconds` gives them.
pub open spec fn elapsed_seconds(start: Instant, end: Instant) -> int {
    div_trunc(duration_nanos(end, start), 1_000_000_000)
}

/// The meter reading is plausible: no more than a week, no more charging
/// time than the elapsed time plus five minutes of clock skew, at most
/// 100 MWh, and no energy without charging time.
pub open spec fn meter_valid(start: Instant, end: Instant, wh: int, seconds: int) -> bool {
    let elapsed = elapsed_seconds(start, end);
    !(elapsed < 0 || elapsed > 604800 || seconds > 604800 || seconds > elapsed + 300 || wh
        > 100_000_000 || (seconds == 0 && wh != 0))
}

/// The first minute (since the epoch) of the charge: that of the start's
/// whole seconds.
pub open spec fn first_minute(start: Instant) -> int {
    start.0 / 60
}

/// The last minute of the charge: that of the millisecond before the end's
/// `timestamp_millis`, so the end instant itself is excluded. Where the end
/// is no later than the start, the first minute.
pub open spec fn last_minute(start: Instant, end: Instant) -> int {
    if instant_lt(start, end) {
        (instant_millis((end.0 as int, end.1 as int)) - 1) / 60000
    } else {
        first_minute(start)
    }
}

/// The price that applies in a minute; `minute` mode has no energy service
/// fee.
pub open spec fn minute_rate(t: Seq<Option<Rate>>, per_minute_mode: bool, minute: int) -> Option<
    Rate,
> {
    match t[local_index(minute)] {
        None => None,
        Some(r) => Some((r.0, if per_minute_mode { 0 } else { r.1 })),
    }
}

/// The single price of the `n` minutes from `first`, or the first reason
/// there is none: a minute without a price, or (with energy) a change of
/// price.
pub open spec fn scan_rates(
    t: Seq<Option<Rate>>,
    per_minute_mode: bool,
    energy: bool,
    first: int,
    n: int,
) -> Result<Option<Rate>, PricingError>
    decreases n,
{
    if n <= 0 {
        Ok(None)
    } else {
        match scan_rates(t, per_minute_mode, energy, first, n - 1) {
            Err(e) => Err(e),
            Ok(sel) => match minute_rate(t, per_minute_mode, first + n - 1) {
                None => Err(PricingError::ActualWithoutRate),
                Some(r) => if energy && sel is Some && sel.unwrap() != r {
                    Err(PricingError::CrossTariff)
                } else {
                    Ok(Some(r))
                },
            },
        }
    }
}

/// The fee for `wh` watt-hours and `seconds` of charging at price `rate`:
/// the service part combines energy and time before one rounding, and the
/// minimum charge tops the service part up.
pub open spec fn metered_amounts(rule: DevicePricing, wh: int, seconds: int, rate: Rate) -> Result<
    QuoteResponse,
    PricingError,
> {
    let electric = round_div(wh * rate.0, 1000);
    let numerator = wh * rate.1 * 60 + if rule.mode@ == "kwh"@ {
        0
    } else {
        seconds * rule.service_fee_cents_per_min * 1000
    };
    let rounded = round_div(numerator, 60000);
    let service = if rounded >= rule.min_charge_cents - electric {
        rounded
    } else {
        rule.min_charge_cents - electric
    };
    let total = electric + service;
    if total < 0 || total > i32::MAX {
        Err(PricingError::InvalidMeter)
    } else {
        Ok(
            QuoteResponse {
                total_cents: total as i64,
                electric_cents: electric as i64,
                service_cents: service as i64,
            },
        )
    }
}

/// The final fee of a charge from `start` to `end` that metered `wh`
/// watt-hours over `seconds` seconds.
pub open spec fn metered_fee(
    rule: DevicePricing,
    start: Instant,
    end: Instant,
    wh: int,
    seconds: int,
) -> Result<QuoteResponse, PricingError> {
    if !meter_valid(start, end, wh, seconds) {
        Err(PricingError::InvalidMeter)
    } else {
        match day_table(rule) {
            Err(e) => Err(e),
            Ok(t) => {
                let first = first_minute(start);
                match scan_rates(
                    t,
                    rule.mode@ == "minute"@,
                    wh > 0,
                    first,
                    last_minute(start, end) - first + 1,
                ) {
                    Err(e) => Err(e),
                    Ok(None) => Err(PricingError::InvalidMeter),
                    Ok(Some(r)) => metered_amounts(rule, wh, seconds, r),
                }
            },
        }
    }
}

proof fn lemma_scan_error_persists(
    t: Seq<Option<Rate>>,
    mm: bool,
    energy: bool,
    first: int,
    n: int,
    m: int,
)
    requires
        0 <= n <= m,
        scan_rates(t, mm, energy, first, n) is Err,
    ensures
        scan_rates(t, mm, energy, first, m) == scan_rates(t, mm, energy, first, n),
    decreases m - n,
{
    if m > n {
        lemma_scan_error_persists(t, mm, energy, first, n, m - 1);
    }
}

fn floor_div(a: i128, b: i128) -> (r: i128)
    requires
        0 < b <= 1_000_000,
        -0x8000_0000_0000_0000_0000 <= a <= 0x7fff_ffff_ffff_ffff_ffff,
    ensures
        r == a / b,
{
    if a >= 0 {
        let q = (a as u128) / (b as u128);
        q as i128
    } else {
        let m = (-a) as u128;
        let bb = b as u128;
        let top = m + bb - 1;
        let q = top / bb;
        let r = -(q as i128);
        assert(r == a / b) by (nonlinear_arith)
            requires
                a < 0,
                b > 0,
                m == -a,
                bb == b,
                top == m + b - 1,
                q == top / bb,
                r == -q,
        ;
        r
    }
}

pub(crate) fn trunc_div(a: i128, b: i128) -> (r: i128)
    requires
        0 < b <= 1_000_000_000,
        -0x10_0000_0000_0000_0000_0000_0000 <= a <= 0x10_0000_0000_0000_0000_0000_0000,
    ensures
        r == div_trunc(a as int, b as int),
{
    if a >= 0 {
        ((a as u128) / (b as u128)) as i128
    } else {
        let m = (-a) as u128;
        -(((m / (b as u128))) as i128)
    }
}

fn euclid_mod_1440(a: i128) -> (r: usize)
    requires
        -0x8000_0000_0000_0000_0000 <= a <= 0x7fff_ffff_ffff_ffff_ffff,
    ensures
        r == a % 1440,
        r < 1440,
{
    if a >= 0 {
        ((a as u128) % 1440) as usize
    } else {
        let m = (-a) as u128;
        let k = m % 1440;
        let r: usize = if k == 0 {
            0
        } else {
            (1440 - k) as usize
        };
        assert(r == a % 1440) by (nonlinear_arith)
            requires
                a < 0,
                m == -a,
                k == m % 1440,
                r == (if k == 0 {
                    0
                } else {
                    1440 - k
                }),
        ;
        r
    }
}

pub(crate) proof fn lemma_duration_range(later: Instant, earlier: Instant)
    ensures
        (later.0 - earlier.0 - 1) * 1_000_000_000 - earlier.1 <= duration_nanos(later, earlier)
            <= (later.0 - earlier.0 + 1) * 1_000_000_000 + later.1,
        -0x10_0000_0000_0000_0000_0000_0000 <= duration_nanos(later, earlier)
            <= 0x10_0000_0000_0000_0000_0000_0000,
{
    let x = later.0 - earlier.0;
    let dd = duration_nanos(later, earlier);
    assert((x - 1) * 1_000_000_000 - earlier.1 <= dd <= (x + 1) * 1_000_000_000 + later.1);
    assert(-0x10_0000_0000_0000_0000_0000_0000 <= dd <= 0x10_0000_0000_0000_0000_0000_0000)
        by (nonlinear_arith)
        requires
            (x - 1) * 1_000_000_000 - earlier.1 <= dd <= (x + 1) * 1_000_000_000 + later.1,
            -0x1_0000_0000_0000_0000 <= x <= 0x1_0000_0000_0000_0000,
            0 <= later.1 <= 0xffff_ffff,
            0 <= earlier.1 <= 0xffff_ffff,
    ;
}

/// Within a week of charging, the minutes of a charge are at most a week
/// and a few minutes apart; an end within the start's last millisecond
/// leaves no minute at all.
proof fn lemma_minute_span(started: Instant, ended: Instant)
    requires
        0 <= elapsed_seconds(started, ended) <= 604800,
    ensures
        first_minute(started) - 1 <= last_minute(started, ended) <= first_minute(started) + 10090,
{
    lemma_duration_range(ended, started);
    let dd = duration_nanos(ended, started);
    assert(dd < 604801 * 1_000_000_000) by {
        if dd >= 604801 * 1_000_000_000 {
            assert(dd / 1_000_000_000 >= 604801) by (nonlinear_arith)
                requires
                    dd >= 604801 * 1_000_000_000,
            ;
        }
    }
    let x = ended.0 - started.0;
    assert(x <= 604806) by (nonlinear_arith)
        requires
            (x - 1) * 1_000_000_000 - started.1 <= dd,
            dd < 604801 * 1_000_000_000,
            0 <= started.1 <= 0xffff_ffff,
    ;
    let f = first_minute(started);
    assert(f * 60 <= started.0 < f * 60 + 60) by (nonlinear_arith)
        requires
            f == started.0 / 60,
    ;
    if instant_lt(started, ended) {
        let sub = ended.1 / 1_000_000;
        assert(0 <= sub <= 4294) by (nonlinear_arith)
            requires
                sub == ended.1 / 1_000_000,
                0 <= ended.1 <= 0xffff_ffff,
        ;
        let m = ended.0 * 1000 + sub - 1;
        let l = m / 60000;
        assert(l == last_minute(started, ended));
        assert(l * 60000 <= m < l * 60000 + 60000) by (nonlinear_arith)
            requires
                l == m / 60000,
        ;
        assert(ended.0 >= started.0);
        assert(l <= f + 10090) by (nonlinear_arith)
            requires
                l * 60000 <= m,
                m == ended.0 * 1000 + sub - 1,
                sub <= 4294,
                f * 60 + 60 > started.0,
                ended.0 - started.0 <= 604806,
        ;
        assert(l >= f - 1) by (nonlinear_arith)
            requires
                m < l * 60000 + 60000,
                m == ended.0 * 1000 + sub - 1,
                sub >= 0,
                f * 60 <= started.0,
                ended.0 >= started.0,
        ;
    }
}

/// Final fee from the measured energy `wh` and charging time `seconds` of a
/// charge from `started` to `ended`.
pub fn calculate(rule: &DevicePricing, started: Instant, ended: Instant, wh: u64, seconds: u32) -> (r:
    Result<QuoteResponse, PricingError>)
    ensures
        r == metered_fee(*rule, started, ended, wh as int, seconds as int),
{
    let d = duration_between(ended, started);
    proof {
        lemma_duration_range(ended, started);
    }
    let elapsed = trunc_div(d, 1_000_000_000);
    if elapsed < 0 || elapsed > 604800 || seconds > 604800 || (seconds as i128) > elapsed + 300
        || wh > 100_000_000 || (seconds == 0 && wh != 0) {
        return Err(PricingError::InvalidMeter);
    }
    let rates = match daily_rates(rule) {
        Ok(v) => v,
        Err(err) => {
            return Err(err);
        },
    };
    let ghost t = rates@;
    let per_minute = str_eq(rule.mode.as_str(), "minute");
    let s0 = started.0 as i128;
    let e0 = ended.0 as i128;
    let e_ms = e0 * 1000 + (ended.1 / 1_000_000) as i128;
    let first = floor_div(s0, 60);
    let later = instant_before(started, ended);
    let last = if later {
        floor_div(e_ms - 1, 60000)
    } else {
        first
    };
    proof {
        lemma_minute_span(started, ended);
        assert(first == first_minute(started));
        assert(last == last_minute(started, ended));
    }
    let n = (last - first + 1) as usize;
    let ghost want = match scan_rates(t, per_minute, wh > 0, first as int, n as int) {
        Err(err) => Err(err),
        Ok(None) => Err(PricingError::InvalidMeter),
        Ok(Some(r)) => metered_amounts(*rule, wh as int, seconds as int, r),
    };
    assert(metered_fee(*rule, started, ended, wh as int, seconds as int) == want);
    let selected = match scan_exec(&rates, first, n, per_minute, wh > 0) {
        Ok(v) => v,
        Err(err) => {
            return Err(err);
        },
    };
    let rate = match selected {
        Some(r) => r,
        None => {
            return Err(PricingError::InvalidMeter);
        },
    };
    amounts(rule, wh, seconds, rate)
}

fn scan_exec(rates: &Vec<Option<Rate>>, first: i128, n: usize, per_minute: bool, energy: bool) -> (r:
    Result<Option<Rate>, PricingError>)
    requires
        table_valid(rates@),
        n <= 10091,
        -0x8000_0000_0000_0000_0000 <= first <= 0x7fff_ffff_ffff_ffff,
    ensures
        r == scan_rates(rates@, per_minute, energy, first as int, n as int),
        r matches Ok(Some(rate)) ==> valid_rate(rate.0) && valid_rate(rate.1),
{
    let ghost t = rates@;
    let mut idx = euclid_mod_1440(first + 480);
    let mut selected: Option<Rate> = None;
    let mut k: usize = 0;
    while k < n
        invariant
            k <= n,
            n <= 10091,
            -0x8000_0000_0000_0000_0000 <= first <= 0x7fff_ffff_ffff_ffff,
            idx < 1440,
            idx == local_index(first + k),
            t == rates@,
            table_valid(t),
            scan_rates(t, per_minute, energy, first as int, k as int) == Ok::<
                Option<Rate>,
                PricingError,
            >(selected),
            selected matches Some(r) ==> valid_rate(r.0) && valid_rate(r.1),
        decreases n - k,
    {
        let found = rates[idx];
        match found {
            None => {
                proof {
                    lemma_scan_error_persists(t, per_minute, energy, first as int, k + 1, n as int);
                }
                return Err(PricingError::ActualWithoutRate);
            },
            Some(raw) => {
                let rate: Rate = (raw.0, if per_minute {
                    0
                } else {
                    raw.1
                });
                if energy && selected.is_some() {
                    let prior = selected.unwrap();
                    if prior.0 != rate.0 || prior.1 != rate.1 {
                        proof {
                            lemma_scan_error_persists(
                                t,
                                per_minute,
                                energy,
                                first as int,
                                k + 1,
                                n as int,
                            );
                        }
                        return Err(PricingError::CrossTariff);
                    }
                }
                selected = Some(rate);
            },
        }
        idx = if idx == 1439 {
            0
        } else {
            idx + 1
        };
        k = k + 1;
    }
    Ok(selected)
}

fn amounts(rule: &DevicePricing, wh: u64, seconds: u32, rate: Rate) -> (r: Result<
    QuoteResponse,
    PricingError,
>)
    requires
        wh <= 100_000_000,
        seconds <= 604800,
        valid_rate(rate.0),
        valid_rate(rate.1),
        valid_rate(rule.service_fee_cents_per_min),
        valid_rate(rule.min_charge_cents),
    ensures
        r == metered_amounts(*rule, wh as int, seconds as int, rate),
{
    let w = wh as i64;
    assert(0 <= w * rate.0 <= 100_000_000 * 1_000_000) by (nonlinear_arith)
        requires
            0 <= w <= 100_000_000,
            0 <= rate.0 <= 1_000_000,
    ;
    assert(0 <= w * rate.1 <= 100_000_000 * 1_000_000) by (nonlinear_arith)
        requires
            0 <= w <= 100_000_000,
            0 <= rate.1 <= 1_000_000,
    ;
    let sec = seconds as i64;
    assert(0 <= sec * rule.service_fee_cents_per_min <= 604800 * 1_000_000) by (nonlinear_arith)
        requires
            0 <= sec <= 604800,
            0 <= rule.service_fee_cents_per_min <= 1_000_000,
    ;
    let num_e = w * rate.0 + 500;
    let electric = num_e / 1000;
    let time_part = if str_eq(rule.mode.as_str(), "kwh") {
        0
    } else {
        sec * rule.service_fee_cents_per_min * 1000
    };
    let numerator = w * rate.1 * 60 + time_part;
    let rounded = (numerator + 30000) / 60000;
    let service = if rounded >= rule.min_charge_cents - electric {
        rounded
    } else {
        rule.min_charge_cents - electric
    };
    let total = electric + service;
    if total < 0 || total > 0x7fff_ffff {
        return Err(PricingError::InvalidMeter);
    }
    Ok(QuoteResponse { total_cents: total, electric_cents: electric, service_cents: service })
}


/// The larger of two amounts.
pub open spec fn larger(a: int, b: int) -> int {
    if a >= b {
        a
    } else {
        b
    }
}

/// How a final fee is made up from its price: the energy part is the
/// energy times the electric price, in rounded cents; the service part
/// rounds once the energy times the service price together with, in every
/// mode but `kwh`, the charging seconds times the per-minute fee, and the
/// minimum charge tops it up; the total is their sum.
pub proof fn lemma_fee_components(rule: DevicePricing, wh: int, seconds: int, rate: Rate)
    requires
        0 <= wh <= 100_000_000,
        0 <= seconds <= 604800,
        valid_rate(rate.0),
        valid_rate(rate.1),
        valid_rate(rule.service_fee_cents_per_min),
        valid_rate(rule.min_charge_cents),
    ensures
        metered_amounts(rule, wh, seconds, rate) matches Ok(q) ==> {
            let electric = (wh * rate.0 + 500) / 1000;
            &&& q.electric_cents == electric
            &&& rule.mode@ != "kwh"@ ==> q.service_cents == larger(
                (wh * rate.1 * 60 + seconds * rule.service_fee_cents_per_min * 1000 + 30000) / 60000,
                rule.min_charge_cents - electric,
            )
            &&& rule.mode@ == "kwh"@ ==> q.service_cents == larger(
                (wh * rate.1 * 60 + 30000) / 60000,
                rule.min_charge_cents - electric,
            )
            &&& q.total_cents == q.electric_cents + q.service_cents
        },
{
    assert(0 <= wh * rate.0 <= 100_000_000 * 1_000_000) by (nonlinear_arith)
        requires
            0 <= wh <= 100_000_000,
            0 <= rate.0 <= 1_000_000,
    ;
    assert(0 <= wh * rate.1 <= 100_000_000 * 1_000_000) by (nonlinear_arith)
        requires
            0 <= wh <= 100_000_000,
            0 <= rate.1 <= 1_000_000,
    ;
    assert(0 <= seconds * rule.service_fee_cents_per_min <= 604800 * 1_000_000) by (nonlinear_arith)
        requires
            0 <= seconds <= 604800,
            0 <= rule.service_fee_cents_per_min <= 1_000_000,
    ;
}

/// Under a per-minute price the price that applies has no energy service
/// fee, whichever minutes a charge covers.
proof fn lemma_minute_mode_rate(t: Seq<Option<Rate>>, energy: bool, first: int, n: int)
    requires
        table_valid(t),
    ensures
        scan_rates(t, true, energy, first, n) matches Ok(Some(r)) ==> r.1 == 0 && valid_rate(r.0),
    decreases n,
{
    if n > 0 {
        lemma_minute_mode_rate(t, energy, first, n - 1);
        let i = local_index(first + n - 1);
        assert(0 <= i < 1440);
        if t[i] is Some {
        }
    }
}

/// In `minute` mode a finished charge pays for its time alone: the service
/// part is the charging seconds times the per-minute fee, in rounded cents,
/// topped up to the minimum charge, whatever energy it took.
pub proof fn lemma_minute_mode_fee(
    rule: DevicePricing,
    start: Instant,
    end: Instant,
    wh: int,
    seconds: int,
)
    requires
        rule.mode@ == "minute"@,
        0 <= wh,
        0 <= seconds,
    ensures
        metered_fee(rule, start, end, wh, seconds) matches Ok(q) ==> q.service_cents == larger(
            (seconds * rule.service_fee_cents_per_min * 1000 + 30000) / 60000,
            rule.min_charge_cents - q.electric_cents,
        ),
{
    reveal_strlit("minute");
    reveal_strlit("kwh");
    assert("minute"@.len() != "kwh"@.len());
    if metered_fee(rule, start, end, wh, seconds) is Ok {
        let t = day_table(rule)->Ok_0;
        crate::billing::quote_pricing::lemma_fill_valid(
            rule.time_of_use@,
            rule.service_fee_cents_per_kwh,
            rule.time_of_use@.len() as int,
        );
        let first = first_minute(start);
        let n = last_minute(start, end) - first + 1;
        lemma_minute_mode_rate(t, wh > 0, first, n);
        let r = scan_rates(t, true, wh > 0, first, n)->Ok_0->Some_0;
        assert(r.1 == 0);
        assert(wh * r.1 * 60 == 0) by (nonlinear_arith)
            requires
                r.1 == 0,
        ;
        lemma_fee_components(rule, wh, seconds, r);
    }
}

proof fn lemma_scan_uniform(t: Seq<Option<Rate>>, mm: bool, energy: bool, first: int, n: int)
    ensures
        scan_rates(t, mm, energy, first, n) matches Ok(sel) ==> (n > 0 ==> sel is Some) && forall|x: int|
            first <= x < first + n ==> (#[trigger] minute_rate(t, mm, x)) is Some && (energy
                ==> minute_rate(t, mm, x) == sel),
    decreases n,
{
    if n > 0 {
        lemma_scan_uniform(t, mm, energy, first, n - 1);
        if scan_rates(t, mm, energy, first, n) is Ok && scan_rates(t, mm, energy, first, n - 1) is Err {
            lemma_scan_error_persists(t, mm, energy, first, n - 1, n);
        }
    }
}

/// Every minute from `first` to `last` has a price, and, with energy, the
/// price of the first.
pub open spec fn billed_span_priced(t: Seq<Option<Rate>>, mm: bool, first: int, last: int, energy: bool) -> bool {
    forall|x: int|
        first <= x <= last ==> (#[trigger] minute_rate(t, mm, x)) is Some && (energy ==> minute_rate(
            t,
            mm,
            x,
        ) == minute_rate(t, mm, first))
}

/// Every minute of a charge that is billed has a price, and a charge that
/// took energy is billed only where all its minutes share one price: energy
/// is never spread over several prices.
pub proof fn lemma_billed_minutes_share_price(
    rule: DevicePricing,
    start: Instant,
    end: Instant,
    wh: int,
    seconds: int,
)
    ensures
        metered_fee(rule, start, end, wh, seconds) is Ok ==> (day_table(rule) matches Ok(t)
            && billed_span_priced(t, rule.mode@ == "minute"@, first_minute(start), last_minute(start, end), wh > 0)),
{
    if metered_fee(rule, start, end, wh, seconds) is Ok {
        let t = day_table(rule)->Ok_0;
        let first = first_minute(start);
        let n = last_minute(start, end) - first + 1;
        let mm = rule.mode@ == "minute"@;
        lemma_scan_uniform(t, mm, wh > 0, first, n);
        assert(n > 0);
        assert(minute_rate(t, mm, first) is Some);
    }
}

} // verus!
