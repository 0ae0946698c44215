//! Tariff tables and the pre-payment quote. Quote arithmetic uses integer
//! watt-hours and cents; the estimated energy is spread evenly over the
//! requested minutes.
use vstd::prelude::*;
use vstd::string::StrSliceExecFns;
use crate::billing::api_types::QuoteResponse;
use crate::text::{all_digits, digit_value, digits_value, is_blank, is_digit_char, str_eq, trims_to_empty};

verus! {

/// Why a tariff, a quote or a final fee was refused.
#[derive(Debug, Clone, Copy, PartialEq, Eq, Structural)]
pub enum PricingError {
    /// The tariff, the estimated energy or the duration is invalid.
    InvalidInput,
    /// Two tariff periods cover the same minute.
    OverlappingPeriods,
    /// A minute of the estimated charging window has no price.
    EstimateWithoutRate,
    /// The final meter reading or charging time is invalid.
    InvalidMeter,
    /// A minute of the actual charging window has no price (needs review).
    ActualWithoutRate,
    /// Charging crossed a tariff boundary with energy that cannot be split
    /// between the periods (needs review).
    CrossTariff,
}

/// One time-of-use period of a tariff, with `HH:MM` bounds; the end may be
/// `24:00` and may lie before the start, wrapping past midnight.
pub struct Period {
    pub period: String,
    pub start: String,
    pub end: String,
    pub electric_price_cents: i64,
    /// Service price per kWh; absent, the rule's own per-kWh fee applies.
    pub service_price_cents: Option<i64>,
}

/// The tariff that applies to a device.
pub struct DevicePricing {
    pub station_id: u64,
    pub station_name: String,
    pub rule_id: u64,
    pub name: String,
    pub version: u32,
    /// `kwh`, `minute` or `mixed`.
    pub mode: String,
    pub time_of_use: Vec<Period>,
    pub service_fee_cents_per_kwh: i64,
    pub service_fee_cents_per_min: i64,
    pub min_charge_cents: i64,
}

/// One minute of the day, priced as (electric, service) cents per kWh.
pub type Rate = (i64, i64);

pub open spec fn valid_rate(n: i64) -> bool {
    0 <= n <= 1_000_000
}

pub open spec fn known_mode(m: Seq<char>) -> bool {
    m == "kwh"@ || m == "minute"@ || m == "mixed"@
}

pub open spec fn pow10(k: int) -> int {
    if k <= 0 {
        1
    } else if k == 1 {
        10
    } else if k == 2 {
        100
    } else {
        1000
    }
}

/// Watt-hours written as `whole.frac` kWh.
pub open spec fn kwh_parts_value(whole: Seq<char>, frac: Seq<char>) -> int {
    digits_value(whole) * 1000 + digits_value(frac) * pow10(3 - frac.len())
}

pub open spec fn kwh_parts_checked(whole: Seq<char>, frac: Seq<char>) -> Option<int> {
    if 1 <= whole.len() <= 3 && frac.len() <= 3 && all_digits(whole) && all_digits(frac) && 1
        <= kwh_parts_value(whole, frac) <= 100_000 {
        Some(kwh_parts_value(whole, frac))
    } else {
        None
    }
}

pub open spec fn dot_at(s: Seq<char>, k: int) -> bool {
    0 <= k < s.len() && s[k] == '.'
}

/// The watt-hours that a kWh text like `1`, `0.5` or `12.125` denotes: one
/// to three digits, optionally a dot and one to three more, at most
/// 100 kWh and at least 1 Wh.
pub open spec fn wh_of_kwh_text(s: Seq<char>) -> Option<int> {
    if all_digits(s) {
        kwh_parts_checked(s, Seq::empty())
    } else if exists|k: int| dot_at(s, k) {
        let k = choose|k: int| dot_at(s, k);
        let frac = s.subrange(k + 1, s.len() as int);
        if frac.len() >= 1 {
            kwh_parts_checked(s.subrange(0, k), frac)
        } else {
            None
        }
    } else {
        None
    }
}

/// The minute of the day that `HH:MM` names; as an end, `24:00` names 1440.
pub open spec fn clock_minute(s: Seq<char>, end: bool) -> Option<int> {
    if end && s == "24:00"@ {
        Some(1440)
    } else if s.len() == 5 && s[2] == ':' && is_digit_char(s[0]) && is_digit_char(s[1])
        && is_digit_char(s[3]) && is_digit_char(s[4]) {
        let h = digit_value(s[0]) * 10 + digit_value(s[1]);
        let m = digit_value(s[3]) * 10 + digit_value(s[4]);
        if h > 23 || m > 59 {
            None
        } else {
            Some(h * 60 + m)
        }
    } else {
        None
    }
}

/// Whether a period from `start` to `end` (exclusive, wrapping at midnight)
/// covers minute `m`.
pub open spec fn covers(start: int, end: int, m: int) -> bool {
    if start < end {
        start <= m < end
    } else {
        m >= start || m < end
    }
}

pub open spec fn empty_table() -> Seq<Option<Rate>> {
    Seq::new(1440, |m: int| None)
}

pub open spec fn paint(t: Seq<Option<Rate>>, start: int, end: int, rate: Rate) -> Seq<
    Option<Rate>,
> {
    Seq::new(1440, |m: int| if covers(start, end, m) { Some(rate) } else { t[m] })
}

pub open spec fn clashes(t: Seq<Option<Rate>>, start: int, end: int) -> bool {
    exists|m: int| 0 <= m < 1440 && covers(start, end, m) && (#[trigger] t[m]) is Some
}

pub open spec fn period_fields_ok(p: Period) -> bool {
    &&& !is_blank(p.period@)
    &&& valid_rate(p.electric_price_cents)
    &&& (p.service_price_cents matches Some(v) ==> valid_rate(v))
}

pub open spec fn period_rate(p: Period, default_service: i64) -> Rate {
    (
        p.electric_price_cents,
        match p.service_price_cents {
            Some(v) => v,
            None => default_service,
        },
    )
}

/// Adds one period to a partial day table.
pub open spec fn add_period(t: Seq<Option<Rate>>, p: Period, default_service: i64) -> Result<
    Seq<Option<Rate>>,
    PricingError,
> {
    if !period_fields_ok(p) {
        Err(PricingError::InvalidInput)
    } else {
        match (clock_minute(p.start@, false), clock_minute(p.end@, true)) {
            (Some(s), Some(e)) => if s == e {
                Err(PricingError::InvalidInput)
            } else if clashes(t, s, e) {
                Err(PricingError::OverlappingPeriods)
            } else {
                Ok(paint(t, s, e, period_rate(p, default_service)))
            },
            _ => Err(PricingError::InvalidInput),
        }
    }
}

/// The day table after the first `n` periods, or the first refusal.
pub open spec fn fill(ps: Seq<Period>, default_service: i64, n: int) -> Result<
    Seq<Option<Rate>>,
    PricingError,
>
    decreases n,
{
    if n <= 0 {
        Ok(empty_table())
    } else {
        match fill(ps, default_service, n - 1) {
            Ok(t) => add_period(t, ps[n - 1], default_service),
            Err(e) => Err(e),
        }
    }
}

/// The per-minute price table of a tariff (minutes of the local day), or why
/// the tariff is refused.
pub open spec fn day_table(rule: DevicePricing) -> Result<Seq<Option<Rate>>, PricingError> {
    if !known_mode(rule.mode@) || !valid_rate(rule.service_fee_cents_per_kwh) || !valid_rate(
        rule.service_fee_cents_per_min,
    ) || !valid_rate(rule.min_charge_cents) || rule.time_of_use@.len() == 0
        || rule.time_of_use@.len() > 96 {
        Err(PricingError::InvalidInput)
    } else {
        fill(rule.time_of_use@, rule.service_fee_cents_per_kwh, rule.time_of_use@.len() as int)
    }
}

pub open spec fn table_valid(t: Seq<Option<Rate>>) -> bool {
    &&& t.len() == 1440
    &&& forall|m: int|
        0 <= m < 1440 ==> ((#[trigger] t[m]) matches Some(r) ==> valid_rate(r.0) && valid_rate(
            r.1,
        ))
}

/// Sums of the prices of the `n` minutes from `start` (wrapping), or `None`
/// when one of them has no price.
pub open spec fn rate_sums(t: Seq<Option<Rate>>, start: int, n: int) -> Option<(int, int)>
    decreases n,
{
    if n <= 0 {
        Some((0, 0))
    } else {
        match rate_sums(t, start, n - 1) {
            None => None,
            Some(acc) => match t[(start + n - 1) % 1440] {
                None => None,
                Some(r) => Some((acc.0 + r.0, acc.1 + r.1)),
            },
        }
    }
}

/// `n / d` rounded half up, for non-negative `n`.
pub open spec fn round_div(n: int, d: int) -> int {
    (n + d / 2) / d
}

/// The quote for `wh` watt-hours over `minutes` minutes whose per-minute
/// prices sum to `esum` and `ssum`.
pub open spec fn quote_amounts(rule: DevicePricing, wh: int, minutes: int, esum: int, ssum: int) -> Result<
    QuoteResponse,
    PricingError,
> {
    let d = minutes * 1000;
    let electric = round_div(wh * esum, d);
    let base = if rule.mode@ == "minute"@ {
        0
    } else {
        round_div(wh * ssum, d)
    };
    let with_time = if rule.mode@ != "kwh"@ {
        base + minutes * rule.service_fee_cents_per_min
    } else {
        base
    };
    let service = if with_time >= rule.min_charge_cents - electric {
        with_time
    } else {
        rule.min_charge_cents - electric
    };
    let total = electric + service;
    if total <= 0 || total > i32::MAX {
        Err(PricingError::InvalidInput)
    } else {
        Ok(
            QuoteResponse {
                total_cents: total as i64,
                electric_cents: electric as i64,
                service_cents: service as i64,
            },
        )
    }
}

/// The quote for an estimated `kwh` over `minutes` minutes starting at
/// minute `start_minute` of the local day.
pub open spec fn estimate_spec(
    rule: DevicePricing,
    kwh: Seq<char>,
    minutes: int,
    start_minute: int,
) -> Result<QuoteResponse, PricingError> {
    match wh_of_kwh_text(kwh) {
        None => Err(PricingError::InvalidInput),
        Some(wh) => if !(1 <= minutes <= 1440) || start_minute >= 1440 {
            Err(PricingError::InvalidInput)
        } else {
            match day_table(rule) {
                Err(e) => Err(e),
                Ok(t) => match rate_sums(t, start_minute, minutes) {
                    None => Err(PricingError::EstimateWithoutRate),
                    Some(sums) => quote_amounts(rule, wh, minutes, sums.0, sums.1),
                },
            }
        },
    }
}

proof fn lemma_digits_push(s: Seq<char>, a: int, i: int)
    requires
        0 <= a <= i < s.len(),
    ensures
        digits_value(s.subrange(a, i + 1)) == digits_value(s.subrange(a, i)) * 10 + digit_value(
            s[i],
        ),
{
    assert(s.subrange(a, i + 1).drop_last() =~= s.subrange(a, i));
}

proof fn lemma_digits_bound(s: Seq<char>)
    requires
        all_digits(s),
    ensures
        0 <= digits_value(s) < pow10(s.len() as int) || s.len() > 3,
    decreases s.len(),
{
    if s.len() > 0 {
        let t = s.drop_last();
        assert forall|i: int| 0 <= i < t.len() implies is_digit_char(#[trigger] t[i]) by {
            assert(t[i] == s[i]);
        }
        lemma_digits_bound(t);
        assert(is_digit_char(s[s.len() - 1]));
    }
}

/// Decimal value of `s[a..b]`, all digits, at most three of them.
fn small_digits(s: &str, a: usize, b: usize) -> (v: i64)
    requires
        a <= b <= s@.len(),
        b - a <= 3,
        all_digits(s@.subrange(a as int, b as int)),
    ensures
        v == digits_value(s@.subrange(a as int, b as int)),
        0 <= v < 1000,
{
    let mut v: i64 = 0;
    let mut i = a;
    assert(s@.subrange(a as int, a as int).len() == 0);
    while i < b
        invariant
            a <= i <= b <= s@.len(),
            b - a <= 3,
            all_digits(s@.subrange(a as int, b as int)),
            v == digits_value(s@.subrange(a as int, i as int)),
            0 <= v < pow10(i - a),
        decreases b - i,
    {
        let c = s.get_char(i);
        assert(s@.subrange(a as int, b as int)[i - a] == c);
        proof {
            lemma_digits_push(s@, a as int, i as int);
        }
        let d = (c as u32 - '0' as u32) as i64;
        v = v * 10 + d;
        i = i + 1;
    }
    v
}

/// Watt-hours from an estimated-energy text in kWh, such as `0.500`.
pub fn watt_hours(kwh: &str) -> (r: Result<i64, PricingError>)
    ensures
        r == match wh_of_kwh_text(kwh@) {
            Some(v) => Ok::<i64, PricingError>(v as i64),
            None => Err(PricingError::InvalidInput),
        },
{
    let n = kwh.unicode_len();
    let mut dot: Option<usize> = None;
    let mut i: usize = 0;
    while i < n
        invariant
            n == kwh@.len(),
            i <= n,
            match dot {
                None => forall|j: int| 0 <= j < i ==> is_digit_char(#[trigger] kwh@[j]),
                Some(k) => k < i && kwh@[k as int] == '.' && forall|j: int|
                    0 <= j < i && j != k ==> is_digit_char(#[trigger] kwh@[j]),
            },
        decreases n - i,
    {
        let c = kwh.get_char(i);
        if c == '.' {
            if dot.is_some() {
                proof {
                    let k = dot.unwrap() as int;
                    assert(!all_digits(kwh@)) by {
                        assert(!is_digit_char(kwh@[k]));
                    }
                    assert(dot_at(kwh@, k));
                    let kk = choose|k: int| dot_at(kwh@, k);
                    let frac = kwh@.subrange(kk + 1, n as int);
                    let whole = kwh@.subrange(0, kk);
                    if kk < i {
                        assert(frac[i - kk - 1] == '.');
                        assert(!all_digits(frac));
                    } else {
                        assert(whole[k] == '.');
                        assert(!all_digits(whole));
                    }
                }
                return Err(PricingError::InvalidInput);
            }
            dot = Some(i);
        } else if !('0' <= c && c <= '9') {
            proof {
                assert(!all_digits(kwh@)) by {
                    assert(!is_digit_char(kwh@[i as int]));
                }
                if exists|k: int| dot_at(kwh@, k) {
                    let kk = choose|k: int| dot_at(kwh@, k);
                    let frac = kwh@.subrange(kk + 1, n as int);
                    let whole = kwh@.subrange(0, kk);
                    if kk < i {
                        assert(frac[i - kk - 1] == c);
                        assert(!all_digits(frac));
                    } else {
                        assert(whole[i as int] == c);
                        assert(!all_digits(whole));
                    }
                }
            }
            return Err(PricingError::InvalidInput);
        }
        i = i + 1;
    }
    let (wlen, fstart) = match dot {
        None => (n, n),
        Some(k) => (k, k + 1),
    };
    let ghost whole = kwh@.subrange(0, wlen as int);
    let ghost frac = kwh@.subrange(fstart as int, n as int);
    proof {
        assert forall|j: int| 0 <= j < whole.len() implies is_digit_char(#[trigger] whole[j]) by {
            assert(whole[j] == kwh@[j]);
        }
        assert forall|j: int| 0 <= j < frac.len() implies is_digit_char(#[trigger] frac[j]) by {
            assert(frac[j] == kwh@[fstart + j]);
        }
        match dot {
            None => {
                assert(whole =~= kwh@);
                assert(frac =~= Seq::<char>::empty());
            },
            Some(k) => {
                assert(dot_at(kwh@, k as int));
                assert(!all_digits(kwh@)) by {
                    assert(!is_digit_char(kwh@[k as int]));
                }
                let kk = choose|k: int| dot_at(kwh@, k);
                assert(kk == k);
            },
        }
    }
    if wlen < 1 || wlen > 3 || n - fstart > 3 || (dot.is_some() && fstart == n) {
        return Err(PricingError::InvalidInput);
    }
    let w = small_digits(kwh, 0, wlen);
    let f = small_digits(kwh, fstart, n);
    let flen = n - fstart;
    let scale: i64 = if flen == 0 {
        1000
    } else if flen == 1 {
        100
    } else if flen == 2 {
        10
    } else {
        1
    };
    let wh = w * 1000 + f * scale;
    if wh < 1 || wh > 100_000 {
        return Err(PricingError::InvalidInput);
    }
    Ok(wh)
}

/// Minute of the day named by `HH:MM` (`24:00` allowed as an end).
pub fn minute(value: &str, end: bool) -> (r: Result<usize, PricingError>)
    ensures
        r == match clock_minute(value@, end) {
            Some(m) => Ok::<usize, PricingError>(m as usize),
            None => Err(PricingError::InvalidInput),
        },
{
    if end && str_eq(value, "24:00") {
        return Ok(1440);
    }
    if value.unicode_len() != 5 {
        return Err(PricingError::InvalidInput);
    }
    let c0 = value.get_char(0);
    let c1 = value.get_char(1);
    let c2 = value.get_char(2);
    let c3 = value.get_char(3);
    let c4 = value.get_char(4);
    if c2 != ':' || !('0' <= c0 && c0 <= '9') || !('0' <= c1 && c1 <= '9') || !('0' <= c3 && c3
        <= '9') || !('0' <= c4 && c4 <= '9') {
        return Err(PricingError::InvalidInput);
    }
    let h = (c0 as u32 - '0' as u32) as usize * 10 + (c1 as u32 - '0' as u32) as usize;
    let m = (c3 as u32 - '0' as u32) as usize * 10 + (c4 as u32 - '0' as u32) as usize;
    if h > 23 || m > 59 {
        return Err(PricingError::InvalidInput);
    }
    Ok(h * 60 + m)
}

fn known_mode_exec(mode: &str) -> (r: bool)
    ensures
        r == known_mode(mode@),
{
    str_eq(mode, "kwh") || str_eq(mode, "minute") || str_eq(mode, "mixed")
}

proof fn lemma_fill_error_persists(ps: Seq<Period>, svc: i64, n: int, m: int)
    requires
        0 <= n <= m,
        fill(ps, svc, n) is Err,
    ensures
        fill(ps, svc, m) == fill(ps, svc, n),
    decreases m - n,
{
    if m > n {
        lemma_fill_error_persists(ps, svc, n, m - 1);
    }
}

/// Every table that filling builds is a whole day of valid prices, where
/// the tariff's own service price is valid.
pub proof fn lemma_fill_valid(ps: Seq<Period>, svc: i64, n: int)
    requires
        valid_rate(svc),
    ensures
        fill(ps, svc, n) matches Ok(t) ==> table_valid(t),
    decreases n,
{
    if n > 0 {
        lemma_fill_valid(ps, svc, n - 1);
        if fill(ps, svc, n) is Ok {
            if fill(ps, svc, n - 1) is Err {
                lemma_fill_error_persists(ps, svc, n - 1, n);
            }
            let t = fill(ps, svc, n)->Ok_0;
            assert forall|m: int| 0 <= m < 1440 implies ((#[trigger] t[m]) matches Some(r)
                ==> valid_rate(r.0) && valid_rate(r.1)) by {
                let prev = fill(ps, svc, n - 1)->Ok_0;
                if prev[m] is Some {
                }
            }
        }
    }
}

/// Once a period has priced a minute, no later period changes it: a later
/// period that covers the minute clashes and is refused. So, where filling
/// succeeds, every minute that period `k` covers has that period's
/// electric price and its own service price, or `svc` where it has none.
proof fn lemma_fill_keeps_period(ps: Seq<Period>, svc: i64, n: int, k: int, m: int, s: int, e: int)
    requires
        0 <= k < n,
        0 <= m < 1440,
        clock_minute(ps[k].start@, false) == Some(s),
        clock_minute(ps[k].end@, true) == Some(e),
        covers(s, e, m),
    ensures
        fill(ps, svc, n) matches Ok(t) ==> t.len() == 1440 && t[m] == Some(
            (
                ps[k].electric_price_cents,
                match ps[k].service_price_cents {
                    Some(v) => v,
                    None => svc,
                },
            ),
        ),
    decreases n,
{
    if fill(ps, svc, n) is Ok {
        if fill(ps, svc, n - 1) is Err {
            lemma_fill_error_persists(ps, svc, n - 1, n);
        }
        let prev = fill(ps, svc, n - 1)->Ok_0;
        let t = fill(ps, svc, n)->Ok_0;
        if n - 1 > 0 {
            lemma_fill_len(ps, svc, n - 1);
        }
        assert(prev.len() == 1440);
        if k < n - 1 {
            lemma_fill_keeps_period(ps, svc, n - 1, k, m, s, e);
            let q = ps[n - 1];
            let s2 = clock_minute(q.start@, false)->Some_0;
            let e2 = clock_minute(q.end@, true)->Some_0;
            assert(prev[m] is Some);
            if covers(s2, e2, m) {
                assert(clashes(prev, s2, e2));
            }
            assert(t[m] == prev[m]);
        }
    }
}

proof fn lemma_fill_len(ps: Seq<Period>, svc: i64, n: int)
    ensures
        fill(ps, svc, n) matches Ok(t) ==> t.len() == 1440,
    decreases n,
{
    if n > 0 {
        lemma_fill_len(ps, svc, n - 1);
    }
}

/// Every minute that a tariff period covers is priced by that period: at
/// its electric price, and at its own service price where it has one, else
/// at the tariff's per-kWh service fee.
pub proof fn lemma_period_prices_its_minutes(rule: DevicePricing, k: int, m: int, s: int, e: int)
    requires
        0 <= k < rule.time_of_use@.len(),
        0 <= m < 1440,
        clock_minute(rule.time_of_use@[k].start@, false) == Some(s),
        clock_minute(rule.time_of_use@[k].end@, true) == Some(e),
        covers(s, e, m),
    ensures
        day_table(rule) matches Ok(t) ==> {
            let p = rule.time_of_use@[k];
            &&& p.service_price_cents is None ==> t[m] == Some(
                (p.electric_price_cents, rule.service_fee_cents_per_kwh),
            )
            &&& p.service_price_cents matches Some(v) ==> t[m] == Some((p.electric_price_cents, v))
        },
{
    lemma_fill_keeps_period(
        rule.time_of_use@,
        rule.service_fee_cents_per_kwh,
        rule.time_of_use@.len() as int,
        k,
        m,
        s,
        e,
    );
}

/// Where filling succeeds, a minute that none of the first `n` periods
/// covers has no price.
proof fn lemma_fill_leaves_gaps(ps: Seq<Period>, svc: i64, n: int, m: int)
    requires
        0 <= m < 1440,
        forall|k: int|
            0 <= k < n ==> (clock_minute((#[trigger] ps[k]).start@, false) matches Some(s) && clock_minute(
                ps[k].end@,
                true,
            ) matches Some(e) ==> !covers(s, e, m)),
    ensures
        fill(ps, svc, n) matches Ok(t) ==> t[m] is None,
    decreases n,
{
    if n > 0 {
        lemma_fill_leaves_gaps(ps, svc, n - 1, m);
        if fill(ps, svc, n) is Ok {
            if fill(ps, svc, n - 1) is Err {
                lemma_fill_error_persists(ps, svc, n - 1, n);
            }
            let q = ps[n - 1];
            assert(clock_minute(q.start@, false) is Some);
        }
    }
}

/// A minute that no period of an accepted tariff covers has no price.
pub proof fn lemma_uncovered_minute_unpriced(rule: DevicePricing, m: int)
    requires
        0 <= m < 1440,
        forall|k: int|
            0 <= k < rule.time_of_use@.len() ==> (clock_minute(
                (#[trigger] rule.time_of_use@[k]).start@,
                false,
            ) matches Some(s) && clock_minute(rule.time_of_use@[k].end@, true) matches Some(e)
                ==> !covers(s, e, m)),
    ensures
        day_table(rule) matches Ok(t) ==> t[m] is None,
{
    lemma_fill_leaves_gaps(
        rule.time_of_use@,
        rule.service_fee_cents_per_kwh,
        rule.time_of_use@.len() as int,
        m,
    );
}

/// No two periods of an accepted tariff cover the same minute: a tariff
/// whose periods overlap is refused.
pub proof fn lemma_overlap_refused(
    rule: DevicePricing,
    i: int,
    j: int,
    m: int,
    s1: int,
    e1: int,
    s2: int,
    e2: int,
)
    requires
        0 <= i < j < rule.time_of_use@.len(),
        0 <= m < 1440,
        clock_minute(rule.time_of_use@[i].start@, false) == Some(s1),
        clock_minute(rule.time_of_use@[i].end@, true) == Some(e1),
        clock_minute(rule.time_of_use@[j].start@, false) == Some(s2),
        clock_minute(rule.time_of_use@[j].end@, true) == Some(e2),
        covers(s1, e1, m),
        covers(s2, e2, m),
    ensures
        day_table(rule) is Err,
{
    let ps = rule.time_of_use@;
    let svc = rule.service_fee_cents_per_kwh;
    let n = ps.len() as int;
    if day_table(rule) is Ok {
        if fill(ps, svc, j + 1) is Err {
            lemma_fill_error_persists(ps, svc, j + 1, n);
        }
        if fill(ps, svc, j) is Err {
            lemma_fill_error_persists(ps, svc, j, j + 1);
        }
        lemma_fill_keeps_period(ps, svc, j, i, m, s1, e1);
        let prev = fill(ps, svc, j)->Ok_0;
        assert(prev[m] is Some);
        assert(clashes(prev, s2, e2));
    }
}

/// A period as an accepted tariff holds it: named, with valid prices, and a
/// start and an end that are clock times (the end may be `24:00`) and differ.
pub open spec fn period_accepted(p: Period) -> bool {
    &&& !is_blank(p.period@)
    &&& 0 <= p.electric_price_cents <= 1_000_000
    &&& (p.service_price_cents matches Some(v) ==> 0 <= v <= 1_000_000)
    &&& clock_minute(p.start@, false) is Some
    &&& clock_minute(p.end@, true) is Some
    &&& clock_minute(p.start@, false) != clock_minute(p.end@, true)
}

proof fn lemma_fill_accepts(ps: Seq<Period>, svc: i64, n: int)
    ensures
        fill(ps, svc, n) is Ok ==> forall|k: int| 0 <= k < n ==> period_accepted(#[trigger] ps[k]),
    decreases n,
{
    if n > 0 {
        lemma_fill_accepts(ps, svc, n - 1);
        if fill(ps, svc, n) is Ok && fill(ps, svc, n - 1) is Err {
            lemma_fill_error_persists(ps, svc, n - 1, n);
        }
    }
}

/// What an accepted tariff holds: a known mode, valid per-kWh, per-minute
/// and minimum charges, one to 96 periods, and every period accepted.
pub proof fn lemma_accepted_tariff(rule: DevicePricing)
    ensures
        day_table(rule) is Ok ==> {
            &&& (rule.mode@ == "kwh"@ || rule.mode@ == "minute"@ || rule.mode@ == "mixed"@)
            &&& 0 <= rule.service_fee_cents_per_kwh <= 1_000_000
            &&& 0 <= rule.service_fee_cents_per_min <= 1_000_000
            &&& 0 <= rule.min_charge_cents <= 1_000_000
            &&& 1 <= rule.time_of_use@.len() <= 96
            &&& forall|k: int|
                0 <= k < rule.time_of_use@.len() ==> period_accepted(#[trigger] rule.time_of_use@[k])
        },
{
    lemma_fill_accepts(rule.time_of_use@, rule.service_fee_cents_per_kwh, rule.time_of_use@.len() as int);
}

/// Offset of minute `m` after minute `s`, going forward around the clock.
spec fn offset_of(s: int, m: int) -> int {
    (m - s + 1440) % 1440
}

spec fn span(s: int, e: int) -> int {
    if e > s {
        e - s
    } else {
        1440 - s + e
    }
}

proof fn lemma_covers_offset(s: int, e: int, m: int)
    requires
        0 <= s < 1440,
        0 <= e <= 1440,
        s != e,
        0 <= m < 1440,
    ensures
        covers(s, e, m) == (offset_of(s, m) < span(s, e)),
        0 < span(s, e) <= 1440,
{
}

proof fn lemma_offset_index(s: int, k: int)
    requires
        0 <= s < 1440,
        0 <= k < 1440,
    ensures
        0 <= (s + k) % 1440 < 1440,
        offset_of(s, (s + k) % 1440) == k,
{
}

/// Paints `rate` over the minutes from `start` to `end`, unless one of them
/// already has a price.
fn paint_period(rates: &mut Vec<Option<Rate>>, start: usize, end: usize, rate: Rate) -> (ok: bool)
    requires
        old(rates)@.len() == 1440,
        0 <= start < 1440,
        0 <= end <= 1440,
        start != end,
    ensures
        ok == !clashes(old(rates)@, start as int, end as int),
        ok ==> final(rates)@ == paint(old(rates)@, start as int, end as int, rate),
{
    let ghost t = rates@;
    let duration = if end > start {
        end - start
    } else {
        1440 - start + end
    };
    let mut k: usize = 0;
    while k < duration
        invariant
            0 <= start < 1440,
            0 <= end <= 1440,
            start != end,
            duration == span(start as int, end as int),
            k <= duration,
            t == old(rates)@,
            t.len() == 1440,
            rates@.len() == 1440,
            forall|m: int|
                0 <= m < 1440 ==> #[trigger] rates@[m] == (if offset_of(start as int, m) < k {
                    Some(rate)
                } else {
                    t[m]
                }),
            forall|m: int|
                0 <= m < 1440 && offset_of(start as int, m) < k ==> (#[trigger] t[m]) is None,
        decreases duration - k,
    {
        proof {
            lemma_covers_offset(start as int, end as int, 0);
            lemma_offset_index(start as int, k as int);
        }
        let idx = (start + k) % 1440;
        if rates[idx].is_some() {
            proof {
                lemma_covers_offset(start as int, end as int, idx as int);
                assert(covers(start as int, end as int, idx as int));
                assert(t[idx as int] is Some);
                assert(clashes(t, start as int, end as int));
            }
            return false;
        }
        rates.set(idx, Some(rate));
        proof {
            assert forall|m: int| 0 <= m < 1440 implies #[trigger] rates@[m] == (if offset_of(
                start as int,
                m,
            ) < k + 1 {
                Some(rate)
            } else {
                t[m]
            }) by {
                if m != idx {
                    lemma_offset_index(start as int, k as int);
                }
            }
        }
        k = k + 1;
    }
    proof {
        assert forall|m: int| 0 <= m < 1440 implies #[trigger] rates@[m] == paint(
            t,
            start as int,
            end as int,
            rate,
        )[m] by {
            lemma_covers_offset(start as int, end as int, m);
        }
        assert(rates@ =~= paint(t, start as int, end as int, rate));
        assert(!clashes(t, start as int, end as int)) by {
            assert forall|m: int|
                0 <= m < 1440 && covers(start as int, end as int, m) implies !((
            #[trigger] t[m]) is Some) by {
                lemma_covers_offset(start as int, end as int, m);
            }
        }
    }
    true
}

/// The per-minute price table of a tariff.
pub fn daily_rates(rule: &DevicePricing) -> (r: Result<Vec<Option<Rate>>, PricingError>)
    ensures
        match r {
            Ok(v) => day_table(*rule) == Ok::<Seq<Option<Rate>>, PricingError>(v@)
                && table_valid(v@),
            Err(e) => day_table(*rule) == Err::<Seq<Option<Rate>>, PricingError>(e),
        },
{
    if !known_mode_exec(rule.mode.as_str()) {
        return Err(PricingError::InvalidInput);
    }
    if !(0 <= rule.service_fee_cents_per_kwh && rule.service_fee_cents_per_kwh <= 1_000_000)
        || !(0 <= rule.service_fee_cents_per_min && rule.service_fee_cents_per_min <= 1_000_000)
        || !(0 <= rule.min_charge_cents && rule.min_charge_cents <= 1_000_000) {
        return Err(PricingError::InvalidInput);
    }
    let periods = &rule.time_of_use;
    if periods.len() == 0 || periods.len() > 96 {
        return Err(PricingError::InvalidInput);
    }
    let svc = rule.service_fee_cents_per_kwh;
    let mut rates: Vec<Option<Rate>> = Vec::new();
    let mut z: usize = 0;
    while z < 1440
        invariant
            z <= 1440,
            rates@.len() == z,
            forall|m: int| 0 <= m < z ==> (#[trigger] rates@[m]) is None,
        decreases 1440 - z,
    {
        rates.push(None);
        z = z + 1;
    }
    assert(rates@ =~= empty_table());
    let mut i: usize = 0;
    while i < periods.len()
        invariant
            i <= periods@.len(),
            periods@ == rule.time_of_use@,
            valid_rate(svc),
            svc == rule.service_fee_cents_per_kwh,
            fill(periods@, svc, i as int) == Ok::<Seq<Option<Rate>>, PricingError>(rates@),
            table_valid(rates@),
            day_table(*rule) == fill(periods@, svc, periods@.len() as int),
        decreases periods@.len() - i,
    {
        let p = &periods[i];
        let ghost t = rates@;
        assert(fill(periods@, svc, i + 1) == add_period(t, *p, svc));
        let ghost len = periods@.len() as int;
        proof {
            if add_period(t, *p, svc) is Err {
                lemma_fill_error_persists(periods@, svc, i + 1, len);
            }
        }
        if trims_to_empty(p.period.as_str()) || !(0 <= p.electric_price_cents
            && p.electric_price_cents <= 1_000_000) {
            return Err(PricingError::InvalidInput);
        }
        let service = match p.service_price_cents {
            Some(v) => {
                if !(0 <= v && v <= 1_000_000) {
                    return Err(PricingError::InvalidInput);
                }
                v
            },
            None => svc,
        };
        let start = match minute(p.start.as_str(), false) {
            Ok(v) => v,
            Err(e) => {
                return Err(e);
            },
        };
        let end = match minute(p.end.as_str(), true) {
            Ok(v) => v,
            Err(e) => {
                return Err(e);
            },
        };
        if start == end {
            return Err(PricingError::InvalidInput);
        }
        let rate: Rate = (p.electric_price_cents, service);
        assert(rate == period_rate(*p, svc));
        assert(add_period(t, *p, svc) == (if clashes(t, start as int, end as int) {
            Err(PricingError::OverlappingPeriods)
        } else {
            Ok(paint(t, start as int, end as int, rate))
        }));
        if !paint_period(&mut rates, start, end, rate) {
            return Err(PricingError::OverlappingPeriods);
        }
        proof {
            assert forall|m: int| 0 <= m < 1440 implies ((#[trigger] rates@[m]) matches Some(r)
                ==> valid_rate(r.0) && valid_rate(r.1)) by {
                assert(rates@[m] == paint(t, start as int, end as int, rate)[m]);
            }
        }
        i = i + 1;
    }
    Ok(rates)
}

} // verus!

verus! {

proof fn lemma_sums_none_persists(t: Seq<Option<Rate>>, start: int, n: int, m: int)
    requires
        0 <= n <= m,
        rate_sums(t, start, n) is None,
    ensures
        rate_sums(t, start, m) is None,
    decreases m - n,
{
    if m > n {
        lemma_sums_none_persists(t, start, n, m - 1);
    }
}

fn mode_is(rule: &DevicePricing, mode: &str) -> (r: bool)
    ensures
        r == (rule.mode@ == mode@),
{
    str_eq(rule.mode.as_str(), mode)
}

/// The amounts of a quote, from the summed per-minute prices.
fn amounts(rule: &DevicePricing, wh: i64, minutes: i64, esum: i64, ssum: i64) -> (r: Result<
    QuoteResponse,
    PricingError,
>)
    requires
        1 <= wh <= 100_000,
        1 <= minutes <= 1440,
        0 <= esum <= minutes * 1_000_000,
        0 <= ssum <= minutes * 1_000_000,
        valid_rate(rule.service_fee_cents_per_min),
        valid_rate(rule.min_charge_cents),
    ensures
        r == quote_amounts(*rule, wh as int, minutes as int, esum as int, ssum as int),
{
    assert(wh * esum <= 100_000 * (1440 * 1_000_000)) by (nonlinear_arith)
        requires
            1 <= wh <= 100_000,
            0 <= esum <= minutes * 1_000_000,
            minutes <= 1440,
    ;
    assert(wh * ssum <= 100_000 * (1440 * 1_000_000)) by (nonlinear_arith)
        requires
            1 <= wh <= 100_000,
            0 <= ssum <= minutes * 1_000_000,
            minutes <= 1440,
    ;
    assert(0 <= wh * esum && 0 <= wh * ssum) by (nonlinear_arith)
        requires
            1 <= wh,
            0 <= esum,
            0 <= ssum,
    ;
    assert(minutes * rule.service_fee_cents_per_min <= 1440 * 1_000_000) by (nonlinear_arith)
        requires
            1 <= minutes <= 1440,
            0 <= rule.service_fee_cents_per_min <= 1_000_000,
    ;
    assert(0 <= minutes * rule.service_fee_cents_per_min) by (nonlinear_arith)
        requires
            1 <= minutes,
            0 <= rule.service_fee_cents_per_min,
    ;
    let d = minutes * 1000;
    let num_e = wh * esum + d / 2;
    let electric = num_e / d;
    assert(electric <= num_e) by (nonlinear_arith)
        requires
            d >= 1000,
            num_e >= 0,
            electric == num_e / d,
    ;
    let base = if mode_is(rule, "minute") {
        0
    } else {
        let num_s = wh * ssum + d / 2;
        let b = num_s / d;
        assert(b <= num_s) by (nonlinear_arith)
            requires
                d >= 1000,
                num_s >= 0,
                b == num_s / d,
        ;
        b
    };
    let with_time = if !mode_is(rule, "kwh") {
        base + minutes * rule.service_fee_cents_per_min
    } else {
        base
    };
    let service = if with_time >= rule.min_charge_cents - electric {
        with_time
    } else {
        rule.min_charge_cents - electric
    };
    let total = electric + service;
    if total <= 0 || total > 0x7fff_ffff {
        return Err(PricingError::InvalidInput);
    }
    Ok(QuoteResponse { total_cents: total, electric_cents: electric, service_cents: service })
}

/// Quote for an estimated energy `kwh` charged over `minutes` minutes from
/// minute `start_minute` of the local day.
pub fn estimate(rule: &DevicePricing, kwh: &str, minutes: i64, start_minute: usize) -> (r: Result<
    QuoteResponse,
    PricingError,
>)
    ensures
        r == estimate_spec(*rule, kwh@, minutes as int, start_minute as int),
{
    let wh = match watt_hours(kwh) {
        Ok(v) => v,
        Err(e) => {
            return Err(e);
        },
    };
    if !(1 <= minutes && minutes <= 1440) || start_minute >= 1440 {
        return Err(PricingError::InvalidInput);
    }
    let rates = match daily_rates(rule) {
        Ok(v) => v,
        Err(e) => {
            return Err(e);
        },
    };
    let ghost t = rates@;
    let ghost want = match rate_sums(t, start_minute as int, minutes as int) {
        None => Err(PricingError::EstimateWithoutRate),
        Some(sums) => quote_amounts(*rule, wh as int, minutes as int, sums.0, sums.1),
    };
    assert(estimate_spec(*rule, kwh@, minutes as int, start_minute as int) == want);
    let n = minutes as usize;
    let mut esum: i64 = 0;
    let mut ssum: i64 = 0;
    let mut off: usize = 0;
    while off < n
        invariant
            n == minutes,
            1 <= minutes <= 1440,
            start_minute < 1440,
            t == rates@,
            table_valid(t),
            estimate_spec(*rule, kwh@, minutes as int, start_minute as int) == want,
            want == match rate_sums(t, start_minute as int, minutes as int) {
                None => Err(PricingError::EstimateWithoutRate),
                Some(sums) => quote_amounts(*rule, wh as int, minutes as int, sums.0, sums.1),
            },
            valid_rate(rule.service_fee_cents_per_min),
            valid_rate(rule.min_charge_cents),
            1 <= wh <= 100_000,
            off <= n,
            rate_sums(t, start_minute as int, off as int) == Some((esum as int, ssum as int)),
            0 <= esum <= off * 1_000_000,
            0 <= ssum <= off * 1_000_000,
        decreases n - off,
    {
        let idx = (start_minute + off) % 1440;
        match rates[idx] {
            None => {
                proof {
                    lemma_sums_none_persists(t, start_minute as int, off + 1, minutes as int);
                }
                return Err(PricingError::EstimateWithoutRate);
            },
            Some(r) => {
                esum = esum + r.0;
                ssum = ssum + r.1;
            },
        }
        off = off + 1;
    }
    amounts(rule, wh, minutes, esum, ssum)
}

} // verus!

verus! {

pub open spec fn digit_char(d: int) -> char {
    if d <= 0 {
        '0'
    } else if d == 1 {
        '1'
    } else if d == 2 {
        '2'
    } else if d == 3 {
        '3'
    } else if d == 4 {
        '4'
    } else if d == 5 {
        '5'
    } else if d == 6 {
        '6'
    } else if d == 7 {
        '7'
    } else if d == 8 {
        '8'
    } else {
        '9'
    }
}

/// Decimal digits of `n`, without leading zeros.
pub open spec fn decimal(n: nat) -> Seq<char>
    decreases n,
{
    if n < 10 {
        seq![digit_char(n as int)]
    } else {
        decimal(n / 10).push(digit_char((n % 10) as int))
    }
}

/// `wh` watt-hours written in kWh with three decimals, as `{}.{:03}` of the
/// thousands and the remainder gives it.
pub open spec fn kwh_text(wh: nat) -> Seq<char> {
    let r = wh % 1000;
    decimal(wh / 1000) + seq!['.', digit_char((r / 100) as int), digit_char(((r / 10) % 10) as int), digit_char((r % 10) as int)]
}

fn digit_str(d: u64) -> (s: &'static str)
    requires
        d < 10,
    ensures
        s@ == seq![digit_char(d as int)],
{
    if d == 0 {
        proof { reveal_strlit("0"); }
        "0"
    } else if d == 1 {
        proof { reveal_strlit("1"); }
        "1"
    } else if d == 2 {
        proof { reveal_strlit("2"); }
        "2"
    } else if d == 3 {
        proof { reveal_strlit("3"); }
        "3"
    } else if d == 4 {
        proof { reveal_strlit("4"); }
        "4"
    } else if d == 5 {
        proof { reveal_strlit("5"); }
        "5"
    } else if d == 6 {
        proof { reveal_strlit("6"); }
        "6"
    } else if d == 7 {
        proof { reveal_strlit("7"); }
        "7"
    } else if d == 8 {
        proof { reveal_strlit("8"); }
        "8"
    } else {
        proof { reveal_strlit("9"); }
        "9"
    }
}

/// Appends the decimal digits of `n`.
pub(crate) fn push_decimal(out: &mut String, n: u64)
    ensures
        final(out)@ == old(out)@ + decimal(n as nat),
    decreases n,
{
    if n < 10 {
        out.append(digit_str(n));
    } else {
        push_decimal(out, n / 10);
        out.append(digit_str(n % 10));
        proof {
            assert(old(out)@ + decimal(n as nat) =~= old(out)@ + decimal((n / 10) as nat) + seq![
                digit_char((n % 10) as int),
            ]);
        }
    }
}

/// `wh` watt-hours as kWh text with three decimals, e.g. `0.125`.
pub fn format_kwh(wh: u64) -> (s: String)
    ensures
        s@ == kwh_text(wh as nat),
{
    let mut out = String::new();
    push_decimal(&mut out, wh / 1000);
    proof {
        reveal_strlit(".");
    }
    out.append(".");
    let r = wh % 1000;
    out.append(digit_str(r / 100));
    out.append(digit_str((r / 10) % 10));
    out.append(digit_str(r % 10));
    proof {
        assert(out@ =~= kwh_text(wh as nat));
    }
    out
}

proof fn lemma_digit_char(d: int)
    requires
        0 <= d <= 9,
    ensures
        is_digit_char(digit_char(d)),
        digit_value(digit_char(d)) == d,
{
}

proof fn lemma_single_digit(c: char)
    ensures
        digits_value(seq![c]) == digit_value(c),
{
    let s = seq![c];
    assert(s.drop_last() =~= Seq::<char>::empty());
    assert(s.last() == c);
    assert(digits_value(s.drop_last()) == 0);
}

proof fn lemma_decimal_digits(n: nat)
    ensures
        all_digits(decimal(n)),
        digits_value(decimal(n)) == n,
        n < 10 ==> decimal(n).len() == 1,
        10 <= n < 100 ==> decimal(n).len() == 2,
        100 <= n < 1000 ==> decimal(n).len() == 3,
        decimal(n).len() >= 1,
    decreases n,
{
    if n < 10 {
        lemma_digit_char(n as int);
        lemma_single_digit(digit_char(n as int));
    } else {
        lemma_decimal_digits(n / 10);
        lemma_digit_char((n % 10) as int);
        let s = decimal(n);
        assert(s.drop_last() =~= decimal(n / 10));
        assert forall|i: int| 0 <= i < s.len() implies is_digit_char(#[trigger] s[i]) by {
            if i < s.len() - 1 {
                assert(s[i] == decimal(n / 10)[i]);
            }
        }
    }
}

proof fn lemma_three_digits(r: int)
    requires
        0 <= r < 1000,
    ensures
        all_digits(
            seq![digit_char(r / 100), digit_char((r / 10) % 10), digit_char(r % 10)],
        ),
        digits_value(seq![digit_char(r / 100), digit_char((r / 10) % 10), digit_char(r % 10)])
            == r,
{
    let a = digit_char(r / 100);
    let b = digit_char((r / 10) % 10);
    let c = digit_char(r % 10);
    lemma_digit_char(r / 100);
    lemma_digit_char((r / 10) % 10);
    lemma_digit_char(r % 10);
    lemma_single_digit(a);
    let f = seq![a, b, c];
    assert(f.drop_last() =~= seq![a, b]);
    assert(seq![a, b].drop_last() =~= seq![a]);
    assert(seq![a, b].last() == b);
    assert(f.last() == c);
    assert(digits_value(seq![a, b]) == digit_value(a) * 10 + digit_value(b));
    assert(digits_value(f) == digits_value(seq![a, b]) * 10 + digit_value(c));
    assert(r == (r / 100) * 100 + ((r / 10) % 10) * 10 + r % 10);
    assert forall|i: int| 0 <= i < 3 implies is_digit_char(#[trigger] f[i]) by {}
}

/// Reading back a kWh text written by [`format_kwh`] gives the same
/// watt-hours, for every amount a quote accepts (1 Wh to 100 kWh).
pub proof fn lemma_kwh_text_round_trip(wh: nat)
    requires
        1 <= wh <= 100_000,
    ensures
        wh_of_kwh_text(kwh_text(wh)) == Some(wh as int),
{
    let w = decimal(wh / 1000);
    lemma_decimal_digits(wh / 1000);
    let r = wh % 1000;
    let f = seq![digit_char((r / 100) as int), digit_char(((r / 10) % 10) as int), digit_char((r % 10) as int)];
    lemma_three_digits(r as int);
    let s = kwh_text(wh);
    assert(s =~= w + seq!['.'] + f);
    let k = w.len() as int;
    assert(dot_at(s, k));
    assert(!all_digits(s)) by {
        assert(!is_digit_char(s[k]));
    }
    assert forall|j: int| dot_at(s, j) implies j == k by {
        if j < k {
            assert(s[j] == w[j]);
            assert(is_digit_char(w[j]));
        } else if j > k {
            assert(s[j] == f[j - k - 1]);
            assert(is_digit_char(f[j - k - 1]));
        }
    }
    let kk = choose|j: int| dot_at(s, j);
    assert(kk == k);
    assert(s.subrange(0, k) =~= w);
    assert(s.subrange(k + 1, s.len() as int) =~= f);
    assert(wh / 1000 <= 100);
    assert(kwh_parts_value(w, f) == wh);
}

} // verus!
