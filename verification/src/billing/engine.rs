//! The time-of-use tariff: energy price by time-of-use period plus a
//! service fee, with a minimum charge. (The floating-point fee formula of
//! this engine lives beside the service, not here.)
use vstd::prelude::*;
use vstd::string::StringExecFns;
use crate::text::str_eq;

verus! {

/// A pricing rule snapshot.
pub struct PricingRule {
    /// `kwh`, `minute` or `mixed`.
    pub mode: String,
    pub service_fee_cents_per_kwh: i64,
    pub service_fee_cents_per_min: i64,
    pub min_charge_cents: i64,
    /// Energy price per period name (`peak`, `off`), in cents per kWh; a
    /// well-formed rule names each period once (`wf`).
    pub time_of_use: Vec<(String, i64)>,
}

impl PricingRule {
    /// No period is priced twice, as in a map from period to price.
    pub open spec fn wf(self) -> bool {
        forall|i: int, j: int|
            0 <= i < j < self.time_of_use@.len() ==> #[trigger] self.time_of_use@[i].0@
                != #[trigger] self.time_of_use@[j].0@
    }
}

/// The price the first entry named `key` gives, if any.
pub open spec fn lookup_rate(entries: Seq<(String, i64)>, key: Seq<char>) -> Option<i64>
    decreases entries.len(),
{
    if entries.len() == 0 {
        None
    } else if entries[0].0@ == key {
        Some(entries[0].1)
    } else {
        lookup_rate(entries.drop_first(), key)
    }
}

/// Energy price of `period`; an unknown period falls back to `off`, and
/// without an `off` price to 40 cents per kWh.
pub open spec fn rate_for_spec(entries: Seq<(String, i64)>, period: Seq<char>) -> i64 {
    match lookup_rate(entries, period) {
        Some(v) => v,
        None => match lookup_rate(entries, "off"@) {
            Some(v) => v,
            None => 40,
        },
    }
}

fn lookup(entries: &Vec<(String, i64)>, key: &str) -> (r: Option<i64>)
    ensures
        r == lookup_rate(entries@, key@),
{
    let mut i: usize = 0;
    assert(entries@.skip(0) =~= entries@);
    while i < entries.len()
        invariant
            i <= entries@.len(),
            lookup_rate(entries@, key@) == lookup_rate(entries@.skip(i as int), key@),
        decreases entries@.len() - i,
    {
        let ghost rest = entries@.skip(i as int);
        assert(rest[0] == entries@[i as int]);
        if str_eq(entries[i].0.as_str(), key) {
            return Some(entries[i].1);
        }
        assert(rest.drop_first() =~= entries@.skip(i + 1));
        i = i + 1;
    }
    None
}

impl PricingRule {
    /// The built-in rule: per kWh, 80 cents at peak and 40 off-peak, a 30
    /// cent per kWh service fee and a one yuan minimum charge.
    pub fn default_default() -> (r: Self)
        ensures
            r.wf(),
            r.mode@ == "kwh"@,
            r.service_fee_cents_per_kwh == 30,
            r.service_fee_cents_per_min == 0,
            r.min_charge_cents == 100,
            r.time_of_use@.len() == 2,
            r.time_of_use@[0].0@ == "peak"@,
            r.time_of_use@[0].1 == 80,
            r.time_of_use@[1].0@ == "off"@,
            r.time_of_use@[1].1 == 40,
    {
        let mut tou: Vec<(String, i64)> = Vec::new();
        tou.push((String::from_str("peak"), 80));
        tou.push((String::from_str("off"), 40));
        proof {
            reveal_strlit("peak");
            reveal_strlit("off");
            assert(tou@[0].0@ != tou@[1].0@) by {
                assert(tou@[0].0@[0] != tou@[1].0@[0]);
            }
        }
        PricingRule {
            mode: String::from_str("kwh"),
            service_fee_cents_per_kwh: 30,
            service_fee_cents_per_min: 0,
            min_charge_cents: 100,
            time_of_use: tou,
        }
    }

    /// Energy price of a period in cents per kWh; unknown periods fall back
    /// to `off`.
    pub fn rate_for(&self, period: &str) -> (r: i64)
        ensures
            r == rate_for_spec(self.time_of_use@, period@),
    {
        match lookup(&self.time_of_use, period) {
            Some(v) => v,
            None => match lookup(&self.time_of_use, "off") {
                Some(v) => v,
                None => 40,
            },
        }
    }
}

/// With the built-in rule, `peak` costs 80 and every other period 40.
pub proof fn lemma_default_rates(rule: PricingRule, period: Seq<char>)
    requires
        rule.time_of_use@.len() == 2,
        rule.time_of_use@[0].0@ == "peak"@,
        rule.time_of_use@[0].1 == 80,
        rule.time_of_use@[1].0@ == "off"@,
        rule.time_of_use@[1].1 == 40,
    ensures
        rate_for_spec(rule.time_of_use@, period) == (if period == "peak"@ {
            80i64
        } else {
            40i64
        }),
{
    reveal_strlit("peak");
    reveal_strlit("off");
    reveal_with_fuel(lookup_rate, 3);
    let e = rule.time_of_use@;
    assert(e.drop_first().drop_first().len() == 0);
    assert(e.drop_first()[0] == e[1]);
    assert("off"@ != "peak"@) by {
        assert("off"@[0] != "peak"@[0]);
    }
    assert(lookup_rate(e, "off"@) == Some(40i64));
}

} // verus!
