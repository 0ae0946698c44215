//! Order queries: the filters a query may carry, the SQL condition they
//! become, and the refund state an order shows.
use vstd::prelude::*;
use vstd::string::StrSliceExecFns;
use crate::text::{
    all_digits, digit_value, digits_value, instant_millis, is_text, parse_rfc3339, rfc3339_instant,
    utf8_len, Instant,
};
use crate::user::status::ChargeStatus;

verus! {

/// A query over charge orders.
pub struct OrderQuery {
    pub page: u32,
    pub page_size: u32,
    pub status: Option<String>,
    pub station_id: Option<u64>,
    pub started_from: Option<String>,
    pub started_to: Option<String>,
    pub order_no: Option<String>,
    pub device_id: Option<String>,
    pub device_ids: Option<String>,
}

#[derive(Debug, Clone, Copy, PartialEq, Eq, Structural)]
pub enum OrderQueryError {
    /// `page` is 0 or `page_size` is outside 1 to 100.
    BadPage,
    /// A station filter must first be resolved into devices.
    StationNotResolved,
    /// A time is not RFC 3339 with an offset.
    BadTime,
    /// The start of the window lies after its end.
    FromAfterTo,
    /// Not an order status.
    BadStatus,
    /// An order number or device id that is empty or longer than 64 bytes.
    BadIdentifier,
}

pub open spec fn instant_le(a: (int, int), b: (int, int)) -> bool {
    a.0 < b.0 || (a.0 == b.0 && a.1 <= b.1)
}

/// The filters a valid query stands for.
pub struct Filters {
    pub from: Instant,
    pub to: Instant,
    pub status: Option<String>,
    pub devices: Option<Vec<String>>,
}

/// A week, in seconds: the default window of a query.
pub const DEFAULT_WINDOW_SECS: i64 = 604_800;

pub open spec fn known_status(s: Seq<char>) -> bool {
    ||| s == "pending_payment"@
    ||| s == "paid"@
    ||| s == "charging"@
    ||| s == "completed"@
    ||| s == "cancelled"@
    ||| s == "failed"@
    ||| s == "refunding"@
    ||| s == "refunded"@
}

/// `finished` is another name for `completed`.
pub open spec fn status_alias(s: Seq<char>) -> Seq<char> {
    if s == "finished"@ {
        "completed"@
    } else {
        s
    }
}

pub open spec fn ident_len_ok(v: Option<String>) -> bool {
    v matches Some(t) ==> t@.len() > 0 && utf8_len(t@) <= 64
}

/// The fields of a text separated by `,`, as `str::split(',')` gives them.
pub open spec fn split_commas(s: Seq<char>) -> Seq<Seq<char>>
    decreases s.len(),
{
    if s.len() == 0 {
        seq![Seq::<char>::empty()]
    } else {
        let f = split_commas(s.drop_last());
        if s.last() == ',' {
            f.push(Seq::<char>::empty())
        } else {
            f.update(f.len() - 1, f.last().push(s.last()))
        }
    }
}

/// The fields that are not empty.
pub open spec fn non_empty(fs: Seq<Seq<char>>) -> Seq<Seq<char>>
    decreases fs.len(),
{
    if fs.len() == 0 {
        Seq::empty()
    } else if fs.last().len() > 0 {
        non_empty(fs.drop_last()).push(fs.last())
    } else {
        non_empty(fs.drop_last())
    }
}

pub open spec fn views(v: Seq<String>) -> Seq<Seq<char>> {
    v.map_values(|x: String| x@)
}

proof fn lemma_split_len(s: Seq<char>)
    ensures
        split_commas(s).len() >= 1,
    decreases s.len(),
{
    if s.len() > 0 {
        lemma_split_len(s.drop_last());
    }
}

/// The device ids of a comma-separated list, empty ones left out.
pub fn device_list(s: &str) -> (r: Vec<String>)
    ensures
        views(r@) == non_empty(split_commas(s@)),
{
    let n = s.unicode_len();
    let mut out: Vec<String> = Vec::new();
    let mut start: usize = 0;
    let mut i: usize = 0;
    proof {
        assert(s@.take(0) =~= Seq::<char>::empty());
        assert(views(out@) =~= Seq::<Seq<char>>::empty());
    }
    while i < n
        invariant
            n == s@.len(),
            start <= i <= n,
            split_commas(s@.take(i as int)).len() >= 1,
            split_commas(s@.take(i as int)).last() == s@.subrange(start as int, i as int),
            non_empty(split_commas(s@.take(i as int)).drop_last()) == views(out@),
        decreases n - i,
    {
        let c = s.get_char(i);
        let ghost pre = s@.take(i as int);
        let ghost next = s@.take(i + 1);
        proof {
            assert(next.drop_last() =~= pre);
            assert(next.last() == c);
            lemma_split_len(pre);
        }
        if c == ',' {
            if start < i {
                let token = s.substring_char(start, i);
                let owned = token.to_owned();
                let ghost before = out@;
                out.push(owned);
                proof {
                    assert(views(out@) =~= views(before).push(s@.subrange(start as int, i as int)));
                }
            }
            proof {
                let sp = split_commas(pre);
                assert(split_commas(next) == sp.push(Seq::<char>::empty()));
                assert(split_commas(next).drop_last() =~= sp);
                assert(sp =~= sp.drop_last().push(sp.last()));
                assert(s@.subrange((i + 1) as int, (i + 1) as int) =~= Seq::<char>::empty());
            }
            start = i + 1;
        } else {
            proof {
                let sp = split_commas(pre);
                let nx = split_commas(next);
                assert(nx == sp.update(sp.len() - 1, sp.last().push(c)));
                assert(nx.drop_last() =~= sp.drop_last());
                assert(s@.subrange(start as int, (i + 1) as int) =~= s@.subrange(
                    start as int,
                    i as int,
                ).push(c));
            }
        }
        i = i + 1;
    }
    proof {
        assert(s@.take(n as int) =~= s@);
        let sp = split_commas(s@);
        assert(sp =~= sp.drop_last().push(sp.last()));
    }
    if start < n {
        let token = s.substring_char(start, n);
        let ghost before = out@;
        out.push(token.to_owned());
        proof {
            assert(views(out@) =~= views(before).push(s@.subrange(start as int, n as int)));
        }
    }
    out
}

/// The filters of a query received at `now`, or why it is refused.
pub open spec fn validate_spec(q: OrderQuery, now: (int, int)) -> Result<
    ((int, int), (int, int), Option<Seq<char>>),
    OrderQueryError,
> {
    let to = match q.started_to {
        Some(t) => rfc3339_instant(t@),
        None => Some(now),
    };
    let from = match q.started_from {
        Some(f) => rfc3339_instant(f@),
        None => match to {
            Some(t) => Some((t.0 - DEFAULT_WINDOW_SECS, t.1)),
            None => None,
        },
    };
    let status = match q.status {
        Some(s) => Some(status_alias(s@)),
        None => None,
    };
    if q.page == 0 || q.page_size < 1 || q.page_size > 100 {
        Err(OrderQueryError::BadPage)
    } else if q.station_id is Some {
        Err(OrderQueryError::StationNotResolved)
    } else if to is None || from is None {
        Err(OrderQueryError::BadTime)
    } else if !instant_le(from->0, to->0) {
        Err(OrderQueryError::FromAfterTo)
    } else if status matches Some(s) && !known_status(s) {
        Err(OrderQueryError::BadStatus)
    } else if !ident_len_ok(q.order_no) || !ident_len_ok(q.device_id) {
        Err(OrderQueryError::BadIdentifier)
    } else {
        Ok((from->0, to->0, status))
    }
}

fn ident_ok(v: &Option<String>) -> (r: bool)
    ensures
        r == ident_len_ok(*v),
{
    match v {
        Some(t) => !t.as_str().is_empty() && t.as_str().len() <= 64,
        None => true,
    }
}

fn known(s: &String) -> (r: bool)
    ensures
        r == known_status(s@),
{
    is_text(s, "pending_payment") || is_text(s, "paid") || is_text(s, "charging") || is_text(
        s,
        "completed",
    ) || is_text(s, "cancelled") || is_text(s, "failed") || is_text(s, "refunding") || is_text(
        s,
        "refunded",
    )
}

/// Validates a query received at `now` and returns its filters.
pub fn validate(q: &OrderQuery, now: Instant) -> (r: Result<Filters, OrderQueryError>)
    requires
        now.0 >= i64::MIN + DEFAULT_WINDOW_SECS,
    ensures
        match validate_spec(*q, (now.0 as int, now.1 as int)) {
            Err(e) => r == Err::<Filters, OrderQueryError>(e),
            Ok(v) => r matches Ok(f) && (f.from.0 as int, f.from.1 as int) == v.0 && (
            f.to.0 as int, f.to.1 as int) == v.1 && match (f.status, v.2) {
                (Some(a), Some(b)) => a@ == b,
                (None, None) => true,
                _ => false,
            } && match (f.devices, q.device_ids) {
                (Some(d), Some(ids)) => views(d@) == non_empty(split_commas(ids@)),
                (None, None) => true,
                _ => false,
            },
        },
{
    if q.page == 0 || q.page_size < 1 || q.page_size > 100 {
        return Err(OrderQueryError::BadPage);
    }
    if q.station_id.is_some() {
        return Err(OrderQueryError::StationNotResolved);
    }
    let to: Instant = match &q.started_to {
        Some(t) => match parse_rfc3339(t.as_str()) {
            Some(v) => v,
            None => {
                return Err(OrderQueryError::BadTime);
            },
        },
        None => now,
    };
    let from: Instant = match &q.started_from {
        Some(f) => match parse_rfc3339(f.as_str()) {
            Some(v) => v,
            None => {
                return Err(OrderQueryError::BadTime);
            },
        },
        None => (to.0 - DEFAULT_WINDOW_SECS, to.1),
    };
    if !(from.0 < to.0 || (from.0 == to.0 && from.1 <= to.1)) {
        return Err(OrderQueryError::FromAfterTo);
    }
    let status: Option<String> = match &q.status {
        Some(s) => {
            if is_text(s, "finished") {
                let c = String::from_str("completed");
                proof {
                    reveal_strlit("completed");
                }
                Some(c)
            } else {
                Some(s.clone())
            }
        },
        None => None,
    };
    match &status {
        Some(s) => {
            if !known(s) {
                return Err(OrderQueryError::BadStatus);
            }
        },
        None => {},
    }
    if !ident_ok(&q.order_no) || !ident_ok(&q.device_id) {
        return Err(OrderQueryError::BadIdentifier);
    }
    let devices = match &q.device_ids {
        Some(ids) => Some(device_list(ids.as_str())),
        None => None,
    };
    Ok(Filters { from, to, status, devices })
}

/// A value bound to a placeholder of the condition.
pub enum Bind {
    Time(Instant),
    Text(String),
}

/// `n` placeholders separated by commas.
pub open spec fn marks(n: nat) -> Seq<char>
    decreases n,
{
    if n == 0 {
        Seq::empty()
    } else if n == 1 {
        "?"@
    } else {
        marks((n - 1) as nat) + ",?"@
    }
}

/// The SQL condition of a query: the time window always, then each filter
/// present; an empty device list matches nothing.
pub open spec fn condition_sql(q: OrderQuery, f: Filters) -> Seq<char> {
    " WHERE c.deleted_at IS NULL AND COALESCE(c.started_at,c.created_at) >= ? AND COALESCE(c.started_at,c.created_at) <= ?"@
        + (if f.status is Some {
        " AND c.status = ?"@
    } else {
        Seq::empty()
    }) + (if q.order_no is Some {
        " AND c.order_no = ?"@
    } else {
        Seq::empty()
    }) + (if q.device_id is Some {
        " AND c.device_id = ?"@
    } else {
        Seq::empty()
    }) + match f.devices {
        Some(d) => if d@.len() == 0 {
            " AND 1 = 0"@
        } else {
            " AND c.device_id IN ("@ + marks(d@.len()) + ")"@
        },
        None => Seq::empty(),
    }
}

/// The values the placeholders of `condition_sql` take, in order.
pub open spec fn condition_binds(q: OrderQuery, f: Filters) -> Seq<Bind> {
    seq![Bind::Time(f.from), Bind::Time(f.to)] + match f.status {
        Some(s) => seq![Bind::Text(s)],
        None => Seq::empty(),
    } + match q.order_no {
        Some(s) => seq![Bind::Text(s)],
        None => Seq::empty(),
    } + match q.device_id {
        Some(s) => seq![Bind::Text(s)],
        None => Seq::empty(),
    } + match f.devices {
        Some(d) => d@.map_values(|x: String| Bind::Text(x)),
        None => Seq::empty(),
    }
}

/// Writes the condition of a query and the values its placeholders take, in
/// order.
#[verifier::spinoff_prover]
#[verifier::rlimit(50)]
pub fn conditions(q: &OrderQuery, f: &Filters) -> (r: (String, Vec<Bind>))
    ensures
        r.0@ == condition_sql(*q, *f),
        r.1@ == condition_binds(*q, *f),
{
    let mut sql = String::from_str(
        " WHERE c.deleted_at IS NULL AND COALESCE(c.started_at,c.created_at) >= ? AND COALESCE(c.started_at,c.created_at) <= ?",
    );
    let mut binds: Vec<Bind> = Vec::new();
    binds.push(Bind::Time(f.from));
    binds.push(Bind::Time(f.to));
    let ghost s0 = sql@;
    match &f.status {
        Some(s) => {
            sql.append(" AND c.status = ?");
            binds.push(Bind::Text(s.clone()));
        },
        None => {},
    }
    let ghost s1 = sql@;
    match &q.order_no {
        Some(s) => {
            sql.append(" AND c.order_no = ?");
            binds.push(Bind::Text(s.clone()));
        },
        None => {},
    }
    let ghost s2 = sql@;
    match &q.device_id {
        Some(s) => {
            sql.append(" AND c.device_id = ?");
            binds.push(Bind::Text(s.clone()));
        },
        None => {},
    }
    let ghost s3 = sql@;
    let ghost b3 = binds@;
    match &f.devices {
        Some(d) => {
            if d.len() == 0 {
                sql.append(" AND 1 = 0");
            } else {
                sql.append(" AND c.device_id IN (");
                let mut k: usize = 0;
                while k < d.len()
                    invariant
                        k <= d@.len(),
                        d@.len() > 0,
                        sql@ == s3 + " AND c.device_id IN ("@ + marks(k as nat),
                        binds@ == b3 + d@.take(k as int).map_values(|x: String| Bind::Text(x)),
                    decreases d@.len() - k,
                {
                    if k == 0 {
                        sql.append("?");
                        proof {
                            assert(marks(1) == "?"@);
                            assert(marks(0) =~= Seq::<char>::empty());
                            assert(s3 + " AND c.device_id IN ("@ + marks(0) =~= s3
                                + " AND c.device_id IN ("@);
                        }
                    } else {
                        sql.append(",?");
                        proof {
                            assert(marks((k + 1) as nat) == marks(k as nat) + ",?"@);
                            assert(s3 + " AND c.device_id IN ("@ + marks(k as nat) + ",?"@
                                =~= s3 + " AND c.device_id IN ("@ + marks((k + 1) as nat));
                        }
                    }
                    binds.push(Bind::Text(d[k].clone()));
                    proof {
                        assert(d@.take(k + 1).map_values(|x: String| Bind::Text(x)) =~= d@.take(
                            k as int,
                        ).map_values(|x: String| Bind::Text(x)).push(Bind::Text(d@[k as int])));
                    }
                    k = k + 1;
                }
                proof {
                    assert(d@.take(d@.len() as int) =~= d@);
                }
                sql.append(")");
            }
        },
        None => {},
    }
    proof {
        assert(sql@ =~= condition_sql(*q, *f));
        if f.devices is Some && f.devices->0@.len() == 0 {
            assert(f.devices->0@.map_values(|x: String| Bind::Text(x)) =~= Seq::<Bind>::empty());
        }
        assert(binds@ =~= condition_binds(*q, *f));
    }
    (sql, binds)
}

/// The refund state an order shows.
#[derive(Debug, Clone, Copy, PartialEq, Eq, Structural)]
pub enum RefundSummary {
    Processing,
    Refunded,
    PartialRefunded,
    NoRefund,
}

pub open spec fn refund_summary_spec(status: ChargeStatus, refunded: Option<i64>, paid: Option<i64>) -> RefundSummary {
    let r = match refunded {
        Some(v) => v as int,
        None => 0,
    };
    let covers = match (refunded, paid) {
        (Some(a), Some(b)) => a >= b,
        (Some(_), None) => true,
        (None, None) => true,
        (None, Some(_)) => false,
    };
    if status == ChargeStatus::Refunding {
        RefundSummary::Processing
    } else if r > 0 && covers {
        RefundSummary::Refunded
    } else if r > 0 {
        RefundSummary::PartialRefunded
    } else {
        RefundSummary::NoRefund
    }
}

/// The refund state of an order from its status and its payment's paid and
/// refunded cents, where it has a payment.
pub fn refund_summary(status: ChargeStatus, refunded: Option<i64>, paid: Option<i64>) -> (r: RefundSummary)
    ensures
        r == refund_summary_spec(status, refunded, paid),
{
    let r = match refunded {
        Some(v) => v,
        None => 0,
    };
    let covers = match (refunded, paid) {
        (Some(a), Some(b)) => a >= b,
        (Some(_), None) => true,
        (None, None) => true,
        (None, Some(_)) => false,
    };
    if status == ChargeStatus::Refunding {
        RefundSummary::Processing
    } else if r > 0 && covers {
        RefundSummary::Refunded
    } else if r > 0 {
        RefundSummary::PartialRefunded
    } else {
        RefundSummary::NoRefund
    }
}

/// How an order is looked up: by id where the text is a `u64`, by order
/// number otherwise.
pub enum OrderKey {
    Id(u64),
    OrderNo(String),
}

/// The number a text of decimal digits, with an optional leading `+`, reads
/// as, as `str::parse::<u64>` reads it; `None` where it is not one or is too
/// large.
pub open spec fn unsigned_part(s: Seq<char>) -> Seq<char> {
    if s.len() > 0 && s[0] == '+' {
        s.drop_first()
    } else {
        s
    }
}

pub open spec fn u64_text(s: Seq<char>) -> Option<u64> {
    let d = unsigned_part(s);
    if d.len() > 0 && all_digits(d) && digits_value(d) <= u64::MAX {
        Some(digits_value(d) as u64)
    } else {
        None
    }
}

proof fn lemma_digits_step(s: Seq<char>, i: int)
    requires
        0 <= i < s.len(),
    ensures
        digits_value(s.take(i + 1)) == digits_value(s.take(i)) * 10 + digit_value(s[i]),
{
    assert(s.take(i + 1).drop_last() =~= s.take(i));
}

proof fn lemma_digits_grow(s: Seq<char>, i: int)
    requires
        0 <= i <= s.len(),
        all_digits(s),
    ensures
        digits_value(s.take(i)) <= digits_value(s),
        digits_value(s.take(i)) >= 0,
    decreases s.len() - i,
{
    if i < s.len() {
        lemma_digits_grow(s, i + 1);
        lemma_digits_step(s, i);
        assert(crate::text::is_digit_char(s[i]));
    } else {
        assert(s.take(i) =~= s);
        lemma_digits_nonneg(s);
    }
}

proof fn lemma_digits_nonneg(s: Seq<char>)
    requires
        all_digits(s),
    ensures
        digits_value(s) >= 0,
    decreases s.len(),
{
    if s.len() > 0 {
        let d = s.drop_last();
        assert forall|i: int| 0 <= i < d.len() implies crate::text::is_digit_char(#[trigger] d[i]) by {
            assert(d[i] == s[i]);
        }
        lemma_digits_nonneg(d);
        assert(crate::text::is_digit_char(s.last()));
    }
}

/// Reads an order identifier: 1 to 64 bytes, a number or an order number.
pub fn order_key(id: &str) -> (r: Option<OrderKey>)
    ensures
        (id@.len() == 0 || utf8_len(id@) > 64) ==> r is None,
        !(id@.len() == 0 || utf8_len(id@) > 64) ==> match u64_text(id@) {
            Some(v) => r matches Some(OrderKey::Id(x)) && x == v,
            None => r matches Some(OrderKey::OrderNo(s)) && s@ == id@,
        },
{
    if id.is_empty() || id.len() > 64 {
        return None;
    }
    let n = id.unicode_len();
    let first: usize = if id.get_char(0) == '+' {
        1
    } else {
        0
    };
    let ghost d = unsigned_part(id@);
    proof {
        assert(d =~= id@.subrange(first as int, n as int));
    }
    let mut v: u64 = 0;
    let mut ok = first < n;
    let mut i: usize = first;
    while i < n && ok
        invariant
            n == id@.len(),
            first <= i <= n,
            d =~= id@.subrange(first as int, n as int),
            d == unsigned_part(id@),
            ok ==> (all_digits(d.take(i - first)) && v == digits_value(d.take(i - first))),
            ok ==> first < n,
            !ok ==> u64_text(id@) is None,
        decreases n - i + (if ok {
            1int
        } else {
            0
        }),
    {
        let c = id.get_char(i);
        let ghost k = i - first;
        proof {
            assert(d[k] == c);
            lemma_digits_step(d, k);
        }
        if c < '0' || c > '9' {
            proof {
                assert(!crate::text::is_digit_char(d[k]));
                assert(!all_digits(d));
                assert(u64_text(id@) is None);
            }
            ok = false;
        } else {
            let digit = (c as u32 - '0' as u32) as u64;
            if v > (u64::MAX - digit) / 10 {
                proof {
                    assert(v * 10 + digit > u64::MAX) by (nonlinear_arith)
                        requires
                            v > (u64::MAX - digit) / 10,
                            digit <= 9,
                    ;
                    if all_digits(d) {
                        lemma_digits_grow(d, k + 1);
                        assert(digits_value(d.take(k + 1)) == v * 10 + digit);
                        assert(digits_value(d) > u64::MAX);
                    }
                    assert(u64_text(id@) is None);
                }
                ok = false;
            } else {
                proof {
                    assert(v * 10 + digit <= u64::MAX) by (nonlinear_arith)
                        requires
                            v <= (u64::MAX - digit) / 10,
                            digit <= 9,
                    ;
                }
                proof {
                    let t = d.take(k + 1);
                    assert forall|j: int| 0 <= j < t.len() implies crate::text::is_digit_char(
                        #[trigger] t[j],
                    ) by {
                        if j < k {
                            assert(t[j] == d.take(k)[j]);
                        } else {
                            assert(t[j] == c);
                        }
                    }
                }
                v = v * 10 + digit;
                i = i + 1;
            }
        }
    }
    if ok {
        proof {
            assert(d.take(d.len() as int) =~= d);
        }
        Some(OrderKey::Id(v))
    } else {
        Some(OrderKey::OrderNo(id.to_owned()))
    }
}

/// A user's query over their own orders.
pub struct UserHistoryQuery {
    pub page: Option<u32>,
    pub page_size: Option<u32>,
    pub status: Option<String>,
}

/// The order query a user's history stands for: page 1 and 20 orders by
/// default, all orders since the epoch.
pub fn history_query(q: &UserHistoryQuery) -> (r: OrderQuery)
    ensures
        r.page == (match q.page {
            Some(p) => p,
            None => 1u32,
        }),
        r.page_size == (match q.page_size {
            Some(s) => s,
            None => 20u32,
        }),
        match (r.status, q.status) {
            (Some(a), Some(b)) => a@ == b@,
            (None, None) => true,
            _ => false,
        },
        r.station_id is None,
        r.started_from matches Some(f) && f@ == "1970-01-01T00:00:00Z"@,
        r.started_to is None,
        r.order_no is None,
        r.device_id is None,
        r.device_ids is None,
{
    OrderQuery {
        page: match q.page {
            Some(p) => p,
            None => 1,
        },
        page_size: match q.page_size {
            Some(s) => s,
            None => 20,
        },
        status: match &q.status {
            Some(s) => Some(s.clone()),
            None => None,
        },
        station_id: None,
        started_from: Some(String::from_str("1970-01-01T00:00:00Z")),
        started_to: None,
        order_no: None,
        device_id: None,
        device_ids: None,
    }
}

} // verus!
