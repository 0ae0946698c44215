//! Refunding wallet balance to the recharges it came from: the requested
//! amount is split over the user's recharge payments, oldest first, each
//! giving no more than it still has free.
use vstd::prelude::*;
use crate::text::{any_control, canonical_uuid, char_count, has_control, uuid_canonical};
use crate::user::ledger::{tally, tally_spec, RefundLine};
use crate::user::status::RefundStatus;

verus! {

#[derive(Debug, Clone, Copy, PartialEq, Eq, Structural)]
pub enum WalletRefundError {
    /// The request id is not a UUID.
    InvalidRequestId,
    /// The amount is outside 1 to 100 000 000 cents, or the reason is too
    /// long or holds control characters.
    InvalidRequest,
    /// The wallet or the recharge refunds are inconsistent.
    Conflict,
    /// The wallet is frozen.
    Frozen,
    /// The balance is below the amount.
    InsufficientBalance,
    /// The recharges that can still be refunded do not cover the amount.
    NotRefundable,
}

/// A wallet refund request.
pub struct WalletRefundReq {
    pub request_id: String,
    pub amount_cents: i64,
    pub reason: Option<String>,
}

/// The largest wallet refund, in cents.
pub const MAX_WALLET_REFUND: i64 = 100_000_000;

pub open spec fn request_fields_ok(r: WalletRefundReq) -> bool {
    1 <= r.amount_cents <= MAX_WALLET_REFUND && (r.reason matches Some(t) ==> t@.len() <= 255
        && !has_control(t@))
}

/// Checks a wallet refund request and returns its id in canonical form.
pub fn check_request(r: &WalletRefundReq) -> (res: Result<String, WalletRefundError>)
    ensures
        match uuid_canonical(r.request_id@) {
            None => res == Err::<String, WalletRefundError>(WalletRefundError::InvalidRequestId),
            Some(c) => if request_fields_ok(*r) {
                res matches Ok(s) && s@ == c
            } else {
                res == Err::<String, WalletRefundError>(WalletRefundError::InvalidRequest)
            },
        },
{
    let id = match canonical_uuid(r.request_id.as_str()) {
        Some(c) => c,
        None => {
            return Err(WalletRefundError::InvalidRequestId);
        },
    };
    let reason_ok = match &r.reason {
        Some(t) => char_count(t.as_str()) <= 255 && !any_control(t.as_str()),
        None => true,
    };
    if r.amount_cents < 1 || r.amount_cents > MAX_WALLET_REFUND || !reason_ok {
        return Err(WalletRefundError::InvalidRequest);
    }
    Ok(id)
}

/// A refund request already on record under the same id.
pub struct PriorRequest {
    pub user_id: u64,
    pub amount_cents: i64,
    pub reason: Option<String>,
    /// Whether the request was already answered.
    pub answered: bool,
}

/// What a request does given the one recorded under its id.
#[derive(Debug, Clone, Copy, PartialEq, Eq, Structural)]
pub enum RequestStep {
    /// Answered before: give back the saved answer unchanged.
    Replay,
    /// Not answered yet: reserve and answer.
    Apply,
}

/// A request id names one request: the recorded request must be this
/// user's, for the same amount and reason. A request answered before gets
/// its saved answer back.
pub open spec fn request_step_spec(prior: PriorRequest, uid: u64, r: WalletRefundReq) -> Option<
    RequestStep,
> {
    let same_reason = match (prior.reason, r.reason) {
        (Some(a), Some(b)) => a@ == b@,
        (None, None) => true,
        _ => false,
    };
    if prior.user_id != uid || prior.amount_cents != r.amount_cents || !same_reason {
        None
    } else if prior.answered {
        Some(RequestStep::Replay)
    } else {
        Some(RequestStep::Apply)
    }
}

pub fn request_step(prior: &PriorRequest, uid: u64, r: &WalletRefundReq) -> (res: Result<
    RequestStep,
    WalletRefundError,
>)
    ensures
        match request_step_spec(*prior, uid, *r) {
            Some(s) => res == Ok::<RequestStep, WalletRefundError>(s),
            None => res == Err::<RequestStep, WalletRefundError>(WalletRefundError::Conflict),
        },
{
    let same_reason = match (&prior.reason, &r.reason) {
        (Some(a), Some(b)) => crate::text::string_eq(a, b),
        (None, None) => true,
        _ => false,
    };
    if prior.user_id != uid || prior.amount_cents != r.amount_cents || !same_reason {
        return Err(WalletRefundError::Conflict);
    }
    if prior.answered {
        Ok(RequestStep::Replay)
    } else {
        Ok(RequestStep::Apply)
    }
}

/// Checks the wallet that will hold the reservation: exactly one, active,
/// with enough balance. `wallets` holds (balance, active) of each.
pub fn check_wallet(wallets: &[(i64, bool)], amount: i64) -> (r: Result<i64, WalletRefundError>)
    ensures
        wallets@.len() != 1 ==> r == Err::<i64, WalletRefundError>(WalletRefundError::Conflict),
        wallets@.len() == 1 ==> r == if !wallets@[0].1 {
            Err::<i64, WalletRefundError>(WalletRefundError::Frozen)
        } else if wallets@[0].0 < amount {
            Err::<i64, WalletRefundError>(WalletRefundError::InsufficientBalance)
        } else {
            Ok::<i64, WalletRefundError>(wallets@[0].0)
        },
{
    if wallets.len() != 1 {
        return Err(WalletRefundError::Conflict);
    }
    if !wallets[0].1 {
        return Err(WalletRefundError::Frozen);
    }
    if wallets[0].0 < amount {
        return Err(WalletRefundError::InsufficientBalance);
    }
    Ok(wallets[0].0)
}

/// Moves `amount` from the wallet's balance to its frozen part, where the
/// refund is held until the provider confirms it: the balance falls and the
/// frozen part rises by the same amount, so the wallet's total is kept.
pub fn reserve(balance: i64, frozen: i64, amount: i64) -> (r: Result<(i64, i64), WalletRefundError>)
    requires
        0 < amount <= balance,
    ensures
        match r {
            Ok(v) => v.0 == balance - amount && v.1 == frozen + amount && v.0 + v.1 == balance
                + frozen,
            Err(e) => e == WalletRefundError::Conflict && (frozen < 0 || frozen + amount
                > i64::MAX),
        },
{
    if frozen < 0 {
        return Err(WalletRefundError::Conflict);
    }
    match frozen.checked_add(amount) {
        Some(f) => Ok((balance - amount, f)),
        None => Err(WalletRefundError::Conflict),
    }
}

/// A refund request that is the third within five minutes is held for
/// manual review, and the wallet is frozen.
pub open spec fn needs_manual_review(recent: int) -> bool {
    recent >= 3
}

/// A recharge payment the refund may draw from, with its refund records.
pub struct RechargeSource {
    pub paid_cents: i64,
    pub refunded_cents: i64,
    pub refunds: Vec<RefundLine>,
}

/// A recharge stops taking refunds at 50 refund records.
pub const MAX_REFUNDS_PER_PAYMENT: usize = 50;

/// What a recharge still has free: paid less refunded less the refunds under
/// way; `None` where its records are inconsistent.
pub open spec fn free_spec(p: RechargeSource) -> Option<int> {
    if p.refunded_cents < 0 || p.refunded_cents > p.paid_cents {
        None
    } else {
        match tally_spec(p.refunds@, false, p.refunded_cents as int, false) {
            Some(t) => if t.1 != p.refunded_cents || t.0 > p.paid_cents {
                None
            } else {
                Some(p.paid_cents - t.0)
            },
            None => None,
        }
    }
}

pub open spec fn min_int(a: int, b: int) -> int {
    if a <= b {
        a
    } else {
        b
    }
}

/// The split of `rem` cents over the recharges from `i` on: pairs of a
/// recharge's index and the cents it gives, oldest first, each recharge
/// giving what it has free up to what is left; recharges with nothing free
/// or with 50 refunds are passed over.
pub open spec fn split_from(ps: Seq<RechargeSource>, i: int, rem: int) -> Result<
    Seq<(usize, i64)>,
    WalletRefundError,
>
    decreases ps.len() - i,
{
    if i < 0 || i >= ps.len() {
        if rem == 0 {
            Ok(Seq::empty())
        } else {
            Err(WalletRefundError::NotRefundable)
        }
    } else {
        match free_spec(ps[i]) {
            None => Err(WalletRefundError::Conflict),
            Some(free) => {
                let amount = min_int(free, rem);
                if amount == 0 || ps[i].refunds@.len() >= MAX_REFUNDS_PER_PAYMENT {
                    split_from(ps, i + 1, rem)
                } else if rem - amount == 0 {
                    Ok(seq![(i as usize, amount as i64)])
                } else {
                    match split_from(ps, i + 1, rem - amount) {
                        Ok(rest) => Ok(seq![(i as usize, amount as i64)] + rest),
                        Err(e) => Err(e),
                    }
                }
            },
        }
    }
}

/// The sum of the cents of a split.
pub open spec fn split_total(s: Seq<(usize, i64)>) -> int
    decreases s.len(),
{
    if s.len() == 0 {
        0
    } else {
        split_total(s.drop_last()) + s.last().1
    }
}

proof fn lemma_split_total_prepend(x: (usize, i64), s: Seq<(usize, i64)>)
    ensures
        split_total(seq![x] + s) == x.1 + split_total(s),
    decreases s.len(),
{
    let t = seq![x] + s;
    if s.len() == 0 {
        assert(t =~= seq![x]);
        assert(t.drop_last() =~= Seq::<(usize, i64)>::empty());
        assert(split_total(t) == split_total(t.drop_last()) + t.last().1);
    } else {
        lemma_split_total_prepend(x, s.drop_last());
        assert(t.drop_last() =~= seq![x] + s.drop_last());
        assert(t.last() == s.last());
        assert(split_total(t) == split_total(t.drop_last()) + t.last().1);
    }
}

/// A split gives exactly the amount asked for, every part is positive and
/// within what its recharge has free, and the recharges come in order, each
/// at most once.
pub proof fn lemma_split_is_exact(ps: Seq<RechargeSource>, i: int, rem: int)
    requires
        0 <= i,
        0 < rem <= i64::MAX,
        ps.len() <= usize::MAX,
    ensures
        split_from(ps, i, rem) matches Ok(s) ==> {
            &&& split_total(s) == rem
            &&& forall|k: int|
                0 <= k < s.len() ==> 0 < (#[trigger] s[k]).1 && i <= s[k].0 < ps.len() && (
                free_spec(ps[s[k].0 as int]) matches Some(f) && s[k].1 <= f)
            &&& forall|a: int, b: int| 0 <= a < b < s.len() ==> s[a].0 < s[b].0
        },
    decreases ps.len() - i,
{
    if i < ps.len() {
        if let Some(free) = free_spec(ps[i]) {
            let amount = min_int(free, rem);
            if amount == 0 || ps[i].refunds@.len() >= MAX_REFUNDS_PER_PAYMENT {
                lemma_split_is_exact(ps, i + 1, rem);
            } else if rem - amount == 0 {
                let s = seq![(i as usize, amount as i64)];
                assert(s.drop_last() =~= Seq::<(usize, i64)>::empty());
                assert(split_total(s) == split_total(s.drop_last()) + s.last().1);
            } else {
                lemma_split_is_exact(ps, i + 1, rem - amount);
                if let Ok(rest) = split_from(ps, i + 1, rem - amount) {
                    let x = (i as usize, amount as i64);
                    lemma_split_total_prepend(x, rest);
                    let s = seq![x] + rest;
                    assert forall|k: int| 0 <= k < s.len() implies 0 < (#[trigger] s[k]).1 && i
                        <= s[k].0 < ps.len() && (free_spec(ps[s[k].0 as int]) matches Some(f)
                        && s[k].1 <= f) by {
                        if k > 0 {
                            assert(s[k] == rest[k - 1]);
                        }
                    }
                    assert forall|a: int, b: int| 0 <= a < b < s.len() implies s[a].0 < s[b].0 by {
                        if a > 0 {
                            assert(s[a] == rest[a - 1]);
                        }
                        assert(s[b] == rest[b - 1]);
                    }
                }
            }
        }
    }
}

/// What a recharge has free, with checked arithmetic.
fn free_of(p: &RechargeSource) -> (r: Option<i64>)
    ensures
        match free_spec(*p) {
            Some(f) => r == Some(f as i64) && 0 <= f <= i64::MAX,
            None => r is None,
        },
{
    if p.refunded_cents < 0 || p.refunded_cents > p.paid_cents {
        return None;
    }
    match tally(p.refunds.as_slice(), false, p.refunded_cents, false) {
        Some((reserved, successful)) => {
            if successful != p.refunded_cents || reserved > p.paid_cents {
                None
            } else {
                proof {
                    crate::user::ledger::lemma_totals_nonneg(p.refunds@, false);
                }
                Some(p.paid_cents - reserved)
            }
        },
        None => None,
    }
}

/// Splits `amount` cents over the recharges, oldest first.
pub fn split_refund(ps: &Vec<RechargeSource>, amount: i64) -> (r: Result<
    Vec<(usize, i64)>,
    WalletRefundError,
>)
    requires
        amount > 0,
    ensures
        match split_from(ps@, 0, amount as int) {
            Ok(s) => r matches Ok(v) && v@ == s,
            Err(e) => r == Err::<Vec<(usize, i64)>, WalletRefundError>(e),
        },
{
    let mut out: Vec<(usize, i64)> = Vec::new();
    let mut rem: i64 = amount;
    let mut i: usize = 0;
    while i < ps.len()
        invariant
            i <= ps@.len(),
            0 < rem <= amount,
            match split_from(ps@, i as int, rem as int) {
                Ok(rest) => split_from(ps@, 0, amount as int) == Ok::<
                    Seq<(usize, i64)>,
                    WalletRefundError,
                >(out@ + rest),
                Err(e) => split_from(ps@, 0, amount as int) == Err::<
                    Seq<(usize, i64)>,
                    WalletRefundError,
                >(e),
            },
        decreases ps@.len() - i,
    {
        let p = &ps[i];
        let free = match free_of(p) {
            Some(f) => f,
            None => {
                return Err(WalletRefundError::Conflict);
            },
        };
        let part = if free <= rem {
            free
        } else {
            rem
        };
        let ghost old_rem = rem as int;
        let ghost before = out@;
        assert(part as int == min_int(free as int, old_rem));
        if part == 0 || p.refunds.len() >= MAX_REFUNDS_PER_PAYMENT {
            assert(split_from(ps@, i as int, old_rem) == split_from(ps@, i + 1, old_rem));
            i = i + 1;
        } else {
            let ghost x = (i, part);
            out.push((i, part));
            rem = rem - part;
            if rem == 0 {
                proof {
                    assert(split_from(ps@, i as int, old_rem) == Ok::<
                        Seq<(usize, i64)>,
                        WalletRefundError,
                    >(seq![x]));
                    assert(before + seq![x] =~= out@);
                }
                return Ok(out);
            }
            proof {
                match split_from(ps@, i + 1, rem as int) {
                    Ok(rest) => {
                        assert(split_from(ps@, i as int, old_rem) == Ok::<
                            Seq<(usize, i64)>,
                            WalletRefundError,
                        >(seq![x] + rest));
                        assert(before + (seq![x] + rest) =~= out@ + rest);
                    },
                    Err(e) => {
                        assert(split_from(ps@, i as int, old_rem) == Err::<
                            Seq<(usize, i64)>,
                            WalletRefundError,
                        >(e));
                    },
                }
            }
            i = i + 1;
        }
    }
    Err(WalletRefundError::NotRefundable)
}

/// The status a wallet refund request shows.
#[derive(Debug, Clone, Copy, PartialEq, Eq, Structural)]
pub enum WalletRefundStatus {
    ManualReview,
    NeedsReview,
    Success,
    Processing,
    Pending,
}

pub open spec fn succeeded_total(parts: Seq<(RefundStatus, i64)>) -> int
    decreases parts.len(),
{
    if parts.len() == 0 {
        0
    } else {
        succeeded_total(parts.drop_last()) + if parts.last().0 == RefundStatus::Success {
            parts.last().1 as int
        } else {
            0
        }
    }
}

/// The status of a request from whether it was held for review and from its
/// refund parts (status and cents).
pub open spec fn status_spec(manual: bool, parts: Seq<(RefundStatus, i64)>, amount: int) -> WalletRefundStatus {
    if manual {
        WalletRefundStatus::ManualReview
    } else if parts.len() == 0 || exists|k: int|
        0 <= k < parts.len() && (#[trigger] parts[k]).0 == RefundStatus::Failed {
        WalletRefundStatus::NeedsReview
    } else if succeeded_total(parts) == amount && forall|k: int|
        0 <= k < parts.len() ==> (#[trigger] parts[k]).0 == RefundStatus::Success {
        WalletRefundStatus::Success
    } else if exists|k: int|
        0 <= k < parts.len() && ((#[trigger] parts[k]).0 == RefundStatus::Processing || parts[k].0
            == RefundStatus::Success) {
        WalletRefundStatus::Processing
    } else {
        WalletRefundStatus::Pending
    }
}

/// Only succeeded parts count as refunded: a part that succeeded adds its
/// cents, any other part adds nothing, and a request none of whose parts
/// succeeded has refunded nothing.
pub proof fn lemma_refunded_counts_successes(parts: Seq<(RefundStatus, i64)>, part: (RefundStatus, i64))
    ensures
        part.0 == RefundStatus::Success ==> succeeded_total(parts.push(part)) == succeeded_total(parts)
            + part.1,
        part.0 != RefundStatus::Success ==> succeeded_total(parts.push(part)) == succeeded_total(parts),
        (forall|k: int| 0 <= k < parts.len() ==> (#[trigger] parts[k]).0 != RefundStatus::Success)
            ==> succeeded_total(parts) == 0,
    decreases parts.len(),
{
    assert(parts.push(part).drop_last() =~= parts);
    if parts.len() > 0 {
        lemma_refunded_counts_successes(parts.drop_last(), parts.last());
        assert(parts.drop_last().push(parts.last()) =~= parts);
        if forall|k: int| 0 <= k < parts.len() ==> (#[trigger] parts[k]).0 != RefundStatus::Success {
            assert(parts[parts.len() - 1].0 != RefundStatus::Success);
            assert forall|k: int| 0 <= k < parts.drop_last().len() implies (
            #[trigger] parts.drop_last()[k]).0 != RefundStatus::Success by {
                assert(parts[k].0 != RefundStatus::Success);
            }
        }
    }
}

/// How a request's parts decide its status, where it was not held for
/// review: no part, or a failed part, needs review; a part under way at the
/// provider (none failed) shows the request as processing; every part
/// succeeded for the whole amount is success; and where every part is still
/// waiting (neither under way, succeeded nor failed) the request is pending.
pub proof fn lemma_status_by_parts(manual: bool, parts: Seq<(RefundStatus, i64)>, amount: int)
    ensures
        manual ==> status_spec(manual, parts, amount) == WalletRefundStatus::ManualReview,
        !manual && (parts.len() == 0 || exists|k: int|
            0 <= k < parts.len() && parts[k].0 == RefundStatus::Failed) ==> status_spec(
            manual,
            parts,
            amount,
        ) == WalletRefundStatus::NeedsReview,
        !manual && (forall|k: int| 0 <= k < parts.len() ==> parts[k].0 != RefundStatus::Failed)
            && (exists|k: int| 0 <= k < parts.len() && parts[k].0 == RefundStatus::Processing)
            ==> status_spec(manual, parts, amount) == WalletRefundStatus::Processing,
        !manual && 0 < parts.len() && (forall|k: int|
            0 <= k < parts.len() ==> parts[k].0 == RefundStatus::Success) && succeeded_total(parts)
            == amount ==> status_spec(manual, parts, amount) == WalletRefundStatus::Success,
        !manual && 0 < parts.len() && (forall|k: int|
            0 <= k < parts.len() ==> parts[k].0 != RefundStatus::Failed && parts[k].0
                != RefundStatus::Processing && parts[k].0 != RefundStatus::Success) ==> status_spec(
            manual,
            parts,
            amount,
        ) == WalletRefundStatus::Pending,
{
    if !manual && (forall|k: int| 0 <= k < parts.len() ==> parts[k].0 != RefundStatus::Failed) && (
    exists|k: int| 0 <= k < parts.len() && parts[k].0 == RefundStatus::Processing) {
        let w = choose|k: int| 0 <= k < parts.len() && parts[k].0 == RefundStatus::Processing;
        assert(parts[w].0 == RefundStatus::Processing);
    }
    if !manual && (parts.len() == 0 || exists|k: int|
        0 <= k < parts.len() && parts[k].0 == RefundStatus::Failed) {
        if parts.len() != 0 {
            let w = choose|k: int| 0 <= k < parts.len() && parts[k].0 == RefundStatus::Failed;
            assert(parts[w].0 == RefundStatus::Failed);
        }
    }
    if !manual && 0 < parts.len() && (forall|k: int|
        0 <= k < parts.len() ==> parts[k].0 != RefundStatus::Failed && parts[k].0
            != RefundStatus::Processing && parts[k].0 != RefundStatus::Success) {
        assert(parts[0].0 != RefundStatus::Success);
    }
}

/// The status and the refunded cents of a request; `Err` where the
/// refunded cents leave the `i64` range.
pub fn request_status(manual: bool, parts: &[(RefundStatus, i64)], amount: i64) -> (r: Result<
    (WalletRefundStatus, i64),
    WalletRefundError,
>)
    ensures
        r matches Ok(v) ==> v.0 == status_spec(manual, parts@, amount as int) && v.1
            == succeeded_total(parts@),
        r is Err ==> (succeeded_total(parts@) > i64::MAX || succeeded_total(parts@) < i64::MIN
            || exists|k: int|
            0 <= k <= parts@.len() && (succeeded_total(parts@.take(k)) > i64::MAX
                || succeeded_total(parts@.take(k)) < i64::MIN)),
{
    let mut refunded: i64 = 0;
    let mut any_failed = false;
    let mut all_success = true;
    let mut any_moving = false;
    let mut i: usize = 0;
    while i < parts.len()
        invariant
            i <= parts@.len(),
            refunded == succeeded_total(parts@.take(i as int)),
            any_failed == exists|k: int| 0 <= k < i && (#[trigger] parts@[k]).0 == RefundStatus::Failed,
            all_success == forall|k: int| 0 <= k < i ==> (#[trigger] parts@[k]).0 == RefundStatus::Success,
            any_moving == exists|k: int|
                0 <= k < i && ((#[trigger] parts@[k]).0 == RefundStatus::Processing || parts@[k].0
                    == RefundStatus::Success),
        decreases parts@.len() - i,
    {
        let (status, cents) = parts[i];
        proof {
            let t = parts@.take(i + 1);
            assert(t.drop_last() =~= parts@.take(i as int));
            assert(t.last() == parts@[i as int]);
        }
        if status == RefundStatus::Success {
            refunded = match refunded.checked_add(cents) {
                Some(v) => v,
                None => {
                    return Err(WalletRefundError::Conflict);
                },
            };
        }
        if status == RefundStatus::Failed {
            any_failed = true;
        }
        if status != RefundStatus::Success {
            all_success = false;
        }
        if status == RefundStatus::Processing || status == RefundStatus::Success {
            any_moving = true;
        }
        i = i + 1;
    }
    assert(parts@.take(parts@.len() as int) =~= parts@);
    let status = if manual {
        WalletRefundStatus::ManualReview
    } else if parts.len() == 0 || any_failed {
        WalletRefundStatus::NeedsReview
    } else if refunded == amount && all_success {
        WalletRefundStatus::Success
    } else if any_moving {
        WalletRefundStatus::Processing
    } else {
        WalletRefundStatus::Pending
    };
    Ok((status, refunded))
}

/// A page of the user's wallet refund requests.
pub struct ListQuery {
    pub page: Option<u32>,
    pub page_size: Option<u32>,
}

/// The page (default 1, at most 100 000) and page size (default 20, at most
/// 50) of a listing; `None` where either is out of range.
pub fn list_window(q: &ListQuery) -> (r: Option<(u32, u32)>)
    ensures
        ({
            let page = match q.page {
                Some(p) => p,
                None => 1u32,
            };
            let size = match q.page_size {
                Some(s) => s,
                None => 20u32,
            };
            if page == 0 || page > 100_000 || size == 0 || size > 50 {
                r is None
            } else {
                r == Some((page, size))
            }
        }),
{
    let page = match q.page {
        Some(p) => p,
        None => 1,
    };
    let size = match q.page_size {
        Some(s) => s,
        None => 20,
    };
    if page == 0 || page > 100_000 || size == 0 || size > 50 {
        return None;
    }
    Some((page, size))
}

} // verus!
