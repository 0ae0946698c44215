//! Releasing a wallet frozen by the refund-frequency rule, and manual charge
//! refunds opened by finance.
use vstd::prelude::*;
use crate::text::{
    any_control, canonical_uuid, char_count, has_control, is_blank, is_text, note_ok, str_eq,
    trim, trims_to_empty, uuid_canonical,
};

verus! {

#[derive(Debug, Clone, Copy, PartialEq, Eq, Structural)]
pub enum ReleaseError {
    /// The request id is not a UUID.
    InvalidId,
    /// No approver, or the comment is blank, too long or holds control
    /// characters.
    InvalidComment,
    /// The freeze was already released by another approver or comment.
    AlreadyReleased,
    /// The wallet has more than one account, or none.
    WalletInconsistent,
    /// The linked freeze is not on record for the user.
    FreezeMismatch,
    /// The freeze has another cause or is no longer in force.
    CauseChanged,
}

/// A release request.
pub struct Release {
    pub actor_id: u64,
    pub comment: String,
}

/// The comment of a release: not blank, at most 255 characters and free of
/// control characters, counted before trimming.
pub open spec fn release_ok(r: Release) -> bool {
    r.actor_id != 0 && !is_blank(r.comment@) && r.comment@.len() <= 255 && !has_control(r.comment@)
}

/// Checks a release request; returns the canonical request id.
pub fn check_release(id: &str, r: &Release) -> (res: Result<String, ReleaseError>)
    ensures
        match uuid_canonical(id@) {
            None => res == Err::<String, ReleaseError>(ReleaseError::InvalidId),
            Some(c) => if release_ok(*r) {
                res matches Ok(s) && s@ == c
            } else {
                res == Err::<String, ReleaseError>(ReleaseError::InvalidComment)
            },
        },
{
    let c = match canonical_uuid(id) {
        Some(c) => c,
        None => {
            return Err(ReleaseError::InvalidId);
        },
    };
    let t = r.comment.as_str();
    if r.actor_id == 0 || trims_to_empty(t) || char_count(t) > 255 || any_control(t) {
        return Err(ReleaseError::InvalidComment);
    }
    Ok(c)
}

/// A freeze log entry of the user.
pub struct FreezeLog {
    pub id: u64,
    pub trigger_rule: String,
    pub frozen_action: String,
    pub status: String,
}

/// Where the linked freeze is the user's refund-frequency freeze still in
/// force, releasing it reactivates the wallet only where no other freeze is
/// in force and the user is active.
pub open spec fn release_spec(freeze_id: u64, logs: Seq<FreezeLog>, user_active: bool) -> Result<
    bool,
    ReleaseError,
> {
    if !(exists|i: int| 0 <= i < logs.len() && (#[trigger] logs[i]).id == freeze_id) {
        Err(ReleaseError::FreezeMismatch)
    } else {
        let i = choose|i: int| 0 <= i < logs.len() && (#[trigger] logs[i]).id == freeze_id && (
        forall|j: int| 0 <= j < i ==> (#[trigger] logs[j]).id != freeze_id);
        let target = logs[i];
        if target.trigger_rule@ != "wallet_refund_frequency"@ || target.frozen_action@
            != "wallet_refund"@ || target.status@ != "frozen"@ {
            Err(ReleaseError::CauseChanged)
        } else {
            Ok(
                !(exists|j: int|
                    0 <= j < logs.len() && (#[trigger] logs[j]).id != freeze_id && logs[j].status@
                        == "frozen"@) && user_active,
            )
        }
    }
}

/// The first log with the given id.
fn find_log(logs: &[FreezeLog], freeze_id: u64) -> (r: Option<usize>)
    ensures
        match r {
            Some(i) => i < logs@.len() && logs@[i as int].id == freeze_id && forall|j: int|
                0 <= j < i ==> (#[trigger] logs@[j]).id != freeze_id,
            None => forall|j: int| 0 <= j < logs@.len() ==> (#[trigger] logs@[j]).id != freeze_id,
        },
{
    let mut i: usize = 0;
    while i < logs.len()
        invariant
            i <= logs@.len(),
            forall|j: int| 0 <= j < i ==> (#[trigger] logs@[j]).id != freeze_id,
        decreases logs@.len() - i,
    {
        if logs[i].id == freeze_id {
            return Some(i);
        }
        i = i + 1;
    }
    None
}

/// Decides a release: `Ok(true)` where the wallet becomes active again.
pub fn release(freeze_id: u64, logs: &[FreezeLog], user_active: bool) -> (r: Result<bool, ReleaseError>)
    ensures
        r == release_spec(freeze_id, logs@, user_active),
{
    let i = match find_log(logs, freeze_id) {
        Some(i) => i,
        None => {
            return Err(ReleaseError::FreezeMismatch);
        },
    };
    proof {
        let k = choose|k: int| 0 <= k < logs@.len() && (#[trigger] logs@[k]).id == freeze_id && (
        forall|j: int| 0 <= j < k ==> (#[trigger] logs@[j]).id != freeze_id);
        assert(0 <= i < logs@.len() && logs@[i as int].id == freeze_id && (forall|j: int|
            0 <= j < i ==> (#[trigger] logs@[j]).id != freeze_id));
        if k < i {
            assert(logs@[k].id != freeze_id);
        }
        if k > i {
            assert(logs@[i as int].id != freeze_id);
        }
        assert(k == i);
    }
    let target = &logs[i];
    if !is_text(&target.trigger_rule, "wallet_refund_frequency") || !is_text(
        &target.frozen_action,
        "wallet_refund",
    ) || !is_text(&target.status, "frozen") {
        return Err(ReleaseError::CauseChanged);
    }
    let mut other = false;
    let mut j: usize = 0;
    while j < logs.len()
        invariant
            j <= logs@.len(),
            other == exists|k: int|
                0 <= k < j && (#[trigger] logs@[k]).id != freeze_id && logs@[k].status@
                    == "frozen"@,
        decreases logs@.len() - j,
    {
        if logs[j].id != freeze_id && is_text(&logs[j].status, "frozen") {
            other = true;
        }
        j = j + 1;
    }
    Ok(!other && user_active)
}

/// Another hold stays: while some other freeze of the user is in force, a
/// release never reactivates the wallet.
pub proof fn lemma_other_freeze_keeps_wallet_frozen(
    freeze_id: u64,
    logs: Seq<FreezeLog>,
    user_active: bool,
    k: int,
)
    requires
        0 <= k < logs.len(),
        logs[k].id != freeze_id,
        logs[k].status@ == "frozen"@,
    ensures
        release_spec(freeze_id, logs, user_active) != Ok::<bool, ReleaseError>(true),
{
}

#[derive(Debug, Clone, Copy, PartialEq, Eq, Structural)]
pub enum ManualRefundError {
    /// The request id is not a UUID.
    InvalidId,
    /// No order or approver, an amount outside 1 to `i32::MAX`, or a bad
    /// reason.
    InvalidRequest,
}

/// A manual refund request.
pub struct ManualRefundRequest {
    pub request_id: String,
    pub amount_cents: i64,
    pub reason: String,
}

pub open spec fn manual_ok(cid: u64, actor: u64, r: ManualRefundRequest) -> bool {
    cid != 0 && actor != 0 && 0 < r.amount_cents <= i32::MAX && note_ok(r.reason@)
}

/// The simple form of a UUID: its canonical form without hyphens.
pub open spec fn simple_form(c: Seq<char>) -> Seq<char> {
    c.filter(|x: char| x != '-')
}

/// The refund number of a manual refund: `MAN` and the request id's simple
/// form.
pub open spec fn manual_refund_no(c: Seq<char>) -> Seq<char> {
    "MAN"@ + simple_form(c)
}

fn without_hyphens(c: &str) -> (r: String)
    ensures
        r@ == simple_form(c@),
{
    let n = vstd::string::StrSliceExecFns::unicode_len(c);
    let mut out = String::new();
    let mut i: usize = 0;
    while i < n
        invariant
            n == c@.len(),
            i <= n,
            out@ == c@.take(i as int).filter(|x: char| x != '-'),
        decreases n - i,
    {
        let ch = vstd::string::StrSliceExecFns::get_char(c, i);
        proof {
            assert(c@.take(i + 1).drop_last() =~= c@.take(i as int));
            assert(c@.take(i + 1).last() == ch);
            c@.take(i as int).lemma_filter_push(ch, |x: char| x != '-');
            assert(c@.take(i as int).push(ch) =~= c@.take(i + 1));
        }
        if ch != '-' {
            let piece = vstd::string::StrSliceExecFns::substring_char(c, i, i + 1);
            proof {
                assert(piece@ =~= seq![ch]);
            }
            out.append(piece);
            proof {
                assert(out@ =~= c@.take(i as int).filter(|x: char| x != '-').push(ch));
            }
        }
        i = i + 1;
    }
    proof {
        assert(c@.take(n as int) =~= c@);
    }
    out
}

/// Checks a manual refund request; returns the canonical request id, the
/// trimmed reason and the refund number to create.
pub fn check_manual(cid: u64, actor: u64, r: &ManualRefundRequest) -> (res: Result<
    (String, String, String),
    ManualRefundError,
>)
    ensures
        match uuid_canonical(r.request_id@) {
            None => res == Err::<(String, String, String), ManualRefundError>(
                ManualRefundError::InvalidId,
            ),
            Some(c) => if manual_ok(cid, actor, *r) {
                res matches Ok(v) && v.0@ == c && v.1@ == trim(r.reason@) && v.2@
                    == manual_refund_no(c)
            } else {
                res == Err::<(String, String, String), ManualRefundError>(
                    ManualRefundError::InvalidRequest,
                )
            },
        },
{
    let c = match canonical_uuid(r.request_id.as_str()) {
        Some(c) => c,
        None => {
            return Err(ManualRefundError::InvalidId);
        },
    };
    let (ok, reason) = crate::text::check_note(r.reason.as_str());
    if cid == 0 || actor == 0 || r.amount_cents <= 0 || r.amount_cents > i32::MAX as i64 || !ok {
        return Err(ManualRefundError::InvalidRequest);
    }
    let no = String::from_str("MAN").concat(without_hyphens(c.as_str()).as_str());
    Ok((c, reason.to_owned(), no))
}

} // verus!
