//! A user's STOP: kept until the device confirms it with a final reading,
//! and the port stays taken until then.
use vstd::prelude::*;
use crate::contracts::ChargeEndMeter;
use crate::text::{is_text, str_eq, string_eq, utf8_len, Instant};

verus! {

/// The largest reading a device may report, in watt-hours.
pub const MAX_CHARGED_WH: u64 = 100_000_000;

/// The longest charge a device may report, in seconds (a week).
pub const MAX_CHARGED_SECONDS: u32 = 604_800;

/// How far in the future a reported end may lie, in seconds.
pub const END_SKEW_SECS: i64 = 300;

/// Whether instant `t` lies after `now` plus the allowed skew, in chrono's
/// order (`now` is a clock reading, never inside a leap second).
pub open spec fn beyond_skew(t: Instant, now: Instant) -> bool {
    t.0 > now.0 + END_SKEW_SECS || (t.0 == now.0 + END_SKEW_SECS && t.1 > now.1)
}

/// Whether a final reading is plausible at `now`.
pub open spec fn meter_plausible(m: ChargeEndMeter, now: Instant) -> bool {
    m.charged_wh <= MAX_CHARGED_WH && m.charged_seconds <= MAX_CHARGED_SECONDS && !beyond_skew(
        m.ended(),
        now,
    )
}

pub fn meter_ok(m: &ChargeEndMeter, now: Instant) -> (r: bool)
    requires
        now.1 < 1_000_000_000,
    ensures
        r == meter_plausible(*m, now),
{
    let limit = now.0 as i128 + END_SKEW_SECS as i128;
    let t = m.ended_secs as i128;
    let beyond = t > limit || (t == limit && m.ended_nanos > now.1);
    m.charged_wh <= MAX_CHARGED_WH && m.charged_seconds <= MAX_CHARGED_SECONDS && !beyond
}

/// A stop request as the user service sends it.
pub struct StopRequest {
    pub order_no: String,
    pub user_id: u64,
    pub source: String,
}

pub open spec fn stop_request_ok(r: StopRequest) -> bool {
    r.order_no@.len() > 0 && utf8_len(r.order_no@) <= 64 && r.user_id != 0 && r.source@
        == "user_app"@
}

pub fn check_request(r: &StopRequest) -> (ok: bool)
    ensures
        ok == stop_request_ok(*r),
{
    let n = r.order_no.as_str();
    !n.is_empty() && n.len() <= 64 && r.user_id != 0 && is_text(&r.source, "user_app")
}

/// The stored state of a STOP command.
#[derive(Debug, Clone, Copy, PartialEq, Eq, Structural)]
pub enum StopStatus {
    Pending,
    Sent,
    /// The device confirmed the stop and its reading is stored.
    Acked,
    Other,
}

/// A stored STOP command.
pub struct StopCommand {
    pub command_id: String,
    pub order_no: String,
    pub user_id: u64,
    pub device_id: String,
    pub port_no: u8,
    pub status: StopStatus,
    pub session_id: Option<String>,
    pub meter: Option<ChargeEndMeter>,
    pub result_reported: bool,
}

/// The answer to a stop request: accepted, and whether it is already done.
pub fn answer(saved: &StopCommand, req: &StopRequest) -> (r: Result<bool, ()>)
    ensures
        (saved.user_id == req.user_id && saved.order_no@ == req.order_no@) ==> r == Ok::<bool, ()>(
            saved.result_reported,
        ),
        !(saved.user_id == req.user_id && saved.order_no@ == req.order_no@) ==> r is Err,
{
    if saved.user_id != req.user_id || !string_eq(&saved.order_no, &req.order_no) {
        return Err(());
    }
    Ok(saved.result_reported)
}

/// The next thing to do for a STOP command.
#[derive(Debug, Clone, Copy, PartialEq, Eq, Structural)]
pub enum StopPlan {
    /// Reported already.
    Finished,
    /// Written less than 2 s (in nanoseconds) ago: wait.
    Wait,
    /// Write STOP (again) on the device's current connection.
    Send,
    /// Confirmed: report the reading to the user service.
    Report,
}

pub open spec fn stop_plan_spec(c: StopCommand, sent_age: Option<i64>) -> StopPlan {
    if c.result_reported {
        StopPlan::Finished
    } else if c.status == StopStatus::Pending || c.status == StopStatus::Sent {
        if sent_age matches Some(a) && a < 2_000_000_000 {
            StopPlan::Wait
        } else {
            StopPlan::Send
        }
    } else {
        StopPlan::Report
    }
}

pub fn stop_plan(c: &StopCommand, sent_age: Option<i64>) -> (r: StopPlan)
    ensures
        r == stop_plan_spec(*c, sent_age),
{
    if c.result_reported {
        return StopPlan::Finished;
    }
    if c.status == StopStatus::Pending || c.status == StopStatus::Sent {
        let recent = match sent_age {
            Some(a) => a < 2_000_000_000,
            None => false,
        };
        if recent {
            StopPlan::Wait
        } else {
            StopPlan::Send
        }
    } else {
        StopPlan::Report
    }
}

/// A device's answer to a STOP command.
pub struct StopAck {
    pub device_id: String,
    pub port_no: Option<u8>,
    pub command: Option<String>,
    pub success: Option<bool>,
    /// The reading, where the answer carries one that reads as a meter.
    pub meter: Option<ChargeEndMeter>,
}

/// What an answer does to its STOP command.
#[derive(Debug, Clone, Copy, PartialEq, Eq, Structural)]
pub enum StopAckEffect {
    /// A refusal: the STOP stays and is sent again.
    Keep,
    /// Confirmed: store the reading and mark the command acked.
    Confirm(ChargeEndMeter),
}

pub open spec fn stop_ack_spec(c: StopCommand, f: StopAck, session: Seq<char>, now: Instant) -> Option<
    StopAckEffect,
> {
    if !(c.device_id@ == f.device_id@ && f.port_no == Some(c.port_no) && (c.session_id matches Some(
        s,
    ) && s@ == session) && (f.command matches Some(k) && k@ == "STOP"@)) {
        None
    } else {
        match f.success {
            None => None,
            Some(false) => Some(StopAckEffect::Keep),
            Some(true) => match f.meter {
                None => None,
                Some(m) => if !meter_plausible(m, now) || (c.meter matches Some(old) && old != m) {
                    None
                } else {
                    Some(StopAckEffect::Confirm(m))
                },
            },
        }
    }
}

/// Decides what a device's answer does to the STOP command it names;
/// `Err` where it does not belong to the command or cannot be read.
pub fn stop_acknowledge(c: &StopCommand, f: &StopAck, session: &str, now: Instant) -> (r: Result<
    StopAckEffect,
    (),
>)
    requires
        now.1 < 1_000_000_000,
    ensures
        match stop_ack_spec(*c, *f, session@, now) {
            Some(e) => r == Ok::<StopAckEffect, ()>(e),
            None => r is Err,
        },
{
    let port_ok = match f.port_no {
        Some(p) => p == c.port_no,
        None => false,
    };
    let session_ok = match &c.session_id {
        Some(s) => str_eq(s.as_str(), session),
        None => false,
    };
    let command_ok = match &f.command {
        Some(k) => is_text(k, "STOP"),
        None => false,
    };
    if !string_eq(&c.device_id, &f.device_id) || !port_ok || !session_ok || !command_ok {
        return Err(());
    }
    match f.success {
        None => Err(()),
        Some(false) => Ok(StopAckEffect::Keep),
        Some(true) => match f.meter {
            None => Err(()),
            Some(m) => {
                let differs = match c.meter {
                    Some(old) => old != m,
                    None => false,
                };
                if !meter_ok(&m, now) || differs {
                    Err(())
                } else {
                    Ok(StopAckEffect::Confirm(m))
                }
            },
        },
    }
}

/// A STOP keeps the port until the device confirms it with a reading: a
/// STOP that is pending or sent is never reported, and only an answer from
/// the device, on the connection that carried the STOP, with success and a
/// plausible reading confirms it, with that reading.
pub proof fn lemma_stop_needs_a_metered_answer(
    c: StopCommand,
    f: StopAck,
    session: Seq<char>,
    now: Instant,
    sent_age: Option<i64>,
)
    ensures
        (c.status == StopStatus::Pending || c.status == StopStatus::Sent) ==> stop_plan_spec(
            c,
            sent_age,
        ) != StopPlan::Report,
        stop_ack_spec(c, f, session, now) matches Some(StopAckEffect::Confirm(m)) ==> {
            &&& f.success == Some(true)
            &&& f.meter == Some(m)
            &&& meter_plausible(m, now)
            &&& f.device_id@ == c.device_id@
            &&& c.session_id matches Some(s) && s@ == session
        },
{
}

} // verus!
