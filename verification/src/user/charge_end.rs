//! The end of a charge, as a confirmed device STOP reports it: its final
//! reading is recorded once and never replaced.
use vstd::prelude::*;
use crate::billing::quote_pricing::{format_kwh, kwh_text};
use crate::contracts::{ChargeEndMeter, ChargeEndRequest};
use crate::gateway::charge_stop::{meter_ok, meter_plausible};
use crate::billing::metered_pricing::{elapsed_seconds, lemma_duration_range, trunc_div};
use crate::text::{canonical_uuid, duration_between, str_eq, string_eq, uuid_canonical, Instant};
use crate::user::status::ChargeStatus;

verus! {

/// The end report disagrees with the order or with what was recorded.
#[derive(Debug, Clone, Copy, PartialEq, Eq, Structural)]
pub enum EndConflict {
    Conflict,
}

/// The canonical start and stop command ids of a report, where both are
/// UUIDs and the report is plausible at `now`.
pub open spec fn report_ids(order: Seq<char>, req: ChargeEndRequest, now: Instant) -> Option<
    (Seq<char>, Seq<char>),
> {
    match (uuid_canonical(req.start_command_id@), uuid_canonical(req.stop_command_id@)) {
        (Some(a), Some(b)) => if order == req.order_no@ && req.port_id != 0 && req.port_no != 0
            && meter_plausible(req.meter, now) {
            Some((a, b))
        } else {
            None
        },
        _ => None,
    }
}

/// Checks a report's own fields; returns its canonical command ids.
pub fn check_report(order: &str, req: &ChargeEndRequest, now: Instant) -> (r: Result<
    (String, String),
    EndConflict,
>)
    requires
        now.1 < 1_000_000_000,
    ensures
        match report_ids(order@, *req, now) {
            Some(ids) => r matches Ok(v) && v.0@ == ids.0 && v.1@ == ids.1,
            None => r is Err,
        },
{
    let start = match canonical_uuid(req.start_command_id.as_str()) {
        Some(c) => c,
        None => {
            return Err(EndConflict::Conflict);
        },
    };
    let stop = match canonical_uuid(req.stop_command_id.as_str()) {
        Some(c) => c,
        None => {
            return Err(EndConflict::Conflict);
        },
    };
    if !str_eq(order, req.order_no.as_str()) || req.port_id == 0 || req.port_no == 0 || !meter_ok(
        &req.meter,
        now,
    ) {
        return Err(EndConflict::Conflict);
    }
    Ok((start, stop))
}

/// The order the report names, as stored.
pub struct EndOrder {
    pub device_id: String,
    pub port_no: u8,
    pub status: ChargeStatus,
    /// Start of charging.
    pub started_at: Instant,
}

/// The recorded START answer: command id, port id and success.
pub struct StartRecord {
    pub command_id: String,
    pub port_id: Option<u64>,
    pub success: bool,
}

/// A recorded end: its STOP command id and its reading.
pub struct EndRecord {
    pub stop_command_id: String,
    pub meter: ChargeEndMeter,
}

/// What a report does.
pub enum EndEffect {
    /// The same end was recorded before.
    Replay,
    /// Complete the order with this reading, written in kWh.
    Complete { kwh: String },
}

pub open spec fn end_spec(
    req: ChargeEndRequest,
    start: Seq<char>,
    stop: Seq<char>,
    rows: Seq<EndOrder>,
    started: Option<StartRecord>,
    existing: Option<EndRecord>,
) -> Option<bool> {
    if rows.len() != 1 || rows[0].device_id@ != req.device_id@ || rows[0].port_no != req.port_no {
        None
    } else if !(started matches Some(s) && s.command_id@ == start && s.port_id == Some(req.port_id)
        && s.success) {
        None
    } else {
        match existing {
            Some(e) => if e.stop_command_id@ == stop && e.meter == req.meter {
                Some(false)
            } else {
                None
            },
            None => {
                let secs = elapsed_seconds(rows[0].started_at, req.meter.ended());
                if rows[0].status != ChargeStatus::Charging || secs < 0 || req.meter.charged_seconds
                    > secs + 300 {
                    None
                } else {
                    Some(true)
                }
            },
        }
    }
}

/// Decides what a checked report does to its order. `Some(true)` in the
/// contract stands for completing the order, `Some(false)` for a replay.
pub fn decide(
    req: &ChargeEndRequest,
    start: &String,
    stop: &String,
    rows: &[EndOrder],
    started: &Option<StartRecord>,
    existing: &Option<EndRecord>,
) -> (r: Result<EndEffect, EndConflict>)
    ensures
        match end_spec(*req, start@, stop@, rows@, *started, *existing) {
            None => r is Err,
            Some(false) => r matches Ok(EndEffect::Replay),
            Some(true) => r matches Ok(EndEffect::Complete { kwh }) && kwh@ == kwh_text(
                req.meter.charged_wh as nat,
            ),
        },
{
    if rows.len() != 1 || !string_eq(&rows[0].device_id, &req.device_id) || rows[0].port_no
        != req.port_no {
        return Err(EndConflict::Conflict);
    }
    let started_ok = match started {
        Some(s) => string_eq(&s.command_id, start) && s.port_id == Some(req.port_id) && s.success,
        None => false,
    };
    if !started_ok {
        return Err(EndConflict::Conflict);
    }
    match existing {
        Some(e) => {
            if string_eq(&e.stop_command_id, stop) && e.meter == req.meter {
                Ok(EndEffect::Replay)
            } else {
                Err(EndConflict::Conflict)
            }
        },
        None => {
            let ended = (req.meter.ended_secs, req.meter.ended_nanos);
            let d = duration_between(ended, rows[0].started_at);
            proof {
                lemma_duration_range(ended, rows[0].started_at);
            }
            let secs = trunc_div(d, 1_000_000_000);
            if rows[0].status != ChargeStatus::Charging || secs < 0 || (req.meter.charged_seconds
                as i128) > secs + 300 {
                return Err(EndConflict::Conflict);
            }
            Ok(EndEffect::Complete { kwh: format_kwh(req.meter.charged_wh) })
        },
    }
}

/// A recorded end is final: a second report with another STOP or another
/// reading is refused, and the same report changes nothing.
pub proof fn lemma_recorded_end_is_final(
    req: ChargeEndRequest,
    start: Seq<char>,
    stop: Seq<char>,
    rows: Seq<EndOrder>,
    started: Option<StartRecord>,
    e: EndRecord,
)
    ensures
        end_spec(req, start, stop, rows, started, Some(e)) != Some(true),
        (e.stop_command_id@ != stop || e.meter != req.meter) ==> end_spec(
            req,
            start,
            stop,
            rows,
            started,
            Some(e),
        ) is None,
{
}

} // verus!
