//! The durable START command and its compensating STOP. A command moves
//! forward only: a write to a socket is never taken for a device's answer,
//! and a late START answer never undoes a STOP or a final outcome.
use vstd::prelude::*;
use crate::text::{is_text, string_eq, utf8_len};

verus! {

/// The stored state of a START command.
#[derive(Debug, Clone, Copy, PartialEq, Eq, Structural)]
pub enum CommandStatus {
    /// Created; the port is reserved for it.
    Pending,
    /// Written to the device's connection; no answer yet.
    Sent,
    /// The outcome is uncertain: a STOP is being sent until confirmed.
    Stopping,
    /// The device confirmed the start.
    Acked,
    /// The start did not happen.
    Rejected,
    /// Any other stored value.
    Other,
}

pub open spec fn command_status_of(s: Seq<char>) -> CommandStatus {
    if s == "pending"@ {
        CommandStatus::Pending
    } else if s == "sent"@ {
        CommandStatus::Sent
    } else if s == "stopping"@ {
        CommandStatus::Stopping
    } else if s == "acked"@ {
        CommandStatus::Acked
    } else if s == "rejected"@ {
        CommandStatus::Rejected
    } else {
        CommandStatus::Other
    }
}

impl CommandStatus {
    /// The status a stored text names.
    pub fn parse(s: &String) -> (r: CommandStatus)
        ensures
            r == command_status_of(s@),
    {
        if is_text(s, "pending") {
            CommandStatus::Pending
        } else if is_text(s, "sent") {
            CommandStatus::Sent
        } else if is_text(s, "stopping") {
            CommandStatus::Stopping
        } else if is_text(s, "acked") {
            CommandStatus::Acked
        } else if is_text(s, "rejected") {
            CommandStatus::Rejected
        } else {
            CommandStatus::Other
        }
    }
}

/// The moves a command may make. Every decision below moves a command along
/// one of them or leaves it where it is.
pub open spec fn step_allowed(from: CommandStatus, to: CommandStatus) -> bool {
    ||| from == to
    ||| (from == CommandStatus::Pending && (to == CommandStatus::Sent || to
        == CommandStatus::Rejected))
    ||| (from == CommandStatus::Sent && (to == CommandStatus::Acked || to == CommandStatus::Rejected
        || to == CommandStatus::Stopping))
    ||| (from == CommandStatus::Stopping && to == CommandStatus::Rejected)
    ||| (from == CommandStatus::Acked && to == CommandStatus::Stopping)
}

/// A byte allowed in order numbers, device ids and port codes.
pub open spec fn ident_byte(b: u8) -> bool {
    ||| (48 <= b && b <= 57)
    ||| (65 <= b && b <= 90)
    ||| (97 <= b && b <= 122)
    ||| b == 45
    ||| b == 95
    ||| b == 58
    ||| b == 46
}

/// An identifier of 1 to 64 bytes, each an ASCII letter or digit or one of
/// `-_:.`.
pub open spec fn ident_ok(s: Seq<char>) -> bool {
    let b = vstd::utf8::encode_utf8(s);
    s.len() > 0 && utf8_len(s) <= 64 && forall|i: int| 0 <= i < b.len() ==> ident_byte(#[trigger] b[i])
}

pub fn ident(s: &String) -> (r: bool)
    ensures
        r == ident_ok(s@),
{
    let t = s.as_str();
    if t.is_empty() || t.len() > 64 {
        return false;
    }
    let b = t.as_bytes();
    let mut i: usize = 0;
    while i < b.len()
        invariant
            b@ == vstd::utf8::encode_utf8(s@),
            i <= b@.len(),
            forall|j: int| 0 <= j < i ==> ident_byte(#[trigger] b@[j]),
        decreases b@.len() - i,
    {
        let c = b[i];
        if !((48 <= c && c <= 57) || (65 <= c && c <= 90) || (97 <= c && c <= 122) || c == 45 || c
            == 95 || c == 58 || c == 46) {
            return false;
        }
        i = i + 1;
    }
    true
}

/// The `charge_started` event the user service publishes once an order is
/// paid.
pub struct Started {
    pub charge_order_id: u64,
    pub payment_order_id: u64,
    pub user_id: u64,
    pub order_no: String,
    pub device_id: String,
    pub port_no: u8,
    pub port_code: String,
}

pub open spec fn started_ok(p: Started) -> bool {
    &&& p.charge_order_id != 0
    &&& p.payment_order_id != 0
    &&& p.user_id != 0
    &&& p.port_no != 0
    &&& ident_ok(p.order_no@)
    &&& ident_ok(p.device_id@)
    &&& ident_ok(p.port_code@)
}

/// Whether a `charge_started` event is well formed.
pub fn check_started(p: &Started) -> (r: bool)
    ensures
        r == started_ok(*p),
{
    p.charge_order_id != 0 && p.payment_order_id != 0 && p.user_id != 0 && p.port_no != 0 && ident(
        &p.order_no,
    ) && ident(&p.device_id) && ident(&p.port_code)
}

/// A stored START command.
pub struct Command {
    pub command_id: String,
    pub stop_command_id: String,
    pub charge_order_id: u64,
    pub payment_order_id: u64,
    pub order_no: String,
    pub user_id: u64,
    pub device_id: String,
    pub port_no: u8,
    pub port_code: String,
    pub port_id: Option<u64>,
    pub owns_port: bool,
    pub status: CommandStatus,
    pub session_id: Option<String>,
    pub stop_session_id: Option<String>,
    pub result_reported: bool,
}

pub open spec fn same_spec(c: Command, p: Started) -> bool {
    &&& c.charge_order_id == p.charge_order_id
    &&& c.payment_order_id == p.payment_order_id
    &&& c.user_id == p.user_id
    &&& c.order_no@ == p.order_no@
    &&& c.device_id@ == p.device_id@
    &&& c.port_no == p.port_no
    &&& c.port_code@ == p.port_code@
}

/// Whether a stored command is the one a redelivered event describes.
pub fn same(c: &Command, p: &Started) -> (r: bool)
    ensures
        r == same_spec(*c, *p),
{
    c.charge_order_id == p.charge_order_id && c.payment_order_id == p.payment_order_id && c.user_id
        == p.user_id && string_eq(&c.order_no, &p.order_no) && string_eq(&c.device_id, &p.device_id)
        && c.port_no == p.port_no && string_eq(&c.port_code, &p.port_code)
}

/// The order as the user service reports it.
pub struct OrderView {
    pub order_id: u64,
    pub order_no: String,
    pub user_id: u64,
    pub device_id: String,
    pub port_no: u8,
    pub payment_order_id: Option<u64>,
    pub status: String,
    pub payment_status: Option<String>,
}

pub open spec fn order_agrees_spec(o: OrderView, p: Started) -> bool {
    &&& o.order_id == p.charge_order_id
    &&& o.order_no@ == p.order_no@
    &&& o.user_id == p.user_id
    &&& o.device_id@ == p.device_id@
    &&& o.port_no == p.port_no
    &&& o.payment_order_id == Some(p.payment_order_id)
    &&& o.status@ == "paid"@
    &&& o.payment_status matches Some(s) && s@ == "paid"@
}

/// Whether the user service's order is the paid order the event names.
pub fn order_agrees(o: &OrderView, p: &Started) -> (r: bool)
    ensures
        r == order_agrees_spec(*o, *p),
{
    let pay_paid = match &o.payment_status {
        Some(s) => is_text(s, "paid"),
        None => false,
    };
    o.order_id == p.charge_order_id && string_eq(&o.order_no, &p.order_no) && o.user_id == p.user_id
        && string_eq(&o.device_id, &p.device_id) && o.port_no == p.port_no && o.payment_order_id
        == Some(p.payment_order_id) && is_text(&o.status, "paid") && pay_paid
}

/// Why a START command is created already rejected.
#[derive(Debug, Clone, Copy, PartialEq, Eq, Structural)]
pub enum StartRefusal {
    PortMissing,
    ReservationLost,
    DeviceDisabled,
    PortOccupied,
}

/// The port row a new command would take.
pub struct PortRow {
    pub id: u64,
    pub status: String,
    pub current_order_id: Option<String>,
    pub device_status: String,
    pub vendor_status: String,
}

pub open spec fn refusal_spec(rows: Seq<PortRow>, held: bool) -> Option<StartRefusal> {
    if rows.len() == 0 {
        Some(StartRefusal::PortMissing)
    } else if !held {
        Some(StartRefusal::ReservationLost)
    } else if rows[0].device_status@ != "enabled"@ || rows[0].vendor_status@ != "enabled"@ {
        Some(StartRefusal::DeviceDisabled)
    } else if rows[0].status@ != "idle"@ || rows[0].current_order_id is Some {
        Some(StartRefusal::PortOccupied)
    } else {
        None
    }
}

/// Decides how a new command starts: `Ok(None)` to take the port and wait
/// for sending, `Ok(Some(why))` to record it as rejected. More than one port
/// row is an inconsistency.
pub fn creation(rows: &[PortRow], held: bool) -> (r: Result<Option<StartRefusal>, ()>)
    ensures
        rows@.len() > 1 ==> r is Err,
        rows@.len() <= 1 ==> r == Ok::<Option<StartRefusal>, ()>(refusal_spec(rows@, held)),
{
    if rows.len() > 1 {
        return Err(());
    }
    if rows.len() == 0 {
        return Ok(Some(StartRefusal::PortMissing));
    }
    let port = &rows[0];
    if !held {
        Ok(Some(StartRefusal::ReservationLost))
    } else if !is_text(&port.device_status, "enabled") || !is_text(&port.vendor_status, "enabled") {
        Ok(Some(StartRefusal::DeviceDisabled))
    } else if !is_text(&port.status, "idle") || port.current_order_id.is_some() {
        Ok(Some(StartRefusal::PortOccupied))
    } else {
        Ok(None)
    }
}

/// The status a command is created with.
pub open spec fn created_status(refusal: Option<StartRefusal>) -> CommandStatus {
    if refusal is Some {
        CommandStatus::Rejected
    } else {
        CommandStatus::Pending
    }
}

/// The next thing to do for a command that has not been reported.
#[derive(Debug, Clone, Copy, PartialEq, Eq, Structural)]
pub enum DrivePlan {
    /// Its outcome is reported: done.
    Finished,
    /// Check the reservation and the connection, then send START.
    SendStart,
    /// No answer within 20 s: move to `Stopping` (`start_ack_timeout`).
    TimeOut,
    /// Wait for the device's answer.
    Wait,
    /// Send STOP again (or for the first time).
    SendStop,
    /// Report the outcome to the user service.
    Report { success: bool },
    /// The stored status is not one of ours.
    Unknown,
}

/// Nanoseconds after which a sent START counts as unanswered (20 s).
pub const START_ACK_TIMEOUT_NS: i64 = 20_000_000_000;

/// Nanoseconds between two STOP writes (2 s).
pub const STOP_RESEND_NS: i64 = 2_000_000_000;

/// What driving a command does next, given how long ago START and STOP were
/// written, in nanoseconds, where they were.
pub open spec fn plan_spec(
    status: CommandStatus,
    reported: bool,
    start_age: Option<i64>,
    stop_age: Option<i64>,
) -> DrivePlan {
    if reported {
        DrivePlan::Finished
    } else {
        match status {
            CommandStatus::Pending => DrivePlan::SendStart,
            CommandStatus::Sent => if start_age matches Some(a) && a > START_ACK_TIMEOUT_NS {
                DrivePlan::TimeOut
            } else {
                DrivePlan::Wait
            },
            CommandStatus::Stopping => if stop_age matches Some(a) && a < STOP_RESEND_NS {
                DrivePlan::Wait
            } else {
                DrivePlan::SendStop
            },
            CommandStatus::Acked => DrivePlan::Report { success: true },
            CommandStatus::Rejected => DrivePlan::Report { success: false },
            CommandStatus::Other => DrivePlan::Unknown,
        }
    }
}

pub fn plan(status: CommandStatus, reported: bool, start_age: Option<i64>, stop_age: Option<i64>) -> (r:
    DrivePlan)
    ensures
        r == plan_spec(status, reported, start_age, stop_age),
{
    if reported {
        return DrivePlan::Finished;
    }
    match status {
        CommandStatus::Pending => DrivePlan::SendStart,
        CommandStatus::Sent => {
            let late = match start_age {
                Some(a) => a > START_ACK_TIMEOUT_NS,
                None => false,
            };
            if late {
                DrivePlan::TimeOut
            } else {
                DrivePlan::Wait
            }
        },
        CommandStatus::Stopping => {
            let recent = match stop_age {
                Some(a) => a < STOP_RESEND_NS,
                None => false,
            };
            if recent {
                DrivePlan::Wait
            } else {
                DrivePlan::SendStop
            }
        },
        CommandStatus::Acked => DrivePlan::Report { success: true },
        CommandStatus::Rejected => DrivePlan::Report { success: false },
        CommandStatus::Other => DrivePlan::Unknown,
    }
}

/// A command's outcome is reported exactly when it is settled and not yet
/// reported, and the user service hears of a started charge only where the
/// device acknowledged START: a refused command (by the device, or for a
/// lost hold or a missing connection) is reported as not started.
pub proof fn lemma_report_success_is_ack(
    status: CommandStatus,
    reported: bool,
    start_age: Option<i64>,
    stop_age: Option<i64>,
)
    ensures
        ({
            let p = plan_spec(status, reported, start_age, stop_age);
            p is Report ==> !reported && (status == CommandStatus::Acked || status
                == CommandStatus::Rejected) && p->success == (status == CommandStatus::Acked)
        }),
        !reported && status == CommandStatus::Acked ==> (plan_spec(status, reported, start_age, stop_age)
            == (DrivePlan::Report { success: true })),
        !reported && status == CommandStatus::Rejected ==> (plan_spec(status, reported, start_age, stop_age)
            == (DrivePlan::Report { success: false })),
{
}

/// How an unreported command is driven: a pending one is sent; one sent
/// more than 20 s ago without an answer times out, else it waits; one being
/// stopped waits for 2 s after each STOP and then sends STOP again; and once
/// reported nothing more is done.
pub proof fn lemma_drive_timing(
    status: CommandStatus,
    reported: bool,
    start_age: Option<i64>,
    stop_age: Option<i64>,
)
    ensures
        reported ==> plan_spec(status, reported, start_age, stop_age) == DrivePlan::Finished,
        !reported && status == CommandStatus::Pending ==> plan_spec(status, reported, start_age, stop_age)
            == DrivePlan::SendStart,
        !reported && status == CommandStatus::Sent ==> (plan_spec(status, reported, start_age, stop_age)
            == DrivePlan::TimeOut <==> (start_age matches Some(a) && a > 20_000_000_000)),
        !reported && status == CommandStatus::Sent ==> (plan_spec(status, reported, start_age, stop_age)
            == DrivePlan::TimeOut || plan_spec(status, reported, start_age, stop_age) == DrivePlan::Wait),
        !reported && status == CommandStatus::Stopping ==> (plan_spec(status, reported, start_age, stop_age)
            == DrivePlan::Wait <==> (stop_age matches Some(a) && a < 2_000_000_000)),
        !reported && status == CommandStatus::Stopping ==> (plan_spec(status, reported, start_age, stop_age)
            == DrivePlan::Wait || plan_spec(status, reported, start_age, stop_age) == DrivePlan::SendStop),
{
}

/// Why a pending START is refused before it is written.
#[derive(Debug, Clone, Copy, PartialEq, Eq, Structural)]
pub enum StartRejection {
    /// The user's hold on the port is gone (`reservation_lost`).
    ReservationLost,
    /// The device has no connection (`device_offline`).
    DeviceOffline,
}

/// What sending a pending START does.
#[derive(Debug, Clone, Copy, PartialEq, Eq, Structural)]
pub enum StartStep {
    /// Mark the command rejected for this reason.
    Reject(StartRejection),
    /// The port's physical lock is taken by another: try again later.
    Wait,
    /// START is written, or another driver moved the command on first.
    Sent,
    /// The START write failed part way: its effect on the device is unknown,
    /// so move to `Stopping` (`start_write_uncertain`).
    Uncertain,
}

/// The outcome of sending a pending START, from what each step found in
/// turn: whether the user still holds the port, whether the device is
/// connected, whether the physical lock was taken, and, where the command
/// was moved to `Sent` by this driver, whether the frame was written.
pub open spec fn start_step_spec(held: bool, online: bool, locked: bool, write_ok: Option<bool>) -> StartStep {
    if !held {
        StartStep::Reject(StartRejection::ReservationLost)
    } else if !online {
        StartStep::Reject(StartRejection::DeviceOffline)
    } else if !locked {
        StartStep::Wait
    } else if write_ok == Some(false) {
        StartStep::Uncertain
    } else {
        StartStep::Sent
    }
}

pub fn start_step(held: bool, online: bool, locked: bool, write_ok: Option<bool>) -> (r: StartStep)
    ensures
        r == start_step_spec(held, online, locked, write_ok),
{
    if !held {
        StartStep::Reject(StartRejection::ReservationLost)
    } else if !online {
        StartStep::Reject(StartRejection::DeviceOffline)
    } else if !locked {
        StartStep::Wait
    } else if write_ok == Some(false) {
        StartStep::Uncertain
    } else {
        StartStep::Sent
    }
}

/// A START whose write may have reached the device is never simply
/// rejected: a failed write leads to STOP compensation, and only a lost
/// hold or a missing connection, both before anything is written, reject it.
pub proof fn lemma_uncertain_start_is_stopped(held: bool, online: bool, locked: bool, write_ok: Option<bool>)
    ensures
        write_ok == Some(false) && held && online && locked ==> start_step_spec(
            held,
            online,
            locked,
            write_ok,
        ) == StartStep::Uncertain,
        start_step_spec(held, online, locked, write_ok) is Reject ==> !held || !online,
{
}

/// How the user service answered a reported outcome.
#[derive(Debug, Clone, Copy, PartialEq, Eq, Structural)]
pub enum ReportReply {
    /// It answered `{"ok": true}`.
    Accepted,
    /// It refused the outcome as conflicting with the order.
    Conflict,
    /// Any other answer or failure.
    Failed,
}

/// What follows a reported outcome.
#[derive(Debug, Clone, Copy, PartialEq, Eq, Structural)]
pub enum ReportOutcome {
    /// Mark the command reported; free the port where a rejected command had
    /// taken it.
    Finish { release_port: bool },
    /// A start the order cannot take: stop the device
    /// (`order_confirmation_conflict`).
    Compensate,
    /// Keep the command as it is and retry later.
    Retry,
}

pub open spec fn report_spec(status: CommandStatus, owns_port: bool, reply: ReportReply) -> ReportOutcome {
    match reply {
        ReportReply::Accepted => ReportOutcome::Finish {
            release_port: status == CommandStatus::Rejected && owns_port,
        },
        ReportReply::Conflict => if status == CommandStatus::Acked {
            ReportOutcome::Compensate
        } else {
            ReportOutcome::Retry
        },
        ReportReply::Failed => ReportOutcome::Retry,
    }
}

pub fn after_report(status: CommandStatus, owns_port: bool, reply: ReportReply) -> (r: ReportOutcome)
    ensures
        r == report_spec(status, owns_port, reply),
{
    match reply {
        ReportReply::Accepted => ReportOutcome::Finish {
            release_port: status == CommandStatus::Rejected && owns_port,
        },
        ReportReply::Conflict => if status == CommandStatus::Acked {
            ReportOutcome::Compensate
        } else {
            ReportOutcome::Retry
        },
        ReportReply::Failed => ReportOutcome::Retry,
    }
}

/// A device's answer to a START or STOP command.
pub struct AckFrame {
    pub device_id: String,
    pub port_no: Option<u8>,
    /// `START` or `STOP`.
    pub command: String,
    pub command_id: String,
    pub success: bool,
}

/// What an answer does to its command.
#[derive(Debug, Clone, Copy, PartialEq, Eq, Structural)]
pub enum AckEffect {
    /// Nothing: a late or repeated answer.
    Keep,
    /// The device started: `Acked`, and the port is charging.
    Started,
    /// The device refused to start: `Rejected` (`device_rejected_start`).
    Refused,
    /// The STOP was confirmed: `Rejected`.
    Stopped,
}

/// Whether the answer comes from the command's device and port and from the
/// connection the command was written to.
pub open spec fn ack_matches(c: Command, f: AckFrame, session: Seq<char>) -> bool {
    let stop = f.command_id@ == c.stop_command_id@;
    &&& c.device_id@ == f.device_id@
    &&& f.port_no == Some(c.port_no)
    &&& if stop {
        f.command@ == "STOP"@ && (c.stop_session_id matches Some(s) && s@ == session)
    } else {
        f.command@ == "START"@ && (c.session_id matches Some(s) && s@ == session)
    }
}

pub open spec fn ack_spec(c: Command, f: AckFrame) -> AckEffect {
    if f.command_id@ == c.stop_command_id@ {
        if f.success && c.status == CommandStatus::Stopping {
            AckEffect::Stopped
        } else {
            AckEffect::Keep
        }
    } else if c.status == CommandStatus::Sent {
        if f.success {
            AckEffect::Started
        } else {
            AckEffect::Refused
        }
    } else {
        AckEffect::Keep
    }
}

/// The status a command has after an answer's effect.
pub open spec fn status_after(s: CommandStatus, e: AckEffect) -> CommandStatus {
    match e {
        AckEffect::Keep => s,
        AckEffect::Started => CommandStatus::Acked,
        AckEffect::Refused => CommandStatus::Rejected,
        AckEffect::Stopped => CommandStatus::Rejected,
    }
}

/// Decides what a device's answer does to the command it names.
pub fn acknowledge(c: &Command, f: &AckFrame, session: &str) -> (r: Result<AckEffect, ()>)
    ensures
        ack_matches(*c, *f, session@) ==> r == Ok::<AckEffect, ()>(ack_spec(*c, *f)),
        !ack_matches(*c, *f, session@) ==> r is Err,
        r matches Ok(e) ==> step_allowed(c.status, status_after(c.status, e)),
{
    let port_ok = match f.port_no {
        Some(p) => p == c.port_no,
        None => false,
    };
    if !string_eq(&c.device_id, &f.device_id) || !port_ok {
        return Err(());
    }
    let stop = string_eq(&f.command_id, &c.stop_command_id);
    if stop {
        let same_session = match &c.stop_session_id {
            Some(s) => crate::text::str_eq(s.as_str(), session),
            None => false,
        };
        if !is_text(&f.command, "STOP") || !same_session {
            return Err(());
        }
        if f.success && c.status == CommandStatus::Stopping {
            Ok(AckEffect::Stopped)
        } else {
            Ok(AckEffect::Keep)
        }
    } else {
        let same_session = match &c.session_id {
            Some(s) => crate::text::str_eq(s.as_str(), session),
            None => false,
        };
        if !is_text(&f.command, "START") || !same_session {
            return Err(());
        }
        if c.status == CommandStatus::Sent {
            if f.success {
                Ok(AckEffect::Started)
            } else {
                Ok(AckEffect::Refused)
            }
        } else {
            Ok(AckEffect::Keep)
        }
    }
}

/// A final outcome stays final: once a command is rejected, no move leads
/// anywhere else, and a command becomes acked only from `Sent`, that is by a
/// device's answer and never by the write that sent it.
pub proof fn lemma_final_outcome_stays(to: CommandStatus, from: CommandStatus)
    ensures
        step_allowed(CommandStatus::Rejected, to) ==> to == CommandStatus::Rejected,
        step_allowed(from, CommandStatus::Acked) ==> from == CommandStatus::Sent || from
            == CommandStatus::Acked,
{
}

/// A START answer that arrives once STOP compensation began, or once the
/// outcome is known, changes nothing.
pub proof fn lemma_late_start_answer_is_ignored(c: Command, f: AckFrame)
    requires
        f.command_id@ != c.stop_command_id@,
        c.status != CommandStatus::Sent,
    ensures
        ack_spec(c, f) == AckEffect::Keep,
{
}

/// An old connection cannot answer for a new command: an answer that comes
/// on another session than the one the START (or the STOP) was written on is
/// refused.
pub proof fn lemma_other_session_cannot_acknowledge(c: Command, f: AckFrame, session: Seq<char>)
    ensures
        (f.command_id@ != c.stop_command_id@ && !(c.session_id matches Some(s) && s@ == session))
            ==> !ack_matches(c, f, session),
        (f.command_id@ == c.stop_command_id@ && !(c.stop_session_id matches Some(s) && s@
            == session)) ==> !ack_matches(c, f, session),
{
}

} // verus!
