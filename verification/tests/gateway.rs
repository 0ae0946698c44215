use evcharge::contracts::ChargeEndMeter;
use evcharge::gateway::api::{curve_table, HistCurveQuery};
use evcharge::gateway::charge_command::{
    acknowledge, after_report, check_started, creation, plan, same, start_step, AckEffect, AckFrame, Command,
    CommandStatus, DrivePlan, PortRow, ReportOutcome, ReportReply, StartRefusal, StartRejection, StartStep, Started,
};
use evcharge::gateway::charge_stop::{
    answer, check_request, meter_ok, stop_acknowledge, stop_plan, StopAck, StopAckEffect,
    StopCommand, StopPlan, StopRequest, StopStatus,
};
use evcharge::gateway::connections::Connections;
use evcharge::gateway::protocol::ParseError;
use evcharge::gateway::provision::{check_ports, existing_matches, lock_order, port_code, reimport_matches, DeviceProvision, ExistingDevice};
use evcharge::gateway::registration::{check_device, check_vendor, tcp, DeviceRecord, RegisterError, RegisterRequest};
use evcharge::gateway::scan::{check_ports as check_scan_ports, single_device, validate, FoundPort, ScanError};
use evcharge::outbox::{outbox_update, OutboxUpdate};

fn started() -> Started {
    Started {
        charge_order_id: 4,
        payment_order_id: 5,
        user_id: 123,
        order_no: "ORD_1".into(),
        device_id: "DEV-1".into(),
        port_no: 1,
        port_code: "DEV-1:1".into(),
    }
}

fn command(status: CommandStatus) -> Command {
    Command {
        command_id: "start-1".into(),
        stop_command_id: "stop-1".into(),
        charge_order_id: 4,
        payment_order_id: 5,
        order_no: "ORD_1".into(),
        user_id: 123,
        device_id: "DEV-1".into(),
        port_no: 1,
        port_code: "DEV-1:1".into(),
        port_id: Some(11),
        owns_port: true,
        status,
        session_id: Some("s1".into()),
        stop_session_id: Some("s2".into()),
        result_reported: false,
    }
}

fn frame(command: &str, id: &str, success: bool) -> AckFrame {
    AckFrame { device_id: "DEV-1".into(), port_no: Some(1), command: command.into(), command_id: id.into(), success }
}

#[test]
fn started_events_are_checked() {
    assert!(check_started(&started()));
    let mut bad = started();
    bad.order_no = "ORD 1".into();
    assert!(!check_started(&bad));
    let mut bad = started();
    bad.user_id = 0;
    assert!(!check_started(&bad));
    assert!(same(&command(CommandStatus::Pending), &started()));
    let mut other = started();
    other.port_no = 2;
    assert!(!same(&command(CommandStatus::Pending), &other));
}

#[test]
fn command_creation() {
    let port = |status: &str, current: Option<&str>, device: &str| PortRow {
        id: 11,
        status: status.into(),
        current_order_id: current.map(|s| s.to_string()),
        device_status: device.into(),
        vendor_status: "enabled".into(),
    };
    assert_eq!(creation(&[], true), Ok(Some(StartRefusal::PortMissing)));
    assert_eq!(creation(&[port("idle", None, "enabled")], false), Ok(Some(StartRefusal::ReservationLost)));
    assert_eq!(creation(&[port("idle", None, "disabled")], true), Ok(Some(StartRefusal::DeviceDisabled)));
    assert_eq!(creation(&[port("idle", Some("X"), "enabled")], true), Ok(Some(StartRefusal::PortOccupied)));
    assert_eq!(creation(&[port("idle", None, "enabled")], true), Ok(None));
    assert!(creation(&[port("idle", None, "enabled"), port("idle", None, "enabled")], true).is_err());
}

#[test]
fn driving_commands() {
    assert_eq!(plan(CommandStatus::Pending, true, None, None), DrivePlan::Finished);
    assert_eq!(plan(CommandStatus::Pending, false, None, None), DrivePlan::SendStart);
    assert_eq!(plan(CommandStatus::Sent, false, Some(20_000_000_001), None), DrivePlan::TimeOut);
    assert_eq!(plan(CommandStatus::Sent, false, Some(20_000_000_000), None), DrivePlan::Wait);
    assert_eq!(plan(CommandStatus::Stopping, false, None, Some(1_999_999_999)), DrivePlan::Wait);
    assert_eq!(plan(CommandStatus::Stopping, false, None, Some(2_000_000_000)), DrivePlan::SendStop);
    assert_eq!(plan(CommandStatus::Acked, false, None, None), DrivePlan::Report { success: true });
    assert_eq!(plan(CommandStatus::Other, false, None, None), DrivePlan::Unknown);
    assert_eq!(after_report(CommandStatus::Rejected, true, ReportReply::Accepted), ReportOutcome::Finish { release_port: true });
    assert_eq!(after_report(CommandStatus::Acked, true, ReportReply::Conflict), ReportOutcome::Compensate);
    assert_eq!(after_report(CommandStatus::Rejected, true, ReportReply::Conflict), ReportOutcome::Retry);
}

#[test]
fn answers_from_the_right_session_only() {
    assert_eq!(acknowledge(&command(CommandStatus::Sent), &frame("START", "start-1", true), "s1"), Ok(AckEffect::Started));
    assert_eq!(acknowledge(&command(CommandStatus::Sent), &frame("START", "start-1", false), "s1"), Ok(AckEffect::Refused));
    assert!(acknowledge(&command(CommandStatus::Sent), &frame("START", "start-1", true), "old").is_err());
    assert_eq!(acknowledge(&command(CommandStatus::Stopping), &frame("START", "start-1", true), "s1"), Ok(AckEffect::Keep));
    assert_eq!(acknowledge(&command(CommandStatus::Stopping), &frame("STOP", "stop-1", true), "s2"), Ok(AckEffect::Stopped));
    assert!(acknowledge(&command(CommandStatus::Stopping), &frame("START", "stop-1", true), "s2").is_err());
    let mut f = frame("START", "start-1", true);
    f.port_no = Some(2);
    assert!(acknowledge(&command(CommandStatus::Sent), &f, "s1").is_err());
    assert_eq!(CommandStatus::parse(&"stopping".into()), CommandStatus::Stopping);
}

fn stop_command(status: StopStatus, meter: Option<ChargeEndMeter>) -> StopCommand {
    StopCommand {
        command_id: "stop-9".into(),
        order_no: "ORD_1".into(),
        user_id: 123,
        device_id: "DEV-1".into(),
        port_no: 1,
        status,
        session_id: Some("s1".into()),
        meter,
        result_reported: false,
    }
}

#[test]
fn user_stops() {
    assert!(check_request(&StopRequest { order_no: "ORD_1".into(), user_id: 123, source: "user_app".into() }));
    assert!(!check_request(&StopRequest { order_no: "ORD_1".into(), user_id: 123, source: "admin".into() }));
    assert!(!check_request(&StopRequest { order_no: String::new(), user_id: 123, source: "user_app".into() }));
    let req = StopRequest { order_no: "ORD_1".into(), user_id: 123, source: "user_app".into() };
    assert_eq!(answer(&stop_command(StopStatus::Sent, None), &req), Ok(false));
    let other = StopRequest { order_no: "ORD_1".into(), user_id: 124, source: "user_app".into() };
    assert!(answer(&stop_command(StopStatus::Sent, None), &other).is_err());
    assert_eq!(stop_plan(&stop_command(StopStatus::Sent, None), Some(1_999_999_999)), StopPlan::Wait);
    assert_eq!(stop_plan(&stop_command(StopStatus::Sent, None), Some(2_000_000_000)), StopPlan::Send);
    assert_eq!(stop_plan(&stop_command(StopStatus::Acked, None), None), StopPlan::Report);
}

#[test]
fn stop_answers_carry_the_reading() {
    let meter = ChargeEndMeter { charged_wh: 1000, charged_seconds: 3600, ended_secs: 10, ended_nanos: 0 };
    assert!(meter_ok(&meter, (10, 0)));
    assert!(!meter_ok(&ChargeEndMeter { charged_wh: 100_000_001, ..meter }, (10, 0)));
    // At most five minutes ahead of the clock, to the nanosecond.
    assert!(meter_ok(&ChargeEndMeter { ended_secs: 400, ended_nanos: 500, ..meter }, (100, 500)));
    assert!(!meter_ok(&ChargeEndMeter { ended_secs: 400, ended_nanos: 501, ..meter }, (100, 500)));
    let ack = |success: Option<bool>, m: Option<ChargeEndMeter>| StopAck {
        device_id: "DEV-1".into(),
        port_no: Some(1),
        command: Some("STOP".into()),
        success,
        meter: m,
    };
    assert_eq!(stop_acknowledge(&stop_command(StopStatus::Sent, None), &ack(Some(true), Some(meter)), "s1", (10, 0)), Ok(StopAckEffect::Confirm(meter)));
    assert_eq!(stop_acknowledge(&stop_command(StopStatus::Sent, None), &ack(Some(false), None), "s1", (10, 0)), Ok(StopAckEffect::Keep));
    assert!(stop_acknowledge(&stop_command(StopStatus::Sent, None), &ack(Some(true), Some(meter)), "s0", (10, 0)).is_err());
    let other = ChargeEndMeter { charged_wh: 999, ..meter };
    assert!(stop_acknowledge(&stop_command(StopStatus::Acked, Some(other)), &ack(Some(true), Some(meter)), "s1", (10, 0)).is_err());
    assert_eq!(stop_acknowledge(&stop_command(StopStatus::Acked, Some(meter)), &ack(Some(true), Some(meter)), "s1", (10, 0)), Ok(StopAckEffect::Confirm(meter)));
}

fn register_request() -> RegisterRequest {
    RegisterRequest {
        device_id: "DEV-0001".into(),
        vendor_id: 3,
        station_id: Some(8),
        port_count: 2,
        model: Some("M1".into()),
        firmware_version: None,
        mac_addr: None,
        connect_type: tcp(),
        client_ip: Some("10.0.0.1".into()),
    }
}

#[test]
fn registration() {
    assert_eq!(tcp(), "tcp");
    assert!(register_request().validate(true).is_ok());
    assert_eq!(register_request().validate(false), Err(RegisterError::InvalidIp));
    let mut r = register_request();
    r.device_id = "SHORT".into();
    assert_eq!(r.validate(true), Err(RegisterError::InvalidIdentity));
    let mut r = register_request();
    r.connect_type = "udp".into();
    assert_eq!(r.validate(true), Err(RegisterError::InvalidConnectType));
    let mut r = register_request();
    r.model = Some("  ".into());
    assert_eq!(r.validate(true), Err(RegisterError::InvalidInfo));
    let device = DeviceRecord { id: 77, vendor_id: 3, station_id: Some(8), port_count: 2, model: Some("M1".into()), enabled: true };
    assert_eq!(check_device(&[], &register_request()), Err(RegisterError::NotProvisioned));
    assert_eq!(check_device(&[device], &register_request()), Ok(77));
    let other = DeviceRecord { id: 77, vendor_id: 3, station_id: Some(9), port_count: 2, model: None, enabled: true };
    assert_eq!(check_device(&[other], &register_request()), Err(RegisterError::Mismatch));
    let off = DeviceRecord { id: 77, vendor_id: 3, station_id: Some(8), port_count: 2, model: None, enabled: false };
    assert_eq!(check_device(&[off], &register_request()), Err(RegisterError::Disabled));
    assert!(check_vendor(&Some(("enabled".into(), "hybrid".into())), &"mqtt".into()).is_ok());
    assert_eq!(check_vendor(&Some(("enabled".into(), "tcp".into())), &"mqtt".into()), Err(RegisterError::ProtocolMismatch));
    assert_eq!(check_vendor(&Some(("disabled".into(), "tcp".into())), &"tcp".into()), Err(RegisterError::VendorDisabled));
    assert_eq!(check_vendor(&None, &"tcp".into()), Err(RegisterError::VendorMissing));
}

#[test]
fn scanning() {
    assert!(validate("DEV-1:1").is_ok());
    assert_eq!(validate(""), Err(ScanError::InvalidCode));
    assert_eq!(validate("a b"), Err(ScanError::InvalidCode));
    assert_eq!(validate(&"x".repeat(65)), Err(ScanError::InvalidCode));
    let p = |code: &str, no: u8| FoundPort { port_code: code.into(), port_no: no };
    assert!(check_scan_ports(&[p("a", 1), p("b", 2)], true).is_ok());
    assert_eq!(check_scan_ports(&[p("a", 1), p("b", 1)], true), Err(ScanError::Duplicate));
    assert_eq!(check_scan_ports(&[p("a", 1), p("b", 2)], false), Err(ScanError::Duplicate));
    assert_eq!(single_device(0), Err(ScanError::NotFound));
    assert_eq!(single_device(2), Err(ScanError::Duplicate));
}

fn device(id: &str) -> DeviceProvision {
    DeviceProvision { device_id: id.into(), vendor_id: 1, station_id: 1, port_count: 1, model: None }
}

#[test]
fn batches_lock_devices_by_lowercased_id_keeping_ties_in_order() {
    let batch = vec![device("dev-B"), device("DEV-a"), device("DEV-B"), device("dev"), device("DEV-_")];
    // Lowercased keys: dev-b, dev-a, dev-b, dev, dev-_ ; '_' (95) sorts before 'a' (97).
    assert_eq!(lock_order(&batch), vec![3, 4, 1, 0, 2]);
    assert_eq!(lock_order(&[]), Vec::<usize>::new());
}

#[test]
fn two_batches_lock_shared_devices_in_one_order() {
    let a = vec![device("DEV-Z"), device("dev-m"), device("DEV-A")];
    let b = vec![device("dev-a"), device("DEV-Q"), device("DEV-Z"), device("DEV-M")];
    let ids = |batch: &Vec<DeviceProvision>| -> Vec<String> {
        lock_order(batch).into_iter().map(|i| batch[i].device_id.to_ascii_lowercase()).collect()
    };
    assert_eq!(ids(&a), vec!["dev-a", "dev-m", "dev-z"]);
    assert_eq!(ids(&b), vec!["dev-a", "dev-m", "dev-q", "dev-z"]);
}

#[test]
fn provisioning() {
    assert_eq!(port_code(&"DEV-0001".into(), 12), "DEV-0001:12");
    assert!(check_ports(&[1, 2, 3], 3));
    assert!(!check_ports(&[1, 3], 2));
    assert!(!check_ports(&[1, 2], 3));
    let d = DeviceProvision { device_id: "DEV-0001".into(), vendor_id: 3, station_id: 8, port_count: 2, model: None };
    let row = ExistingDevice { vendor_id: 3, station_id: Some(8), port_count: 2, model: None, enabled: true, deleted: false };
    assert!(existing_matches(&row, &d));
    let moved = ExistingDevice { station_id: Some(9), ..row };
    assert!(!existing_matches(&moved, &d));
}

#[test]
fn a_stale_connection_cannot_remove_a_new_one() {
    let mut c = Connections::new();
    c.register("DEV-1", "s1");
    assert_eq!(c.get("DEV-1").as_deref(), Some("s1"));
    c.register("DEV-1", "s2");
    c.remove("DEV-1", "s1");
    assert_eq!(c.get("DEV-1").as_deref(), Some("s2"));
    c.remove("DEV-1", "s2");
    assert_eq!(c.get("DEV-1"), None);
}

#[test]
fn misc_gateway_helpers() {
    assert_eq!(ParseError::TooShort.message(), "buffer too short");
    assert_eq!(ParseError::Io("eof".into()).message(), "io error: eof");
    assert_eq!(curve_table(&HistCurveQuery { granularity: Some("hourly".into()) }), "telemetry_aggregate_hourly");
    assert_eq!(curve_table(&HistCurveQuery { granularity: None }), "telemetry_aggregate_15min");
    assert_eq!(outbox_update(true, false), OutboxUpdate::Retry);
    assert_eq!(outbox_update(true, true), OutboxUpdate::Published);
    assert_eq!(outbox_update(false, true), OutboxUpdate::Failed);
}

#[test]
fn a_device_is_imported_with_one_set_of_parameters() {
    assert!(reimport_matches(&device("DEV-0001"), &device("DEV-0001")));
    let mut moved = device("DEV-0001");
    moved.station_id = 2;
    assert!(!reimport_matches(&device("DEV-0001"), &moved));
    let mut modelled = device("DEV-0001");
    modelled.model = Some("X1".into());
    assert!(!reimport_matches(&device("DEV-0001"), &modelled));
}

#[test]
fn pending_starts_are_sent_refused_or_compensated() {
    assert_eq!(start_step(false, true, true, Some(true)), StartStep::Reject(StartRejection::ReservationLost));
    assert_eq!(start_step(true, false, true, Some(true)), StartStep::Reject(StartRejection::DeviceOffline));
    assert_eq!(start_step(true, true, false, None), StartStep::Wait);
    assert_eq!(start_step(true, true, true, Some(true)), StartStep::Sent);
    assert_eq!(start_step(true, true, true, None), StartStep::Sent);
    assert_eq!(start_step(true, true, true, Some(false)), StartStep::Uncertain);
}
