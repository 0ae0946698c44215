use evcharge::clients::service_url;
use evcharge::gateway::tcp::{
    admission, classify_line, frame_kind, still_current, Admission, FrameKind, LineKind, ACK_REPLY,
    BAD_FRAME_REPLY, IDENTITY_MISMATCH_REPLY, MAX_FRAME_BYTES, UNKNOWN_DEVICE_REPLY,
};

#[test]
fn lines_are_classified_by_length() {
    assert_eq!(classify_line(0, false), LineKind::Closed);
    assert_eq!(classify_line(MAX_FRAME_BYTES + 1, false), LineKind::TooLarge);
    assert_eq!(classify_line(3, true), LineKind::Blank);
    assert_eq!(classify_line(MAX_FRAME_BYTES, false), LineKind::Frame);
}

#[test]
fn first_frame_must_be_a_heartbeat_of_one_enabled_device() {
    assert_eq!(admission(None, "DEV-1", "heartbeat", &[true]), Admission::Accept { register: true });
    assert_eq!(admission(None, "DEV-1", "telemetry", &[true]), Admission::UnknownDevice);
    assert_eq!(admission(None, "DEV-1", "heartbeat", &[false]), Admission::UnknownDevice);
    assert_eq!(admission(None, "DEV-1", "heartbeat", &[]), Admission::UnknownDevice);
    assert_eq!(admission(None, "DEV-1", "heartbeat", &[true, true]), Admission::UnknownDevice);
}

#[test]
fn a_connection_speaks_for_one_device() {
    assert_eq!(admission(Some("DEV-1"), "DEV-1", "telemetry", &[]), Admission::Accept { register: false });
    assert_eq!(admission(Some("DEV-1"), "DEV-2", "heartbeat", &[true]), Admission::IdentityMismatch);
}

#[test]
fn frame_kinds_and_sessions() {
    assert_eq!(frame_kind("heartbeat"), FrameKind::Heartbeat);
    assert_eq!(frame_kind("telemetry"), FrameKind::Telemetry);
    assert_eq!(frame_kind("status"), FrameKind::Status);
    assert_eq!(frame_kind("ack"), FrameKind::Ack);
    assert_eq!(frame_kind("alert"), FrameKind::Alert);
    assert_eq!(frame_kind("reboot"), FrameKind::Unknown);
    let s = String::from("sess-1");
    assert!(still_current(Some(&s), "sess-1"));
    assert!(!still_current(Some(&s), "sess-2"));
    assert!(!still_current(None, "sess-1"));
    assert_eq!(ACK_REPLY, "{\"ack\":true}\n");
    assert_eq!(BAD_FRAME_REPLY, "{\"error\":\"bad_frame\"}\n");
    assert_eq!(IDENTITY_MISMATCH_REPLY, "{\"error\":\"device_identity_mismatch\"}\n");
    assert_eq!(UNKNOWN_DEVICE_REPLY, "{\"error\":\"unknown_device_or_missing_heartbeat\"}\n");
}

#[test]
fn service_urls_join_base_and_path() {
    assert_eq!(service_url(Some("http://billing:8080/"), "/api/v1/x"), Some("http://billing:8080/api/v1/x".to_string()));
    assert_eq!(service_url(Some("http://billing:8080///"), "/p"), Some("http://billing:8080/p".to_string()));
    assert_eq!(service_url(Some("http://billing"), "/p"), Some("http://billing/p".to_string()));
    assert_eq!(service_url(Some(""), "/p"), Some("/p".to_string()));
    assert_eq!(service_url(None, "/p"), None);
}
