//! The device side of a TCP connection: line-delimited frames, the first of
//! which must be a heartbeat of a known, enabled device, after which the
//! connection speaks for that device only.
use vstd::prelude::*;
use crate::text::{is_text, str_eq};

verus! {

/// The longest frame line, in bytes.
pub const MAX_FRAME_BYTES: usize = 65_536;

/// Seconds a connection may stay silent.
pub const HEARTBEAT_TIMEOUT_SECS: u64 = 120;

/// What one read line is.
#[derive(Debug, Clone, Copy, PartialEq, Eq, Structural)]
pub enum LineKind {
    /// The peer closed the connection.
    Closed,
    /// Longer than a frame may be: the connection is dropped.
    TooLarge,
    /// Only white space: skipped.
    Blank,
    /// A frame to read.
    Frame,
}

/// Classifies a line of `n` bytes (read with a limit of one byte more than a
/// frame may hold).
pub fn classify_line(n: usize, blank: bool) -> (r: LineKind)
    ensures
        n == 0 ==> r == LineKind::Closed,
        n > MAX_FRAME_BYTES ==> r == LineKind::TooLarge,
        0 < n <= MAX_FRAME_BYTES ==> r == if blank {
            LineKind::Blank
        } else {
            LineKind::Frame
        },
{
    if n == 0 {
        LineKind::Closed
    } else if n > MAX_FRAME_BYTES {
        LineKind::TooLarge
    } else if blank {
        LineKind::Blank
    } else {
        LineKind::Frame
    }
}

/// Whether a frame is taken on a connection.
#[derive(Debug, Clone, Copy, PartialEq, Eq, Structural)]
pub enum Admission {
    /// Take it; `register` where it opens the device's session.
    Accept { register: bool },
    /// Another device's frame on this connection: refuse and close.
    IdentityMismatch,
    /// The first frame is not a heartbeat of one enabled device: refuse and
    /// close.
    UnknownDevice,
}

/// Decides whether a frame from `device` of type `msg_type` is taken, given
/// the device the connection already speaks for and, for a first frame,
/// whether each device record found is enabled with its vendor.
pub open spec fn admission_spec(
    identity: Option<Seq<char>>,
    device: Seq<char>,
    msg_type: Seq<char>,
    enabled: Seq<bool>,
) -> Admission {
    match identity {
        Some(d) => if d == device {
            Admission::Accept { register: false }
        } else {
            Admission::IdentityMismatch
        },
        None => if enabled.len() == 1 && enabled[0] && msg_type == "heartbeat"@ {
            Admission::Accept { register: true }
        } else {
            Admission::UnknownDevice
        },
    }
}

pub fn admission(identity: Option<&str>, device: &str, msg_type: &str, enabled: &[bool]) -> (r:
    Admission)
    ensures
        r == admission_spec(
            match identity {
                Some(d) => Some(d@),
                None => None,
            },
            device@,
            msg_type@,
            enabled@,
        ),
{
    match identity {
        Some(d) => {
            if str_eq(d, device) {
                Admission::Accept { register: false }
            } else {
                Admission::IdentityMismatch
            }
        },
        None => {
            if enabled.len() == 1 && enabled[0] && str_eq(msg_type, "heartbeat") {
                Admission::Accept { register: true }
            } else {
                Admission::UnknownDevice
            }
        },
    }
}

/// A connection speaks for one device: once it has one, frames of any other
/// device are refused, and only a heartbeat opens it.
pub proof fn lemma_one_device_per_connection(
    d: Seq<char>,
    device: Seq<char>,
    msg_type: Seq<char>,
    enabled: Seq<bool>,
)
    ensures
        d != device ==> admission_spec(Some(d), device, msg_type, enabled)
            == Admission::IdentityMismatch,
        msg_type != "heartbeat"@ ==> admission_spec(None, device, msg_type, enabled)
            == Admission::UnknownDevice,
{
}

/// What a frame asks the gateway to do.
#[derive(Debug, Clone, Copy, PartialEq, Eq, Structural)]
pub enum FrameKind {
    Heartbeat,
    /// Store a power reading.
    Telemetry,
    /// Publish a device status event.
    Status,
    /// A device's answer to a command.
    Ack,
    /// Publish an alert.
    Alert,
    /// Logged and ignored.
    Unknown,
}

pub fn frame_kind(msg_type: &str) -> (r: FrameKind)
    ensures
        r == if msg_type@ == "heartbeat"@ {
            FrameKind::Heartbeat
        } else if msg_type@ == "telemetry"@ {
            FrameKind::Telemetry
        } else if msg_type@ == "status"@ {
            FrameKind::Status
        } else if msg_type@ == "ack"@ {
            FrameKind::Ack
        } else if msg_type@ == "alert"@ {
            FrameKind::Alert
        } else {
            FrameKind::Unknown
        },
{
    if str_eq(msg_type, "heartbeat") {
        FrameKind::Heartbeat
    } else if str_eq(msg_type, "telemetry") {
        FrameKind::Telemetry
    } else if str_eq(msg_type, "status") {
        FrameKind::Status
    } else if str_eq(msg_type, "ack") {
        FrameKind::Ack
    } else if str_eq(msg_type, "alert") {
        FrameKind::Alert
    } else {
        FrameKind::Unknown
    }
}

/// Whether the connection still holds the device's current session; a
/// replaced connection stops reading.
pub fn still_current(current: Option<&String>, session: &str) -> (r: bool)
    ensures
        r == (current matches Some(c) && c@ == session@),
{
    match current {
        Some(c) => str_eq(c.as_str(), session),
        None => false,
    }
}

/// The replies written to a device.
pub const ACK_REPLY: &'static str = "{\"ack\":true}\n";

pub const BAD_FRAME_REPLY: &'static str = "{\"error\":\"bad_frame\"}\n";

pub const IDENTITY_MISMATCH_REPLY: &'static str = "{\"error\":\"device_identity_mismatch\"}\n";

pub const UNKNOWN_DEVICE_REPLY: &'static str = "{\"error\":\"unknown_device_or_missing_heartbeat\"}\n";

pub const PROCESSING_FAILED_REPLY: &'static str = "{\"error\":\"frame_processing_failed\"}\n";

} // verus!
