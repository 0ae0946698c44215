//! A device's own registration: it opens a session for a provisioned device
//! and never creates or reconfigures one.
use vstd::prelude::*;
use crate::text::{any_control, char_count, has_control, is_blank, is_text, string_eq, trims_to_empty, utf8_len};

verus! {

/// The connection type a device uses when it does not say.
pub fn tcp() -> (r: String)
    ensures
        r@ == "tcp"@,
{
    String::from_str("tcp")
}

/// A registration request from a device.
pub struct RegisterRequest {
    pub device_id: String,
    pub vendor_id: u64,
    pub station_id: Option<u64>,
    pub port_count: u8,
    pub model: Option<String>,
    pub firmware_version: Option<String>,
    pub mac_addr: Option<String>,
    pub connect_type: String,
    pub client_ip: Option<String>,
}

/// The answer to a registration.
pub struct RegisterResponse {
    pub registered: bool,
    pub session_id: u64,
    pub session_uuid: String,
    pub heartbeat_interval_sec: u32,
    pub server_time_ms: i64,
}

#[derive(Debug, Clone, Copy, PartialEq, Eq, Structural)]
pub enum RegisterError {
    /// Device id, vendor or port count invalid.
    InvalidIdentity,
    /// Neither `tcp` nor `mqtt`.
    InvalidConnectType,
    /// Model, firmware version or MAC address malformed.
    InvalidInfo,
    /// The client IP is not an IP address.
    InvalidIp,
    /// No device with that id was provisioned (business code 2001).
    NotProvisioned,
    /// More than one record for the device.
    Duplicate,
    /// The device is disabled.
    Disabled,
    /// The request disagrees with the device's configuration.
    Mismatch,
    /// The vendor does not exist.
    VendorMissing,
    /// The vendor is not enabled.
    VendorDisabled,
    /// The vendor does not speak the requested protocol.
    ProtocolMismatch,
}

/// A byte allowed in a device id.
pub open spec fn device_id_byte(b: u8) -> bool {
    ||| (48 <= b && b <= 57)
    ||| (65 <= b && b <= 90)
    ||| (97 <= b && b <= 122)
    ||| b == 45
    ||| b == 95
}

/// A device id: 8 to 32 bytes of ASCII letters, digits, `-` and `_`.
pub open spec fn device_id_ok(s: Seq<char>) -> bool {
    let b = vstd::utf8::encode_utf8(s);
    8 <= utf8_len(s) <= 32 && forall|i: int| 0 <= i < b.len() ==> device_id_byte(#[trigger] b[i])
}

pub fn check_device_id(s: &String) -> (r: bool)
    ensures
        r == device_id_ok(s@),
{
    let t = s.as_str();
    let n = t.len();
    if n < 8 || n > 32 {
        return false;
    }
    let b = t.as_bytes();
    let mut i: usize = 0;
    while i < b.len()
        invariant
            b@ == vstd::utf8::encode_utf8(s@),
            i <= b@.len(),
            forall|j: int| 0 <= j < i ==> device_id_byte(#[trigger] b@[j]),
        decreases b@.len() - i,
    {
        let c = b[i];
        if !((48 <= c && c <= 57) || (65 <= c && c <= 90) || (97 <= c && c <= 122) || c == 45 || c
            == 95) {
            return false;
        }
        i = i + 1;
    }
    true
}

/// An optional text field: absent, or not blank, at most `max` characters
/// and free of control characters.
pub open spec fn info_ok(v: Option<String>, max: int) -> bool {
    match v {
        Some(t) => !is_blank(t@) && t@.len() <= max && !has_control(t@),
        None => true,
    }
}

fn check_info(v: &Option<String>, max: usize) -> (r: bool)
    ensures
        r == info_ok(*v, max as int),
{
    match v {
        Some(t) => !trims_to_empty(t.as_str()) && char_count(t.as_str()) <= max && !any_control(
            t.as_str(),
        ),
        None => true,
    }
}

/// The first reason a request is refused before anything is looked up.
/// Whether the client IP parses as an IP address is decided by the caller,
/// with `std::net::IpAddr`.
pub open spec fn validate_spec(r: RegisterRequest, ip_parses: bool) -> Option<RegisterError> {
    if !device_id_ok(r.device_id@) || r.vendor_id == 0 || r.port_count == 0 {
        Some(RegisterError::InvalidIdentity)
    } else if !(r.connect_type@ == "tcp"@ || r.connect_type@ == "mqtt"@) {
        Some(RegisterError::InvalidConnectType)
    } else if !info_ok(r.model, 128) || !info_ok(r.firmware_version, 64) || !info_ok(
        r.mac_addr,
        32,
    ) {
        Some(RegisterError::InvalidInfo)
    } else if r.client_ip is Some && !ip_parses {
        Some(RegisterError::InvalidIp)
    } else {
        None
    }
}

impl RegisterRequest {
    /// Checks the request's own fields.
    pub fn validate(&self, ip_parses: bool) -> (r: Result<(), RegisterError>)
        ensures
            match validate_spec(*self, ip_parses) {
                Some(e) => r == Err::<(), RegisterError>(e),
                None => r is Ok,
            },
    {
        if !check_device_id(&self.device_id) || self.vendor_id == 0 || self.port_count == 0 {
            return Err(RegisterError::InvalidIdentity);
        }
        if !(is_text(&self.connect_type, "tcp") || is_text(&self.connect_type, "mqtt")) {
            return Err(RegisterError::InvalidConnectType);
        }
        if !check_info(&self.model, 128) || !check_info(&self.firmware_version, 64) || !check_info(
            &self.mac_addr,
            32,
        ) {
            return Err(RegisterError::InvalidInfo);
        }
        if self.client_ip.is_some() && !ip_parses {
            return Err(RegisterError::InvalidIp);
        }
        Ok(())
    }
}

/// A provisioned device, as stored.
pub struct DeviceRecord {
    pub id: u64,
    pub vendor_id: u64,
    pub station_id: Option<u64>,
    pub port_count: u8,
    pub model: Option<String>,
    pub enabled: bool,
}

pub open spec fn device_agrees(d: DeviceRecord, r: RegisterRequest) -> bool {
    &&& d.vendor_id == r.vendor_id
    &&& d.port_count == r.port_count
    &&& (r.station_id matches Some(s) ==> d.station_id == Some(s))
    &&& (r.model matches Some(m) ==> (d.model matches Some(dm) && dm@ == m@))
}

/// Checks the stored device against the request; returns its record id.
pub fn check_device(rows: &[DeviceRecord], r: &RegisterRequest) -> (res: Result<u64, RegisterError>)
    ensures
        rows@.len() == 0 ==> res == Err::<u64, RegisterError>(RegisterError::NotProvisioned),
        rows@.len() > 1 ==> res == Err::<u64, RegisterError>(RegisterError::Duplicate),
        rows@.len() == 1 ==> res == if !rows@[0].enabled {
            Err::<u64, RegisterError>(RegisterError::Disabled)
        } else if !device_agrees(rows@[0], *r) {
            Err::<u64, RegisterError>(RegisterError::Mismatch)
        } else {
            Ok::<u64, RegisterError>(rows@[0].id)
        },
{
    if rows.len() == 0 {
        return Err(RegisterError::NotProvisioned);
    }
    if rows.len() != 1 {
        return Err(RegisterError::Duplicate);
    }
    let d = &rows[0];
    if !d.enabled {
        return Err(RegisterError::Disabled);
    }
    let station_ok = match r.station_id {
        Some(s) => d.station_id == Some(s),
        None => true,
    };
    let model_ok = match &r.model {
        Some(m) => match &d.model {
            Some(dm) => string_eq(dm, m),
            None => false,
        },
        None => true,
    };
    if d.vendor_id != r.vendor_id || d.port_count != r.port_count || !station_ok || !model_ok {
        return Err(RegisterError::Mismatch);
    }
    Ok(d.id)
}

/// Checks the device's vendor: present, enabled, and speaking the requested
/// protocol or both (`hybrid`).
pub fn check_vendor(vendor: &Option<(String, String)>, connect_type: &String) -> (r: Result<
    (),
    RegisterError,
>)
    ensures
        match vendor {
            None => r == Err::<(), RegisterError>(RegisterError::VendorMissing),
            Some(v) => r == if v.0@ != "enabled"@ {
                Err::<(), RegisterError>(RegisterError::VendorDisabled)
            } else if v.1@ != "hybrid"@ && v.1@ != connect_type@ {
                Err::<(), RegisterError>(RegisterError::ProtocolMismatch)
            } else {
                Ok::<(), RegisterError>(())
            },
        },
{
    match vendor {
        None => Err(RegisterError::VendorMissing),
        Some(v) => {
            if !is_text(&v.0, "enabled") {
                Err(RegisterError::VendorDisabled)
            } else if !is_text(&v.1, "hybrid") && !string_eq(&v.1, connect_type) {
                Err(RegisterError::ProtocolMismatch)
            } else {
                Ok(())
            }
        },
    }
}

} // verus!
