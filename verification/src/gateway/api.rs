//! Request bodies of the gateway's HTTP API.
use vstd::prelude::*;

verus! {

pub struct ScanResolveReq {
    /// A port code or a device code.
    pub code: String,
}

pub struct ScanPortReq {
    pub port_id: String,
}

pub struct SnapshotQuery {
    pub order_id: Option<String>,
}

pub struct CurveQuery {
    pub order_id: Option<String>,
    pub window: Option<String>,
}

pub struct HistCurveQuery {
    pub granularity: Option<String>,
}

pub struct FirmwarePushReq {
    pub package_id: String,
}

pub struct ChargeStopReq {
    pub order_no: String,
    pub user_id: u64,
}

pub struct DeviceRegisterReq {
    pub device_id: String,
    pub vendor_id: u64,
    pub station_id: Option<u64>,
    pub port_count: u8,
    pub model: Option<String>,
    pub firmware_version: Option<String>,
    pub mac_addr: Option<String>,
}

/// The aggregate table a historical curve reads: hourly on request,
/// quarter-hourly otherwise.
pub fn curve_table(q: &HistCurveQuery) -> (r: &'static str)
    ensures
        (q.granularity matches Some(g) && g@ == "hourly"@) ==> r@ == "telemetry_aggregate_hourly"@,
        !(q.granularity matches Some(g) && g@ == "hourly"@) ==> r@ == "telemetry_aggregate_15min"@,
{
    let hourly = match &q.granularity {
        Some(g) => crate::text::is_text(g, "hourly"),
        None => false,
    };
    if hourly {
        "telemetry_aggregate_hourly"
    } else {
        "telemetry_aggregate_15min"
    }
}

} // verus!
