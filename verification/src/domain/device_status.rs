//! Whether a device is connected, stale or disconnected, judged from what the edge, its
//! connection and the device protocol report.

use vstd::prelude::*;
use crate::domain::id::{ConnectionId, DeviceId};
use crate::text::{chars_eq_str, lower_seq, opt_view, trim, trim_lower};
use crate::domain::connection::{classify_state, edge_online_spec, is_edge_online, normal_state, NormalState};

verus! {

/// A field device reached through a connection.
#[derive(Debug, Clone)]
pub struct Device {
    pub id: DeviceId,
    pub connection_id: ConnectionId,
    pub name: String,
    pub enabled: bool,
    /// The device's address on its bus, common to most industrial protocols.
    pub slave_id: u8,
}

impl Device {
    /// An enabled device at bus address 1.
    pub fn new(id: DeviceId, connection_id: ConnectionId, name: String) -> (r: Self)
        ensures
            r.id == id,
            r.connection_id == connection_id,
            r.name == name,
            r.enabled,
            r.slave_id == 1,
    {
        Device { id, connection_id, name, enabled: true, slave_id: 1 }
    }
}


#[derive(Debug, Clone, Copy, PartialEq, Eq, Structural)]
pub enum DeviceConnectionStatus {
    Connected,
    Stale,
    Disconnected,
}

impl DeviceConnectionStatus {
    pub open spec fn name(self) -> Seq<char> {
        match self {
            DeviceConnectionStatus::Connected => "connected"@,
            DeviceConnectionStatus::Stale => "stale"@,
            DeviceConnectionStatus::Disconnected => "disconnected"@,
        }
    }

    pub fn as_str(self) -> (r: &'static str)
        ensures
            r@ == self.name(),
    {
        match self {
            DeviceConnectionStatus::Connected => "connected",
            DeviceConnectionStatus::Stale => "stale",
            DeviceConnectionStatus::Disconnected => "disconnected",
        }
    }
}

#[derive(Debug, Clone, Copy)]
pub struct DeviceStatusInput<'a> {
    pub edge_state: Option<&'a str>,
    pub edge_age_secs: Option<i64>,
    pub edge_stale_after_secs: i64,
    pub connection_state: Option<&'a str>,
    pub device_protocol_state: Option<&'a str>,
    pub tags_connected: i64,
    pub tags_stale: i64,
    pub tags_total: i64,
}

/// The status of a device: disconnected when the edge is offline, when the connection
/// failed or dropped, or when the device protocol reports `error`; stale while the
/// connection is connecting, unknown or unreported; connected otherwise.
pub open spec fn device_status_spec(input: DeviceStatusInput) -> DeviceConnectionStatus {
    if !edge_online_spec(opt_view(input.edge_state), input.edge_age_secs, input.edge_stale_after_secs) {
        DeviceConnectionStatus::Disconnected
    } else {
        match input.connection_state {
            None => DeviceConnectionStatus::Stale,
            Some(c) => {
                let n = normal_state(c@);
                if n == NormalState::Failed || n == NormalState::Disconnected {
                    DeviceConnectionStatus::Disconnected
                } else if n == NormalState::Connecting || n == NormalState::Unknown {
                    DeviceConnectionStatus::Stale
                } else {
                    match input.device_protocol_state {
                        Some(p) => if lower_seq(trim(p@)) == "error"@ {
                            DeviceConnectionStatus::Disconnected
                        } else {
                            DeviceConnectionStatus::Connected
                        },
                        None => DeviceConnectionStatus::Connected,
                    }
                }
            },
        }
    }
}

/// The connection status of a device.
pub fn evaluate_device_connection_status(input: DeviceStatusInput<'_>) -> (r: DeviceConnectionStatus)
    ensures
        r == device_status_spec(input),
{
    if !is_edge_online(input.edge_state, input.edge_age_secs, input.edge_stale_after_secs) {
        return DeviceConnectionStatus::Disconnected;
    }
    match input.connection_state {
        Some(conn_state) => {
            let state = classify_state(conn_state);
            if state == NormalState::Failed || state == NormalState::Disconnected {
                return DeviceConnectionStatus::Disconnected;
            }
            if state == NormalState::Connecting || state == NormalState::Unknown {
                return DeviceConnectionStatus::Stale;
            }
        },
        None => {
            return DeviceConnectionStatus::Stale;
        },
    }
    if let Some(pstate) = input.device_protocol_state {
        let ps = trim_lower(pstate);
        if chars_eq_str(&ps, "error") {
            return DeviceConnectionStatus::Disconnected;
        }
        if chars_eq_str(&ps, "connected") {
            return DeviceConnectionStatus::Connected;
        }
    }
    if input.tags_total <= 0 {
        return DeviceConnectionStatus::Connected;
    }
    DeviceConnectionStatus::Connected
}

} // verus!
