//! Records of devices and jobs.

use vstd::prelude::*;

verus! {

/// Whether a device is reachable.
#[derive(Debug, Clone)]
pub enum DeviceStatus {
    Disconnected,
    Connected,
    /// Carries what went wrong.
    Error(String),
}

/// The kind of channel that leads to a device.
#[derive(Debug, Clone, Copy, PartialEq, Eq, Structural)]
pub enum Transport {
    Serial,
    Tcp,
    Udp,
}

impl Transport {
    /// The name of the kind, as device listings show it.
    pub open spec fn label_text(self) -> Seq<char> {
        match self {
            Transport::Serial => "Serial"@,
            Transport::Tcp => "Tcp"@,
            Transport::Udp => "Udp"@,
        }
    }

    /// The name of the kind, as device listings show it.
    pub fn label(&self) -> (name: &'static str)
        ensures
            name@ == self.label_text(),
    {
        match self {
            Transport::Serial => "Serial",
            Transport::Tcp => "Tcp",
            Transport::Udp => "Udp",
        }
    }
}

/// A device as it is known and persisted.
#[derive(Debug, Clone)]
pub struct Device {
    pub id: String,
    pub name: String,
    /// Serial path or socket address.
    pub port: String,
    pub baud: Option<u32>,
    pub firmware: Option<String>,
    pub capabilities: Vec<String>,
    pub status: DeviceStatus,
    pub transport: Transport,
}

/// Where a job stands.
#[derive(Debug, Clone)]
pub enum JobStatus {
    Queued,
    Running,
    Paused,
    Completed,
    /// Carries what went wrong.
    Failed(String),
}

} // verus!
