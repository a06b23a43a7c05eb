//! Listing of the devices that can be reached.

use vstd::prelude::*;
use vstd::string::StringExecFns;
use crate::endpoint::{refuses, resolve, resolved, Endpoint};
use crate::error::CoreError;
use crate::models::{Device, DeviceStatus, Transport};

verus! {

/// Orchestrates the channels to devices.
pub struct DeviceManager {}

/// A serial port as the platform reports it.
#[derive(Debug, Clone)]
pub struct PortInfo {
    /// System path of the port.
    pub path: String,
    pub product: Option<String>,
    pub manufacturer: Option<String>,
    /// USB vendor id.
    pub vid: Option<u16>,
    /// USB product id.
    pub pid: Option<u16>,
}

/// A device with what is known of it, for callers that show devices.
#[derive(Debug, Clone)]
pub struct DiscoveredDevice {
    pub id: String,
    pub display: String,
    pub transport: String,
    pub product: Option<String>,
    pub manufacturer: Option<String>,
    pub vid: Option<u16>,
    pub pid: Option<u16>,
}

/// The text of an optional string.
pub open spec fn optional_text(value: Option<String>) -> Option<Seq<char>> {
    match value {
        Some(text) => Some(text@),
        None => None,
    }
}

/// The hexadecimal digit of a value below sixteen, in lower case.
pub open spec fn hex_digit(value: nat) -> char {
    if value < 10 {
        (48 + value) as u8 as char
    } else {
        (87 + value) as u8 as char
    }
}

/// A 16-bit value as four hexadecimal digits, in lower case.
pub open spec fn hex4_text(value: u16) -> Seq<char> {
    seq![
        hex_digit((value / 4096) as nat),
        hex_digit((value / 256 % 16) as nat),
        hex_digit((value / 16 % 16) as nat),
        hex_digit((value % 16) as nat),
    ]
}

/// `path`, then `label` in parentheses.
pub open spec fn labelled(path: Seq<char>, label: Seq<char>) -> Seq<char> {
    path + " ("@ + label + ")"@
}

/// How a serial port is shown: its path, with the best description that is
/// known of it in parentheses: the product, else the manufacturer, else the
/// vendor and product ids.
pub open spec fn port_display_text(port: PortInfo) -> Seq<char> {
    if let Some(product) = port.product {
        labelled(port.path@, product@)
    } else if let Some(manufacturer) = port.manufacturer {
        labelled(port.path@, manufacturer@)
    } else if port.vid is Some && port.pid is Some {
        labelled(port.path@, hex4_text(port.vid->0) + ":"@ + hex4_text(port.pid->0))
    } else {
        port.path@
    }
}

/// The identifier of a serial port among the devices.
pub open spec fn port_id_text(port: PortInfo) -> Seq<char> {
    "serial:"@ + port.path@
}

/// The listing of the persisted device `device`.
pub open spec fn lists_device(entry: DiscoveredDevice, device: Device) -> bool {
    &&& entry.id@ == device.id@
    &&& entry.display@ == device.name@
    &&& entry.transport@ == device.transport.label_text()
    &&& entry.product is None
    &&& entry.manufacturer is None
    &&& entry.vid is None
    &&& entry.pid is None
}

/// The listing of the serial port `port`.
pub open spec fn lists_port(entry: DiscoveredDevice, port: PortInfo) -> bool {
    &&& entry.id@ == port_id_text(port)
    &&& entry.display@ == port_display_text(port)
    &&& entry.transport@ == "serial"@
    &&& optional_text(entry.product) == optional_text(port.product)
    &&& optional_text(entry.manufacturer) == optional_text(port.manufacturer)
    &&& entry.vid == port.vid
    &&& entry.pid == port.pid
}

fn hex_digit_of(value: u16) -> (digit: char)
    requires
        value < 16,
    ensures
        digit == hex_digit(value as nat),
{
    if value < 10 {
        (48 + value) as u8 as char
    } else {
        (87 + value) as u8 as char
    }
}

/// A 16-bit value as four hexadecimal digits, in lower case and with leading
/// zeros.
pub fn hex4(value: u16) -> (text: String)
    ensures
        text@ == hex4_text(value),
{
    let mut text = String::new();
    text.push(hex_digit_of(value / 4096));
    text.push(hex_digit_of(value / 256 % 16));
    text.push(hex_digit_of(value / 16 % 16));
    text.push(hex_digit_of(value % 16));
    proof {
        assert(text@ =~= hex4_text(value));
    }
    text
}

fn clone_optional(value: &Option<String>) -> (copy: Option<String>)
    ensures
        optional_text(copy) == optional_text(*value),
{
    match value {
        Some(text) => Some(text.clone()),
        None => None,
    }
}

impl DeviceManager {
    /// How a serial port is shown to a user.
    pub fn port_display(port: &PortInfo) -> (display: String)
        ensures
            display@ == port_display_text(*port),
    {
        let mut display = port.path.clone();
        match (&port.product, &port.manufacturer, port.vid, port.pid) {
            (Some(product), _, _, _) => {
                display.append(" (");
                display.append(product.as_str());
                display.append(")");
            },
            (None, Some(manufacturer), _, _) => {
                display.append(" (");
                display.append(manufacturer.as_str());
                display.append(")");
            },
            (None, None, Some(vid), Some(pid)) => {
                let ids = hex4(vid).concat(":").concat(hex4(pid).as_str());
                display.append(" (");
                display.append(ids.as_str());
                display.append(")");
            },
            _ => {},
        }
        display
    }

    /// The devices that can be reached, each as identifier, display name and
    /// kind of channel: first the persisted devices, in their order, then the
    /// serial ports of the host, in theirs.
    pub fn discover_devices(persisted: &Vec<Device>, ports: &Vec<PortInfo>) -> (devices: Vec<
        (String, String, String),
    >)
        ensures
            devices@.len() == persisted@.len() + ports@.len(),
            forall|i: int|
                0 <= i < persisted@.len() ==> {
                    &&& (#[trigger] devices@[i]).0@ == persisted@[i].id@
                    &&& devices@[i].1@ == persisted@[i].name@
                    &&& devices@[i].2@ == persisted@[i].transport.label_text()
                },
            forall|j: int|
                0 <= j < ports@.len() ==> {
                    &&& (#[trigger] devices@[persisted@.len() + j]).0@ == port_id_text(ports@[j])
                    &&& devices@[persisted@.len() + j].1@ == port_display_text(ports@[j])
                    &&& devices@[persisted@.len() + j].2@ == "serial"@
                },
    {
        let detailed = DeviceManager::discover_devices_detailed(persisted, ports);
        let mut devices: Vec<(String, String, String)> = Vec::new();
        let mut at: usize = 0;
        while at < detailed.len()
            invariant
                at <= detailed@.len(),
                devices@.len() == at,
                forall|i: int|
                    0 <= i < at ==> {
                        &&& (#[trigger] devices@[i]).0@ == detailed@[i].id@
                        &&& devices@[i].1@ == detailed@[i].display@
                        &&& devices@[i].2@ == detailed@[i].transport@
                    },
            decreases detailed@.len() - at,
        {
            let entry = &detailed[at];
            devices.push((entry.id.clone(), entry.display.clone(), entry.transport.clone()));
            at += 1;
        }
        proof {
            assert forall|j: int| 0 <= j < ports@.len() implies {
                &&& (#[trigger] devices@[persisted@.len() + j]).0@ == port_id_text(ports@[j])
                &&& devices@[persisted@.len() + j].1@ == port_display_text(ports@[j])
                &&& devices@[persisted@.len() + j].2@ == "serial"@
            } by {
                assert(lists_port(detailed@[persisted@.len() + j], ports@[j]));
            }
            assert forall|i: int| 0 <= i < persisted@.len() implies {
                &&& (#[trigger] devices@[i]).0@ == persisted@[i].id@
                &&& devices@[i].1@ == persisted@[i].name@
                &&& devices@[i].2@ == persisted@[i].transport.label_text()
            } by {
                assert(lists_device(detailed@[i], persisted@[i]));
            }
        }
        devices
    }

    /// The devices that can be reached, with what is known of each: first the
    /// persisted devices, in their order, then the serial ports of the host,
    /// in theirs.
    pub fn discover_devices_detailed(persisted: &Vec<Device>, ports: &Vec<PortInfo>) -> (devices:
        Vec<DiscoveredDevice>)
        ensures
            devices@.len() == persisted@.len() + ports@.len(),
            forall|i: int|
                0 <= i < persisted@.len() ==> lists_device(#[trigger] devices@[i], persisted@[i]),
            forall|j: int|
                0 <= j < ports@.len() ==> lists_port(
                    #[trigger] devices@[persisted@.len() + j],
                    ports@[j],
                ),
    {
        let mut devices: Vec<DiscoveredDevice> = Vec::new();
        let mut at: usize = 0;
        while at < persisted.len()
            invariant
                at <= persisted@.len(),
                devices@.len() == at,
                forall|i: int| 0 <= i < at ==> lists_device(#[trigger] devices@[i], persisted@[i]),
            decreases persisted@.len() - at,
        {
            let device = &persisted[at];
            devices.push(
                DiscoveredDevice {
                    id: device.id.clone(),
                    display: device.name.clone(),
                    transport: String::from_str(device.transport.label()),
                    product: None,
                    manufacturer: None,
                    vid: None,
                    pid: None,
                },
            );
            at += 1;
        }
        let mut at: usize = 0;
        while at < ports.len()
            invariant
                at <= ports@.len(),
                devices@.len() == persisted@.len() + at,
                forall|i: int|
                    0 <= i < persisted@.len() ==> lists_device(
                        #[trigger] devices@[i],
                        persisted@[i],
                    ),
                forall|j: int|
                    0 <= j < at ==> lists_port(
                        #[trigger] devices@[persisted@.len() + j],
                        ports@[j],
                    ),
            decreases ports@.len() - at,
        {
            let port = &ports[at];
            devices.push(
                DiscoveredDevice {
                    id: String::from_str("serial:").concat(port.path.as_str()),
                    display: DeviceManager::port_display(port),
                    transport: String::from_str("serial"),
                    product: clone_optional(&port.product),
                    manufacturer: clone_optional(&port.manufacturer),
                    vid: port.vid,
                    pid: port.pid,
                },
            );
            at += 1;
        }
        devices
    }

    /// Says what an endpoint descriptor leads to: `tcp://host:port` or a bare
    /// `host:port` to a TCP peer, `serial:///path?baud=N&timeout_ms=N` or a
    /// bare path to a serial port, `ws://...` or `wss://...` to a WebSocket.
    /// Fails with `Config` where the descriptor reads as a URL and is none.
    /// Opening the channel is the caller's part.
    pub fn connect_endpoint(endpoint: &str) -> (outcome: Result<Endpoint, CoreError>)
        ensures
            match outcome {
                Ok(found) => resolved(endpoint@) == Some(found@),
                Err(error) => resolved(endpoint@) is None && refuses(error),
            },
    {
        resolve(endpoint)
    }

    /// The record that is kept of a network device once a channel to its
    /// socket address stands.
    pub fn connect_network(address: &str) -> (device: Device)
        ensures
            device.id@ == "tcp:"@ + address@,
            device.name@ == "TCP Device "@ + address@,
            device.port@ == address@,
            device.baud is None,
            device.firmware is None,
            device.capabilities@.len() == 0,
            device.status is Connected,
            device.transport is Tcp,
    {
        Device {
            id: String::from_str("tcp:").concat(address),
            name: String::from_str("TCP Device ").concat(address),
            port: String::from_str(address),
            baud: None,
            firmware: None,
            capabilities: Vec::new(),
            status: DeviceStatus::Connected,
            transport: Transport::Tcp,
        }
    }
}

} // verus!
