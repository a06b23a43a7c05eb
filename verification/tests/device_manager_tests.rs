use gcodekit::device_manager::{hex4, DeviceManager, DiscoveredDevice, PortInfo};
use gcodekit::models::{Device, DeviceStatus, Transport};
use gcodekit::slint_bindings::{slint_device_model, ui_connect_endpoint, ConnectRequest};
use gcodekit::ui::{Device as UiDevice, VecModel};

fn port(
    path: &str,
    product: Option<&str>,
    manufacturer: Option<&str>,
    vid: Option<u16>,
    pid: Option<u16>,
) -> PortInfo {
    PortInfo {
        path: path.to_string(),
        product: product.map(|s| s.to_string()),
        manufacturer: manufacturer.map(|s| s.to_string()),
        vid,
        pid,
    }
}

fn persisted(id: &str, name: &str, transport: Transport) -> Device {
    Device {
        id: id.to_string(),
        name: name.to_string(),
        port: "x".to_string(),
        baud: Some(115200),
        firmware: None,
        capabilities: vec![],
        status: DeviceStatus::Disconnected,
        transport,
    }
}

#[test]
fn hex4_pads_to_four_lowercase_digits() {
    assert_eq!(hex4(0), "0000");
    assert_eq!(hex4(0x2341), "2341");
    assert_eq!(hex4(0x00ab), "00ab");
    assert_eq!(hex4(0xffff), "ffff");
    assert_eq!(hex4(0x1a0f), "1a0f");
    for value in [0u16, 9, 10, 15, 16, 255, 256, 4095, 4096, 0xbeef, u16::MAX] {
        assert_eq!(hex4(value), format!("{:04x}", value));
    }
}

#[test]
fn port_display_prefers_product_then_manufacturer_then_ids() {
    let p = port("/dev/ttyUSB0", Some("Arduino Uno"), Some("Arduino"), Some(0x2341), Some(0x43));
    assert_eq!(DeviceManager::port_display(&p), "/dev/ttyUSB0 (Arduino Uno)");
    let p = port("/dev/ttyUSB0", None, Some("FTDI"), Some(0x0403), Some(0x6001));
    assert_eq!(DeviceManager::port_display(&p), "/dev/ttyUSB0 (FTDI)");
    let p = port("COM7", None, None, Some(0x0403), Some(0x6001));
    assert_eq!(DeviceManager::port_display(&p), "COM7 (0403:6001)");
    let p = port("COM7", None, None, Some(0x0403), None);
    assert_eq!(DeviceManager::port_display(&p), "COM7");
    let p = port("COM7", None, None, None, Some(1));
    assert_eq!(DeviceManager::port_display(&p), "COM7");
    let p = port("/dev/ttyS0", None, None, None, None);
    assert_eq!(DeviceManager::port_display(&p), "/dev/ttyS0");
}

#[test]
fn test_discover_devices_and_connect_network() {
    let known = vec![
        persisted("tcp:127.0.0.1:9", "TCP Device 127.0.0.1:9", Transport::Tcp),
        persisted("udp:1", "Pendant", Transport::Udp),
        persisted("s", "Mill", Transport::Serial),
    ];
    let ports = vec![
        port("/dev/ttyUSB0", Some("CNC Shield"), None, None, None),
        port("/dev/ttyACM1", None, None, Some(0x1d50), Some(0x6015)),
    ];
    let found = DeviceManager::discover_devices(&known, &ports);
    let expected: Vec<(String, String, String)> = [
        ("tcp:127.0.0.1:9", "TCP Device 127.0.0.1:9", "Tcp"),
        ("udp:1", "Pendant", "Udp"),
        ("s", "Mill", "Serial"),
        ("serial:/dev/ttyUSB0", "/dev/ttyUSB0 (CNC Shield)", "serial"),
        ("serial:/dev/ttyACM1", "/dev/ttyACM1 (1d50:6015)", "serial"),
    ]
    .iter()
    .map(|(a, b, c)| (a.to_string(), b.to_string(), c.to_string()))
    .collect();
    assert_eq!(found, expected);
    assert!(found.iter().any(|(id, _, _)| id.contains("tcp")));
    assert_eq!(DeviceManager::discover_devices(&vec![], &vec![]), vec![]);
}

#[test]
fn discover_devices_detailed_keeps_what_is_known() {
    let known = vec![persisted("tcp:127.0.0.1:9", "Router", Transport::Tcp)];
    let ports = vec![port("COM3", Some("Grbl"), Some("Acme"), Some(0x1a86), Some(0x7523))];
    let found = DeviceManager::discover_devices_detailed(&known, &ports);
    assert_eq!(found.len(), 2);
    assert_eq!(found[0].id, "tcp:127.0.0.1:9");
    assert_eq!(found[0].display, "Router");
    assert_eq!(found[0].transport, "Tcp");
    assert_eq!(found[0].product, None);
    assert_eq!(found[0].manufacturer, None);
    assert_eq!(found[0].vid, None);
    assert_eq!(found[0].pid, None);
    assert_eq!(found[1].id, "serial:COM3");
    assert_eq!(found[1].display, "COM3 (Grbl)");
    assert_eq!(found[1].transport, "serial");
    assert_eq!(found[1].product.as_deref(), Some("Grbl"));
    assert_eq!(found[1].manufacturer.as_deref(), Some("Acme"));
    assert_eq!(found[1].vid, Some(0x1a86));
    assert_eq!(found[1].pid, Some(0x7523));
}

#[test]
fn test_device_manager_returns_transport() {
    let device = DeviceManager::connect_network("127.0.0.1:4000");
    assert_eq!(device.id, "tcp:127.0.0.1:4000");
    assert_eq!(device.name, "TCP Device 127.0.0.1:4000");
    assert_eq!(device.port, "127.0.0.1:4000");
    assert_eq!(device.baud, None);
    assert_eq!(device.firmware, None);
    assert!(device.capabilities.is_empty());
    assert!(matches!(device.status, DeviceStatus::Connected));
    assert_eq!(device.transport, Transport::Tcp);
}

#[test]
fn transport_labels() {
    assert_eq!(Transport::Serial.label(), "Serial");
    assert_eq!(Transport::Tcp.label(), "Tcp");
    assert_eq!(Transport::Udp.label(), "Udp");
    for kind in [Transport::Serial, Transport::Tcp, Transport::Udp] {
        assert_eq!(kind.label(), format!("{:?}", kind));
    }
}

#[test]
fn test_ui_connect_updates_model_and_persists() {
    // the model is empty at first
    let model = slint_device_model();
    assert_eq!(model.len(), 0);
    assert!(model.row_data(0).is_none());

    // the identifier of a TCP device asks for a network connection
    assert_eq!(
        ui_connect_endpoint("tcp:127.0.0.1:9"),
        ConnectRequest::Network("127.0.0.1:9".to_string())
    );

    // after the connection the model shows the discovered devices
    let known = vec![DeviceManager::connect_network("127.0.0.1:9")];
    let ports = vec![port("/dev/ttyUSB0", None, None, Some(0x0403), Some(0x6001))];
    let items: Vec<UiDevice> = DeviceManager::discover_devices_detailed(&known, &ports)
        .into_iter()
        .map(UiDevice::from_discovered)
        .collect();
    let model = VecModel::from(items);
    assert_eq!(model.len(), 2);
    let mut found = false;
    for i in 0..model.len() {
        let it = model.row_data(i).unwrap();
        if !it.transport.is_empty() && !it.display.is_empty() {
            found = true;
        }
    }
    assert!(found, "expected at least one model item with transport and display populated");
    let first = model.row_data(0).unwrap();
    assert_eq!(first.id, "tcp:127.0.0.1:9");
    assert_eq!(first.vid, "");
    assert_eq!(first.pid, "");
    assert_eq!(first.product, "");
    let second = model.row_data(1).unwrap();
    assert_eq!(second.id, "serial:/dev/ttyUSB0");
    assert_eq!(second.display, "/dev/ttyUSB0 (0403:6001)");
    assert_eq!(second.transport, "serial");
    assert_eq!(second.manufacturer, "");
    assert_eq!(second.vid, "0403");
    assert_eq!(second.pid, "6001");
    assert!(model.row_data(2).is_none());
    assert!(model.row_data(usize::MAX).is_none());
}

#[test]
fn ui_connect_endpoint_reads_the_prefix() {
    assert_eq!(
        ui_connect_endpoint("serial:/dev/ttyUSB0"),
        ConnectRequest::Endpoint("/dev/ttyUSB0".to_string())
    );
    assert_eq!(ui_connect_endpoint("serial:"), ConnectRequest::Endpoint("".to_string()));
    assert_eq!(ui_connect_endpoint("tcp:"), ConnectRequest::Network("".to_string()));
    assert_eq!(
        ui_connect_endpoint("tcp://10.0.0.1:23"),
        ConnectRequest::Network("//10.0.0.1:23".to_string())
    );
    assert_eq!(
        ui_connect_endpoint("ws://host/feed"),
        ConnectRequest::Endpoint("ws://host/feed".to_string())
    );
    assert_eq!(ui_connect_endpoint(""), ConnectRequest::Endpoint("".to_string()));
    assert_eq!(ui_connect_endpoint("Serial:x"), ConnectRequest::Endpoint("Serial:x".to_string()));
}

#[test]
fn a_row_shows_every_field_as_text() {
    let row = UiDevice::from_discovered(DiscoveredDevice {
        id: "serial:COM1".to_string(),
        display: "COM1 (Mill)".to_string(),
        transport: "serial".to_string(),
        product: Some("Mill".to_string()),
        manufacturer: None,
        vid: Some(0x000f),
        pid: None,
    });
    assert_eq!(row.id, "serial:COM1");
    assert_eq!(row.display, "COM1 (Mill)");
    assert_eq!(row.transport, "serial");
    assert_eq!(row.product, "Mill");
    assert_eq!(row.manufacturer, "");
    assert_eq!(row.vid, "000f");
    assert_eq!(row.pid, "");
}
