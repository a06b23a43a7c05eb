use gcodekit::device_manager::DeviceManager;
use gcodekit::endpoint::{apply_setting, resolve, same_text, serial_endpoint, Endpoint, Locator};
use gcodekit::error::CoreError;

fn serial_parts(endpoint: Endpoint) -> (String, u32, u64) {
    match endpoint {
        Endpoint::Serial { path, options } => {
            assert_eq!(options.parity, None);
            assert_eq!(options.flow_control, None);
            (path, options.baud, options.timeout_ms)
        }
        other => panic!("not serial: {:?}", other),
    }
}

fn tcp_address(endpoint: Endpoint) -> String {
    match endpoint {
        Endpoint::Tcp(address) => address,
        other => panic!("not tcp: {:?}", other),
    }
}

#[test]
fn test_connect_network_to_local_listener() {
    // a bare host:port is a TCP endpoint
    let endpoint = format!("127.0.0.1:{}", 50123);
    let found = DeviceManager::connect_endpoint(&endpoint).expect("connect network");
    assert_eq!(tcp_address(found), "127.0.0.1:50123");
}

#[test]
fn test_connect_serial_endpoint_ignored() {
    let path = "/dev/ttyUSB0";
    let found = DeviceManager::connect_endpoint(path).expect("serial");
    assert_eq!(serial_parts(found), ("/dev/ttyUSB0".to_string(), 115200, 200));
}

#[test]
fn tcp_scheme_is_stripped() {
    assert_eq!(tcp_address(resolve("tcp://10.0.0.7:23").unwrap()), "10.0.0.7:23");
    assert_eq!(tcp_address(resolve("tcp://tcp://10.0.0.7:23").unwrap()), "10.0.0.7:23");
    assert_eq!(tcp_address(resolve("tcp://").unwrap()), "");
    assert_eq!(tcp_address(resolve("printer.local:8080").unwrap()), "printer.local:8080");
    assert_eq!(tcp_address(resolve("[::1]:9").unwrap()), "[::1]:9");
}

#[test]
fn websocket_urls_are_kept_whole() {
    for url in ["ws://127.0.0.1:9001/feed", "wss://device.example/stream?x=1", "ws://"] {
        match resolve(url).unwrap() {
            Endpoint::WebSocket(kept) => assert_eq!(kept, url),
            other => panic!("not a websocket: {:?}", other),
        }
    }
}

#[test]
fn serial_urls_give_path_and_settings() {
    let found = resolve("serial:///dev/ttyUSB0?baud=115200&timeout_ms=500").unwrap();
    assert_eq!(serial_parts(found), ("dev/ttyUSB0".to_string(), 115200, 500));
    let found = resolve("serial:////dev/ttyACM0?baud=250000").unwrap();
    assert_eq!(serial_parts(found), ("/dev/ttyACM0".to_string(), 250000, 200));
    let found = resolve("serial:///COM3").unwrap();
    assert_eq!(serial_parts(found), ("COM3".to_string(), 115200, 200));
}

#[test]
fn a_path_with_a_query_is_read_behind_the_serial_scheme() {
    let found = resolve("/dev/ttyUSB0?baud=9600&timeout_ms=1500").unwrap();
    assert_eq!(serial_parts(found), ("dev/ttyUSB0".to_string(), 9600, 1500));
}

#[test]
fn no_descriptor_sets_parity_or_flow_control() {
    for descriptor in [
        "/dev/ttyUSB0",
        "/dev/tty:odd",
        "COM3",
        "serial:///dev/ttyUSB0?baud=9600&parity=even&flow_control=hardware",
        "/dev/ttyUSB0?parity=odd",
    ] {
        match resolve(descriptor).unwrap() {
            Endpoint::Serial { options, .. } => {
                assert_eq!(options.parity, None);
                assert_eq!(options.flow_control, None);
            }
            other => panic!("not serial: {:?}", other),
        }
    }
}

#[test]
fn bare_names_are_serial_paths() {
    assert_eq!(serial_parts(resolve("COM3").unwrap()), ("COM3".to_string(), 115200, 200));
    assert_eq!(serial_parts(resolve("").unwrap()), ("".to_string(), 115200, 200));
    assert_eq!(
        serial_parts(resolve("/dev/tty:odd").unwrap()),
        ("/dev/tty:odd".to_string(), 115200, 200)
    );
}

#[test]
fn settings_that_are_no_numbers_change_nothing() {
    let found = resolve("serial:///dev/x?baud=fast&timeout_ms=-1&parity=even").unwrap();
    assert_eq!(serial_parts(found), ("dev/x".to_string(), 115200, 200));
    // too large for a rate, fine for a timeout
    let found = resolve("serial:///dev/x?baud=4294967296&timeout_ms=4294967296").unwrap();
    assert_eq!(serial_parts(found), ("dev/x".to_string(), 115200, 4294967296));
    // the last setting of a kind stands
    let found = resolve("serial:///dev/x?baud=1200&baud=2400&baud=oops").unwrap();
    assert_eq!(serial_parts(found), ("dev/x".to_string(), 2400, 200));
    // values are decoded before they are read
    let found = resolve("serial:///dev/x?baud=%31%32").unwrap();
    assert_eq!(serial_parts(found), ("dev/x".to_string(), 12, 200));
}

#[test]
fn what_reads_as_a_url_and_is_none_is_refused() {
    match resolve("a b?baud=1") {
        Err(CoreError::Config(detail)) => assert_eq!(detail, "not a serial endpoint"),
        other => panic!("expected a configuration error, got {:?}", other),
    }
    match DeviceManager::connect_endpoint("a b?baud=1") {
        Err(error) => assert_eq!(error.message(), "Config error: not a serial endpoint"),
        other => panic!("expected a configuration error, got {:?}", other),
    }
}

#[test]
fn serial_endpoint_reads_the_parts_of_a_url() {
    let locator = Locator {
        path: "/dev/ttyS1".to_string(),
        query: vec![
            ("timeout_ms".to_string(), "750".to_string()),
            ("baud".to_string(), "57600".to_string()),
            ("Baud".to_string(), "1".to_string()),
        ],
    };
    assert_eq!(serial_parts(serial_endpoint(&locator)), ("dev/ttyS1".to_string(), 57600, 750));
    let locator = Locator { path: "".to_string(), query: vec![] };
    assert_eq!(serial_parts(serial_endpoint(&locator)), ("".to_string(), 115200, 200));
}

#[test]
fn apply_setting_takes_only_the_two_keys() {
    assert_eq!(apply_setting((1, 2), "baud", Some(9600), Some(9600)), (9600, 2));
    assert_eq!(apply_setting((1, 2), "timeout_ms", Some(7), Some(7)), (1, 7));
    assert_eq!(apply_setting((1, 2), "baud", None, Some(9)), (1, 2));
    assert_eq!(apply_setting((1, 2), "timeout_ms", Some(9), None), (1, 2));
    assert_eq!(apply_setting((1, 2), "bauds", Some(9), Some(9)), (1, 2));
    assert_eq!(apply_setting((1, 2), "", Some(9), Some(9)), (1, 2));
}

#[test]
fn same_text_compares_whole_texts() {
    assert!(same_text("baud", "baud"));
    assert!(same_text("", ""));
    assert!(!same_text("baud", "bau"));
    assert!(!same_text("bau", "baud"));
    assert!(!same_text("baud", "Baud"));
}
