use tinytosh_bridge::frame::frame_line;
use tinytosh_bridge::ports::{
    contains_str, find_candidate, is_candidate, matches_lowered, port_names, PortDescriptor,
    PortKind,
};

fn usb(name: &str, product: &str) -> PortDescriptor {
    PortDescriptor { name: name.to_string(), kind: PortKind::Usb, product_hint: product.to_string() }
}

fn other(name: &str) -> PortDescriptor {
    PortDescriptor { name: name.to_string(), kind: PortKind::Other, product_hint: String::new() }
}

#[test]
fn contains_str_finds_substrings() {
    assert!(contains_str("/dev/ttyusb0", "usb"));
    assert!(contains_str("usb", "usb"));
    assert!(contains_str("abc", ""));
    assert!(!contains_str("us", "usb"));
    assert!(!contains_str("/dev/ttys0", "usb"));
}

#[test]
fn matches_lowered_checks_both_lists() {
    assert!(matches_lowered("/dev/ttyacm0", ""));
    assert!(matches_lowered("com4", ""));
    assert!(matches_lowered("/dev/ttys9", "esp32-s3"));
    assert!(matches_lowered("/dev/ttys9", "ch340 adapter"));
    assert!(!matches_lowered("/dev/ttys9", "arduino"));
    assert!(!matches_lowered("/dev/ttys9", "CP2102"));
}

#[test]
fn candidate_names_are_case_insensitive() {
    assert!(is_candidate(&other("/dev/ttyACM0")));
    assert!(is_candidate(&other("COM3")));
    assert!(is_candidate(&other("/dev/ttyUSB1")));
    assert!(!is_candidate(&other("/dev/ttyS0")));
}

#[test]
fn candidate_products_are_case_insensitive() {
    assert!(is_candidate(&usb("/dev/ttyS4", "CP2102 USB to UART Bridge")));
    assert!(is_candidate(&usb("/dev/ttyS4", "USB JTAG/serial debug unit")));
    assert!(!is_candidate(&usb("/dev/ttyS4", "Arduino Uno")));
}

#[test]
fn product_counts_only_for_usb_ports() {
    let port = PortDescriptor {
        name: "/dev/ttyS4".to_string(),
        kind: PortKind::Other,
        product_hint: "ESP32".to_string(),
    };
    assert!(!is_candidate(&port));
}

#[test]
fn find_candidate_takes_first_match() {
    let ports = vec![other("/dev/ttyS0"), usb("/dev/ttyS1", "CH340"), other("/dev/ttyUSB0")];
    assert_eq!(find_candidate(&ports), Some(1));
}

#[test]
fn find_candidate_none_without_match() {
    assert_eq!(find_candidate(&vec![]), None);
    assert_eq!(find_candidate(&vec![other("/dev/ttyS0"), usb("/dev/ttyS1", "Arduino")]), None);
}

#[test]
fn port_names_keep_order() {
    let ports = vec![other("/dev/ttyS0"), usb("/dev/ttyUSB0", "CP2104")];
    assert_eq!(port_names(&ports), vec!["/dev/ttyS0".to_string(), "/dev/ttyUSB0".to_string()]);
}

#[test]
fn frame_line_appends_newline() {
    assert_eq!(frame_line(&"{\"a\":1}".to_string()), "{\"a\":1}\n");
    assert_eq!(frame_line(&String::new()), "\n");
}
