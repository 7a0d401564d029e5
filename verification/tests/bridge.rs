use embedded_web_ui::bridge::{
    binary_payload, bluetooth_port, bytes_contain, candidate_ports, listed_usable_ports, named_or_listed_ports, client_text, dev_server_step, device_payload, upload_reply, DevServerStep,
    WsFrame,
};

#[test]
fn browser_messages_to_device() {
    assert_eq!(device_payload(WsFrame::Text("hé".to_string())), Some(vec![b'h', 0xc3, 0xa9]));
    assert_eq!(device_payload(WsFrame::Binary(vec![1, 0, 2])), Some(vec![1, 0, 2]));
    assert_eq!(device_payload(WsFrame::Ping(vec![1])), None);
    assert_eq!(device_payload(WsFrame::Pong(vec![])), None);
    assert_eq!(device_payload(WsFrame::Close), None);
}

#[test]
fn bridge_to_browser_binary_only() {
    assert_eq!(binary_payload(WsFrame::Binary(vec![3, 0])), Some(vec![3, 0]));
    assert_eq!(binary_payload(WsFrame::Text("x".into())), None);
    assert_eq!(client_text(WsFrame::Text("hey".into())), Some("hey".to_string()));
    assert_eq!(client_text(WsFrame::Binary(vec![1])), None);
}

#[test]
fn dev_server_steps() {
    assert_eq!(dev_server_step(Some(WsFrame::Binary(vec![9]))), DevServerStep::DecodeInput(vec![9]));
    assert_eq!(dev_server_step(Some(WsFrame::Close)), DevServerStep::Stop);
    assert_eq!(dev_server_step(None), DevServerStep::Stop);
    assert_eq!(dev_server_step(Some(WsFrame::Text("t".into()))), DevServerStep::Ignore);
}

#[test]
fn upload_replies() {
    assert_eq!(upload_reply(true), "OK");
    assert_eq!(upload_reply(false), "nobody home?");
}

#[test]
fn bluetooth_ports_recognised() {
    assert!(bluetooth_port("/dev/cu.Bluetooth-Incoming-Port"));
    assert!(bluetooth_port("BLUETOOTH"));
    assert!(!bluetooth_port("/dev/ttyUSB0"));
    assert!(!bluetooth_port("blue tooth"));
}

#[test]
fn ports_tried() {
    let listed = vec![
        "/dev/cu.Bluetooth-Incoming-Port".to_string(),
        "/dev/cu.usbserial1234".to_string(),
        "/dev/ttyACM0".to_string(),
    ];
    let auto = vec!["/dev/cu.usbserial1234".to_string(), "/dev/ttyACM0".to_string()];
    assert_eq!(candidate_ports(None, &listed), auto);
    assert_eq!(candidate_ports(Some(String::new()), &listed), auto);
    assert_eq!(candidate_ports(Some("COM3".to_string()), &listed), vec!["COM3".to_string()]);
    assert!(candidate_ports(None, &vec![]).is_empty());
}

#[test]
fn first_bridge_ports() {
    let listed = vec!["Bluetooth-Modem".to_string(), "/dev/ttyUSB0".to_string()];
    assert_eq!(named_or_listed_ports(Some(String::new()), &listed), vec![String::new()]);
    assert_eq!(named_or_listed_ports(None, &listed), vec!["/dev/ttyUSB0".to_string()]);
    assert_eq!(listed_usable_ports(&listed), vec!["/dev/ttyUSB0".to_string()]);
}

#[test]
fn byte_runs() {
    assert!(bytes_contain(b"abcdef", b"cde"));
    assert!(bytes_contain(b"abc", b""));
    assert!(bytes_contain(b"", b""));
    assert!(bytes_contain(b"abc", b"abc"));
    assert!(!bytes_contain(b"abc", b"abcd"));
    assert!(!bytes_contain(b"abcabd", b"abe"));
    assert!(bytes_contain(b"aab", b"ab"));
}
