use capture_serial_core::devices::{class_name, describe_ports, list_serial_ports, TransportClass};
use capture_serial_core::errors::{ConnectError, QueryError, SendError};
use capture_serial_core::mouse::{mouse_point_from, MousePosition};
use capture_serial_core::serial::{
    frame_command, interpret_response, SerialSession, GRACE_PERIOD_MS,
};

#[test]
fn send_on_disconnected_session_fails_without_io() {
    let mut session = SerialSession::new();
    assert!(!session.is_connected());
    let out = session.send_arduino_command("PING");
    assert!(matches!(out, Err(SendError::NotConnected)));
    assert!(!session.is_connected());
}

#[test]
fn disconnect_is_idempotent() {
    let mut session = SerialSession::new();
    let first = session.disconnect_arduino();
    assert!(!session.is_connected());
    let second = session.disconnect_arduino();
    assert_eq!(first, "Arduino disconnected");
    assert_eq!(first, second);
    assert!(!session.is_connected());
}

#[test]
fn connect_to_missing_device_fails_and_leaves_state() {
    let mut session = SerialSession::new();
    let out = session.connect_to_arduino("COM_NONEXISTENT");
    assert!(matches!(out, Err(ConnectError::OpenFailed(_))));
    assert!(!session.is_connected());
    let send = session.send_arduino_command("PING");
    assert!(matches!(send, Err(SendError::NotConnected)));
}

#[test]
fn split_send_steps_also_fail_without_connection() {
    let mut session = SerialSession::new();
    assert!(matches!(
        session.send_command_write("PING"),
        Err(SendError::NotConnected)
    ));
    assert!(matches!(
        session.send_command_read(),
        Err(SendError::NotConnected)
    ));
    assert!(!session.is_connected());
}

#[test]
fn grace_period_is_the_fixed_constant() {
    assert_eq!(GRACE_PERIOD_MS, 100);
}

#[test]
fn frame_command_appends_newline() {
    assert_eq!(frame_command("PING"), "PING\n");
}

#[test]
fn interpret_response_decodes_bytes() {
    assert_eq!(interpret_response(Ok(b"OK".to_vec())), "OK");
}

#[test]
fn interpret_response_replaces_invalid_utf8() {
    let reply = interpret_response(Ok(vec![0xFF, b'O', b'K']));
    assert_eq!(reply, "\u{FFFD}OK");
}

#[test]
fn interpret_response_empty_read_is_sentinel() {
    assert_eq!(interpret_response(Ok(Vec::new())), "No response");
}

#[test]
fn interpret_response_read_error_is_sentinel() {
    assert_eq!(
        interpret_response(Err("timed out".to_string())),
        "Error reading response"
    );
}

#[test]
fn send_error_messages_match_the_session() {
    assert_eq!(SendError::NotConnected.message(), "No Arduino connected");
    assert_eq!(
        SendError::WriteFailed("broken pipe".to_string()).message(),
        "Failed to send command: broken pipe"
    );
    assert_eq!(
        ConnectError::OpenFailed("no such device".to_string()).message(),
        "Failed to connect to Arduino: no such device"
    );
}

#[test]
fn class_names_cover_all_transports() {
    assert_eq!(class_name(TransportClass::Usb), "USB");
    assert_eq!(class_name(TransportClass::Bluetooth), "Bluetooth");
    assert_eq!(class_name(TransportClass::Pci), "PCI");
    assert_eq!(class_name(TransportClass::Unknown), "Unknown");
}

#[test]
fn describing_zero_devices_yields_empty_list() {
    let entries: Vec<(String, TransportClass)> = Vec::new();
    let described = describe_ports(&entries);
    assert!(described.is_empty());
}

#[test]
fn describe_ports_keeps_names_and_labels() {
    let entries = vec![
        ("/dev/ttyUSB0".to_string(), TransportClass::Usb),
        ("/dev/rfcomm0".to_string(), TransportClass::Bluetooth),
    ];
    let described = describe_ports(&entries);
    assert_eq!(described.len(), 2);
    assert_eq!(described[0].port_name, "/dev/ttyUSB0");
    assert_eq!(described[0].port_type, "USB");
    assert_eq!(described[1].port_name, "/dev/rfcomm0");
    assert_eq!(described[1].port_type, "Bluetooth");
}

#[test]
fn enumeration_never_panics_and_labels_are_coarse() {
    match list_serial_ports() {
        Ok(ports) => {
            for p in ports {
                assert!(
                    p.port_type == "USB"
                        || p.port_type == "Bluetooth"
                        || p.port_type == "PCI"
                        || p.port_type == "Unknown"
                );
            }
        }
        Err(m) => assert!(m.starts_with("Failed to list serial ports: ")),
    }
}

#[test]
fn mouse_point_keeps_coordinates() {
    let out = mouse_point_from(Some((31, -7)));
    assert_eq!(out, Ok(MousePosition { x: 31, y: -7 }));
}

#[test]
fn absent_mouse_sample_is_unavailable() {
    let out = mouse_point_from(None);
    assert_eq!(out, Err(QueryError::Unavailable));
    assert_eq!(
        QueryError::Unavailable.message(),
        "Error getting mouse position"
    );
}
