use handshaker_core::wire_log::{direction_marker, payload_dump, rotation_target, WireDirection, MAX_WIRE_LOG_BYTES};

#[test]
fn direction_markers_point_the_way_the_frame_went() {
    assert_eq!(direction_marker(WireDirection::Out), ">>");
    assert_eq!(direction_marker(WireDirection::In), "<<");
}

#[test]
fn payload_dump_is_empty_for_no_bytes() {
    assert!(payload_dump(&[]).is_empty());
}

#[test]
fn payload_dump_puts_thirty_two_bytes_on_a_line() {
    let data: Vec<u8> = (0u8..33).collect();
    let lines = payload_dump(&data);
    assert_eq!(lines.len(), 2);
    let first: String = (0u8..32).map(|b| format!("{b:02x} ")).collect();
    assert_eq!(lines[0], first);
    assert_eq!(lines[1], "20 ");
}

#[test]
fn payload_dump_of_exactly_one_line() {
    let lines = payload_dump(&[0xab, 0x01, 0xff]);
    assert_eq!(lines, vec!["ab 01 ff ".to_string()]);
}

#[test]
fn log_below_its_limit_is_not_rotated() {
    assert_eq!(rotation_target("/tmp/wire.log", 10, 64), None);
    assert_eq!(rotation_target("/tmp/wire.log", MAX_WIRE_LOG_BYTES - 1, MAX_WIRE_LOG_BYTES), None);
}

#[test]
fn full_log_moves_to_its_dot_one_name() {
    assert_eq!(rotation_target("/tmp/wire.log", 64, 64), Some("/tmp/wire.log.1".to_string()));
    assert_eq!(rotation_target("/tmp/wire", 100, 64), Some("/tmp/wire.log.1".to_string()));
    assert_eq!(rotation_target("/tmp/.hidden", 100, 64), Some("/tmp/.hidden.log.1".to_string()));
    assert_eq!(rotation_target("/tmp/a.b.c", 100, 64), Some("/tmp/a.b.c.1".to_string()));
}
