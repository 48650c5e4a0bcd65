use macropad::{LineBuffer, Rgb, RuntimeState, Status, execute_line, hex_val, serial_input};

fn run(state: &mut RuntimeState, line: &[u8]) {
    let v: Vec<u8> = line.to_vec();
    execute_line(state, &v);
}

#[test]
fn rgb_round_trip() {
    let mut st = RuntimeState::new();
    run(&mut st, b"RGB:3:FF00AA");
    assert_eq!(st.overrides[2], Rgb { r: 255, g: 0, b: 170 });
    // the other keys stay unset
    assert_eq!(st.overrides[0], Rgb { r: 0, g: 0, b: 0 });
    assert_eq!(st.overrides[3], Rgb { r: 0, g: 0, b: 0 });
}

#[test]
fn rgb_two_digit_index() {
    let mut st = RuntimeState::new();
    run(&mut st, b"RGB:12:0080FF");
    assert_eq!(st.overrides[11], Rgb { r: 0, g: 128, b: 255 });
}

#[test]
fn rgb_lowercase_hex() {
    let mut st = RuntimeState::new();
    run(&mut st, b"RGB:1:ff00aa");
    assert_eq!(st.overrides[0], Rgb { r: 255, g: 0, b: 170 });
}

#[test]
fn rgb_out_of_range_index_is_dropped() {
    let mut st = RuntimeState::new();
    run(&mut st, b"RGB:13:FF0000");
    for i in 0..12 {
        assert_eq!(st.overrides[i], Rgb { r: 0, g: 0, b: 0 });
    }
}

#[test]
fn rgb_zero_index_is_dropped() {
    let mut st = RuntimeState::new();
    run(&mut st, b"RGB:0:FF0000");
    for i in 0..12 {
        assert_eq!(st.overrides[i], Rgb { r: 0, g: 0, b: 0 });
    }
}

#[test]
fn rgb_bad_hex_is_dropped_whole() {
    let mut st = RuntimeState::new();
    run(&mut st, b"RGB:3:ZZZZZZ");
    for i in 0..12 {
        assert_eq!(st.overrides[i], Rgb { r: 0, g: 0, b: 0 });
    }
}

#[test]
fn rgb_short_hex_is_dropped() {
    let mut st = RuntimeState::new();
    run(&mut st, b"RGB:3:FF00A");
    for i in 0..12 {
        assert_eq!(st.overrides[i], Rgb { r: 0, g: 0, b: 0 });
    }
}

#[test]
fn msg_stores_payload() {
    let mut st = RuntimeState::new();
    run(&mut st, b"MSG:hello world");
    assert_eq!(st.message, b"hello world".to_vec());
    assert!(st.dirty);
}

#[test]
fn msg_truncates_to_twenty_printable() {
    let mut st = RuntimeState::new();
    run(&mut st, b"MSG:abcdefghijklmnopqrstuvwxyz0123");
    assert_eq!(st.message, b"abcdefghijklmnopqrst".to_vec());
    assert_eq!(st.message.len(), 20);
}

#[test]
fn msg_drops_control_bytes() {
    let mut st = RuntimeState::new();
    run(&mut st, b"MSG:a\x01b\x02c");
    assert_eq!(st.message, b"abc".to_vec());
}

#[test]
fn msg_control_bytes_do_not_count_toward_cap() {
    let mut st = RuntimeState::new();
    let mut line: Vec<u8> = b"MSG:".to_vec();
    for _ in 0..5 {
        line.push(0x01);
    }
    line.extend_from_slice(b"abcdefghijklmnopqrstuvwxyz");
    execute_line(&mut st, &line);
    assert_eq!(st.message, b"abcdefghijklmnopqrst".to_vec());
}

#[test]
fn msg_empty_after_filter_clears() {
    let mut st = RuntimeState::new();
    run(&mut st, b"MSG:hi");
    run(&mut st, b"MSG:\x01\x02");
    assert!(st.message.is_empty());
}

#[test]
fn sts_sets_each_status() {
    let mut st = RuntimeState::new();
    run(&mut st, b"STS:RUN");
    assert_eq!(st.status, Status::Running);
    run(&mut st, b"STS:WAIT");
    assert_eq!(st.status, Status::Waiting);
    run(&mut st, b"STS:ERR");
    assert_eq!(st.status, Status::Error);
    run(&mut st, b"STS:IDLE");
    assert_eq!(st.status, Status::Idle);
}

#[test]
fn sts_unknown_name_changes_nothing() {
    let mut st = RuntimeState::new();
    run(&mut st, b"STS:RUN");
    run(&mut st, b"STS:BUSY");
    assert_eq!(st.status, Status::Running);
    run(&mut st, b"STS:run");
    assert_eq!(st.status, Status::Running);
}

#[test]
fn clr_clears_message_only() {
    let mut st = RuntimeState::new();
    run(&mut st, b"MSG:hello");
    run(&mut st, b"STS:ERR");
    run(&mut st, b"RGB:1:112233");
    run(&mut st, b"CLR:");
    assert!(st.message.is_empty());
    assert_eq!(st.status, Status::Error);
    assert_eq!(st.overrides[0], Rgb { r: 0x11, g: 0x22, b: 0x33 });
}

#[test]
fn rst_resets_regardless_of_prior_state() {
    let mut st = RuntimeState::new();
    run(&mut st, b"MSG:hello");
    run(&mut st, b"STS:ERR");
    run(&mut st, b"RGB:5:ABCDEF");
    run(&mut st, b"RGB:12:010203");
    run(&mut st, b"RST:");
    assert!(st.message.is_empty());
    assert_eq!(st.status, Status::Idle);
    for i in 0..12 {
        assert_eq!(st.overrides[i], Rgb { r: 0, g: 0, b: 0 });
    }
}

#[test]
fn short_and_unknown_lines_are_ignored() {
    let mut st = RuntimeState::new();
    run(&mut st, b"MSG:keep");
    run(&mut st, b"");
    run(&mut st, b"MS");
    run(&mut st, b"XYZ:abc");
    run(&mut st, b"msg:gone");
    assert_eq!(st.message, b"keep".to_vec());
    assert_eq!(st.status, Status::Idle);
}

#[test]
fn hex_val_digits() {
    assert_eq!(hex_val(b'0'), Some(0));
    assert_eq!(hex_val(b'9'), Some(9));
    assert_eq!(hex_val(b'A'), Some(10));
    assert_eq!(hex_val(b'F'), Some(15));
    assert_eq!(hex_val(b'a'), Some(10));
    assert_eq!(hex_val(b'f'), Some(15));
    assert_eq!(hex_val(b'G'), None);
    assert_eq!(hex_val(b':'), None);
}

#[test]
fn serial_input_terminates_and_applies_lines() {
    let mut st = RuntimeState::new();
    let mut buf = LineBuffer::new();
    let chunk: Vec<u8> = b"STS:RUN\nMSG:hi".to_vec();
    serial_input(&mut st, &mut buf, &chunk);
    assert_eq!(st.status, Status::Running);
    // the MSG line is still accumulating
    assert!(st.message.is_empty());
    let rest: Vec<u8> = b" there\r".to_vec();
    serial_input(&mut st, &mut buf, &rest);
    assert_eq!(st.message, b"hi there".to_vec());
}

#[test]
fn serial_input_empty_chunk_is_normal() {
    let mut st = RuntimeState::new();
    let mut buf = LineBuffer::new();
    let empty: Vec<u8> = Vec::new();
    serial_input(&mut st, &mut buf, &empty);
    assert_eq!(st.status, Status::Idle);
    assert!(st.message.is_empty());
}

#[test]
fn serial_overflow_drops_bytes_past_capacity() {
    let mut st = RuntimeState::new();
    let mut buf = LineBuffer::new();
    // "MSG:" plus 96 'a' bytes: only the first 64 bytes of the line are
    // kept, and of those the message keeps its first 20 printable bytes.
    let mut chunk: Vec<u8> = b"MSG:".to_vec();
    for _ in 0..96 {
        chunk.push(b'a');
    }
    chunk.push(b'\n');
    serial_input(&mut st, &mut buf, &chunk);
    assert_eq!(st.message.len(), 20);
    // the buffer is clear again: a following command still parses
    let next: Vec<u8> = b"STS:WAIT\n".to_vec();
    serial_input(&mut st, &mut buf, &next);
    assert_eq!(st.status, Status::Waiting);
}
