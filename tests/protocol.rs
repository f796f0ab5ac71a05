use logwire::assembler::{ConnectionState, Message, ProtocolError};
use logwire::packet::{read_raw_packet, DecodeError, MessageType, RawMessage, Severity};
use logwire::render::{decimal_text, log_line, log_path, process_dir, render_line};
use logwire::text::convert_string;
use logwire::wire::PACKET_SIZE;

fn put_field(buf: &mut Vec<u8>, at: usize, width: usize, bytes: &[u8]) {
    assert!(bytes.len() <= width);
    buf[at..at + bytes.len()].copy_from_slice(bytes);
}

fn text_packet(kind: u32, timestamp: u64, severity: u32, module: &str, channel: &str, message: &[u8]) -> Vec<u8> {
    let mut p = vec![0u8; PACKET_SIZE];
    p[0..4].copy_from_slice(&kind.to_le_bytes());
    p[8..16].copy_from_slice(&timestamp.to_le_bytes());
    p[16..20].copy_from_slice(&severity.to_le_bytes());
    put_field(&mut p, 20, 32, module.as_bytes());
    put_field(&mut p, 52, 32, channel.as_bytes());
    put_field(&mut p, 84, 256, message);
    p
}

fn connection_packet(version: u32, pid: u64, machine: &[u8], path: &[u8]) -> Vec<u8> {
    let mut p = vec![0u8; PACKET_SIZE];
    p[8..12].copy_from_slice(&version.to_le_bytes());
    p[16..24].copy_from_slice(&pid.to_le_bytes());
    put_field(&mut p, 24, 32, machine);
    put_field(&mut p, 56, 260, path);
    p
}

fn text_of(r: Result<Option<Message>, ProtocolError>) -> logwire::assembler::TextMessage {
    match r {
        Ok(Some(Message::Text(t))) => t,
        other => panic!("expected a text message, got {:?}", other),
    }
}

#[test]
fn packet_is_the_larger_payload_plus_header() {
    assert_eq!(PACKET_SIZE, 8 + 336);
}

#[test]
fn severity_codes() {
    assert_eq!(Severity::from_u32(0), Severity::Info);
    assert_eq!(Severity::from_u32(1), Severity::Notice);
    assert_eq!(Severity::from_u32(2), Severity::Warn);
    assert_eq!(Severity::from_u32(3), Severity::Error);
    assert_eq!(Severity::from_u32(99), Severity::Unknown(99));
    assert_eq!(Severity::from_u32(u32::MAX), Severity::Unknown(u32::MAX));
}

#[test]
fn message_type_codes() {
    assert_eq!(MessageType::from_u32(0), MessageType::Connection);
    assert_eq!(MessageType::from_u32(1), MessageType::Simple);
    assert_eq!(MessageType::from_u32(2), MessageType::Large);
    assert_eq!(MessageType::from_u32(3), MessageType::Continuation);
    assert_eq!(MessageType::from_u32(4), MessageType::ContinuationEnd);
}

#[test]
fn simple_text_packet_decodes() {
    let p = text_packet(1, 1000, 0, "db", "api", b"hello");
    match read_raw_packet(&p).unwrap() {
        RawMessage::RawText(t, x) => {
            assert_eq!(t, MessageType::Simple);
            assert_eq!(x.timestamp, 1000);
            assert_eq!(x.severity, 0);
            assert_eq!(x.module.len(), 32);
            assert_eq!(x.message.len(), 256);
        }
        other => panic!("expected text, got {:?}", other),
    }
    let mut st = ConnectionState::new();
    let m = text_of(st.read_packet(&p));
    assert_eq!(m.timestamp, 1000);
    assert_eq!(m.severity, Severity::Info);
    assert_eq!(m.module, "db");
    assert_eq!(m.channel, "api");
    assert_eq!(m.message, "hello");
}

#[test]
fn wide_integers_decode_little_endian() {
    let p = text_packet(1, 0x0102_0304_0506_0708, 0x0A0B_0C0D, "m", "c", b"x");
    match read_raw_packet(&p).unwrap() {
        RawMessage::RawText(_, x) => {
            assert_eq!(x.timestamp, 0x0102_0304_0506_0708);
            assert_eq!(x.severity, 0x0A0B_0C0D);
        }
        other => panic!("expected text, got {:?}", other),
    }
}

#[test]
fn connection_packet_updates_state() {
    let p = connection_packet(1, 4242, b"host", b"/usr/bin/app");
    let mut st = ConnectionState::new();
    assert_eq!(st.version, 1);
    assert_eq!(st.pid, 0);
    match st.read_packet(&p) {
        Ok(Some(Message::Connection(c))) => {
            assert_eq!(c.version, 1);
            assert_eq!(c.pid, 4242);
            assert_eq!(c.machine_name, "host");
            assert_eq!(c.executable_path, "/usr/bin/app");
        }
        other => panic!("expected a connection message, got {:?}", other),
    }
    assert_eq!(st.pid, 4242);
}

#[test]
fn large_message_joins_fragments() {
    let mut st = ConnectionState::new();
    assert!(matches!(st.read_packet(&text_packet(2, 7, 2, "m", "c", b"ab")), Ok(None)));
    assert!(matches!(st.read_packet(&text_packet(3, 8, 0, "x", "y", b"cd")), Ok(None)));
    let m = text_of(st.read_packet(&text_packet(4, 9, 0, "x", "y", b"ef")));
    assert_eq!(m.message, "abcdef");
    assert_eq!(m.timestamp, 7);
    assert_eq!(m.severity, Severity::Warn);
    assert_eq!(m.module, "m");
    assert_eq!(m.channel, "c");
    let again = text_of(st.read_packet(&text_packet(1, 10, 0, "m", "c", b"next")));
    assert_eq!(again.message, "next");
}

#[test]
fn large_message_without_continuations() {
    let mut st = ConnectionState::new();
    assert!(matches!(st.read_packet(&text_packet(2, 1, 0, "m", "c", b"one")), Ok(None)));
    let m = text_of(st.read_packet(&text_packet(4, 1, 0, "m", "c", b"two")));
    assert_eq!(m.message, "onetwo");
}

#[test]
fn continuation_while_idle_is_refused() {
    let mut st = ConnectionState::new();
    assert_eq!(
        st.read_packet(&text_packet(3, 1, 0, "m", "c", b"x")).unwrap_err(),
        ProtocolError::ContinuationWhileIdle(MessageType::Continuation)
    );
    let mut st = ConnectionState::new();
    assert_eq!(
        st.read_packet(&text_packet(4, 1, 0, "m", "c", b"x")).unwrap_err(),
        ProtocolError::ContinuationWhileIdle(MessageType::ContinuationEnd)
    );
}

#[test]
fn new_record_while_accumulating_is_refused() {
    for (kind, expected) in [(1u32, MessageType::Simple), (2, MessageType::Large)] {
        let mut st = ConnectionState::new();
        assert!(matches!(st.read_packet(&text_packet(2, 1, 0, "m", "c", b"a")), Ok(None)));
        assert_eq!(
            st.read_packet(&text_packet(kind, 1, 0, "m", "c", b"b")).unwrap_err(),
            ProtocolError::UnfinishedMessage(expected)
        );
    }
    let mut st = ConnectionState::new();
    assert!(matches!(st.read_packet(&text_packet(2, 1, 0, "m", "c", b"a")), Ok(None)));
    assert_eq!(
        st.read_packet(&connection_packet(1, 5, b"h", b"p")).unwrap_err(),
        ProtocolError::UnfinishedMessage(MessageType::Connection)
    );
}

#[test]
fn text_needs_version_one() {
    let mut st = ConnectionState::new();
    assert!(st.read_packet(&connection_packet(2, 5, b"h", b"p")).is_ok());
    assert_eq!(
        st.read_packet(&text_packet(1, 1, 0, "m", "c", b"x")).unwrap_err(),
        ProtocolError::UnsupportedVersion(2)
    );
}

#[test]
fn decode_errors() {
    assert_eq!(read_raw_packet(&[1, 0, 0]).unwrap_err(), DecodeError::Truncated);
    assert_eq!(read_raw_packet(&[1, 0, 0, 0, 0, 0, 0, 0]).unwrap_err(), DecodeError::Truncated);
    let mut p = text_packet(1, 0, 0, "m", "c", b"x");
    p[0] = 5;
    assert_eq!(read_raw_packet(&p).unwrap_err(), DecodeError::UnknownType(5));
    assert_eq!(read_raw_packet(&p[..4]).unwrap_err(), DecodeError::UnknownType(5));
    let mut st = ConnectionState::new();
    assert_eq!(
        st.read_packet(&p[..PACKET_SIZE - 1]).unwrap_err(),
        ProtocolError::Decode(DecodeError::UnknownType(5))
    );
    let q = text_packet(1, 0, 0, "m", "c", b"x");
    assert_eq!(
        st.read_packet(&q[..PACKET_SIZE - 1]).unwrap_err(),
        ProtocolError::Decode(DecodeError::Truncated)
    );
}

#[test]
fn text_fields_stop_at_nul_and_replace_bad_utf8() {
    assert_eq!(convert_string(b"abc\0def"), "abc");
    assert_eq!(convert_string(b"\0abc"), "");
    assert_eq!(convert_string(b""), "");
    assert_eq!(convert_string(b"full"), "full");
    assert_eq!(convert_string(b"a\xffb\0c"), "a\u{FFFD}b");
    assert_eq!(convert_string("héllo\0".as_bytes()), "héllo");
}

#[test]
fn connection_fields_round_trip() {
    let name = "machine-ünïcode";
    let path = "/opt/tools/bin/agent";
    let p = connection_packet(1, 9, name.as_bytes(), path.as_bytes());
    let mut st = ConnectionState::new();
    let c = match st.read_packet(&p) {
        Ok(Some(Message::Connection(c))) => c,
        other => panic!("expected a connection message, got {:?}", other),
    };
    assert_eq!(c.machine_name, name);
    assert_eq!(c.executable_path, path);
    let mut field = vec![0u8; 32];
    field[..c.machine_name.len()].copy_from_slice(c.machine_name.as_bytes());
    assert_eq!(&field[..], &p[24..56]);
    assert_eq!(convert_string(&field), name);
}

#[test]
fn full_width_field_has_no_terminator() {
    let name = "abcdefghijklmnopqrstuvwxyz012345";
    assert_eq!(name.len(), 32);
    let p = connection_packet(1, 1, name.as_bytes(), b"p");
    let mut st = ConnectionState::new();
    match st.read_packet(&p) {
        Ok(Some(Message::Connection(c))) => assert_eq!(c.machine_name, name),
        other => panic!("expected a connection message, got {:?}", other),
    }
}

#[test]
fn decimal_and_paths() {
    assert_eq!(decimal_text(0), "0");
    assert_eq!(decimal_text(7), "7");
    assert_eq!(decimal_text(1234567890), "1234567890");
    assert_eq!(decimal_text(u64::MAX), "18446744073709551615");
    assert_eq!(process_dir(4242), "4242");
    assert_eq!(log_path(4242, "db"), "4242/db.txt");
}

#[test]
fn severity_names() {
    assert_eq!(Severity::Info.name(), "Info");
    assert_eq!(Severity::Notice.name(), "Notice");
    assert_eq!(Severity::Warn.name(), "Warn");
    assert_eq!(Severity::Error.name(), "Error");
    assert_eq!(Severity::Unknown(99).name(), "Unknown(99)");
}

#[test]
fn log_lines() {
    let mut st = ConnectionState::new();
    let m = text_of(st.read_packet(&text_packet(1, 1000, 0, "db", "api", b"hello")));
    assert_eq!(render_line("T", &m), "T Info [api] > hello\n");
    assert_eq!(log_line(&m).unwrap(), "1970-01-01 00:16:40 Info [api] > hello\n");
    let late = text_of(st.read_packet(&text_packet(1, 1_431_648_000, 99, "db", "api", b"x")));
    assert_eq!(log_line(&late).unwrap(), "2015-05-15 00:00:00 Unknown(99) [api] > x\n");
    let far = text_of(st.read_packet(&text_packet(1, u64::MAX, 0, "db", "api", b"x")));
    assert!(log_line(&far).is_none());
    let beyond = text_of(st.read_packet(&text_packet(1, i64::MAX as u64, 0, "db", "api", b"x")));
    assert!(log_line(&beyond).is_none());
}

#[test]
fn many_continuations_keep_arrival_order() {
    let mut st = ConnectionState::new();
    assert!(matches!(st.read_packet(&text_packet(2, 1, 1, "m", "c", b"1")), Ok(None)));
    for part in [&b"2"[..], b"3", b"4", b""] {
        assert!(matches!(st.read_packet(&text_packet(3, 1, 0, "m", "c", part)), Ok(None)));
    }
    let m = text_of(st.read_packet(&text_packet(4, 1, 0, "m", "c", b"5")));
    assert_eq!(m.message, "12345");
    assert_eq!(m.severity, Severity::Notice);
}
