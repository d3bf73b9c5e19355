use tokio_util::bytes::{Bytes, BytesMut};
use z_stack::unpi::{
    frame_fits, is_decodable, CmdType, Error, Message, RawMessage, Subsystem, UnpiCodec,
};

fn sys_ping() -> Message {
    Message {
        cmd_type: CmdType::SyncRequest,
        subsystem: Subsystem::Sys,
        command_id: 0x01,
        data: Bytes::from_static(&[0x02, 0x04, 0x06, 0x08]),
    }
}

const SYS_PING_FRAME: [u8; 9] = [0xfe, 0x04, 0x21, 0x01, 0x02, 0x04, 0x06, 0x08, 0x2c];

#[test]
fn roundtrip() {
    let msg = Message {
        cmd_type: CmdType::SyncRequest,
        subsystem: Subsystem::Sys,
        command_id: 0x01,
        data: Bytes::from_static(&[0x02, 0x04, 0x06, 0x08]),
    };

    let raw = RawMessage::from(msg.clone());

    let mut buf = BytesMut::new();
    raw.write_to(&mut buf);

    let decoded = RawMessage::parse(&mut buf).unwrap().unwrap();

    assert_eq!(raw, decoded);
}

#[test]
fn write_to_writes_the_frame_bytes() {
    let raw = RawMessage::from(sys_ping());
    assert_eq!(raw.subsystem, 0x21);
    assert_eq!(raw.check, 0x2c);
    let mut buf = BytesMut::from(&[0xaa][..]);
    raw.write_to(&mut buf);
    let mut expected = vec![0xaa];
    expected.extend_from_slice(&SYS_PING_FRAME);
    assert_eq!(&buf[..], &expected[..]);
}

#[test]
fn parse_waits_for_a_whole_frame() {
    for k in 0..SYS_PING_FRAME.len() {
        let mut buf = BytesMut::from(&SYS_PING_FRAME[..k]);
        assert!(RawMessage::parse(&mut buf).unwrap().is_none());
        assert_eq!(&buf[..], &SYS_PING_FRAME[..k]);
    }
}

#[test]
fn parse_leaves_what_follows() {
    let mut bytes = SYS_PING_FRAME.to_vec();
    bytes.extend_from_slice(&[0xfe, 0x00]);
    let mut buf = BytesMut::from(&bytes[..]);
    let raw = RawMessage::parse(&mut buf).unwrap().unwrap();
    assert_eq!(raw.subsystem, 0x21);
    assert_eq!(raw.command_id(), 0x01);
    assert_eq!(&raw.data[..], &[0x02, 0x04, 0x06, 0x08]);
    assert_eq!(raw.check, 0x2c);
    assert_eq!(&buf[..], &[0xfe, 0x00]);
}

#[test]
fn parse_rejects_a_bad_start_marker_and_drops_one_byte() {
    let mut buf = BytesMut::from(&[0x00, 0x00, 0x21, 0x01, 0x20, 0x77][..]);
    match RawMessage::parse(&mut buf) {
        Err(Error::InvalidSof(0x00)) => {}
        other => panic!("unexpected {:?}", other),
    }
    assert_eq!(&buf[..], &[0x00, 0x21, 0x01, 0x20, 0x77]);
}

#[test]
fn verify_accepts_built_frames_and_rejects_bad_checks() {
    let raw = RawMessage::from(sys_ping());
    assert!(raw.verify().is_ok());
    let mut bad = raw.clone();
    bad.check = 0x2d;
    match bad.verify() {
        Err(Error::InvalidFcs(0x01)) => {}
        other => panic!("unexpected {:?}", other),
    }
}

#[test]
fn verify_empty_payload() {
    let raw = RawMessage { subsystem: 0x21, command_id: 0x01, data: Bytes::new(), check: 0x20 };
    assert!(raw.verify().is_ok());
}

#[test]
fn kinds_from_the_type_byte() {
    let raw = RawMessage { subsystem: 0x75, command_id: 0x02, data: Bytes::new(), check: 0x77 };
    assert_eq!(raw.cmd_type().unwrap(), CmdType::SyncResponse);
    assert_eq!(raw.subsystem().unwrap(), Subsystem::GreenPower);
    let bad = RawMessage { subsystem: 0xea, command_id: 0x02, data: Bytes::new(), check: 0xe8 };
    match bad.cmd_type() {
        Err(Error::InvalidCmdType(7)) => {}
        other => panic!("unexpected {:?}", other),
    }
    match bad.subsystem() {
        Err(Error::InvalidSubsystem(0x0a)) => {}
        other => panic!("unexpected {:?}", other),
    }
}

#[test]
fn codes_read_back() {
    for t in [CmdType::SyncRequest, CmdType::AsyncRequest, CmdType::SyncResponse] {
        assert_eq!(CmdType::try_from(t.code()).unwrap(), t);
    }
    let all = [
        Subsystem::Sys,
        Subsystem::Mac,
        Subsystem::Nwk,
        Subsystem::Af,
        Subsystem::Zdo,
        Subsystem::Sapi,
        Subsystem::Util,
        Subsystem::Debug,
        Subsystem::App,
        Subsystem::AppConfig,
        Subsystem::GreenPower,
    ];
    for s in all {
        assert_eq!(Subsystem::try_from(s.code()).unwrap(), s);
    }
    assert_eq!(Subsystem::AppConfig.code(), 0x0f);
    assert_eq!(Subsystem::GreenPower.code(), 0x15);
    assert!(CmdType::try_from(0).is_err());
    assert!(CmdType::try_from(4).is_err());
    assert!(Subsystem::try_from(0x0a).is_err());
    assert!(Subsystem::try_from(0).is_err());
}

#[test]
fn message_raw_message_roundtrip() {
    let msg = sys_ping();
    let back = Message::from(RawMessage::from(msg.clone()));
    assert_eq!(back, msg);
}

#[test]
fn raw_message_roundtrip_through_message() {
    let raw = RawMessage {
        subsystem: 0x45,
        command_id: 0x05,
        data: Bytes::from_static(&[0x10]),
        check: 0x01 ^ 0x45 ^ 0x05 ^ 0x10,
    };
    assert!(raw.verify().is_ok());
    let again = RawMessage::from(Message::from(raw.clone()));
    assert_eq!(again, raw);
}

#[test]
fn codec_decodes_what_it_encodes() {
    let mut codec = UnpiCodec;
    let mut buf = BytesMut::new();
    codec.encode(sys_ping(), &mut buf).unwrap();
    assert_eq!(&buf[..], &SYS_PING_FRAME[..]);
    buf.extend_from_slice(&[0xfe]);
    let msg = codec.decode(&mut buf).unwrap().unwrap();
    assert_eq!(msg, sys_ping());
    assert_eq!(&buf[..], &[0xfe]);
    assert!(codec.decode(&mut buf).unwrap().is_none());
    assert_eq!(&buf[..], &[0xfe]);
}

#[test]
fn codec_reports_a_bad_check_and_drops_the_frame() {
    let mut codec = UnpiCodec;
    let mut frame = SYS_PING_FRAME;
    frame[8] = 0x00;
    let mut buf = BytesMut::from(&frame[..]);
    match codec.decode(&mut buf) {
        Err(Error::InvalidFcs(0x2c)) => {}
        other => panic!("unexpected {:?}", other),
    }
    assert!(buf.is_empty());
}

#[test]
fn codec_reports_a_bad_start_marker() {
    let mut codec = UnpiCodec;
    let mut buf = BytesMut::from(&[0x01, 0x00, 0x21, 0x01, 0x20][..]);
    match codec.decode(&mut buf) {
        Err(Error::InvalidSof(0x01)) => {}
        other => panic!("unexpected {:?}", other),
    }
    assert_eq!(buf.len(), 4);
}

#[test]
fn long_payload_length_byte_wraps() {
    let msg = Message {
        cmd_type: CmdType::AsyncRequest,
        subsystem: Subsystem::Af,
        command_id: 0x81,
        data: Bytes::from(vec![0u8; 256]),
    };
    let raw = RawMessage::from(msg);
    let mut buf = BytesMut::new();
    raw.write_to(&mut buf);
    assert_eq!(buf.len(), 261);
    assert_eq!(buf[1], 0x00);
    assert!(raw.verify().is_ok());
}

#[test]
fn error_texts() {
    assert_eq!(Error::InvalidSof(7).to_string(), "Invalid SOF: 7");
    assert_eq!(Error::InvalidFcs(255).to_string(), "Invalid check: 255");
    assert_eq!(Error::InvalidSubsystem(42).to_string(), "Invalid subsystem: 42");
    assert_eq!(Error::InvalidCmdType(100).to_string(), "Invalid command type: 100");
    assert_eq!(Error::InvalidCmdType(0).to_string(), "Invalid command type: 0");
    let io = std::io::Error::new(std::io::ErrorKind::Other, "port gone");
    assert_eq!(Error::Io(io).to_string(), "IO error: port gone");
}

#[test]
fn io_errors_convert() {
    let io = std::io::Error::new(std::io::ErrorKind::Other, "x");
    assert!(matches!(Error::from(io), Error::Io(_)));
}

#[test]
fn write_reproduces_parsed_bytes() {
    let bytes = [0xfe, 0x02, 0x45, 0x05, 0x10, 0x11, 0x42, 0x99];
    let mut buf = BytesMut::from(&bytes[..]);
    let raw = RawMessage::parse(&mut buf).unwrap().unwrap();
    let mut out = BytesMut::new();
    raw.write_to(&mut out);
    assert_eq!(&out[..], &bytes[..7]);
    assert_eq!(&buf[..], &[0x99]);
}

#[test]
fn codec_decodes_frames_in_order() {
    let mut codec = UnpiCodec;
    let second = Message {
        cmd_type: CmdType::AsyncRequest,
        subsystem: Subsystem::Zdo,
        command_id: 0xc1,
        data: Bytes::from_static(&[0x00, 0xff]),
    };
    let mut buf = BytesMut::new();
    codec.encode(sys_ping(), &mut buf).unwrap();
    codec.encode(second.clone(), &mut buf).unwrap();
    assert_eq!(codec.decode(&mut buf).unwrap().unwrap(), sys_ping());
    assert_eq!(codec.decode(&mut buf).unwrap().unwrap(), second);
    assert!(codec.decode(&mut buf).unwrap().is_none());
    assert!(buf.is_empty());
}

#[test]
fn decodable_buffers() {
    assert!(is_decodable(&BytesMut::from(&SYS_PING_FRAME[..])));
    assert!(is_decodable(&BytesMut::from(&SYS_PING_FRAME[..5])));
    assert!(is_decodable(&BytesMut::new()));
    let mut bad_check = SYS_PING_FRAME;
    bad_check[8] = 0;
    assert!(is_decodable(&BytesMut::from(&bad_check[..])));
    let mut bad_sof = SYS_PING_FRAME;
    bad_sof[0] = 0;
    assert!(is_decodable(&BytesMut::from(&bad_sof[..])));
    // type byte 0xea: command type 7 and subsystem 0x0a, with a matching check
    let unknown = [0xfe, 0x00, 0xea, 0x02, 0x00 ^ 0xea ^ 0x02];
    assert!(!is_decodable(&BytesMut::from(&unknown[..])));
    // type byte 0x2a: known command type, unknown subsystem 0x0a
    let unknown_subsystem = [0xfe, 0x00, 0x2a, 0x02, 0x2a ^ 0x02];
    assert!(!is_decodable(&BytesMut::from(&unknown_subsystem[..])));
}

#[test]
fn frames_fit_small_buffers() {
    assert!(frame_fits(&BytesMut::new(), &Bytes::from_static(&[1, 2, 3])));
    assert!(frame_fits(&BytesMut::from(&SYS_PING_FRAME[..]), &Bytes::new()));
}
