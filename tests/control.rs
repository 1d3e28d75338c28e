use f_xoss::ctl_message::{ControlError, ControlMessageType, FrameError, RawControlMessage, ReplyError, partial_checksum};
use f_xoss::device::{check_echo, expect_reply, parse_memory_capacity, DeviceSession, MemoryCapacity, Recovery, SessionError};

fn frame(t: u8, body: &[u8]) -> Vec<u8> {
    let mut v = vec![t];
    v.extend_from_slice(body);
    let x = v.iter().fold(0u8, |a, b| a ^ b);
    v.push(x);
    v
}

#[test]
fn encode_then_decode_gives_type_and_body() {
    let m = RawControlMessage { msg_type: ControlMessageType::RequestDel, body: b"a.txt".to_vec() };
    let bytes = m.write().unwrap();
    assert_eq!(bytes, frame(0x0D, b"a.txt"));
    let d = RawControlMessage::read(&bytes).unwrap();
    assert_eq!(d.msg_type, ControlMessageType::RequestDel);
    assert_eq!(d.body, b"a.txt".to_vec());
    assert_eq!(d.write().unwrap(), bytes);
}

#[test]
fn encoded_frame_xors_to_zero() {
    let m = RawControlMessage { msg_type: ControlMessageType::TimeSet, body: vec![0x00, 0x10, 0x5E, 0x5F] };
    let bytes = m.write().unwrap();
    assert_eq!(partial_checksum(&bytes), 0);
    assert_eq!(bytes[bytes.len() - 1], 0x54 ^ 0x00 ^ 0x10 ^ 0x5E ^ 0x5F);
}

#[test]
fn body_of_18_bytes_fits_19_does_not() {
    let ok = RawControlMessage { msg_type: ControlMessageType::RequestSend, body: vec![b'a'; 18] };
    assert_eq!(ok.write().unwrap().len(), 20);
    let long = RawControlMessage { msg_type: ControlMessageType::RequestSend, body: vec![b'a'; 19] };
    assert_eq!(long.write(), Err(FrameError::BodyTooLong));
}

#[test]
fn decode_rejects_bad_checksum() {
    let mut bytes = frame(0x04, &[]);
    bytes[1] ^= 1;
    assert_eq!(RawControlMessage::read(&bytes), Err(FrameError::BadChecksum { expected: 0x04, got: 0x05 }));
}

#[test]
fn decode_rejects_unknown_type() {
    let bytes = frame(0x42, &[1]);
    assert_eq!(RawControlMessage::read(&bytes), Err(FrameError::UnknownType(0x42)));
}

#[test]
fn decode_rejects_short_buffer() {
    assert_eq!(RawControlMessage::read(&[0x04]), Err(FrameError::TooShort));
    assert_eq!(RawControlMessage::read(&[]), Err(FrameError::TooShort));
}

#[test]
fn every_type_byte_round_trips() {
    let bytes = [0x00u8, 0x04, 0x05, 0x06, 0x07, 0x08, 0x09, 0x0A, 0x0D, 0x0E, 0x0F, 0x1F, 0x11, 0x12, 0x13, 0x14, 0x15, 0x54, 0x55, 0x77, 0x78, 0xAC, 0xCC, 0xCD, 0xDF, 0xFF];
    for b in bytes {
        let t = ControlMessageType::from_byte(b).unwrap();
        assert_eq!(t.to_byte(), b);
    }
    assert_eq!(ControlMessageType::from_byte(0x01), None);
}

#[test]
fn error_replies_are_classified() {
    let m = |t, b: &[u8]| RawControlMessage { msg_type: t, body: b.to_vec() };
    assert_eq!(m(ControlMessageType::ErrVali, b"").into_result(), Err(ControlError::Validation));
    assert_eq!(m(ControlMessageType::ErrMemory, b"").into_result(), Err(ControlError::NoMemory));
    assert_eq!(m(ControlMessageType::ErrStatus, b"\0").into_result(), Err(ControlError::InvalidTransactionStatus));
    assert_eq!(m(ControlMessageType::ErrStatus, b"x.bin").into_result(), Err(ControlError::InvalidFileStatus("x.bin".to_string())));
    assert_eq!(m(ControlMessageType::ErrDecode, b"bad").into_result(), Err(ControlError::DecodeFailed("bad".to_string())));
    assert_eq!(m(ControlMessageType::ErrNoFile, b"a").into_result(), Err(ControlError::NoFile("a".to_string())));
    let idle = m(ControlMessageType::Idle, b"");
    assert_eq!(idle.clone().into_result(), Ok(idle));
}

#[test]
fn expect_ok_checks_the_type() {
    let m = RawControlMessage { msg_type: ControlMessageType::Returning, body: b"f".to_vec() };
    assert_eq!(m.clone().expect_ok(ControlMessageType::Returning), Ok(b"f".to_vec()));
    assert_eq!(
        m.expect_ok(ControlMessageType::Accept),
        Err(ReplyError::UnexpectedType { expected: ControlMessageType::Accept, got: ControlMessageType::Returning })
    );
}

#[test]
fn memory_capacity_exchange() {
    let req = RawControlMessage { msg_type: ControlMessageType::RequestCap, body: vec![] };
    assert_eq!(req.write().unwrap(), vec![0x09, 0x09]);
    let reply = frame(0x0A, b"1234/1024");
    let msg = RawControlMessage::read(&reply).unwrap();
    let body = expect_reply(msg, ControlMessageType::ReturnCap).unwrap();
    assert_eq!(parse_memory_capacity(&body), Ok(MemoryCapacity { free_kb: 1234, total_kb: 1024 }));
}

#[test]
fn memory_capacity_rejects_malformed_bodies() {
    assert_eq!(parse_memory_capacity(b"1234"), Err(SessionError::InvalidReply));
    assert_eq!(parse_memory_capacity(b"12/"), Err(SessionError::InvalidReply));
    assert_eq!(parse_memory_capacity(b"1/2/3"), Err(SessionError::InvalidReply));
    assert_eq!(parse_memory_capacity(b"4294967296/1"), Err(SessionError::InvalidReply));
    assert_eq!(parse_memory_capacity(b"4294967295/+7"), Ok(MemoryCapacity { free_kb: 4294967295, total_kb: 7 }));
}

#[test]
fn echo_must_match_request() {
    let reply = RawControlMessage { msg_type: ControlMessageType::DelSuccess, body: b"a.txt".to_vec() };
    assert_eq!(check_echo(reply.clone(), ControlMessageType::DelSuccess, b"a.txt"), Ok(()));
    assert_eq!(check_echo(reply, ControlMessageType::DelSuccess, b"b.txt"), Err(SessionError::EchoMismatch));
}

fn no_file_then_capacity(name: &str) {
    let mut session = DeviceSession::new();
    let req = RawControlMessage { msg_type: ControlMessageType::RequestReturn, body: name.as_bytes().to_vec() };
    assert!(req.write().is_ok());
    let reply = RawControlMessage::read(&frame(0x12, name.as_bytes())).unwrap();
    let err = check_echo(reply, ControlMessageType::Returning, name.as_bytes()).unwrap_err();
    assert_eq!(err, SessionError::Reply(ReplyError::Device(ControlError::NoFile(name.to_string()))));
    assert_eq!(session.fail(&err), Recovery::Usable);
    assert!(session.ensure_usable().is_ok());
    let cap = RawControlMessage::read(&frame(0x0A, b"10/20")).unwrap();
    let body = expect_reply(cap, ControlMessageType::ReturnCap).unwrap();
    assert_eq!(parse_memory_capacity(&body), Ok(MemoryCapacity { free_kb: 10, total_kb: 20 }));
}

#[test]
fn no_file_leaves_session_usable() {
    no_file_then_capacity("foo.bin");
}

#[test]
fn device_rejects_filename() {
    no_file_then_capacity("nope");
}

#[test]
fn echo_mismatch_kills_session_and_stop_recovers_it() {
    let mut session = DeviceSession::new();
    assert_eq!(session.fail(&SessionError::EchoMismatch), Recovery::Dead);
    assert_eq!(session.ensure_usable(), Err(SessionError::SessionDead));
    let mut s2 = DeviceSession::new();
    assert_eq!(s2.fail(&SessionError::Timeout), Recovery::StopTransfer);
    let idle = RawControlMessage { msg_type: ControlMessageType::Idle, body: vec![] };
    assert_eq!(s2.finish_recovery(Some(idle)), Ok(()));
    assert!(s2.ensure_usable().is_ok());
    let mut s3 = DeviceSession::new();
    s3.fail(&SessionError::Transport);
    assert_eq!(s3.finish_recovery(None), Err(SessionError::SessionDead));
    assert!(!s3.usable);
}

#[test]
fn open_stops_an_interrupted_transfer() {
    let idle = RawControlMessage { msg_type: ControlMessageType::Idle, body: vec![] };
    let busy = RawControlMessage { msg_type: ControlMessageType::Returning, body: vec![] };
    assert!(!DeviceSession::needs_stop(&idle));
    assert!(DeviceSession::needs_stop(&busy));
}
