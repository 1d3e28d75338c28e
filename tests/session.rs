use f_xoss::ctl_message::{ControlMessageType, RawControlMessage};
use f_xoss::device::{check_echo, parse_gnss_state, time_set_body, AssistedGnssState, DeviceSession, SessionError};
use f_xoss::model::HeaderJson;

#[test]
fn set_time_body_is_little_endian_and_echoed() {
    let body = time_set_body(0x5F5E1000);
    assert_eq!(body, vec![0x00, 0x10, 0x5E, 0x5F]);
    let req = RawControlMessage { msg_type: ControlMessageType::TimeSet, body: body.clone() };
    let bytes = req.write().unwrap();
    assert_eq!(&bytes[..5], &[0x54, 0x00, 0x10, 0x5E, 0x5F]);
    let reply = RawControlMessage { msg_type: ControlMessageType::TimeSetRtn, body: body.clone() };
    assert_eq!(check_echo(reply, ControlMessageType::TimeSetRtn, &body), Ok(()));
}

#[test]
fn gnss_missing_data() {
    assert_eq!(parse_gnss_state(&[1, 0, 0, 0, 0, 0]), Ok(AssistedGnssState::MissingData));
}

#[test]
fn gnss_valid_until_day() {
    // 0x5FF5E100 = 1609949440 s, 2021-01-06 16:10:40 UTC, day 18633
    assert_eq!(parse_gnss_state(&[1, 0, 0x00, 0xE1, 0xF5, 0x5F]), Ok(AssistedGnssState::ValidUntil(18633)));
    assert_eq!(parse_gnss_state(&[1, 0, 0, 0, 0]), Err(SessionError::InvalidReply));
    assert_eq!(parse_gnss_state(&[2, 0, 1, 0, 0, 0]), Err(SessionError::InvalidReply));
}

fn header(sn: &str) -> HeaderJson {
    HeaderJson { device_model: "XOSS G+".to_string(), sn: sn.to_string(), updated_at: 1, version: "2.0.0".to_string(), extra_fields: vec![] }
}

#[test]
fn first_header_is_kept() {
    let mut s = DeviceSession::new();
    assert_eq!(s.json_header, None);
    s.cache_header(header("A"));
    s.cache_header(header("B"));
    assert_eq!(s.json_header, Some(header("A")));
}
