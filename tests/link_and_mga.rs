use f_xoss::device::AssistedGnssState;
use f_xoss::link::{
    first_missing_characteristic, likely_xoss_device, required_characteristics, route_notification, split_for_mtu, Inbox,
    NotificationRoute, BATTERY_LEVEL_CHARACTERISTIC_UUID, CTL_CHARACTERISTIC_UUID,
    FIRMWARE_REVISION_CHARACTERISTIC_UUID, RX_CHARACTERISTIC_UUID, TX_CHARACTERISTIC_UUID, UART_MTU,
};
use f_xoss::mga::{mga_cache_action, mga_needs_update, parse_mga_data, CacheAction, MgaData, MgaError};

#[test]
fn notifications_are_routed_by_uuid() {
    assert_eq!(route_notification(RX_CHARACTERISTIC_UUID, &[1, 2]), NotificationRoute::Uart);
    assert_eq!(route_notification(CTL_CHARACTERISTIC_UUID, &[4, 4]), NotificationRoute::Control);
    assert_eq!(route_notification(BATTERY_LEVEL_CHARACTERISTIC_UUID, &[87]), NotificationRoute::Battery(87));
    assert_eq!(route_notification(FIRMWARE_REVISION_CHARACTERISTIC_UUID, b"1.0"), NotificationRoute::Ignored);
    assert_eq!(route_notification(TX_CHARACTERISTIC_UUID, &[1]), NotificationRoute::Unknown);
}

#[test]
fn missing_characteristic_is_reported() {
    let all = required_characteristics();
    assert_eq!(all.len(), 9);
    assert_eq!(first_missing_characteristic(&all), None);
    let without_ctl: Vec<u128> = all.iter().copied().filter(|&u| u != CTL_CHARACTERISTIC_UUID).collect();
    assert_eq!(first_missing_characteristic(&without_ctl), Some(CTL_CHARACTERISTIC_UUID));
    assert_eq!(first_missing_characteristic(&[]), Some(BATTERY_LEVEL_CHARACTERISTIC_UUID));
}

#[test]
fn full_inbox_drops_newest_frame() {
    let mut inbox = Inbox::new();
    assert!(inbox.push(vec![1]));
    assert!(inbox.push(vec![2]));
    assert!(inbox.push(vec![3]));
    assert!(!inbox.push(vec![4]));
    assert_eq!(inbox.pop(), Some(vec![1]));
    assert!(inbox.push(vec![5]));
    assert_eq!(inbox.pop(), Some(vec![2]));
    assert_eq!(inbox.pop(), Some(vec![3]));
    assert_eq!(inbox.pop(), Some(vec![5]));
    assert_eq!(inbox.pop(), None);
}

#[test]
fn uart_writes_are_cut_to_mtu() {
    let data: Vec<u8> = (0..1029u32).map(|i| i as u8).collect();
    let chunks = split_for_mtu(&data, UART_MTU);
    assert_eq!(chunks.len(), 5);
    assert!(chunks[..4].iter().all(|c| c.len() == 206));
    assert_eq!(chunks[4].len(), 1029 - 4 * 206);
    assert_eq!(chunks.concat(), data);
    assert!(split_for_mtu(&[], UART_MTU).is_empty());
    let pieces = split_for_mtu(&data[..300], UART_MTU);
    assert_eq!(pieces, vec![data[..206].to_vec(), data[206..300].to_vec()]);
}

fn record(year: u8, month: u8, day: u8) -> Vec<u8> {
    let mut r = vec![0xb5, 0x62, 0x13, 0x20, 0x4c, 0x00, 0x00, 0x00];
    r.extend_from_slice(&[3, 0, year, month, day, 0]);
    r.extend_from_slice(&[0u8; 64 + 4 + 2]);
    r
}

#[test]
fn assistance_file_days() {
    let mut data = record(24, 3, 2);
    data.extend(record(24, 2, 28));
    data.extend(record(24, 3, 1));
    let m = parse_mga_data(data.clone()).unwrap();
    // 2024-02-28 is day 19781 after 1970-01-01
    assert_eq!(m.valid_since, 19781);
    assert_eq!(m.valid_until, 19784);
    assert_eq!(m.data, data);
}

#[test]
fn assistance_file_errors() {
    assert_eq!(parse_mga_data(vec![]), Err(MgaError::Empty));
    assert_eq!(parse_mga_data(vec![0xb5; 83]), Err(MgaError::InvalidRecord));
    let mut bad = record(24, 3, 2);
    bad[0] = 0;
    assert_eq!(parse_mga_data(bad), Err(MgaError::InvalidRecord));
    assert_eq!(parse_mga_data(record(23, 2, 29)), Err(MgaError::InvalidDate));
}

#[test]
fn device_update_decision() {
    let data = MgaData { data: vec![], valid_since: 100, valid_until: 110 };
    assert!(mga_needs_update(AssistedGnssState::MissingData, &data));
    assert!(mga_needs_update(AssistedGnssState::ValidUntil(109), &data));
    assert!(!mga_needs_update(AssistedGnssState::ValidUntil(110), &data));
}

#[test]
fn cache_decision() {
    assert_eq!(mga_cache_action(Some(100), 102, false, false), CacheAction::UseCached);
    assert_eq!(mga_cache_action(Some(100), 103, false, false), CacheAction::Download);
    assert_eq!(mga_cache_action(Some(100), 103, true, false), CacheAction::UseCached);
    assert_eq!(mga_cache_action(Some(100), 100, false, true), CacheAction::Download);
    assert_eq!(mga_cache_action(None, 100, true, false), CacheAction::NothingCached);
    assert_eq!(mga_cache_action(None, 100, false, false), CacheAction::Download);
}

#[test]
fn xoss_names_are_recognised() {
    assert!(likely_xoss_device(Some("XOSS G+ 1234")));
    assert!(likely_xoss_device(Some("my XOSS")));
    assert!(!likely_xoss_device(Some("Xoss")));
    assert!(!likely_xoss_device(Some("XOS")));
    assert!(!likely_xoss_device(None));
}
