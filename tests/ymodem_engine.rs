use f_xoss::crc::crc16_arc_of;
use f_xoss::transfer::{FileReceiver, FileSender, ReceivePhase, SendPhase};
use f_xoss::ymodem::{header_data, Error, YModemHeader, YModemPacket, ACK, EOT, NAK};

#[test]
fn crc16_arc_check_value() {
    assert_eq!(crc16_arc_of(b"123456789"), 0xBB3D);
}

fn block(seq: u8, content: &[u8], size: usize) -> Vec<u8> {
    let mut data = content.to_vec();
    data.resize(size, 0);
    YModemPacket::new(seq, data).serialize()
}

#[test]
fn packet_round_trip_small_and_large() {
    for size in [128usize, 1024] {
        let data: Vec<u8> = (0..size).map(|i| (i * 7 % 251) as u8).collect();
        let raw = YModemPacket::new(9, data.clone()).serialize();
        assert_eq!(raw.len(), size + 5);
        assert_eq!(raw[0], if size == 128 { 0x01 } else { 0x02 });
        assert_eq!(raw[2], 9 ^ 0xFF);
        let crc = crc16_arc_of(&data);
        assert_eq!(raw[size + 3], (crc >> 8) as u8);
        assert_eq!(raw[size + 4], crc as u8);
        assert_eq!(YModemPacket::parse(&raw), Ok(YModemPacket { seq: 9, data }));
    }
}

#[test]
fn packet_parse_errors() {
    let mut raw = block(1, b"abc", 128);
    assert_eq!(YModemPacket::parse(&raw[..100]), Err(Error::InvalidLength));
    raw[3] ^= 1;
    assert_eq!(YModemPacket::parse(&raw), Err(Error::InvalidCrc));
    let mut raw = block(1, b"abc", 128);
    raw[2] = 0;
    assert_eq!(YModemPacket::parse(&raw), Err(Error::InvalidSeq));
    let mut raw = block(1, b"abc", 128);
    raw[0] = 0x03;
    assert_eq!(YModemPacket::parse(&raw), Err(Error::InvalidStart));
}

#[test]
fn header_parse_name_and_size() {
    let p = YModemPacket::new(0, { let mut d = b"hi.txt 3\0\0 junk".to_vec(); d.resize(128, 0); d });
    let h = YModemHeader::parse(&p).unwrap();
    assert_eq!(h.name, "hi.txt");
    assert_eq!(h.size, 3);
    let bad = YModemPacket::new(0, { let mut d = b"hi.txt x3".to_vec(); d.resize(128, 0); d });
    assert_eq!(YModemHeader::parse(&bad), Err(Error::InvalidHeader));
}

#[test]
fn header_of_128_bytes_fits_129_does_not() {
    // name + ' ' + "3000" is 128 bytes
    let name = "n".repeat(123);
    let d = header_data(&name, 3000).unwrap();
    assert_eq!(d.len(), 128);
    assert_eq!(&d[123..], b" 3000");
    let name = "n".repeat(124);
    assert_eq!(header_data(&name, 3000), Err(Error::FilenameTooLong));
    assert_eq!(FileSender::new(&name, vec![0; 3000]).err(), Some(Error::FilenameTooLong));
}

#[test]
fn small_file_receive() {
    let (mut rx, first) = FileReceiver::start();
    assert_eq!(first, b"C".to_vec());
    assert!(rx.expects_packet());
    let reply = rx.on_packet(&block(0, b"hi.txt 3", 128)).unwrap();
    assert_eq!(reply, vec![ACK, b'C']);
    assert_eq!(rx.name, "hi.txt");
    assert_eq!(rx.size, 3);
    let reply = rx.on_packet(&block(1, b"abc", 128)).unwrap();
    assert_eq!(reply, vec![ACK]);
    assert!(!rx.expects_packet());
    assert_eq!(rx.on_byte(EOT).unwrap(), vec![NAK]);
    assert_eq!(rx.on_byte(EOT).unwrap(), vec![ACK]);
    assert_eq!(rx.phase, ReceivePhase::Done);
    assert_eq!(rx.received, vec![0x61, 0x62, 0x63]);
}

#[test]
fn receive_rejects_previous_sequence_number() {
    let (mut rx, _) = FileReceiver::start();
    rx.on_packet(&block(0, b"f 300", 128)).unwrap();
    rx.on_packet(&block(1, &[1; 128], 128)).unwrap();
    assert_eq!(rx.on_packet(&block(1, &[1; 128], 128)), Err(Error::InvalidSeq));
    assert_eq!(rx.phase, ReceivePhase::Failed);
}

#[test]
fn receive_sequence_wraps_after_ff() {
    let total = 257 * 128;
    let (mut rx, _) = FileReceiver::start();
    rx.on_packet(&block(0, format!("big {}", total).as_bytes(), 128)).unwrap();
    for i in 1..=257usize {
        let seq = (i % 256) as u8;
        assert_eq!(rx.on_packet(&block(seq, &[seq; 128], 128)), Ok(vec![ACK]));
    }
    assert_eq!(rx.received.len(), total);
    assert_eq!(rx.received[255 * 128], 0x00);
    assert_eq!(rx.received[256 * 128], 0x01);
}

#[test]
fn receive_rejects_stray_byte_instead_of_eot() {
    let (mut rx, _) = FileReceiver::start();
    rx.on_packet(&block(0, b"e 0", 128)).unwrap();
    assert_eq!(rx.on_byte(0x18), Err(Error::UnexpectedByte { expected: EOT, got: 0x18 }));
}

#[test]
fn large_file_send() {
    let content: Vec<u8> = (0..3000).map(|i| (i % 200) as u8 + 1).collect();
    let mut tx = FileSender::new("x.gnss", content.clone()).unwrap();
    let header = tx.on_byte(b'C').unwrap();
    assert_eq!(header.len(), 133);
    assert_eq!(header[0], 0x01);
    assert_eq!(header[1], 0);
    let hp = YModemPacket::parse(&header).unwrap();
    let h = YModemHeader::parse(&hp).unwrap();
    assert_eq!(h.name, "x.gnss");
    assert_eq!(h.size, 3000);
    assert_eq!(tx.on_byte(ACK).unwrap(), Vec::<u8>::new());
    let mut blocks = vec![tx.on_byte(b'C').unwrap()];
    loop {
        let out = tx.on_byte(ACK).unwrap();
        if out == vec![EOT] {
            break;
        }
        blocks.push(out);
    }
    assert_eq!(blocks.len(), 3);
    let mut got = Vec::new();
    for (i, b) in blocks.iter().enumerate() {
        assert_eq!(b.len(), 1029);
        assert_eq!(b[0], 0x02);
        let p = YModemPacket::parse(b).unwrap();
        assert_eq!(p.seq as usize, i + 1);
        got.extend_from_slice(&p.data);
    }
    assert_eq!(&got[..3000], &content[..]);
    assert!(got[3000..].iter().all(|&b| b == 0));
    assert_eq!(tx.on_byte(NAK).unwrap(), vec![EOT]);
    assert_eq!(tx.on_byte(ACK).unwrap(), Vec::<u8>::new());
    assert_eq!(tx.phase, SendPhase::Done);
}

#[test]
fn small_file_send_uses_128_byte_blocks() {
    let mut tx = FileSender::new("a", b"abc".to_vec()).unwrap();
    tx.on_byte(b'C').unwrap();
    tx.on_byte(ACK).unwrap();
    let b = tx.on_byte(b'C').unwrap();
    assert_eq!(b.len(), 133);
    assert_eq!(YModemPacket::parse(&b).unwrap().data[..4], [b'a', b'b', b'c', 0]);
    assert_eq!(tx.on_byte(ACK).unwrap(), vec![EOT]);
    assert_eq!(tx.on_byte(ACK), Err(Error::UnexpectedByte { expected: NAK, got: ACK }));
    assert!(tx.is_finished());
}

#[test]
fn send_and_receive_agree() {
    let content: Vec<u8> = (0..1500u32).map(|i| (i % 256) as u8).collect();
    let mut tx = FileSender::new("r.bin", content.clone()).unwrap();
    let (mut rx, c) = FileReceiver::start();
    let mut to_tx = c;
    while !tx.is_finished() {
        let mut to_rx = Vec::new();
        for b in to_tx.drain(..) {
            if tx.is_finished() { break; }
            to_rx.extend(tx.on_byte(b).unwrap());
        }
        if to_rx.is_empty() { continue; }
        if rx.expects_packet() {
            to_tx = rx.on_packet(&to_rx).unwrap();
        } else {
            to_tx = rx.on_byte(to_rx[0]).unwrap();
        }
    }
    assert_eq!(rx.phase, ReceivePhase::Done);
    assert_eq!(rx.received, content);
}
