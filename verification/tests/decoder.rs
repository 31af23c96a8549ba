use toupcam::capture;
use toupcam::capture::ControlPacket;
use toupcam::capture::UrbTransferType;

/// A 64-byte capture record: event type at 0x08, transfer type at 0x09,
/// endpoint at 0x0a, setup packet fields from 0x28.
fn record(event: u8, tt: u8, req: u8, val: u16, idx: u16, len: u16) -> Vec<u8> {
    let mut data = vec![0u8; 0x40];
    data[0x08] = event;
    data[0x09] = tt;
    data[0x0a] = 0x80;
    data[0x28] = 0xc0;
    data[0x29] = req;
    data[0x2a] = (val & 0xff) as u8;
    data[0x2b] = (val >> 8) as u8;
    data[0x2c] = (idx & 0xff) as u8;
    data[0x2d] = (idx >> 8) as u8;
    data[0x2e] = (len & 0xff) as u8;
    data[0x2f] = (len >> 8) as u8;
    data
}

#[test]
fn transfer_type_codes() {
    assert_eq!(UrbTransferType::from_code(0x01), Some(UrbTransferType::Intr));
    assert_eq!(UrbTransferType::from_code(0x02), Some(UrbTransferType::Ctrl));
    assert_eq!(UrbTransferType::from_code(0x03), Some(UrbTransferType::Bulk));
    assert_eq!(UrbTransferType::from_code(0x00), None);
    assert_eq!(UrbTransferType::from_code(0x04), None);
}

#[test]
fn parse_reads_fixed_offsets() {
    let data = record(0x53, 0x02, 0x0b, 0x4299, 0x1008, 0x0001);
    let p = ControlPacket::parse(&data);
    assert_eq!(p.ep, 0x80);
    assert_eq!(p.rt, 0xc0);
    assert_eq!(p.req, 0x0b);
    assert_eq!(p.val, 0x4299);
    assert_eq!(p.idx, 0x1008);
    assert_eq!(p.len, 0x0001);
}

#[test]
fn rotate_right_four() {
    assert_eq!(capture::rotate_right4(0x1234), 0x4123);
    assert_eq!(capture::rotate_right4(0x0001), 0x1000);
    assert_eq!(capture::rotate_right4(0x0000), 0x0000);
    assert_eq!(capture::rotate_right4(0xabcd), 0xdabc);
}

#[test]
fn key_set_use_and_clear() {
    // A 0x16 request seeds the key with its value rotated right by four.
    let seed = ControlPacket::parse(&record(0x53, 0x02, 0x16, 0x1234, 0x0000, 0x0000));
    let (key, p) = capture::decode_step(None, seed);
    assert_eq!(key, Some(0x4123));
    assert_eq!(p, seed);

    // With a key in place, 0x0a/0x0b value and index fields are XORed.
    let obfuscated = ControlPacket::parse(&record(0x53, 0x02, 0x0b, 0x0299 ^ 0x4123, 0x1008 ^ 0x4123, 0x0001));
    let (key, p) = capture::decode_step(key, obfuscated);
    assert_eq!(key, Some(0x4123));
    assert_eq!(p.val, 0x0299);
    assert_eq!(p.idx, 0x1008);
    assert_eq!(p.len, 0x0001);

    // Other requests pass through untouched even with a key in place.
    let other = ControlPacket::parse(&record(0x53, 0x02, 0x01, 0x0003, 0x000f, 0x0000));
    let (key, p) = capture::decode_step(key, other);
    assert_eq!(key, Some(0x4123));
    assert_eq!(p, other);

    // A 0x17 request clears the key; 0x0a/0x0b then pass unchanged.
    let clear = ControlPacket::parse(&record(0x53, 0x02, 0x17, 0x0000, 0x0000, 0x0004));
    let (key, _) = capture::decode_step(key, clear);
    assert_eq!(key, None);
    let plain = ControlPacket::parse(&record(0x53, 0x02, 0x0a, 0x0000, 0xffff, 0x0002));
    let (key, p) = capture::decode_step(key, plain);
    assert_eq!(key, None);
    assert_eq!(p, plain);
}

#[test]
fn only_control_submissions_are_decoded() {
    // A bulk record is skipped and leaves the key alone.
    let bulk = record(0x53, 0x03, 0x16, 0x1234, 0x0000, 0x0000);
    let (key, p) = capture::process_record(Some(0x4123), &bulk);
    assert_eq!(key, Some(0x4123));
    assert_eq!(p, None);

    // A completion record (event 0x43) is skipped too.
    let done = record(0x43, 0x02, 0x16, 0x1234, 0x0000, 0x0000);
    let (key, p) = capture::process_record(Some(0x4123), &done);
    assert_eq!(key, Some(0x4123));
    assert_eq!(p, None);

    // A control submission is parsed and decoded.
    let sub = record(0x53, 0x02, 0x0b, 0x0299 ^ 0x4123, 0x1008 ^ 0x4123, 0x0001);
    let (key, p) = capture::process_record(Some(0x4123), &sub);
    assert_eq!(key, Some(0x4123));
    let p = p.unwrap();
    assert_eq!(p.val, 0x0299);
    assert_eq!(p.idx, 0x1008);

    // An interrupt record is skipped.
    let intr = record(0x53, 0x01, 0x0b, 0x1111, 0x2222, 0x0001);
    let (key, p) = capture::process_record(key, &intr);
    assert_eq!(key, Some(0x4123));
    assert_eq!(p, None);
}
