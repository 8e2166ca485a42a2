use openduckrust::protocol::compute_checksum;
use openduckrust::protocol::i16_from_le;
use openduckrust::protocol::parse_sync_read_response;
use openduckrust::protocol::push_i16_le;
use openduckrust::protocol::sync_read_frame;
use openduckrust::protocol::sync_write_frame;
use openduckrust::protocol::validate_frame;
use openduckrust::protocol::write_register_frame;

#[test]
fn checksum_of_known_bytes() {
    // One's complement of the low byte of the sum: 1+2+3 = 6 -> 249.
    assert_eq!(compute_checksum(&[1, 2, 3]), 249);
    assert_eq!(compute_checksum(&[]), 255);
    // Sum overflowing one byte: 200+100 = 300, low byte 44 -> 211.
    assert_eq!(compute_checksum(&[200, 100]), 211);
}

#[test]
fn write_register_frame_layout() {
    // id 1, register 40, one data byte 1:
    // FF FF 01 04 03 28 01 and checksum 255 - (1+4+3+40+1) = 206.
    let frame = write_register_frame(1, 40, &[1]);
    assert_eq!(frame, vec![0xFF, 0xFF, 0x01, 0x04, 0x03, 0x28, 0x01, 206]);
}

#[test]
fn frame_checksum_round_trip_and_flip() {
    let frame = write_register_frame(20, 42, &[0x00, 0x08]);
    assert!(validate_frame(frame.as_slice()));
    // Flipping any single byte after the header must fail validation.
    for i in 2..frame.len() {
        let mut bad = frame.clone();
        bad[i] ^= 0x01;
        assert!(!validate_frame(bad.as_slice()), "flip at {} went undetected", i);
    }
}

#[test]
fn validate_rejects_short_or_headerless() {
    assert!(!validate_frame(&[0xFF, 0xFF, 0x01]));
    let mut frame = write_register_frame(1, 40, &[1]);
    frame[0] = 0xFE;
    assert!(!validate_frame(frame.as_slice()));
}

#[test]
fn sync_write_frame_layout() {
    // Broadcast group write of register 42, two devices.
    let frame = sync_write_frame(42, &[10, 11], &[0x0102, -2]);
    // length = 3*2 + 4 = 10; -2 encodes as FE FF.
    let expected_core: Vec<u8> = vec![0xFE, 10, 0x83, 42, 2, 10, 0x02, 0x01, 11, 0xFE, 0xFF];
    let sum: u32 = expected_core.iter().map(|&b| b as u32).sum();
    let chk = (255 - (sum % 256)) as u8;
    let mut expected = vec![0xFF, 0xFF];
    expected.extend_from_slice(&expected_core);
    expected.push(chk);
    assert_eq!(frame, expected);
    assert!(validate_frame(frame.as_slice()));
}

#[test]
fn sync_read_frame_layout() {
    let frame = sync_read_frame(56, 2, &[20, 21]);
    // length = 2 + 4 = 6.
    let expected_core: Vec<u8> = vec![0xFE, 6, 0x82, 56, 2, 20, 21];
    let sum: u32 = expected_core.iter().map(|&b| b as u32).sum();
    let chk = (255 - (sum % 256)) as u8;
    let mut expected = vec![0xFF, 0xFF];
    expected.extend_from_slice(&expected_core);
    expected.push(chk);
    assert_eq!(frame, expected);
}

#[test]
fn le_encoding_round_trips() {
    for v in [0i16, 1, -1, 2048, -2048, i16::MAX, i16::MIN] {
        let mut bytes: Vec<u8> = Vec::new();
        push_i16_le(&mut bytes, v);
        assert_eq!(bytes.len(), 2);
        assert_eq!(i16_from_le(bytes[0], bytes[1]), v);
    }
    let mut bytes: Vec<u8> = Vec::new();
    push_i16_le(&mut bytes, -2);
    assert_eq!(bytes, vec![0xFE, 0xFF]);
}

/// One device's answer in a group read, with a correct checksum.
fn device_slot(id: u8, lo: u8, hi: u8) -> [u8; 8] {
    let sum = id as u32 + 4 + 0 + lo as u32 + hi as u32;
    let chk = (255 - (sum % 256)) as u8;
    [0xFF, 0xFF, id, 4, 0, lo, hi, chk]
}

#[test]
fn group_read_parses_each_device_slot() {
    // Two device answers of 8 bytes each; data sits at offsets 5 and 6.
    let mut buf: Vec<u8> = Vec::new();
    buf.extend_from_slice(&device_slot(20, 0x02, 0x01));
    buf.extend_from_slice(&device_slot(21, 0xFE, 0xFF));
    let values = parse_sync_read_response(buf.as_slice(), buf.len(), 2);
    assert_eq!(values, vec![0x0102i16, -2]);
}

#[test]
fn group_read_short_response_pads_with_zero() {
    // Three devices expected, response covers only the first.
    let mut buf: Vec<u8> = vec![0; 24];
    buf[..8].copy_from_slice(&device_slot(20, 0x10, 0x00));
    let values = parse_sync_read_response(buf.as_slice(), 8, 3);
    assert_eq!(values, vec![0x10i16, 0, 0]);
    // A truncation mid-device zeroes that device too.
    let values = parse_sync_read_response(buf.as_slice(), 7, 3);
    assert_eq!(values, vec![0i16, 0, 0]);
}

#[test]
fn group_read_discards_corrupt_slots() {
    // Second device's slot fails its checksum, third its header: both
    // are communication noise and read zero; the sound slots still parse.
    let mut buf: Vec<u8> = Vec::new();
    buf.extend_from_slice(&device_slot(20, 0x02, 0x01));
    let mut bad_checksum = device_slot(21, 0x34, 0x12);
    bad_checksum[7] ^= 0x01;
    buf.extend_from_slice(&bad_checksum);
    let mut bad_header = device_slot(22, 0x56, 0x00);
    bad_header[0] = 0xFE;
    buf.extend_from_slice(&bad_header);
    buf.extend_from_slice(&device_slot(23, 0x78, 0x00));
    let values = parse_sync_read_response(buf.as_slice(), buf.len(), 4);
    assert_eq!(values, vec![0x0102i16, 0, 0, 0x78]);
}
