use dobot::{
    calc_checksum, calc_complement, calc_sum, check_header_and_get_payload_size, DobotError,
    PayloadStruct, ReadWrite,
};

#[test]
fn test_calc_complement() {
    assert_eq!(calc_complement(1), 255);
    assert_eq!(calc_complement(calc_complement(233)), 233);
}

#[test]
fn serialize1() {
    let mut p1 = PayloadStruct::new();
    p1.id = 2;
    p1.is_queued = true;
    let buf = p1.serialize();
    let p2 = PayloadStruct::deserialize(&buf).unwrap();
    assert_eq!(p2.id, 2);
    assert_eq!(p2.is_queued, true);
    assert_eq!(p2.rw, ReadWrite::READ);
    assert_eq!(p2.params.len(), 0);
}

#[test]
fn serialize2() {
    let mut p1 = PayloadStruct::new();
    p1.id = 3;
    p1.is_queued = false;
    p1.rw = ReadWrite::WRITE;
    p1.params = vec![97, 98, 99, 100];
    let buf = p1.serialize();
    let p2 = PayloadStruct::deserialize(&buf).unwrap();
    assert_eq!(p2.id, 3);
    assert_eq!(p2.is_queued, false);
    assert_eq!(p2.rw, ReadWrite::WRITE);
    assert_eq!(p2.params.len(), 4);
    assert_eq!(p2.params[0], 97);
    assert_eq!(p2.params[1], 98);
    assert_eq!(p2.params[2], 99);
    assert_eq!(p2.params[3], 100);
    println!("{:?}", p2);
}

#[test]
fn test_queued1() {
    let p = PayloadStruct::with_id(1).set_queued();
    let buf = p.serialize();
    assert_eq!(buf[4], 2);
}

#[test]
fn test_queued2() {
    let p = PayloadStruct::with_id(1).set_queued().set_write();
    let buf = p.serialize();
    assert_eq!(buf[4], 3);
}

#[test]
fn test_calc_sum() {
    assert_eq!(calc_sum(&vec![10, 100]), 110);
    assert_eq!(calc_sum(&vec![200, 200]), 144);
}

#[test]
fn checksum_examples() {
    assert_eq!(calc_checksum(&[10, 100]), 146);
    assert_eq!(calc_checksum(&[200, 200]), 112);
    assert_eq!(calc_checksum(&[]), 0);
    assert_eq!(calc_complement(0), 0);
}

#[test]
fn checksum_appended_sums_to_zero() {
    let mut b: Vec<u8> = vec![7, 250, 3, 99, 128];
    let c = calc_checksum(&b);
    b.push(c);
    assert_eq!(calc_checksum(&b), 0);
}

#[test]
fn control_byte_for_each_flag() {
    assert_eq!(PayloadStruct::with_id(5).serialize()[4], 0);
    assert_eq!(PayloadStruct::with_id(5).set_write().serialize()[4], 1);
}

#[test]
fn queued_write_scenario() {
    let buf = PayloadStruct::with_id(1).set_write().set_queued().serialize();
    assert_eq!(buf, vec![0xAA, 0xAA, 0x02, 0x01, 0x03, 252]);
    let p = PayloadStruct::deserialize(&buf).unwrap();
    assert_eq!(p.id, 1);
    assert_eq!(p.is_queued, true);
    assert_eq!(p.rw, ReadWrite::WRITE);
    assert!(p.params.is_empty());
}

#[test]
fn round_trip_longest_params() {
    let params: Vec<u8> = (0..250u32).map(|i| (i * 7 % 256) as u8).collect();
    let buf = PayloadStruct::with_id(200).set_write().set_params(params.clone()).serialize();
    assert_eq!(buf.len(), 256);
    assert_eq!(buf[2], 252);
    let p = PayloadStruct::deserialize(&buf).unwrap();
    assert_eq!(p.id, 200);
    assert_eq!(p.rw, ReadWrite::WRITE);
    assert_eq!(p.is_queued, false);
    assert_eq!(p.params, params);
}

#[test]
fn bad_header_is_framing_error() {
    let mut buf = PayloadStruct::with_id(1).serialize();
    buf[1] = 0xAB;
    assert_eq!(PayloadStruct::deserialize(&buf).unwrap_err(), DobotError::Framing);
    assert_eq!(PayloadStruct::deserialize(&[0x00]).unwrap_err(), DobotError::Framing);
}

#[test]
fn short_length_byte_is_framing_error() {
    let buf = vec![0xAA, 0xAA, 0x01, 0x01, 0x00, 0xFF];
    assert_eq!(PayloadStruct::deserialize(&buf).unwrap_err(), DobotError::Framing);
    assert_eq!(check_header_and_get_payload_size(&buf), Err(DobotError::Framing));
}

#[test]
fn header_gives_param_count() {
    assert_eq!(check_header_and_get_payload_size(&[0xAA, 0xAA, 0x06]), Ok(4));
    assert_eq!(
        check_header_and_get_payload_size(&[0xAA, 0xAA]),
        Err(DobotError::TruncatedFrame)
    );
}

#[test]
fn declared_length_beyond_buffer_is_truncated() {
    let mut buf = PayloadStruct::with_id(1).set_params(vec![1, 2, 3]).serialize();
    buf.pop();
    assert_eq!(PayloadStruct::deserialize(&buf).unwrap_err(), DobotError::TruncatedFrame);
    assert_eq!(PayloadStruct::deserialize(&[]).unwrap_err(), DobotError::TruncatedFrame);
}

#[test]
fn tampered_trailing_byte_is_checksum_error() {
    let mut buf = PayloadStruct::with_id(9).set_params(vec![4, 5]).serialize();
    let last = buf.len() - 1;
    buf[last] = buf[last].wrapping_add(1);
    assert_eq!(PayloadStruct::deserialize(&buf).unwrap_err(), DobotError::Checksum);
}

#[test]
fn read_write_from_bit() {
    assert_eq!(ReadWrite::from(1), ReadWrite::WRITE);
    assert_eq!(ReadWrite::from(0), ReadWrite::READ);
    assert_eq!(ReadWrite::from(2), ReadWrite::READ);
}

#[test]
fn default_is_empty_read() {
    let p = PayloadStruct::default();
    assert_eq!(p.id, 0);
    assert_eq!(p.rw, ReadWrite::READ);
    assert!(!p.is_queued);
    assert!(p.params.is_empty());
}
