use spdmlib::codec::{copy_range, u16_to_le_bytes, Writer};
use spdmlib::message::{error_fields, Reader, SpdmMessageHeader};
use spdmlib::protocol::{SpdmErrorCode, SpdmRequestResponseCode, SpdmVersion};

#[test]
fn writer_refuses_what_does_not_fit() {
    let mut w = Writer::init(4);
    assert_eq!(w.extend_from_slice(&[1, 2, 3]), Some(3));
    assert_eq!(w.extend_from_slice(&[4, 5]), None);
    assert_eq!(w.used_slice(), &[1, 2, 3]);
    assert_eq!(w.left(), 1);
    assert_eq!(w.push(4), Some(1));
    assert_eq!(w.push(5), None);
    assert_eq!(w.used(), 4);
    w.clear();
    assert_eq!(w.used(), 0);
}

#[test]
fn writer_patch_overwrites_in_place() {
    let mut w = Writer::init(8);
    w.extend_from_slice(&[1, 2, 3, 4, 5]);
    w.patch(1, &[9, 9]);
    assert_eq!(w.used_slice(), &[1, 9, 9, 4, 5]);
}

#[test]
fn write_fields_stops_at_the_first_field_that_does_not_fit() {
    let mut w = Writer::init(3);
    let fields = vec![vec![1u8], vec![2, 3], vec![4]];
    assert!(!w.write_fields(&fields));
    assert_eq!(w.used_slice(), &[1, 2, 3]);
    let mut w = Writer::init(3);
    let fields = vec![vec![1u8], vec![2, 3, 4], vec![5]];
    assert!(!w.write_fields(&fields));
    assert_eq!(w.used_slice(), &[1]);
    let mut w = Writer::init(4);
    let fields = vec![vec![1u8], vec![2, 3], vec![4]];
    assert!(w.write_fields(&fields));
    assert_eq!(w.used_slice(), &[1, 2, 3, 4]);
}

#[test]
fn u16_is_little_endian() {
    assert_eq!(u16_to_le_bytes(0x1234), vec![0x34, 0x12]);
    let bytes = [0x34u8, 0x12, 0xFF];
    let mut r = Reader::init(&bytes);
    assert_eq!(r.read_u16(), Some(0x1234));
    assert_eq!(r.read_u16(), None);
    assert_eq!(r.read_u8(), Some(0xFF));
    assert_eq!(r.read_u8(), None);
    assert_eq!(r.used(), 3);
}

#[test]
fn reader_reads_bytes_and_reports_what_it_consumed() {
    let bytes = [1u8, 2, 3, 4, 5];
    let mut r = Reader::init(&bytes);
    assert_eq!(r.read_bytes(2), Some(vec![1, 2]));
    assert_eq!(r.read_bytes(4), None);
    assert_eq!(r.read_bytes(3), Some(vec![3, 4, 5]));
    assert_eq!(r.used_slice(), &bytes[..]);
    assert_eq!(copy_range(&bytes, 1, 3), vec![2, 3, 4]);
}

#[test]
fn header_reads_back_what_was_encoded() {
    let h = SpdmMessageHeader {
        version: SpdmVersion::SpdmVersion13,
        request_response_code: SpdmRequestResponseCode::SpdmRequestPskExchange,
    };
    let mut bytes: Vec<u8> = h.encode_fields().concat();
    assert_eq!(bytes, vec![0x13, 0xE6]);
    bytes.push(0x55);
    let mut r = Reader::init(&bytes);
    assert_eq!(SpdmMessageHeader::read(&mut r), Some(h));
    assert_eq!(r.used(), 2);
}

#[test]
fn unknown_codes_read_as_unknown() {
    let bytes = [0x20u8, 0x42];
    let mut r = Reader::init(&bytes);
    let h = SpdmMessageHeader::read(&mut r).unwrap();
    assert_eq!(h.version, SpdmVersion::Unknown(0x20));
    assert_eq!(h.request_response_code, SpdmRequestResponseCode::Unknown(0x42));
    assert_eq!(h.version.get_u8(), 0x20);
    let short = [0x12u8];
    let mut r = Reader::init(&short);
    assert_eq!(SpdmMessageHeader::read(&mut r), None);
}

#[test]
fn error_response_reads_back_as_an_error_header() {
    let bytes: Vec<u8> =
        error_fields(SpdmVersion::SpdmVersion11, SpdmErrorCode::SpdmErrorRequestResynch, 0)
            .concat();
    assert_eq!(bytes, vec![0x11, 0x7F, 0x43, 0]);
    let mut r = Reader::init(&bytes);
    let h = SpdmMessageHeader::read(&mut r).unwrap();
    assert_eq!(h.version, SpdmVersion::SpdmVersion11);
    assert_eq!(h.request_response_code, SpdmRequestResponseCode::SpdmResponseError);
}

#[test]
fn enum_bytes_round_trip() {
    for b in 0u8..=255 {
        assert_eq!(SpdmVersion::from_u8(b).get_u8(), b);
        assert_eq!(SpdmRequestResponseCode::from_u8(b).get_u8(), b);
        assert_eq!(SpdmErrorCode::from_u8(b).get_u8(), b);
    }
    assert_eq!(SpdmErrorCode::from_u8(0x41), SpdmErrorCode::SpdmErrorVersionMismatch);
    assert_eq!(
        SpdmRequestResponseCode::from_u8(0x68),
        SpdmRequestResponseCode::SpdmResponseHeartbeatAck
    );
}
