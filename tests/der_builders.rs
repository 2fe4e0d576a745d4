use esign_core::bytes::find_bytes;
use esign_core::cms::{build_signed_attributes, build_utc_time};
use esign_core::der::{
    build_attribute, build_octet_string, build_oid, build_sequence, build_set,
    build_sha256_algorithm_identifier, extend_with_length, get_length_bytes, parse_asn1_length,
};
use esign_core::time::CivilTime;

#[test]
fn test_build_sequence() {
    let content = vec![0x01, 0x02, 0x03];
    let seq = build_sequence(&content);
    assert_eq!(seq[0], 0x30);
    assert_eq!(seq[1], 3);
    assert_eq!(seq[2..], content[..]);
}

#[test]
fn test_build_sequence_empty() {
    let content: Vec<u8> = vec![];
    let seq = build_sequence(&content);
    assert_eq!(seq[0], 0x30);
    assert_eq!(seq[1], 0);
    assert_eq!(seq.len(), 2);
}

#[test]
fn test_build_sequence_long() {
    let content = vec![0xAB; 200];
    let seq = build_sequence(&content);
    assert_eq!(seq[0], 0x30);
    assert_eq!(seq[1], 0x81);
    assert_eq!(seq[2], 200);
}

#[test]
fn test_build_octet_string() {
    let data = vec![0xAB, 0xCD];
    let octet = build_octet_string(&data);
    assert_eq!(octet[0], 0x04);
    assert_eq!(octet[1], 2);
    assert_eq!(octet[2], 0xAB);
    assert_eq!(octet[3], 0xCD);
}

#[test]
fn test_build_octet_string_empty() {
    let data: Vec<u8> = vec![];
    let octet = build_octet_string(&data);
    assert_eq!(octet[0], 0x04);
    assert_eq!(octet[1], 0);
}

#[test]
fn test_build_oid() {
    let oid_bytes: &[u8] = &[0x60, 0x86, 0x48, 0x01, 0x65, 0x03, 0x04, 0x02, 0x01];
    let result = build_oid(oid_bytes);
    assert_eq!(result[0], 0x06);
    assert!(result.len() > 2);
}

#[test]
fn test_build_oid_simple() {
    let oid_bytes: &[u8] = &[0x55, 0x04, 0x03];
    let result = build_oid(oid_bytes);
    assert_eq!(result[0], 0x06);
}

#[test]
fn test_build_set() {
    let content = vec![0x01, 0x02, 0x03];
    let set = build_set(&content);
    assert_eq!(set[0], 0x31);
    assert_eq!(set[1], 3);
    assert_eq!(set[2..], content[..]);
}

#[test]
fn test_build_sha256_algorithm_identifier() {
    let alg = build_sha256_algorithm_identifier();
    assert_eq!(alg[0], 0x30);
    assert!(alg.len() > 4);
}

#[test]
fn sha256_algorithm_identifier_exact() {
    assert_eq!(
        build_sha256_algorithm_identifier(),
        vec![0x30, 0x0D, 0x06, 0x09, 0x60, 0x86, 0x48, 0x01, 0x65, 0x03, 0x04, 0x02, 0x01, 0x05, 0x00]
    );
}

#[test]
fn test_build_utc_time() {
    let t = CivilTime { year: 2025, month: 12, day: 26, hour: 10, minute: 5, second: 9 };
    let time = build_utc_time(&t);
    assert_eq!(time[0], 0x17);
    assert!(time.len() > 10);
    assert_eq!(&time[2..], b"251226100509Z");
    assert_eq!(time[1], 13);
}

#[test]
fn test_build_attribute() {
    let oid = &[0x06, 0x03, 0x55, 0x04, 0x03];
    let value = &[0x13, 0x04, 0x54, 0x65, 0x73, 0x74];
    let attr = build_attribute(oid, value);
    assert_eq!(attr[0], 0x30);
    assert!(attr.len() > oid.len() + value.len());
}

#[test]
fn test_get_length_bytes_short() {
    let data = [0x05];
    let bytes = get_length_bytes(&data);
    assert_eq!(bytes, 1);
}

#[test]
fn test_get_length_bytes_long() {
    let data = [0x82, 0x01, 0x00];
    let bytes = get_length_bytes(&data);
    assert_eq!(bytes, 3);
}

#[test]
fn test_get_length_bytes_empty() {
    let data: [u8; 0] = [];
    let bytes = get_length_bytes(&data);
    assert_eq!(bytes, 0);
}

#[test]
fn test_get_length_bytes_one_byte_long_form() {
    let data = [0x81, 0x80];
    let bytes = get_length_bytes(&data);
    assert_eq!(bytes, 2);
}

#[test]
fn test_extend_with_length_short() {
    let mut buf = vec![];
    extend_with_length(&mut buf, 50);
    assert_eq!(buf.len(), 1);
    assert_eq!(buf[0], 50);
}

#[test]
fn test_extend_with_length_long() {
    let mut buf = vec![];
    extend_with_length(&mut buf, 200);
    assert_eq!(buf.len(), 2);
    assert_eq!(buf[0], 0x81);
    assert_eq!(buf[1], 200);
}

#[test]
fn test_extend_with_length_two_bytes() {
    let mut buf = vec![];
    extend_with_length(&mut buf, 300);
    assert_eq!(buf.len(), 3);
    assert_eq!(buf[0], 0x82);
    assert_eq!(buf[1], 0x01);
    assert_eq!(buf[2], 0x2C);
}

#[test]
fn length_encoding_at_boundaries() {
    let cases: Vec<(usize, Vec<u8>)> = vec![
        (127, vec![0x7F]),
        (128, vec![0x81, 0x80]),
        (255, vec![0x81, 0xFF]),
        (256, vec![0x82, 0x01, 0x00]),
        (65535, vec![0x82, 0xFF, 0xFF]),
        (65536, vec![0x83, 0x01, 0x00, 0x00]),
    ];
    for (n, expected) in cases {
        let mut buf = vec![0xEE];
        extend_with_length(&mut buf, n);
        assert_eq!(buf[1..], expected[..], "length {}", n);
        let (h, back) = parse_asn1_length(&buf[1..]).unwrap();
        assert_eq!(h, expected.len());
        assert_eq!(back, n);
    }
}

#[test]
fn test_build_sequence_256_bytes() {
    let content = vec![0x00; 256];
    let seq = build_sequence(&content);
    assert_eq!(seq[0], 0x30);
    assert_eq!(seq[1], 0x82);
    assert_eq!(seq[2], 0x01);
    assert_eq!(seq[3], 0x00);
}

#[test]
fn test_find_bytes_found() {
    let data = b"Hello World";
    let pattern = b"World";
    let pos = find_bytes(data, pattern);
    assert_eq!(pos, Some(6));
}

#[test]
fn test_find_bytes_not_found() {
    let data = b"Hello World";
    let pattern = b"Foo";
    let pos = find_bytes(data, pattern);
    assert_eq!(pos, None);
}

#[test]
fn test_find_bytes_at_start() {
    let data = b"Hello World";
    let pattern = b"Hello";
    let pos = find_bytes(data, pattern);
    assert_eq!(pos, Some(0));
}

#[test]
fn test_find_bytes_at_end() {
    let data = b"Hello World";
    let pattern = b"World";
    let pos = find_bytes(data, pattern);
    assert_eq!(pos, Some(6));
}

#[test]
fn test_find_bytes_multiple_occurrences() {
    let data = b"abcabc";
    let pattern = b"abc";
    let pos = find_bytes(data, pattern);
    assert_eq!(pos, Some(0));
}

#[test]
fn signed_attributes_layout() {
    let digest = [0x5Au8; 32];
    let t = CivilTime { year: 2024, month: 2, day: 29, hour: 23, minute: 59, second: 58 };
    let attrs = build_signed_attributes(&digest, &t);
    assert_eq!(attrs[0], 0x31);
    let (h, n) = parse_asn1_length(&attrs[1..]).unwrap();
    assert_eq!(1 + h + n, attrs.len());
    let mut md = vec![0x04, 0x20];
    md.extend_from_slice(&digest);
    assert!(find_bytes(&attrs, &md).is_some());
    assert!(find_bytes(&attrs, b"240229235958Z").is_some());
    let data_oid = [0x06, 0x09, 0x2A, 0x86, 0x48, 0x86, 0xF7, 0x0D, 0x01, 0x07, 0x01];
    assert!(find_bytes(&attrs, &data_oid).is_some());
}
