use headsniff::addr::IpAddress;
use headsniff::dissect::{classify, DissectError, Layer3};

fn ipv4_header(src: [u8; 4], dst: [u8; 4]) -> Vec<u8> {
    let mut buf = vec![0u8; 20];
    buf[0] = 0x45;
    buf[12..16].copy_from_slice(&src);
    buf[16..20].copy_from_slice(&dst);
    buf
}

#[test]
fn classify_ipv4_reads_addresses_at_standard_offsets() {
    let buf = ipv4_header([10, 0, 0, 1], [10, 0, 0, 2]);
    let l3 = classify(&buf).unwrap();
    assert_eq!(l3.source(), IpAddress::v4_from_octets(10, 0, 0, 1));
    assert_eq!(l3.destination(), IpAddress::v4_from_octets(10, 0, 0, 2));
    assert!(matches!(l3, Layer3::Ipv4(_)));
}

#[test]
fn classify_ipv4_accepts_longer_declared_header() {
    // Header length 6 words = 24 bytes; the addresses stay at offsets 12 and 16.
    let mut buf = vec![0u8; 24];
    buf[0] = 0x46;
    buf[12..16].copy_from_slice(&[192, 168, 1, 7]);
    buf[16..20].copy_from_slice(&[8, 8, 8, 8]);
    let l3 = classify(&buf).unwrap();
    assert_eq!(l3.source(), IpAddress::v4_from_octets(192, 168, 1, 7));
    assert_eq!(l3.destination(), IpAddress::v4_from_octets(8, 8, 8, 8));
}

#[test]
fn classify_ipv6_reads_addresses_from_fixed_header() {
    let mut buf = vec![0u8; 40];
    buf[0] = 0x60;
    buf[8] = 0x20;
    buf[9] = 0x01;
    buf[23] = 0x01; // source 2001::1
    buf[39] = 0x02; // destination ::2
    let l3 = classify(&buf).unwrap();
    assert!(matches!(l3, Layer3::Ipv6(_)));
    let mut src = [0u8; 16];
    src[0] = 0x20;
    src[1] = 0x01;
    src[15] = 0x01;
    let mut dst = [0u8; 16];
    dst[15] = 0x02;
    assert_eq!(l3.source(), IpAddress::v6_from_octets(&src));
    assert_eq!(l3.destination(), IpAddress::v6_from_octets(&dst));
}

#[test]
fn classify_unknown_version_nibble_fails() {
    for first in [0x00u8, 0x10, 0x2f, 0x35, 0x50, 0x7a, 0x90, 0xff] {
        let mut buf = vec![0u8; 64];
        buf[0] = first;
        assert_eq!(classify(&buf).unwrap_err(), DissectError::UnknownVersion);
    }
}

#[test]
fn classify_truncated_ipv4_fails() {
    let mut buf = ipv4_header([10, 0, 0, 1], [10, 0, 0, 2]);
    buf.pop(); // 19 bytes, one short of the declared 20
    assert_eq!(classify(&buf).unwrap_err(), DissectError::TruncatedHeader);
}

#[test]
fn classify_ipv4_declaring_less_than_fixed_header_fails() {
    // Header length nibble 0: the declared header cannot hold the fixed fields.
    let buf = vec![0x40u8; 20];
    assert_eq!(classify(&buf).unwrap_err(), DissectError::TruncatedHeader);
}

#[test]
fn classify_truncated_ipv6_fails() {
    let mut buf = vec![0u8; 39];
    buf[0] = 0x60;
    assert_eq!(classify(&buf).unwrap_err(), DissectError::TruncatedHeader);
}

#[test]
fn classify_empty_buffer_fails_without_reading() {
    let buf: Vec<u8> = Vec::new();
    assert_eq!(classify(&buf).unwrap_err(), DissectError::EmptyBuffer);
}

#[test]
fn layer3_new_collapses_failures_to_none() {
    let good = ipv4_header([1, 2, 3, 4], [5, 6, 7, 8]);
    assert!(Layer3::new(&good).is_some());
    let bad = vec![0x50u8; 40];
    assert!(Layer3::new(&bad).is_none());
    let empty: Vec<u8> = Vec::new();
    assert!(Layer3::new(&empty).is_none());
}
