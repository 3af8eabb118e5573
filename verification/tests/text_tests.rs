use headsniff::addr::IpAddress;
use headsniff::text::{address_text, output_line};

#[test]
fn ipv4_text_is_the_dotted_quad() {
    assert_eq!(address_text(&IpAddress::v4_from_octets(10, 0, 0, 1)), "10.0.0.1");
    assert_eq!(address_text(&IpAddress::v4_from_octets(0, 0, 0, 0)), "0.0.0.0");
    assert_eq!(address_text(&IpAddress::v4_from_octets(255, 255, 255, 255)), "255.255.255.255");
    assert_eq!(address_text(&IpAddress::v4_from_octets(192, 168, 1, 7)), "192.168.1.7");
}

#[test]
fn ipv6_text_is_eight_hex_groups() {
    let mut o = [0u8; 16];
    o[0] = 0x20;
    o[1] = 0x01;
    o[2] = 0x0d;
    o[3] = 0xb8;
    o[15] = 0x01;
    assert_eq!(address_text(&IpAddress::v6_from_octets(&o)), "2001:db8:0:0:0:0:0:1");
    let all = [0xffu8; 16];
    assert_eq!(
        address_text(&IpAddress::v6_from_octets(&all)),
        "ffff:ffff:ffff:ffff:ffff:ffff:ffff:ffff"
    );
}

#[test]
fn output_line_joins_the_pair_with_the_tab_arrow() {
    let src = IpAddress::v4_from_octets(10, 0, 0, 1);
    let dst = IpAddress::v4_from_octets(10, 0, 0, 2);
    assert_eq!(output_line(&src, &dst), "10.0.0.1\t->\t10.0.0.2");
}
