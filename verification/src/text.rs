use vstd::prelude::*;
use vstd::string::StringExecFns;

use crate::addr::IpAddress;

verus! {

/// The character for one decimal or hexadecimal digit value.
pub open spec fn digit_char(d: int) -> char {
    if d == 0 {
        '0'
    } else if d == 1 {
        '1'
    } else if d == 2 {
        '2'
    } else if d == 3 {
        '3'
    } else if d == 4 {
        '4'
    } else if d == 5 {
        '5'
    } else if d == 6 {
        '6'
    } else if d == 7 {
        '7'
    } else if d == 8 {
        '8'
    } else if d == 9 {
        '9'
    } else if d == 10 {
        'a'
    } else if d == 11 {
        'b'
    } else if d == 12 {
        'c'
    } else if d == 13 {
        'd'
    } else if d == 14 {
        'e'
    } else {
        'f'
    }
}

/// The decimal text of an octet value, without leading zeros.
pub open spec fn spec_dec_u8(n: int) -> Seq<char> {
    if n < 10 {
        seq![digit_char(n)]
    } else if n < 100 {
        seq![digit_char(n / 10), digit_char(n % 10)]
    } else {
        seq![digit_char(n / 100), digit_char(n / 10 % 10), digit_char(n % 10)]
    }
}

/// The lowercase hexadecimal text of a 16-bit group value, without leading
/// zeros.
pub open spec fn spec_hex_u16(n: int) -> Seq<char> {
    if n < 0x10 {
        seq![digit_char(n)]
    } else if n < 0x100 {
        seq![digit_char(n / 0x10), digit_char(n % 0x10)]
    } else if n < 0x1000 {
        seq![digit_char(n / 0x100), digit_char(n / 0x10 % 0x10), digit_char(n % 0x10)]
    } else {
        seq![
            digit_char(n / 0x1000),
            digit_char(n / 0x100 % 0x10),
            digit_char(n / 0x10 % 0x10),
            digit_char(n % 0x10),
        ]
    }
}

/// The dotted-quad text of an IPv4 address value.
pub open spec fn spec_ipv4_text(v: u32) -> Seq<char> {
    spec_dec_u8(v as int / 0x100_0000) + seq!['.'] + spec_dec_u8(v as int / 0x1_0000 % 256)
        + seq!['.'] + spec_dec_u8(v as int / 0x100 % 256) + seq!['.'] + spec_dec_u8(v as int % 256)
}

/// The `k`-th 16-bit group of an IPv6 address value, most significant first.
pub open spec fn ipv6_group(v: u128, k: int) -> int {
    if k == 0 {
        v as int / 0x1_0000_0000_0000_0000_0000_0000_0000
    } else if k == 1 {
        v as int / 0x1_0000_0000_0000_0000_0000_0000 % 0x1_0000
    } else if k == 2 {
        v as int / 0x1_0000_0000_0000_0000_0000 % 0x1_0000
    } else if k == 3 {
        v as int / 0x1_0000_0000_0000_0000 % 0x1_0000
    } else if k == 4 {
        v as int / 0x1_0000_0000_0000 % 0x1_0000
    } else if k == 5 {
        v as int / 0x1_0000_0000 % 0x1_0000
    } else if k == 6 {
        v as int / 0x1_0000 % 0x1_0000
    } else {
        v as int % 0x1_0000
    }
}

/// The text of an IPv6 address value: the eight hexadecimal groups joined by
/// colons, each without leading zeros and none elided.
pub open spec fn spec_ipv6_text(v: u128) -> Seq<char> {
    spec_hex_u16(ipv6_group(v, 0)) + seq![':'] + spec_hex_u16(ipv6_group(v, 1)) + seq![':']
        + spec_hex_u16(ipv6_group(v, 2)) + seq![':'] + spec_hex_u16(ipv6_group(v, 3)) + seq![':']
        + spec_hex_u16(ipv6_group(v, 4)) + seq![':'] + spec_hex_u16(ipv6_group(v, 5)) + seq![':']
        + spec_hex_u16(ipv6_group(v, 6)) + seq![':'] + spec_hex_u16(ipv6_group(v, 7))
}

/// The textual form of an address of either family.
pub open spec fn spec_address_text(a: IpAddress) -> Seq<char> {
    match a {
        IpAddress::V4(v) => spec_ipv4_text(v),
        IpAddress::V6(v) => spec_ipv6_text(v),
    }
}

/// The output line for a delivered frame: source, the tab-arrow-tab
/// separator, destination.
pub open spec fn spec_output_line(src: IpAddress, dst: IpAddress) -> Seq<char> {
    spec_address_text(src) + seq!['\t', '-', '>', '\t'] + spec_address_text(dst)
}

/// The text of one digit value.
fn digit_str(d: u8) -> (r: &'static str)
    requires
        d < 16,
    ensures
        r@ == seq![digit_char(d as int)],
{
    proof {
        reveal_strlit("0");
        reveal_strlit("1");
        reveal_strlit("2");
        reveal_strlit("3");
        reveal_strlit("4");
        reveal_strlit("5");
        reveal_strlit("6");
        reveal_strlit("7");
        reveal_strlit("8");
        reveal_strlit("9");
        reveal_strlit("a");
        reveal_strlit("b");
        reveal_strlit("c");
        reveal_strlit("d");
        reveal_strlit("e");
        reveal_strlit("f");
    }
    let r = match d {
        0 => "0",
        1 => "1",
        2 => "2",
        3 => "3",
        4 => "4",
        5 => "5",
        6 => "6",
        7 => "7",
        8 => "8",
        9 => "9",
        10 => "a",
        11 => "b",
        12 => "c",
        13 => "d",
        14 => "e",
        _ => "f",
    };
    proof {
        assert(r@ =~= seq![digit_char(d as int)]);
    }
    r
}

/// Renders an octet value in decimal.
fn dec_u8(n: u8) -> (r: String)
    ensures
        r@ == spec_dec_u8(n as int),
{
    if n < 10 {
        let r = String::from_str(digit_str(n));
        proof {
            assert(r@ =~= spec_dec_u8(n as int));
        }
        r
    } else if n < 100 {
        let r = String::from_str(digit_str(n / 10)).concat(digit_str(n % 10));
        proof {
            assert(r@ =~= spec_dec_u8(n as int));
        }
        r
    } else {
        let r = String::from_str(digit_str(n / 100)).concat(digit_str(n / 10 % 10)).concat(
            digit_str(n % 10),
        );
        proof {
            assert(r@ =~= spec_dec_u8(n as int));
        }
        r
    }
}

/// Renders a 16-bit group value in lowercase hexadecimal.
fn hex_u16(n: u16) -> (r: String)
    ensures
        r@ == spec_hex_u16(n as int),
{
    if n < 0x10 {
        let r = String::from_str(digit_str(n as u8));
        proof {
            assert(r@ =~= spec_hex_u16(n as int));
        }
        r
    } else if n < 0x100 {
        let r = String::from_str(digit_str((n / 0x10) as u8)).concat(digit_str((n % 0x10) as u8));
        proof {
            assert(r@ =~= spec_hex_u16(n as int));
        }
        r
    } else if n < 0x1000 {
        let r = String::from_str(digit_str((n / 0x100) as u8)).concat(
            digit_str((n / 0x10 % 0x10) as u8),
        ).concat(digit_str((n % 0x10) as u8));
        proof {
            assert(r@ =~= spec_hex_u16(n as int));
        }
        r
    } else {
        let r = String::from_str(digit_str((n / 0x1000) as u8)).concat(
            digit_str((n / 0x100 % 0x10) as u8),
        ).concat(digit_str((n / 0x10 % 0x10) as u8)).concat(digit_str((n % 0x10) as u8));
        proof {
            assert(r@ =~= spec_hex_u16(n as int));
        }
        r
    }
}

/// Renders an IPv4 address value as a dotted quad.
fn ipv4_text(v: u32) -> (r: String)
    ensures
        r@ == spec_ipv4_text(v),
{
    proof {
        reveal_strlit(".");
    }
    let r = dec_u8((v / 0x100_0000) as u8).concat(".").concat(
        dec_u8((v / 0x1_0000 % 256) as u8).as_str(),
    ).concat(".").concat(dec_u8((v / 0x100 % 256) as u8).as_str()).concat(".").concat(
        dec_u8((v % 256) as u8).as_str(),
    );
    proof {
        assert(r@ =~= spec_ipv4_text(v));
    }
    r
}

/// Renders an IPv6 address value as eight colon-separated hex groups.
fn ipv6_text(v: u128) -> (r: String)
    ensures
        r@ == spec_ipv6_text(v),
{
    proof {
        reveal_strlit(":");
    }
    let g0 = hex_u16((v / 0x1_0000_0000_0000_0000_0000_0000_0000) as u16);
    let g1 = hex_u16((v / 0x1_0000_0000_0000_0000_0000_0000 % 0x1_0000) as u16);
    let g2 = hex_u16((v / 0x1_0000_0000_0000_0000_0000 % 0x1_0000) as u16);
    let g3 = hex_u16((v / 0x1_0000_0000_0000_0000 % 0x1_0000) as u16);
    let g4 = hex_u16((v / 0x1_0000_0000_0000 % 0x1_0000) as u16);
    let g5 = hex_u16((v / 0x1_0000_0000 % 0x1_0000) as u16);
    let g6 = hex_u16((v / 0x1_0000 % 0x1_0000) as u16);
    let g7 = hex_u16((v % 0x1_0000) as u16);
    let r = g0.concat(":").concat(g1.as_str()).concat(":").concat(g2.as_str()).concat(":").concat(
        g3.as_str(),
    ).concat(":").concat(g4.as_str()).concat(":").concat(g5.as_str()).concat(":").concat(
        g6.as_str(),
    ).concat(":").concat(g7.as_str());
    proof {
        assert(r@ =~= spec_ipv6_text(v));
    }
    r
}

/// Renders an address of either family in its textual form.
pub fn address_text(a: &IpAddress) -> (r: String)
    ensures
        r@ == spec_address_text(*a),
{
    match a {
        IpAddress::V4(v) => ipv4_text(*v),
        IpAddress::V6(v) => ipv6_text(*v),
    }
}

/// Builds the output line for a delivered frame.
pub fn output_line(src: &IpAddress, dst: &IpAddress) -> (r: String)
    ensures
        r@ == spec_output_line(*src, *dst),
{
    proof {
        reveal_strlit("\t->\t");
    }
    let r = address_text(src).concat("\t->\t").concat(address_text(dst).as_str());
    proof {
        assert(r@ =~= spec_output_line(*src, *dst));
    }
    r
}

} // verus!
