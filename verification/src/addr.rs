use vstd::prelude::*;

verus! {

/// A 6-byte link-layer (MAC) address, packed big-endian into the low 48 bits
/// of a `u64`. Equality is exact byte-level comparison.
#[derive(PartialEq, Eq, Structural, Clone, Copy, Debug)]
pub struct MacAddress {
    pub val: u64,
}

/// A network-layer address: 4 bytes for IPv4 or 16 bytes for IPv6, packed
/// big-endian. Equality is exact byte-level comparison within one family;
/// the two families are distinct variants and never compare equal.
#[derive(PartialEq, Eq, Structural, Clone, Copy, Debug)]
pub enum IpAddress {
    V4(u32),
    V6(u128),
}

/// The big-endian value of the 4 bytes of `s` starting at `i`.
pub open spec fn be32(s: Seq<u8>, i: int) -> int {
    s[i] * 0x100_0000 + s[i + 1] * 0x1_0000 + s[i + 2] * 0x100 + s[i + 3]
}

/// The big-endian value of the 6 bytes of `s` starting at `i`.
pub open spec fn be48(s: Seq<u8>, i: int) -> int {
    s[i] * 0x100_0000_0000 + s[i + 1] * 0x1_0000_0000 + s[i + 2] * 0x100_0000 + s[i + 3]
        * 0x1_0000 + s[i + 4] * 0x100 + s[i + 5]
}

/// The big-endian value of the 16 bytes of `s` starting at `i`.
pub open spec fn be128(s: Seq<u8>, i: int) -> int {
    be32(s, i) * 0x1_0000_0000_0000_0000_0000_0000 + be32(s, i + 4) * 0x1_0000_0000_0000_0000
        + be32(s, i + 8) * 0x1_0000_0000 + be32(s, i + 12)
}

/// The MAC address held in the 6 bytes of `s` starting at `i`.
pub open spec fn mac_at(s: Seq<u8>, i: int) -> MacAddress {
    MacAddress { val: be48(s, i) as u64 }
}

/// The IPv4 address held in the 4 bytes of `s` starting at `i`.
pub open spec fn ipv4_at(s: Seq<u8>, i: int) -> IpAddress {
    IpAddress::V4(be32(s, i) as u32)
}

/// The IPv6 address held in the 16 bytes of `s` starting at `i`.
pub open spec fn ipv6_at(s: Seq<u8>, i: int) -> IpAddress {
    IpAddress::V6(be128(s, i) as u128)
}

/// Reads the big-endian `u32` at offset `i`.
pub fn read_be32(buf: &[u8], i: usize) -> (r: u32)
    requires
        i + 4 <= buf@.len(),
    ensures
        r == be32(buf@, i as int),
{
    (buf[i] as u32) * 0x100_0000 + (buf[i + 1] as u32) * 0x1_0000 + (buf[i + 2] as u32) * 0x100
        + (buf[i + 3] as u32)
}

/// Reads the big-endian 48-bit value at offset `i`.
pub fn read_be48(buf: &[u8], i: usize) -> (r: u64)
    requires
        i + 6 <= buf@.len(),
    ensures
        r == be48(buf@, i as int),
{
    (buf[i] as u64) * 0x100_0000_0000 + (buf[i + 1] as u64) * 0x1_0000_0000 + (buf[i + 2] as u64)
        * 0x100_0000 + (buf[i + 3] as u64) * 0x1_0000 + (buf[i + 4] as u64) * 0x100 + (buf[i
        + 5] as u64)
}

/// Reads the big-endian `u128` at offset `i`.
pub fn read_be128(buf: &[u8], i: usize) -> (r: u128)
    requires
        i + 16 <= buf@.len(),
    ensures
        r == be128(buf@, i as int),
{
    // Binding the length as a `usize` lets the index sums below be known to fit.
    let _n: usize = buf.len();
    let a = read_be32(buf, i);
    let b = read_be32(buf, i + 4);
    let c = read_be32(buf, i + 8);
    let d = read_be32(buf, i + 12);
    (a as u128) * 0x1_0000_0000_0000_0000_0000_0000 + (b as u128) * 0x1_0000_0000_0000_0000 + (
    c as u128) * 0x1_0000_0000 + (d as u128)
}

impl MacAddress {
    /// Builds the address with the given octets, most significant first.
    pub fn from_octets(a: u8, b: u8, c: u8, d: u8, e: u8, f: u8) -> (r: Self)
        ensures
            r == mac_at(seq![a, b, c, d, e, f], 0),
    {
        MacAddress {
            val: (a as u64) * 0x100_0000_0000 + (b as u64) * 0x1_0000_0000 + (c as u64)
                * 0x100_0000 + (d as u64) * 0x1_0000 + (e as u64) * 0x100 + (f as u64),
        }
    }
}

impl IpAddress {
    /// Builds the IPv4 address `a.b.c.d`.
    pub fn v4_from_octets(a: u8, b: u8, c: u8, d: u8) -> (r: Self)
        ensures
            r == ipv4_at(seq![a, b, c, d], 0),
    {
        IpAddress::V4(
            (a as u32) * 0x100_0000 + (b as u32) * 0x1_0000 + (c as u32) * 0x100 + (d as u32),
        )
    }

    /// Builds the IPv6 address with the given 16 octets, most significant first.
    pub fn v6_from_octets(o: &[u8]) -> (r: Self)
        requires
            o@.len() == 16,
        ensures
            r == ipv6_at(o@, 0),
    {
        IpAddress::V6(read_be128(o, 0))
    }
}

} // verus!
