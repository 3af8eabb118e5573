use vstd::prelude::*;

use crate::addr::{ipv4_at, ipv6_at, read_be32, read_be128, IpAddress};

verus! {

/// Why a byte buffer could not be dissected as a network-layer header.
#[derive(PartialEq, Eq, Structural, Clone, Copy, Debug)]
pub enum DissectError {
    /// The buffer is empty, so not even the version nibble can be read.
    EmptyBuffer,
    /// The version nibble is neither 4 nor 6.
    UnknownVersion,
    /// The buffer is shorter than the header it declares: for IPv4 the header
    /// length encoded in the first byte's lower nibble (in 32-bit words, at
    /// least the 20 fixed bytes), for IPv6 the fixed 40-byte header.
    TruncatedHeader,
}

/// A network-layer header view borrowed from a frame buffer. It is zero-copy:
/// each variant holds the payload slice itself, and the accessors read the
/// addresses straight from it.
#[derive(Debug)]
pub enum Layer3<'a> {
    Ipv4(&'a [u8]),
    Ipv6(&'a [u8]),
}

/// The version nibble: the upper 4 bits of the first header byte.
pub open spec fn version_nibble(s: Seq<u8>) -> int {
    s[0] as int / 16
}

/// The IPv4 header length declared by the lower nibble of the first byte,
/// counted in 32-bit words, so 4 bytes per unit.
pub open spec fn ipv4_header_len(s: Seq<u8>) -> int {
    (s[0] as int % 16) * 4
}

/// What `classify` returns on each buffer: the (source, destination) address
/// pair on success, and which error otherwise.
pub open spec fn spec_classify(s: Seq<u8>) -> Result<(IpAddress, IpAddress), DissectError> {
    if s.len() == 0 {
        Err(DissectError::EmptyBuffer)
    } else if version_nibble(s) == 4 {
        if ipv4_header_len(s) < 20 || s.len() < ipv4_header_len(s) {
            Err(DissectError::TruncatedHeader)
        } else {
            Ok((ipv4_at(s, 12), ipv4_at(s, 16)))
        }
    } else if version_nibble(s) == 6 {
        if s.len() < 40 {
            Err(DissectError::TruncatedHeader)
        } else {
            Ok((ipv6_at(s, 8), ipv6_at(s, 24)))
        }
    } else {
        Err(DissectError::UnknownVersion)
    }
}

impl<'a> Layer3<'a> {
    /// The buffer the view borrows.
    pub open spec fn spec_buf(self) -> Seq<u8> {
        match self {
            Layer3::Ipv4(b) => b@,
            Layer3::Ipv6(b) => b@,
        }
    }

    /// A view is well formed when its buffer really holds a header of its
    /// variant's family, long enough for every field the accessors read.
    pub open spec fn wf(self) -> bool {
        match self {
            Layer3::Ipv4(b) => {
                &&& b@.len() > 0
                &&& version_nibble(b@) == 4
                &&& ipv4_header_len(b@) >= 20
                &&& b@.len() >= ipv4_header_len(b@)
            },
            Layer3::Ipv6(b) => {
                &&& b@.len() >= 40
                &&& version_nibble(b@) == 6
            },
        }
    }

    /// The source address encoded in the header: bytes 12..16 of an IPv4
    /// header, bytes 8..24 of an IPv6 header.
    pub open spec fn spec_source(self) -> IpAddress {
        match self {
            Layer3::Ipv4(b) => ipv4_at(b@, 12),
            Layer3::Ipv6(b) => ipv6_at(b@, 8),
        }
    }

    /// The destination address encoded in the header: bytes 16..20 of an IPv4
    /// header, bytes 24..40 of an IPv6 header.
    pub open spec fn spec_destination(self) -> IpAddress {
        match self {
            Layer3::Ipv4(b) => ipv4_at(b@, 16),
            Layer3::Ipv6(b) => ipv6_at(b@, 24),
        }
    }

    /// Dissects `buf`, as `classify` does, but collapses every failure to
    /// `None`.
    pub fn new(buf: &'a [u8]) -> (r: Option<Layer3<'a>>)
        ensures
            match spec_classify(buf@) {
                Ok(pair) => {
                    &&& r matches Some(l3)
                    &&& l3.wf()
                    &&& l3.spec_buf() == buf@
                    &&& l3.spec_source() == pair.0
                    &&& l3.spec_destination() == pair.1
                },
                Err(_) => r is None,
            },
    {
        match classify(buf) {
            Ok(l3) => Some(l3),
            Err(_) => None,
        }
    }

    /// Reads the source address. Never fails and copies only the address
    /// bytes out of the borrowed header.
    pub fn source(&self) -> (r: IpAddress)
        requires
            self.wf(),
        ensures
            r == self.spec_source(),
    {
        match self {
            Layer3::Ipv4(b) => IpAddress::V4(read_be32(b, 12)),
            Layer3::Ipv6(b) => IpAddress::V6(read_be128(b, 8)),
        }
    }

    /// Reads the destination address. Never fails and copies only the address
    /// bytes out of the borrowed header.
    pub fn destination(&self) -> (r: IpAddress)
        requires
            self.wf(),
        ensures
            r == self.spec_destination(),
    {
        match self {
            Layer3::Ipv4(b) => IpAddress::V4(read_be32(b, 16)),
            Layer3::Ipv6(b) => IpAddress::V6(read_be128(b, 24)),
        }
    }
}

/// Classifies a buffer as an IPv4 or IPv6 header by its version nibble and
/// checks the buffer holds the header it declares; on success the returned
/// view exposes the address pair, on failure the error says what was wrong.
/// Pure: reads only `buf`, and never past its end.
pub fn classify<'a>(buf: &'a [u8]) -> (r: Result<Layer3<'a>, DissectError>)
    ensures
        match spec_classify(buf@) {
            Ok(pair) => {
                &&& r matches Ok(l3)
                &&& l3.wf()
                &&& l3.spec_buf() == buf@
                &&& l3.spec_source() == pair.0
                &&& l3.spec_destination() == pair.1
            },
            Err(e) => r matches Err(e2) && e2 == e,
        },
{
    if buf.len() == 0 {
        return Err(DissectError::EmptyBuffer);
    }
    let version = buf[0] / 16;
    if version == 4 {
        let header_len = (buf[0] % 16) as usize * 4;
        if header_len < 20 || buf.len() < header_len {
            Err(DissectError::TruncatedHeader)
        } else {
            Ok(Layer3::Ipv4(buf))
        }
    } else if version == 6 {
        if buf.len() < 40 {
            Err(DissectError::TruncatedHeader)
        } else {
            Ok(Layer3::Ipv6(buf))
        }
    } else {
        Err(DissectError::UnknownVersion)
    }
}

/// A buffer that declares IPv4, declares at least the 20 fixed header bytes,
/// and is as long as it declares, classifies as IPv4 with the source read
/// from bytes 12..16 and the destination from bytes 16..20.
pub proof fn lemma_classify_ipv4(s: Seq<u8>)
    requires
        s.len() > 0,
        version_nibble(s) == 4,
        ipv4_header_len(s) >= 20,
        s.len() >= ipv4_header_len(s),
    ensures
        spec_classify(s) == Ok::<(IpAddress, IpAddress), DissectError>((
            ipv4_at(s, 12),
            ipv4_at(s, 16),
        )),
{
}

/// A buffer that declares IPv6 and holds the fixed 40-byte header classifies
/// as IPv6 with the source read from bytes 8..24 and the destination from
/// bytes 24..40.
pub proof fn lemma_classify_ipv6(s: Seq<u8>)
    requires
        s.len() >= 40,
        version_nibble(s) == 6,
    ensures
        spec_classify(s) == Ok::<(IpAddress, IpAddress), DissectError>((
            ipv6_at(s, 8),
            ipv6_at(s, 24),
        )),
{
}

/// A non-empty buffer whose version nibble is neither 4 nor 6 always fails
/// with `UnknownVersion`.
pub proof fn lemma_classify_unknown_version(s: Seq<u8>)
    requires
        s.len() > 0,
        version_nibble(s) != 4,
        version_nibble(s) != 6,
    ensures
        spec_classify(s) == Err::<(IpAddress, IpAddress), DissectError>(
            DissectError::UnknownVersion,
        ),
{
}

/// A buffer of a known family that is shorter than the header it declares
/// (the declared IPv4 header length, or the fixed 40 IPv6 bytes) always fails
/// with `TruncatedHeader`.
pub proof fn lemma_classify_truncated(s: Seq<u8>)
    requires
        s.len() > 0,
        version_nibble(s) == 4 || version_nibble(s) == 6,
        version_nibble(s) == 4 ==> s.len() < ipv4_header_len(s) || ipv4_header_len(s) < 20,
        version_nibble(s) == 6 ==> s.len() < 40,
    ensures
        spec_classify(s) == Err::<(IpAddress, IpAddress), DissectError>(
            DissectError::TruncatedHeader,
        ),
{
}

/// A well-formed view yields addresses of its own family: an IPv4 view a V4
/// pair, an IPv6 view a V6 pair.
pub proof fn lemma_view_family(l3: Layer3)
    requires
        l3.wf(),
    ensures
        l3 is Ipv4 ==> l3.spec_source() is V4 && l3.spec_destination() is V4,
        l3 is Ipv6 ==> l3.spec_source() is V6 && l3.spec_destination() is V6,
{
}

/// The empty buffer always fails with `EmptyBuffer`.
pub proof fn lemma_classify_empty(s: Seq<u8>)
    requires
        s.len() == 0,
    ensures
        spec_classify(s) == Err::<(IpAddress, IpAddress), DissectError>(DissectError::EmptyBuffer),
{
}

} // verus!
