use vstd::prelude::*;

use crate::addr::{mac_at, read_be48, MacAddress, IpAddress};
use crate::dissect::{classify, spec_classify, DissectError};
use crate::filter::{IpFilterSet, MacFilterSet};

verus! {

/// What becomes of one raw frame: the silent suppressions, the two
/// per-frame failures that deserve a diagnostic, and delivery of the
/// network-layer address pair.
#[derive(PartialEq, Eq, Structural, Clone, Copy, Debug)]
pub enum FrameOutcome {
    /// The buffer does not hold an Ethernet header; report and skip.
    EthernetInvalid,
    /// The link-layer filter suppressed the frame; skip silently.
    MacSuppressed,
    /// The network-layer payload could not be dissected; report and skip.
    DissectFailed(DissectError),
    /// The network-layer filter suppressed the frame; skip silently.
    IpSuppressed,
    /// Emit one `source -> destination` line for this pair.
    Deliver(IpAddress, IpAddress),
}

/// The source MAC of an Ethernet frame: bytes 6..12.
pub open spec fn eth_source(s: Seq<u8>) -> MacAddress {
    mac_at(s, 6)
}

/// The destination MAC of an Ethernet frame: bytes 0..6.
pub open spec fn eth_destination(s: Seq<u8>) -> MacAddress {
    mac_at(s, 0)
}

/// What `handle_frame` decides for a raw frame: a buffer too short for the
/// 14-byte Ethernet header is invalid; then the link-layer filter is applied
/// to the frame's MAC pair; only if it passes is the payload dissected, and
/// only on a dissected payload is the network-layer filter applied.
pub open spec fn spec_handle_frame(s: Seq<u8>, mf: MacFilterSet, ipf: IpFilterSet) -> FrameOutcome {
    if s.len() < 14 {
        FrameOutcome::EthernetInvalid
    } else if !mf.spec_passes(eth_source(s), eth_destination(s)) {
        FrameOutcome::MacSuppressed
    } else {
        match spec_classify(s.subrange(14, s.len() as int)) {
            Err(e) => FrameOutcome::DissectFailed(e),
            Ok(pair) => if !ipf.spec_passes(pair.0, pair.1) {
                FrameOutcome::IpSuppressed
            } else {
                FrameOutcome::Deliver(pair.0, pair.1)
            },
        }
    }
}

/// Relies on pnet's `EthernetPacket`: `new` succeeds exactly on buffers that
/// hold the fixed 14-byte Ethernet header, `get_destination` returns the MAC
/// in bytes 0..6 and `get_source` the MAC in bytes 6..12 of the frame.
#[verifier::external_body]
fn parse_ethernet(buf: &[u8]) -> (r: Option<(Vec<u8>, Vec<u8>)>)
    ensures
        r is Some <==> buf@.len() >= 14,
        r matches Some(p) ==> p.0@ == buf@.subrange(0, 6) && p.1@ == buf@.subrange(6, 12),
{
    match pnet::packet::ethernet::EthernetPacket::new(buf) {
        Some(p) => {
            let d = p.get_destination();
            let s = p.get_source();
            Some((vec![d.0, d.1, d.2, d.3, d.4, d.5], vec![s.0, s.1, s.2, s.3, s.4, s.5]))
        },
        None => None,
    }
}

/// Processes one raw frame against the two configured filters and says what
/// the capture loop should do with it. Pure but for reading `buf`.
pub fn handle_frame(buf: &[u8], mf: &MacFilterSet, ipf: &IpFilterSet) -> (r: FrameOutcome)
    ensures
        r == spec_handle_frame(buf@, *mf, *ipf),
{
    let parsed = parse_ethernet(buf);
    match parsed {
        None => FrameOutcome::EthernetInvalid,
        Some(macs) => {
            let dst = MacAddress { val: read_be48(macs.0.as_slice(), 0) };
            let src = MacAddress { val: read_be48(macs.1.as_slice(), 0) };
            proof {
                assert(dst == eth_destination(buf@));
                assert(src == eth_source(buf@));
            }
            if !mf.passes(&src, &dst) {
                FrameOutcome::MacSuppressed
            } else {
                let payload = vstd::slice::slice_subrange(buf, 14, buf.len());
                match classify(payload) {
                    Err(e) => FrameOutcome::DissectFailed(e),
                    Ok(l3) => {
                        let ip_src = l3.source();
                        let ip_dst = l3.destination();
                        if !ipf.passes(&ip_src, &ip_dst) {
                            FrameOutcome::IpSuppressed
                        } else {
                            FrameOutcome::Deliver(ip_src, ip_dst)
                        }
                    },
                }
            }
        },
    }
}

/// One record of the raw debug dump: the frame's bytes followed by the fixed
/// 3-byte `@@@` delimiter.
pub open spec fn spec_debug_record(s: Seq<u8>) -> Seq<u8> {
    s + seq![0x40u8, 0x40u8, 0x40u8]
}

/// Builds the bytes the debug dump appends for one raw frame: the frame
/// itself, then the 3-byte `@@@` delimiter.
pub fn debug_record(buf: &[u8]) -> (r: Vec<u8>)
    ensures
        r@ == spec_debug_record(buf@),
{
    let mut out: Vec<u8> = Vec::new();
    let mut i: usize = 0;
    while i < buf.len()
        invariant
            i <= buf@.len(),
            out@ == buf@.subrange(0, i as int),
        decreases buf@.len() - i,
    {
        out.push(buf[i]);
        assert(out@ =~= buf@.subrange(0, i + 1));
        i += 1;
    }
    out.push(0x40);
    out.push(0x40);
    out.push(0x40);
    proof {
        assert(buf@.subrange(0, buf@.len() as int) =~= buf@);
        assert(out@ =~= spec_debug_record(buf@));
    }
    out
}

/// When the link-layer filter suppresses a frame, nothing past the Ethernet
/// header matters: any two long-enough frames with the same first 14 bytes
/// are both suppressed at the MAC layer, however malformed their payloads,
/// so the network layer is never dissected for them.
pub proof fn lemma_mac_suppression_short_circuits(
    s1: Seq<u8>,
    s2: Seq<u8>,
    mf: MacFilterSet,
    ipf: IpFilterSet,
)
    requires
        s1.len() >= 14,
        s2.len() >= 14,
        s1.subrange(0, 14) == s2.subrange(0, 14),
        !mf.spec_passes(eth_source(s1), eth_destination(s1)),
    ensures
        spec_handle_frame(s1, mf, ipf) == FrameOutcome::MacSuppressed,
        spec_handle_frame(s2, mf, ipf) == FrameOutcome::MacSuppressed,
{
    assert forall|k: int| 0 <= k < 14 implies s1[k] == s2[k] by {
        assert(s1.subrange(0, 14)[k] == s1[k]);
        assert(s2.subrange(0, 14)[k] == s2[k]);
    }
    assert(eth_source(s2) == eth_source(s1));
    assert(eth_destination(s2) == eth_destination(s1));
}

} // verus!
