//! Decoding and encoding of LLDP (IEEE 802.1AB) and Cisco CDP neighbor
//! discovery messages, and a table of live neighbors with soft-state expiry.
use vstd::prelude::*;

pub mod cdp;
pub mod common;
pub mod lldp;
pub mod neighbor;
pub mod wire;

verus! {

/// A 48-bit Ethernet hardware address.
#[derive(Clone, Copy, PartialEq, Eq, Hash, Debug)]
pub struct MacAddress(pub [u8; 6]);

impl View for MacAddress {
    type V = Seq<u8>;

    open spec fn view(&self) -> Seq<u8> {
        self.0@
    }
}

/// The ethertype that marks an LLDP frame.
pub const LLDP_TYPE: u16 = 0x88cc;

/// The length of the LLC/SNAP header in front of a CDP message.
pub const CDP_SNAP_LEN: usize = 8;

/// The multicast address that CDP frames are sent to.
pub open spec fn cdp_multicast() -> Seq<u8> {
    seq![0x01u8, 0x00u8, 0x0cu8, 0xccu8, 0xccu8, 0xccu8]
}

/// The leading fields of an Ethernet frame.
#[derive(Clone, Copy, Debug)]
pub struct MacHeader {
    pub destination_mac: MacAddress,
    pub source_mac: MacAddress,
    pub ether_type: u16,
}

/// Where a captured frame's discovery message starts.
#[derive(Clone, Copy, PartialEq, Eq, Structural, Debug)]
pub enum FramePayload {
    /// An LLDP payload from this offset on.
    Lldp(usize),
    /// A CDP message (LLC/SNAP stripped) from this offset on.
    Cdp(usize),
}

/// An LLDP frame carries ethertype 0x88cc after the two addresses; a CDP
/// frame goes to the CDP multicast address with an LLC/SNAP header in
/// front of the message. Anything else carries no discovery message.
pub open spec fn spec_classify(f: Seq<u8>) -> Option<FramePayload> {
    if f.len() < 14 {
        None
    } else if crate::wire::be16(f[12], f[13]) == LLDP_TYPE {
        Some(FramePayload::Lldp(14))
    } else if f.subrange(0, 6) == cdp_multicast() && f.len() >= 14 + CDP_SNAP_LEN {
        Some(FramePayload::Cdp((14 + CDP_SNAP_LEN) as usize))
    } else {
        None
    }
}

impl MacHeader {
    pub fn decode(frame: &[u8]) -> (r: Option<Self>)
        ensures
            frame@.len() >= 14 <==> r is Some,
            r matches Some(h) ==> h.destination_mac@ == frame@.subrange(0, 6)
                && h.source_mac@ == frame@.subrange(6, 12) && h.ether_type == crate::wire::be16(
                frame@[12],
                frame@[13],
            ),
    {
        if frame.len() < 14 {
            return None;
        }
        Some(
            MacHeader {
                destination_mac: MacAddress(crate::wire::read_array(frame, 0)),
                source_mac: MacAddress(crate::wire::read_array(frame, 6)),
                ether_type: crate::wire::read_be16(frame, 12),
            },
        )
    }
}

/// The source address of a frame and where its discovery message starts.
pub fn classify_frame(frame: &[u8]) -> (r: Option<(MacAddress, FramePayload)>)
    ensures
        match spec_classify(frame@) {
            Some(p) => r matches Some((m, q)) && q == p && m@ == frame@.subrange(6, 12),
            None => r is None,
        },
{
    let header = match MacHeader::decode(frame) {
        Some(h) => h,
        None => return None,
    };
    if header.ether_type == LLDP_TYPE {
        return Some((header.source_mac, FramePayload::Lldp(14)));
    }
    let d = header.destination_mac.0;
    let to_cdp = d[0] == 0x01 && d[1] == 0x00 && d[2] == 0x0c && d[3] == 0xcc && d[4] == 0xcc
        && d[5] == 0xcc;
    assert(to_cdp <==> d@ =~= cdp_multicast());
    if to_cdp && frame.len() >= 14 + CDP_SNAP_LEN {
        Some((header.source_mac, FramePayload::Cdp(14 + CDP_SNAP_LEN)))
    } else {
        None
    }
}

} // verus!
