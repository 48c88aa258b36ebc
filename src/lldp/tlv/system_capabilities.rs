use vstd::prelude::*;

use super::{length_error, TlvDecodeError};
use crate::wire::{be16, be16_bytes, lemma_be16_round_trip, push_be16, read_be16};

verus! {

/// A set of system roles, one bit each. Bits with no name are kept as they
/// came.
#[derive(Clone, Copy, PartialEq, Eq, Structural, Hash, Debug)]
pub struct CapabilityFlags {
    pub bits: u16,
}

impl CapabilityFlags {
    pub const OTHER: u16 = 0x0001;
    pub const REPEATER: u16 = 0x0002;
    pub const BRIDGE: u16 = 0x0004;
    pub const WLAN_ACCESS_POINT: u16 = 0x0008;
    pub const ROUTER: u16 = 0x0010;
    pub const TELEPHONE: u16 = 0x0020;
    pub const DOCSIS: u16 = 0x0040;
    pub const STATION: u16 = 0x0080;
    pub const C_VLAN: u16 = 0x0100;
    pub const S_VLAN: u16 = 0x0200;
    pub const TWO_PORT_MAC_RELAY: u16 = 0x0400;

    pub fn from_bits_retain(bits: u16) -> (r: Self)
        ensures
            r.bits == bits,
    {
        CapabilityFlags { bits }
    }

    pub fn bits(&self) -> (r: u16)
        ensures
            r == self.bits,
    {
        self.bits
    }

    /// Whether every bit of `other` is set here.
    pub fn contains(&self, other: u16) -> (r: bool)
        ensures
            r == (self.bits & other == other),
    {
        self.bits & other == other
    }
}

/// The roles a system supports and the roles it has enabled; neither is
/// required to be a subset of the other.
#[derive(Clone, Copy, PartialEq, Eq, Structural, Hash, Debug)]
pub struct Capabilities {
    pub capabilities: CapabilityFlags,
    pub enabled_capabilities: CapabilityFlags,
}

impl View for Capabilities {
    type V = Capabilities;

    open spec fn view(&self) -> Capabilities {
        *self
    }
}

/// Wire form: the two 16-bit sets, big-endian, exactly four bytes.
pub open spec fn parse_capabilities(b: Seq<u8>) -> Result<Capabilities, TlvDecodeError> {
    if b.len() == 4 {
        Ok(
            Capabilities {
                capabilities: CapabilityFlags { bits: be16(b[0], b[1]) },
                enabled_capabilities: CapabilityFlags { bits: be16(b[2], b[3]) },
            },
        )
    } else {
        Err(length_error(b.len() as int, 4))
    }
}

pub open spec fn serialize_capabilities(c: Capabilities) -> Seq<u8> {
    be16_bytes(c.capabilities.bits) + be16_bytes(c.enabled_capabilities.bits)
}

pub proof fn lemma_capabilities_round_trip(c: Capabilities)
    ensures
        parse_capabilities(serialize_capabilities(c)) == Ok::<_, TlvDecodeError>(c),
{
    lemma_be16_round_trip(c.capabilities.bits);
    lemma_be16_round_trip(c.enabled_capabilities.bits);
}

impl Capabilities {
    pub fn decode(buf: &[u8]) -> (r: Result<Self, TlvDecodeError>)
        ensures
            crate::wire::decodes_as(r, parse_capabilities(buf@)),
    {
        if buf.len() > 4 {
            Err(TlvDecodeError::BufferTooLong)
        } else if buf.len() < 4 {
            Err(TlvDecodeError::BufferTooShort)
        } else {
            let capabilities = CapabilityFlags::from_bits_retain(read_be16(buf, 0));
            let enabled_capabilities = CapabilityFlags::from_bits_retain(read_be16(buf, 2));
            Ok(Capabilities { capabilities, enabled_capabilities })
        }
    }

    pub fn encoded_size(&self) -> (r: usize)
        ensures
            r == serialize_capabilities(*self).len(),
    {
        4
    }

    pub fn encode(&self, buf: &mut Vec<u8>)
        ensures
            final(buf)@ == old(buf)@ + serialize_capabilities(*self),
    {
        let ghost start = buf@;
        push_be16(buf, self.capabilities.bits());
        push_be16(buf, self.enabled_capabilities.bits());
        assert(buf@ =~= start + serialize_capabilities(*self));
    }
}

} // verus!
