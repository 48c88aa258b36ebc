use vstd::prelude::*;
use vstd::utf8::encode_utf8;

use super::address::{
    lemma_network_address_round_trip, parse_network_address, serialize_network_address,
    wf_network_address, NetworkAddress, SpecNetworkAddress,
};
use super::{length_error, TlvDecodeError};
use crate::wire::{
    copy_range, decode_text, lemma_text_round_trip, push_bytes, read_array, text_bytes, text_of,
};
use crate::MacAddress;

verus! {

/// The subtype byte of a port id.
#[derive(Clone, Copy, PartialEq, Eq, Structural, Hash, Debug)]
pub enum PortIdKind {
    IfAlias,
    Port,
    LlAddr,
    Addr,
    IfName,
    AgentCid,
    Local,
}

pub open spec fn port_id_kind_code(k: PortIdKind) -> u8 {
    match k {
        PortIdKind::IfAlias => 1,
        PortIdKind::Port => 2,
        PortIdKind::LlAddr => 3,
        PortIdKind::Addr => 4,
        PortIdKind::IfName => 5,
        PortIdKind::AgentCid => 6,
        PortIdKind::Local => 7,
    }
}

impl PortIdKind {
    /// The kind with wire code `b`, or `b` itself where no kind has it.
    pub fn try_from_code(b: u8) -> (r: Result<Self, u8>)
        ensures
            1 <= b <= 7 <==> r is Ok,
            r matches Ok(k) ==> port_id_kind_code(k) == b,
            r matches Err(x) ==> x == b,
    {
        match b {
            1 => Ok(Self::IfAlias),
            2 => Ok(Self::Port),
            3 => Ok(Self::LlAddr),
            4 => Ok(Self::Addr),
            5 => Ok(Self::IfName),
            6 => Ok(Self::AgentCid),
            7 => Ok(Self::Local),
            x => Err(x),
        }
    }

    pub fn code(&self) -> (r: u8)
        ensures
            r == port_id_kind_code(*self),
    {
        match self {
            Self::IfAlias => 1,
            Self::Port => 2,
            Self::LlAddr => 3,
            Self::Addr => 4,
            Self::IfName => 5,
            Self::AgentCid => 6,
            Self::Local => 7,
        }
    }
}

/// What identifies the sending port, in the form its subtype selects.
#[derive(Clone, PartialEq, Eq, Hash, Debug)]
pub enum PortId {
    InterfaceAlias(String),
    PortComponent(String),
    MacAddress(MacAddress),
    NetworkAddress(NetworkAddress),
    InterfaceName(String),
    AgentCircuitId(Vec<u8>),
    Local(String),
}

pub enum SpecPortId {
    InterfaceAlias(Seq<char>),
    PortComponent(Seq<char>),
    MacAddress(Seq<u8>),
    NetworkAddress(SpecNetworkAddress),
    InterfaceName(Seq<char>),
    AgentCircuitId(Seq<u8>),
    Local(Seq<char>),
}

impl View for PortId {
    type V = SpecPortId;

    open spec fn view(&self) -> SpecPortId {
        match self {
            PortId::InterfaceAlias(s) => SpecPortId::InterfaceAlias(s@),
            PortId::PortComponent(s) => SpecPortId::PortComponent(s@),
            PortId::MacAddress(m) => SpecPortId::MacAddress(m@),
            PortId::NetworkAddress(a) => SpecPortId::NetworkAddress(a@),
            PortId::InterfaceName(s) => SpecPortId::InterfaceName(s@),
            PortId::AgentCircuitId(b) => SpecPortId::AgentCircuitId(b@),
            PortId::Local(s) => SpecPortId::Local(s@),
        }
    }
}

pub open spec fn spec_port_id_kind(p: SpecPortId) -> PortIdKind {
    match p {
        SpecPortId::InterfaceAlias(_) => PortIdKind::IfAlias,
        SpecPortId::PortComponent(_) => PortIdKind::Port,
        SpecPortId::MacAddress(_) => PortIdKind::LlAddr,
        SpecPortId::NetworkAddress(_) => PortIdKind::Addr,
        SpecPortId::InterfaceName(_) => PortIdKind::IfName,
        SpecPortId::AgentCircuitId(_) => PortIdKind::AgentCid,
        SpecPortId::Local(_) => PortIdKind::Local,
    }
}

/// Wire form `[subtype][id]`; text and circuit ids take the rest of the
/// payload, a MAC address exactly six bytes.
pub open spec fn parse_port_id(b: Seq<u8>) -> Result<SpecPortId, TlvDecodeError> {
    if b.len() == 0 {
        Err(TlvDecodeError::BufferTooShort)
    } else {
        let rest = b.skip(1);
        if b[0] == 1 {
            Ok(SpecPortId::InterfaceAlias(text_of(rest)))
        } else if b[0] == 2 {
            Ok(SpecPortId::PortComponent(text_of(rest)))
        } else if b[0] == 3 {
            if rest.len() == 6 {
                Ok(SpecPortId::MacAddress(rest))
            } else {
                Err(length_error(rest.len() as int, 6))
            }
        } else if b[0] == 4 {
            match parse_network_address(rest) {
                Ok(a) => Ok(SpecPortId::NetworkAddress(a)),
                Err(e) => Err(e),
            }
        } else if b[0] == 5 {
            Ok(SpecPortId::InterfaceName(text_of(rest)))
        } else if b[0] == 6 {
            Ok(SpecPortId::AgentCircuitId(rest))
        } else if b[0] == 7 {
            Ok(SpecPortId::Local(text_of(rest)))
        } else {
            Err(TlvDecodeError::UnknownPortIdSubtype(b[0]))
        }
    }
}

pub open spec fn serialize_port_id(p: SpecPortId) -> Seq<u8> {
    seq![port_id_kind_code(spec_port_id_kind(p))] + match p {
        SpecPortId::InterfaceAlias(s) => encode_utf8(s),
        SpecPortId::PortComponent(s) => encode_utf8(s),
        SpecPortId::MacAddress(m) => m,
        SpecPortId::NetworkAddress(a) => serialize_network_address(a),
        SpecPortId::InterfaceName(s) => encode_utf8(s),
        SpecPortId::AgentCircuitId(b) => b,
        SpecPortId::Local(s) => encode_utf8(s),
    }
}

/// The port ids that encode to a form that decodes back to them, and that
/// fit in one element (at most 511 bytes).
pub open spec fn wf_port_id(p: SpecPortId) -> bool {
    &&& serialize_port_id(p).len() <= 511
    &&& match p {
        SpecPortId::MacAddress(m) => m.len() == 6,
        SpecPortId::NetworkAddress(a) => wf_network_address(a),
        _ => true,
    }
}

pub proof fn lemma_port_id_round_trip(p: SpecPortId)
    requires
        wf_port_id(p),
    ensures
        parse_port_id(serialize_port_id(p)) == Ok::<_, TlvDecodeError>(p),
{
    let b = serialize_port_id(p);
    match p {
        SpecPortId::InterfaceAlias(s) => {
            assert(b.skip(1) =~= encode_utf8(s));
            lemma_text_round_trip(s);
        },
        SpecPortId::PortComponent(s) => {
            assert(b.skip(1) =~= encode_utf8(s));
            lemma_text_round_trip(s);
        },
        SpecPortId::MacAddress(m) => {
            assert(b.skip(1) =~= m);
        },
        SpecPortId::NetworkAddress(a) => {
            assert(b.skip(1) =~= serialize_network_address(a));
            lemma_network_address_round_trip(a);
        },
        SpecPortId::InterfaceName(s) => {
            assert(b.skip(1) =~= encode_utf8(s));
            lemma_text_round_trip(s);
        },
        SpecPortId::AgentCircuitId(c) => {
            assert(b.skip(1) =~= c);
        },
        SpecPortId::Local(s) => {
            assert(b.skip(1) =~= encode_utf8(s));
            lemma_text_round_trip(s);
        },
    }
}

impl PortId {
    pub fn kind(&self) -> (r: PortIdKind)
        ensures
            r == spec_port_id_kind(self@),
    {
        match self {
            Self::InterfaceAlias(_) => PortIdKind::IfAlias,
            Self::PortComponent(_) => PortIdKind::Port,
            Self::MacAddress(_) => PortIdKind::LlAddr,
            Self::NetworkAddress(_) => PortIdKind::Addr,
            Self::InterfaceName(_) => PortIdKind::IfName,
            Self::AgentCircuitId(_) => PortIdKind::AgentCid,
            Self::Local(_) => PortIdKind::Local,
        }
    }

    /// The value with no borrowed parts; every part of it is owned already.
    pub fn to_static(self) -> (r: Self)
        ensures
            r == self,
    {
        self
    }

    /// An owned copy.
    pub fn copy(&self) -> (r: Self)
        ensures
            r@ == self@,
    {
        match self {
            Self::InterfaceAlias(x) => Self::InterfaceAlias(x.clone()),
            Self::PortComponent(x) => Self::PortComponent(x.clone()),
            Self::MacAddress(x) => Self::MacAddress(*x),
            Self::NetworkAddress(x) => Self::NetworkAddress(x.copy()),
            Self::InterfaceName(x) => Self::InterfaceName(x.clone()),
            Self::AgentCircuitId(x) => {
                let c = copy_range(x.as_slice(), 0, x.len());
                assert(c@ =~= x@);
                Self::AgentCircuitId(c)
            },
            Self::Local(x) => Self::Local(x.clone()),
        }
    }

    pub fn decode(buf: &[u8]) -> (r: Result<Self, TlvDecodeError>)
        ensures
            crate::wire::decodes_as(r, parse_port_id(buf@)),
    {
        if buf.len() == 0 {
            return Err(TlvDecodeError::BufferTooShort);
        }
        let subtype = match PortIdKind::try_from_code(buf[0]) {
            Ok(k) => k,
            Err(x) => return Err(TlvDecodeError::UnknownPortIdSubtype(x)),
        };
        let rest = vstd::slice::slice_subrange(buf, 1, buf.len());
        assert(rest@ =~= buf@.skip(1));
        match subtype {
            PortIdKind::IfName => Ok(PortId::InterfaceName(decode_text(rest))),
            PortIdKind::IfAlias => Ok(PortId::InterfaceAlias(decode_text(rest))),
            PortIdKind::Port => Ok(PortId::PortComponent(decode_text(rest))),
            PortIdKind::Local => Ok(PortId::Local(decode_text(rest))),
            PortIdKind::AgentCid => {
                let c = copy_range(rest, 0, rest.len());
                assert(c@ =~= rest@);
                Ok(PortId::AgentCircuitId(c))
            },
            PortIdKind::Addr => match NetworkAddress::decode(rest) {
                Ok(a) => Ok(PortId::NetworkAddress(a)),
                Err(e) => Err(e),
            },
            PortIdKind::LlAddr => {
                if rest.len() < 6 {
                    Err(TlvDecodeError::BufferTooShort)
                } else if rest.len() > 6 {
                    Err(TlvDecodeError::BufferTooLong)
                } else {
                    let mac: [u8; 6] = read_array(rest, 0);
                    assert(mac@ =~= rest@);
                    Ok(PortId::MacAddress(MacAddress(mac)))
                }
            },
        }
    }

    pub fn encoded_size(&self) -> (r: usize)
        requires
            wf_port_id(self@),
        ensures
            r == serialize_port_id(self@).len(),
    {
        let size = match self {
            Self::InterfaceAlias(x) => text_bytes(x).len(),
            Self::PortComponent(x) => text_bytes(x).len(),
            Self::InterfaceName(x) => text_bytes(x).len(),
            Self::Local(x) => text_bytes(x).len(),
            Self::MacAddress(_) => 6,
            Self::NetworkAddress(x) => x.encoded_size(),
            Self::AgentCircuitId(x) => x.len(),
        };
        size + 1
    }

    pub fn encode(&self, buf: &mut Vec<u8>)
        ensures
            final(buf)@ == old(buf)@ + serialize_port_id(self@),
    {
        let ghost start = buf@;
        buf.push(self.kind().code());
        match self {
            Self::InterfaceAlias(x) => push_bytes(buf, text_bytes(x)),
            Self::PortComponent(x) => push_bytes(buf, text_bytes(x)),
            Self::InterfaceName(x) => push_bytes(buf, text_bytes(x)),
            Self::Local(x) => push_bytes(buf, text_bytes(x)),
            Self::MacAddress(mac) => push_bytes(buf, mac.0.as_slice()),
            Self::NetworkAddress(x) => x.encode(buf),
            Self::AgentCircuitId(x) => push_bytes(buf, x.as_slice()),
        }
        assert(buf@ =~= start + serialize_port_id(self@));
    }
}

} // verus!
