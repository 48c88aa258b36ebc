use vstd::prelude::*;
use vstd::utf8::encode_utf8;

use super::address::{
    lemma_network_address_round_trip, parse_network_address, serialize_network_address,
    wf_network_address, NetworkAddress, SpecNetworkAddress,
};
use super::{length_error, TlvDecodeError};
use crate::wire::{decode_text, lemma_text_round_trip, push_bytes, read_array, text_bytes, text_of};
use crate::MacAddress;

verus! {

/// The subtype byte of a chassis id.
#[derive(Clone, Copy, PartialEq, Eq, Structural, Hash, Debug)]
pub enum ChassisIdKind {
    Chassis,
    IfAlias,
    Port,
    LlAddr,
    Addr,
    IfName,
    Local,
}

pub open spec fn chassis_id_kind_code(k: ChassisIdKind) -> u8 {
    match k {
        ChassisIdKind::Chassis => 1,
        ChassisIdKind::IfAlias => 2,
        ChassisIdKind::Port => 3,
        ChassisIdKind::LlAddr => 4,
        ChassisIdKind::Addr => 5,
        ChassisIdKind::IfName => 6,
        ChassisIdKind::Local => 7,
    }
}

impl ChassisIdKind {
    /// The kind with wire code `b`, or `b` itself where no kind has it.
    pub fn try_from_code(b: u8) -> (r: Result<Self, u8>)
        ensures
            1 <= b <= 7 <==> r is Ok,
            r matches Ok(k) ==> chassis_id_kind_code(k) == b,
            r matches Err(x) ==> x == b,
    {
        match b {
            1 => Ok(Self::Chassis),
            2 => Ok(Self::IfAlias),
            3 => Ok(Self::Port),
            4 => Ok(Self::LlAddr),
            5 => Ok(Self::Addr),
            6 => Ok(Self::IfName),
            7 => Ok(Self::Local),
            x => Err(x),
        }
    }

    pub fn code(&self) -> (r: u8)
        ensures
            r == chassis_id_kind_code(*self),
    {
        match self {
            Self::Chassis => 1,
            Self::IfAlias => 2,
            Self::Port => 3,
            Self::LlAddr => 4,
            Self::Addr => 5,
            Self::IfName => 6,
            Self::Local => 7,
        }
    }
}

/// What identifies the sending chassis, in the form its subtype selects.
#[derive(Clone, PartialEq, Eq, Hash, Debug)]
pub enum ChassisId {
    Chassis(String),
    InterfaceAlias(String),
    PortComponent(String),
    MacAddress(MacAddress),
    NetworkAddress(NetworkAddress),
    InterfaceName(String),
    Local(String),
}

pub enum SpecChassisId {
    Chassis(Seq<char>),
    InterfaceAlias(Seq<char>),
    PortComponent(Seq<char>),
    MacAddress(Seq<u8>),
    NetworkAddress(SpecNetworkAddress),
    InterfaceName(Seq<char>),
    Local(Seq<char>),
}

impl View for ChassisId {
    type V = SpecChassisId;

    open spec fn view(&self) -> SpecChassisId {
        match self {
            ChassisId::Chassis(s) => SpecChassisId::Chassis(s@),
            ChassisId::InterfaceAlias(s) => SpecChassisId::InterfaceAlias(s@),
            ChassisId::PortComponent(s) => SpecChassisId::PortComponent(s@),
            ChassisId::MacAddress(m) => SpecChassisId::MacAddress(m@),
            ChassisId::NetworkAddress(a) => SpecChassisId::NetworkAddress(a@),
            ChassisId::InterfaceName(s) => SpecChassisId::InterfaceName(s@),
            ChassisId::Local(s) => SpecChassisId::Local(s@),
        }
    }
}

pub open spec fn spec_chassis_id_kind(c: SpecChassisId) -> ChassisIdKind {
    match c {
        SpecChassisId::Chassis(_) => ChassisIdKind::Chassis,
        SpecChassisId::InterfaceAlias(_) => ChassisIdKind::IfAlias,
        SpecChassisId::PortComponent(_) => ChassisIdKind::Port,
        SpecChassisId::MacAddress(_) => ChassisIdKind::LlAddr,
        SpecChassisId::NetworkAddress(_) => ChassisIdKind::Addr,
        SpecChassisId::InterfaceName(_) => ChassisIdKind::IfName,
        SpecChassisId::Local(_) => ChassisIdKind::Local,
    }
}

/// Wire form `[subtype][id]`; text ids take the rest of the payload, a MAC
/// address exactly six bytes.
pub open spec fn parse_chassis_id(b: Seq<u8>) -> Result<SpecChassisId, TlvDecodeError> {
    if b.len() == 0 {
        Err(TlvDecodeError::BufferTooShort)
    } else {
        let rest = b.skip(1);
        if b[0] == 1 {
            Ok(SpecChassisId::Chassis(text_of(rest)))
        } else if b[0] == 2 {
            Ok(SpecChassisId::InterfaceAlias(text_of(rest)))
        } else if b[0] == 3 {
            Ok(SpecChassisId::PortComponent(text_of(rest)))
        } else if b[0] == 4 {
            if rest.len() == 6 {
                Ok(SpecChassisId::MacAddress(rest))
            } else {
                Err(length_error(rest.len() as int, 6))
            }
        } else if b[0] == 5 {
            match parse_network_address(rest) {
                Ok(a) => Ok(SpecChassisId::NetworkAddress(a)),
                Err(e) => Err(e),
            }
        } else if b[0] == 6 {
            Ok(SpecChassisId::InterfaceName(text_of(rest)))
        } else if b[0] == 7 {
            Ok(SpecChassisId::Local(text_of(rest)))
        } else {
            Err(TlvDecodeError::UnknownChassisIdSubtype(b[0]))
        }
    }
}

pub open spec fn serialize_chassis_id(c: SpecChassisId) -> Seq<u8> {
    seq![chassis_id_kind_code(spec_chassis_id_kind(c))] + match c {
        SpecChassisId::Chassis(s) => encode_utf8(s),
        SpecChassisId::InterfaceAlias(s) => encode_utf8(s),
        SpecChassisId::PortComponent(s) => encode_utf8(s),
        SpecChassisId::MacAddress(m) => m,
        SpecChassisId::NetworkAddress(a) => serialize_network_address(a),
        SpecChassisId::InterfaceName(s) => encode_utf8(s),
        SpecChassisId::Local(s) => encode_utf8(s),
    }
}

/// The chassis ids that encode to a form that decodes back to them, and
/// that fit in one element (at most 511 bytes).
pub open spec fn wf_chassis_id(c: SpecChassisId) -> bool {
    &&& serialize_chassis_id(c).len() <= 511
    &&& match c {
        SpecChassisId::MacAddress(m) => m.len() == 6,
        SpecChassisId::NetworkAddress(a) => wf_network_address(a),
        _ => true,
    }
}

pub proof fn lemma_chassis_id_round_trip(c: SpecChassisId)
    requires
        wf_chassis_id(c),
    ensures
        parse_chassis_id(serialize_chassis_id(c)) == Ok::<_, TlvDecodeError>(c),
{
    let b = serialize_chassis_id(c);
    match c {
        SpecChassisId::Chassis(s) => {
            assert(b.skip(1) =~= encode_utf8(s));
            lemma_text_round_trip(s);
        },
        SpecChassisId::InterfaceAlias(s) => {
            assert(b.skip(1) =~= encode_utf8(s));
            lemma_text_round_trip(s);
        },
        SpecChassisId::PortComponent(s) => {
            assert(b.skip(1) =~= encode_utf8(s));
            lemma_text_round_trip(s);
        },
        SpecChassisId::MacAddress(m) => {
            assert(b.skip(1) =~= m);
        },
        SpecChassisId::NetworkAddress(a) => {
            assert(b.skip(1) =~= serialize_network_address(a));
            lemma_network_address_round_trip(a);
        },
        SpecChassisId::InterfaceName(s) => {
            assert(b.skip(1) =~= encode_utf8(s));
            lemma_text_round_trip(s);
        },
        SpecChassisId::Local(s) => {
            assert(b.skip(1) =~= encode_utf8(s));
            lemma_text_round_trip(s);
        },
    }
}

impl ChassisId {
    pub fn kind(&self) -> (r: ChassisIdKind)
        ensures
            r == spec_chassis_id_kind(self@),
    {
        match self {
            Self::Chassis(_) => ChassisIdKind::Chassis,
            Self::InterfaceAlias(_) => ChassisIdKind::IfAlias,
            Self::PortComponent(_) => ChassisIdKind::Port,
            Self::MacAddress(_) => ChassisIdKind::LlAddr,
            Self::NetworkAddress(_) => ChassisIdKind::Addr,
            Self::InterfaceName(_) => ChassisIdKind::IfName,
            Self::Local(_) => ChassisIdKind::Local,
        }
    }

    /// The value with no borrowed parts; every part of it is owned already.
    pub fn to_static(self) -> (r: Self)
        ensures
            r == self,
    {
        self
    }

    /// An owned copy.
    pub fn copy(&self) -> (r: Self)
        ensures
            r@ == self@,
    {
        match self {
            Self::Chassis(x) => Self::Chassis(x.clone()),
            Self::InterfaceAlias(x) => Self::InterfaceAlias(x.clone()),
            Self::PortComponent(x) => Self::PortComponent(x.clone()),
            Self::MacAddress(x) => Self::MacAddress(*x),
            Self::NetworkAddress(x) => Self::NetworkAddress(x.copy()),
            Self::InterfaceName(x) => Self::InterfaceName(x.clone()),
            Self::Local(x) => Self::Local(x.clone()),
        }
    }

    pub fn decode(buf: &[u8]) -> (r: Result<Self, TlvDecodeError>)
        ensures
            crate::wire::decodes_as(r, parse_chassis_id(buf@)),
    {
        if buf.len() == 0 {
            return Err(TlvDecodeError::BufferTooShort);
        }
        let subtype = match ChassisIdKind::try_from_code(buf[0]) {
            Ok(k) => k,
            Err(x) => return Err(TlvDecodeError::UnknownChassisIdSubtype(x)),
        };
        let rest = vstd::slice::slice_subrange(buf, 1, buf.len());
        assert(rest@ =~= buf@.skip(1));
        match subtype {
            ChassisIdKind::Chassis => Ok(ChassisId::Chassis(decode_text(rest))),
            ChassisIdKind::IfAlias => Ok(ChassisId::InterfaceAlias(decode_text(rest))),
            ChassisIdKind::Port => Ok(ChassisId::PortComponent(decode_text(rest))),
            ChassisIdKind::IfName => Ok(ChassisId::InterfaceName(decode_text(rest))),
            ChassisIdKind::Local => Ok(ChassisId::Local(decode_text(rest))),
            ChassisIdKind::Addr => match NetworkAddress::decode(rest) {
                Ok(a) => Ok(ChassisId::NetworkAddress(a)),
                Err(e) => Err(e),
            },
            ChassisIdKind::LlAddr => {
                if rest.len() < 6 {
                    Err(TlvDecodeError::BufferTooShort)
                } else if rest.len() > 6 {
                    Err(TlvDecodeError::BufferTooLong)
                } else {
                    let mac: [u8; 6] = read_array(rest, 0);
                    assert(mac@ =~= rest@);
                    Ok(ChassisId::MacAddress(MacAddress(mac)))
                }
            },
        }
    }

    pub fn encoded_size(&self) -> (r: usize)
        requires
            wf_chassis_id(self@),
        ensures
            r == serialize_chassis_id(self@).len(),
    {
        let size = match self {
            Self::Chassis(x) => text_bytes(x).len(),
            Self::InterfaceAlias(x) => text_bytes(x).len(),
            Self::PortComponent(x) => text_bytes(x).len(),
            Self::InterfaceName(x) => text_bytes(x).len(),
            Self::Local(x) => text_bytes(x).len(),
            Self::MacAddress(_) => 6,
            Self::NetworkAddress(x) => x.encoded_size(),
        };
        size + 1
    }

    pub fn encode(&self, buf: &mut Vec<u8>)
        ensures
            final(buf)@ == old(buf)@ + serialize_chassis_id(self@),
    {
        let ghost start = buf@;
        buf.push(self.kind().code());
        match self {
            Self::Chassis(x) => push_bytes(buf, text_bytes(x)),
            Self::InterfaceAlias(x) => push_bytes(buf, text_bytes(x)),
            Self::PortComponent(x) => push_bytes(buf, text_bytes(x)),
            Self::InterfaceName(x) => push_bytes(buf, text_bytes(x)),
            Self::Local(x) => push_bytes(buf, text_bytes(x)),
            Self::MacAddress(mac) => push_bytes(buf, mac.0.as_slice()),
            Self::NetworkAddress(x) => x.encode(buf),
        }
        assert(buf@ =~= start + serialize_chassis_id(self@));
    }
}

} // verus!
