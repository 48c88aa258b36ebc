//! IEEE 802.1 (VLAN) organizationally specific elements.
use vstd::prelude::*;
use vstd::utf8::encode_utf8;

use crate::lldp::tlv::{length_error, TlvDecodeError};
use crate::wire::{
    be16, be16_bytes, decode_text, lemma_be16_round_trip, lemma_text_round_trip, push_be16,
    push_bytes, read_be16, text_bytes, text_of,
};

verus! {

/// The subtypes of the 802.1 organization.
#[derive(Clone, Copy, PartialEq, Eq, Structural, Hash, Debug)]
pub enum TlvKind {
    PortVlanId,
    PortAndProtocolVlanId,
    VlanName,
    ProtocolIdentity,
}

pub open spec fn tlv_kind_code(k: TlvKind) -> u8 {
    match k {
        TlvKind::PortVlanId => 1,
        TlvKind::PortAndProtocolVlanId => 2,
        TlvKind::VlanName => 3,
        TlvKind::ProtocolIdentity => 4,
    }
}

impl TlvKind {
    /// The kind with wire code `b`, or `b` itself where no kind has it.
    pub fn try_from_code(b: u8) -> (r: Result<Self, u8>)
        ensures
            1 <= b <= 4 <==> r is Ok,
            r matches Ok(k) ==> tlv_kind_code(k) == b,
            r matches Err(x) ==> x == b,
    {
        match b {
            1 => Ok(Self::PortVlanId),
            2 => Ok(Self::PortAndProtocolVlanId),
            3 => Ok(Self::VlanName),
            4 => Ok(Self::ProtocolIdentity),
            x => Err(x),
        }
    }

    pub fn code(&self) -> (r: u8)
        ensures
            r == tlv_kind_code(*self),
    {
        match self {
            Self::PortVlanId => 1,
            Self::PortAndProtocolVlanId => 2,
            Self::VlanName => 3,
            Self::ProtocolIdentity => 4,
        }
    }
}

/// An 802.1 element: the port's VLAN id, or a VLAN's id and name.
#[derive(Clone, PartialEq, Eq, Hash, Debug)]
pub enum Tlv {
    PortVlanId(u16),
    VlanName(u16, String),
}

pub enum SpecTlv {
    PortVlanId(u16),
    VlanName(u16, Seq<char>),
}

impl View for Tlv {
    type V = SpecTlv;

    open spec fn view(&self) -> SpecTlv {
        match self {
            Tlv::PortVlanId(v) => SpecTlv::PortVlanId(*v),
            Tlv::VlanName(v, n) => SpecTlv::VlanName(*v, n@),
        }
    }
}

pub open spec fn spec_kind(t: SpecTlv) -> TlvKind {
    match t {
        SpecTlv::PortVlanId(_) => TlvKind::PortVlanId,
        SpecTlv::VlanName(..) => TlvKind::VlanName,
    }
}

/// The body after the subtype byte: a port VLAN id is exactly two bytes; a
/// VLAN name is the id, a length byte, and exactly that many name bytes.
/// The other subtypes of the organization are not modeled and are errors.
pub open spec fn parse(subtype: u8, b: Seq<u8>) -> Result<SpecTlv, TlvDecodeError> {
    if subtype == 1 {
        if b.len() == 2 {
            Ok(SpecTlv::PortVlanId(be16(b[0], b[1])))
        } else {
            Err(length_error(b.len() as int, 2))
        }
    } else if subtype == 3 {
        if b.len() < 3 {
            Err(TlvDecodeError::BufferTooShort)
        } else {
            let name = b.skip(3);
            if name.len() == b[2] {
                Ok(SpecTlv::VlanName(be16(b[0], b[1]), text_of(name)))
            } else {
                Err(length_error(name.len() as int, b[2] as int))
            }
        }
    } else {
        Err(TlvDecodeError::UnknownTlv(subtype))
    }
}

/// The subtype byte followed by the body.
pub open spec fn serialize(t: SpecTlv) -> Seq<u8> {
    seq![tlv_kind_code(spec_kind(t))] + match t {
        SpecTlv::PortVlanId(v) => be16_bytes(v),
        SpecTlv::VlanName(v, n) => be16_bytes(v) + seq![encode_utf8(n).len() as u8] + encode_utf8(
            n,
        ),
    }
}

pub open spec fn wf(t: SpecTlv) -> bool {
    match t {
        SpecTlv::PortVlanId(_) => true,
        SpecTlv::VlanName(_, n) => encode_utf8(n).len() <= 255,
    }
}

pub proof fn lemma_round_trip(t: SpecTlv)
    requires
        wf(t),
    ensures
        parse(serialize(t)[0], serialize(t).skip(1)) == Ok::<_, TlvDecodeError>(t),
{
    let b = serialize(t).skip(1);
    match t {
        SpecTlv::PortVlanId(v) => {
            assert(b =~= be16_bytes(v));
            lemma_be16_round_trip(v);
        },
        SpecTlv::VlanName(v, n) => {
            assert(b.skip(3) =~= encode_utf8(n));
            lemma_be16_round_trip(v);
            lemma_text_round_trip(n);
        },
    }
}

impl Tlv {
    pub fn kind(&self) -> (r: TlvKind)
        ensures
            r == spec_kind(self@),
    {
        match self {
            Self::PortVlanId(_) => TlvKind::PortVlanId,
            Self::VlanName(..) => TlvKind::VlanName,
        }
    }

    /// The value with no borrowed parts; every part of it is owned already.
    pub fn to_static(self) -> (r: Self)
        ensures
            r == self,
    {
        self
    }

    /// An owned copy.
    pub fn copy(&self) -> (r: Self)
        ensures
            r@ == self@,
    {
        match self {
            Self::PortVlanId(v) => Self::PortVlanId(*v),
            Self::VlanName(v, n) => Self::VlanName(*v, n.clone()),
        }
    }

    pub fn decode(subtype: u8, buf: &[u8]) -> (r: Result<Self, TlvDecodeError>)
        ensures
            crate::wire::decodes_as(r, parse(subtype, buf@)),
    {
        let kind = match TlvKind::try_from_code(subtype) {
            Ok(k) => k,
            Err(x) => return Err(TlvDecodeError::UnknownTlv(x)),
        };
        match kind {
            TlvKind::PortVlanId => {
                if buf.len() > 2 {
                    Err(TlvDecodeError::BufferTooLong)
                } else if buf.len() < 2 {
                    Err(TlvDecodeError::BufferTooShort)
                } else {
                    Ok(Tlv::PortVlanId(read_be16(buf, 0)))
                }
            },
            TlvKind::VlanName => {
                if buf.len() < 3 {
                    return Err(TlvDecodeError::BufferTooShort);
                }
                let vlan = read_be16(buf, 0);
                let name_len = buf[2] as usize;
                let name = vstd::slice::slice_subrange(buf, 3, buf.len());
                assert(name@ =~= buf@.skip(3));
                if name.len() > name_len {
                    Err(TlvDecodeError::BufferTooLong)
                } else if name.len() < name_len {
                    Err(TlvDecodeError::BufferTooShort)
                } else {
                    Ok(Tlv::VlanName(vlan, decode_text(name)))
                }
            },
            _ => Err(TlvDecodeError::UnknownTlv(kind.code())),
        }
    }

    pub fn encoded_size(&self) -> (r: usize)
        requires
            wf(self@),
        ensures
            r == serialize(self@).len(),
    {
        let size = match self {
            Self::PortVlanId(_) => 2,
            Self::VlanName(_, x) => 3 + text_bytes(x).len(),
        };
        size + 1
    }

    pub fn encode(&self, buf: &mut Vec<u8>)
        requires
            wf(self@),
        ensures
            final(buf)@ == old(buf)@ + serialize(self@),
    {
        let ghost start = buf@;
        buf.push(self.kind().code());
        match self {
            Self::PortVlanId(x) => push_be16(buf, *x),
            Self::VlanName(id, name) => {
                push_be16(buf, *id);
                let bytes = text_bytes(name);
                buf.push(bytes.len() as u8);
                push_bytes(buf, bytes);
            },
        }
        assert(buf@ =~= start + serialize(self@));
    }
}

} // verus!
