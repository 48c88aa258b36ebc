//! CDP type-length-value elements.
use vstd::prelude::*;

use crate::wire::{be16, decode_text, read_be16, text_of};

verus! {

/// A framing error: the buffer ends inside a declared element, or a header
/// declares a length shorter than itself.
#[derive(Clone, Copy, PartialEq, Eq, Structural, Debug)]
pub enum RawTlvError {
    BufferTooShort,
}

/// A per-element error: the element is dropped and decoding goes on.
#[derive(Clone, Copy, PartialEq, Eq, Structural, Debug)]
pub enum TlvDecodeError {
    BufferTooShort,
    BufferTooLong,
    BytesAfterEnd,
    UnknownTlv(u16),
}

/// The element kinds by their 16-bit type code.
#[derive(Clone, Copy, PartialEq, Eq, Structural, Hash, Debug)]
pub enum TlvKind {
    DeviceId,
    PortId,
    SoftwareVersion,
    Platform,
    NativeVlan,
    Duplex,
}

pub open spec fn tlv_kind_code(k: TlvKind) -> u16 {
    match k {
        TlvKind::DeviceId => 0x0001,
        TlvKind::PortId => 0x0003,
        TlvKind::SoftwareVersion => 0x0005,
        TlvKind::Platform => 0x0006,
        TlvKind::NativeVlan => 0x000a,
        TlvKind::Duplex => 0x000b,
    }
}

impl TlvKind {
    /// The kind with type code `v`, or `v` itself where no kind has it.
    pub fn try_from_code(v: u16) -> (r: Result<Self, u16>)
        ensures
            (v == 1 || v == 3 || v == 5 || v == 6 || v == 10 || v == 11) <==> r is Ok,
            r matches Ok(k) ==> tlv_kind_code(k) == v,
            r matches Err(x) ==> x == v,
    {
        match v {
            0x0001 => Ok(Self::DeviceId),
            0x0003 => Ok(Self::PortId),
            0x0005 => Ok(Self::SoftwareVersion),
            0x0006 => Ok(Self::Platform),
            0x000a => Ok(Self::NativeVlan),
            0x000b => Ok(Self::Duplex),
            x => Err(x),
        }
    }

    pub fn code(&self) -> (r: u16)
        ensures
            r == tlv_kind_code(*self),
    {
        match self {
            Self::DeviceId => 0x0001,
            Self::PortId => 0x0003,
            Self::SoftwareVersion => 0x0005,
            Self::Platform => 0x0006,
            Self::NativeVlan => 0x000a,
            Self::Duplex => 0x000b,
        }
    }
}

#[derive(Clone, Copy, PartialEq, Eq, Structural, Hash, Debug)]
pub enum Duplex {
    Half,
    Full,
}

/// One decoded CDP element.
#[derive(Clone, PartialEq, Eq, Hash, Debug)]
pub enum Tlv {
    DeviceId(String),
    PortId(String),
    SoftwareVersion(String),
    Platform(String),
    NativeVlan(u16),
    Duplex(Duplex),
}

pub enum SpecTlv {
    DeviceId(Seq<char>),
    PortId(Seq<char>),
    SoftwareVersion(Seq<char>),
    Platform(Seq<char>),
    NativeVlan(u16),
    Duplex(Duplex),
}

impl View for Tlv {
    type V = SpecTlv;

    open spec fn view(&self) -> SpecTlv {
        match self {
            Tlv::DeviceId(s) => SpecTlv::DeviceId(s@),
            Tlv::PortId(s) => SpecTlv::PortId(s@),
            Tlv::SoftwareVersion(s) => SpecTlv::SoftwareVersion(s@),
            Tlv::Platform(s) => SpecTlv::Platform(s@),
            Tlv::NativeVlan(v) => SpecTlv::NativeVlan(*v),
            Tlv::Duplex(d) => SpecTlv::Duplex(*d),
        }
    }
}

/// The total length, header included, declared in an element header.
pub open spec fn raw_total_len(b: Seq<u8>) -> nat {
    be16(b[2], b[3]) as nat
}

/// Whether `b` begins with a whole element: a four-byte header declaring a
/// total length of at least four that the buffer holds.
pub open spec fn frames(b: Seq<u8>) -> bool {
    b.len() >= 4 && raw_total_len(b) >= 4 && b.len() >= raw_total_len(b)
}

/// The payload of an element of type `ty`. Text fields take the whole
/// payload; the native VLAN is exactly two bytes; duplex is exactly one
/// byte, zero for half and anything else for full.
pub open spec fn parse_tlv(ty: u16, p: Seq<u8>) -> Result<SpecTlv, TlvDecodeError> {
    if ty == 1 {
        Ok(SpecTlv::DeviceId(text_of(p)))
    } else if ty == 3 {
        Ok(SpecTlv::PortId(text_of(p)))
    } else if ty == 5 {
        Ok(SpecTlv::SoftwareVersion(text_of(p)))
    } else if ty == 6 {
        Ok(SpecTlv::Platform(text_of(p)))
    } else if ty == 10 {
        if p.len() < 2 {
            Err(TlvDecodeError::BufferTooShort)
        } else if p.len() > 2 {
            Err(TlvDecodeError::BufferTooLong)
        } else {
            Ok(SpecTlv::NativeVlan(be16(p[0], p[1])))
        }
    } else if ty == 11 {
        if p.len() < 1 {
            Err(TlvDecodeError::BufferTooShort)
        } else if p.len() > 1 {
            Err(TlvDecodeError::BufferTooLong)
        } else if p[0] == 0 {
            Ok(SpecTlv::Duplex(Duplex::Half))
        } else {
            Ok(SpecTlv::Duplex(Duplex::Full))
        }
    } else {
        Err(TlvDecodeError::UnknownTlv(ty))
    }
}

/// Truncation: a payload one byte shorter than a fixed length is too
/// short, one byte longer is too long (native VLAN and duplex).
pub proof fn lemma_fixed_length_errors(p: Seq<u8>)
    ensures
        p.len() == 1 ==> parse_tlv(10, p) == Err::<SpecTlv, _>(TlvDecodeError::BufferTooShort),
        p.len() == 3 ==> parse_tlv(10, p) == Err::<SpecTlv, _>(TlvDecodeError::BufferTooLong),
        p.len() == 0 ==> parse_tlv(11, p) == Err::<SpecTlv, _>(TlvDecodeError::BufferTooShort),
        p.len() == 2 ==> parse_tlv(11, p) == Err::<SpecTlv, _>(TlvDecodeError::BufferTooLong),
{
}

/// The header and payload of one element, borrowed from the buffer.
#[derive(Clone, Copy, PartialEq, Eq, Hash, Debug)]
pub struct RawTlv<'a> {
    pub ty: u16,
    pub payload: &'a [u8],
}

impl<'a> RawTlv<'a> {
    pub fn total_len(&self) -> (r: usize)
        requires
            self.payload@.len() < 0x10000,
        ensures
            r == self.payload@.len() + 4,
    {
        self.payload.len() + 4
    }

    pub fn decode(buf: &'a [u8]) -> (r: Result<Self, RawTlvError>)
        ensures
            frames(buf@) <==> r is Ok,
            r matches Ok(raw) ==> raw.ty == be16(buf@[0], buf@[1]) && raw.payload@
                == buf@.subrange(4, raw_total_len(buf@) as int),
            r matches Err(e) ==> e == RawTlvError::BufferTooShort,
    {
        if buf.len() < 4 {
            return Err(RawTlvError::BufferTooShort);
        }
        let ty = read_be16(buf, 0);
        let len = read_be16(buf, 2) as usize;
        if len < 4 || buf.len() < len {
            return Err(RawTlvError::BufferTooShort);
        }
        let payload = vstd::slice::slice_subrange(buf, 4, len);
        Ok(Self { ty, payload })
    }
}

impl Tlv {
    pub fn decode(raw: RawTlv) -> (r: Result<Self, TlvDecodeError>)
        ensures
            crate::wire::decodes_as(r, parse_tlv(raw.ty, raw.payload@)),
    {
        let kind = match TlvKind::try_from_code(raw.ty) {
            Ok(k) => k,
            Err(x) => return Err(TlvDecodeError::UnknownTlv(x)),
        };
        let p = raw.payload;
        match kind {
            TlvKind::DeviceId => Ok(Self::DeviceId(decode_text(p))),
            TlvKind::PortId => Ok(Self::PortId(decode_text(p))),
            TlvKind::SoftwareVersion => Ok(Self::SoftwareVersion(decode_text(p))),
            TlvKind::Platform => Ok(Self::Platform(decode_text(p))),
            TlvKind::NativeVlan => {
                if p.len() < 2 {
                    Err(TlvDecodeError::BufferTooShort)
                } else if p.len() > 2 {
                    Err(TlvDecodeError::BufferTooLong)
                } else {
                    Ok(Self::NativeVlan(read_be16(p, 0)))
                }
            },
            TlvKind::Duplex => {
                if p.len() < 1 {
                    Err(TlvDecodeError::BufferTooShort)
                } else if p.len() > 1 {
                    Err(TlvDecodeError::BufferTooLong)
                } else if p[0] == 0 {
                    Ok(Self::Duplex(Duplex::Half))
                } else {
                    Ok(Self::Duplex(Duplex::Full))
                }
            },
        }
    }
}

} // verus!
