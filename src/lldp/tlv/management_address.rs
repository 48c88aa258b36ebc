use vstd::prelude::*;
use vstd::utf8::encode_utf8;

use super::address::{
    lemma_network_address_round_trip, parse_network_address, serialize_network_address,
    wf_network_address, NetworkAddress, SpecNetworkAddress,
};
use super::{length_error, TlvDecodeError};
use crate::wire::{
    be32, be32_bytes, decode_text, lemma_be32_round_trip, lemma_text_round_trip, push_be32,
    push_bytes, read_be32, text_bytes, text_of,
};

verus! {

/// How the interface number of a management address is to be read.
#[derive(Clone, Copy, PartialEq, Eq, Structural, Hash, Debug)]
pub enum ManagementInterfaceKind {
    Unknown,
    IfIndex,
    SysPort,
}

pub open spec fn management_interface_kind_code(k: ManagementInterfaceKind) -> u8 {
    match k {
        ManagementInterfaceKind::Unknown => 1,
        ManagementInterfaceKind::IfIndex => 2,
        ManagementInterfaceKind::SysPort => 3,
    }
}

pub open spec fn management_interface_kind_of(b: u8) -> ManagementInterfaceKind {
    if b == 1 {
        ManagementInterfaceKind::Unknown
    } else if b == 2 {
        ManagementInterfaceKind::IfIndex
    } else {
        ManagementInterfaceKind::SysPort
    }
}

impl ManagementInterfaceKind {
    /// The kind with wire code `b`, or `b` itself where no kind has it.
    pub fn try_from_code(b: u8) -> (r: Result<Self, u8>)
        ensures
            1 <= b <= 3 ==> r == Ok::<_, u8>(management_interface_kind_of(b)),
            !(1 <= b <= 3) ==> r == Err::<Self, _>(b),
    {
        match b {
            1 => Ok(Self::Unknown),
            2 => Ok(Self::IfIndex),
            3 => Ok(Self::SysPort),
            x => Err(x),
        }
    }

    pub fn code(&self) -> (r: u8)
        ensures
            r == management_interface_kind_code(*self),
    {
        match self {
            Self::Unknown => 1,
            Self::IfIndex => 2,
            Self::SysPort => 3,
        }
    }
}

/// An address at which the sending system's management entity is reached.
#[derive(Clone, PartialEq, Eq, Hash, Debug)]
pub struct ManagementAddress {
    pub address: NetworkAddress,
    pub interface_subtype: ManagementInterfaceKind,
    pub interface_number: u32,
    pub oid: String,
}

pub struct SpecManagementAddress {
    pub address: SpecNetworkAddress,
    pub interface_subtype: ManagementInterfaceKind,
    pub interface_number: u32,
    pub oid: Seq<char>,
}

impl View for ManagementAddress {
    type V = SpecManagementAddress;

    open spec fn view(&self) -> SpecManagementAddress {
        SpecManagementAddress {
            address: self.address@,
            interface_subtype: self.interface_subtype,
            interface_number: self.interface_number,
            oid: self.oid@,
        }
    }
}

/// Wire form `[address length][address][interface subtype][interface
/// number, 4 bytes big-endian][oid length][oid]`, where the address length
/// counts the address's subtype byte and the oid fills the rest exactly.
pub open spec fn parse_management_address(b: Seq<u8>) -> Result<
    SpecManagementAddress,
    TlvDecodeError,
> {
    if b.len() == 0 {
        Err(TlvDecodeError::BufferTooShort)
    } else if b.len() < 1 + b[0] {
        Err(TlvDecodeError::BufferTooShort)
    } else {
        let n = b[0] as int;
        match parse_network_address(b.subrange(1, 1 + n)) {
            Err(e) => Err(e),
            Ok(address) => {
                let rest = b.skip(1 + n);
                if rest.len() < 6 {
                    Err(TlvDecodeError::BufferTooShort)
                } else if !(1 <= rest[0] <= 3) {
                    Err(TlvDecodeError::UnknownManagementInterfaceSubtype(rest[0]))
                } else {
                    let oid = rest.skip(6);
                    if oid.len() != rest[5] {
                        Err(length_error(oid.len() as int, rest[5] as int))
                    } else {
                        Ok(
                            SpecManagementAddress {
                                address,
                                interface_subtype: management_interface_kind_of(rest[0]),
                                interface_number: be32(rest[1], rest[2], rest[3], rest[4]),
                                oid: text_of(oid),
                            },
                        )
                    }
                }
            },
        }
    }
}

pub open spec fn serialize_management_address(m: SpecManagementAddress) -> Seq<u8> {
    let a = serialize_network_address(m.address);
    let oid = encode_utf8(m.oid);
    seq![a.len() as u8] + a + seq![management_interface_kind_code(m.interface_subtype)]
        + be32_bytes(m.interface_number) + seq![oid.len() as u8] + oid
}

/// The management addresses whose length prefixes fit in a byte and whose
/// whole form fits in one element.
pub open spec fn wf_management_address(m: SpecManagementAddress) -> bool {
    &&& wf_network_address(m.address)
    &&& serialize_network_address(m.address).len() <= 255
    &&& encode_utf8(m.oid).len() <= 255
    &&& serialize_management_address(m).len() <= 511
}

pub proof fn lemma_management_address_round_trip(m: SpecManagementAddress)
    requires
        wf_management_address(m),
    ensures
        parse_management_address(serialize_management_address(m)) == Ok::<_, TlvDecodeError>(m),
{
    let a = serialize_network_address(m.address);
    let oid = encode_utf8(m.oid);
    let b = serialize_management_address(m);
    let n = a.len() as int;
    assert(b[0] == a.len() as u8);
    assert(b.subrange(1, 1 + n) =~= a);
    lemma_network_address_round_trip(m.address);
    let rest = b.skip(1 + n);
    assert(rest =~= seq![management_interface_kind_code(m.interface_subtype)] + be32_bytes(
        m.interface_number,
    ) + seq![oid.len() as u8] + oid);
    assert(rest.skip(6) =~= oid);
    lemma_be32_round_trip(m.interface_number);
    lemma_text_round_trip(m.oid);
}

impl ManagementAddress {
    /// The value with no borrowed parts; every part of it is owned already.
    pub fn to_static(self) -> (r: Self)
        ensures
            r == self,
    {
        self
    }

    /// An owned copy.
    pub fn copy(&self) -> (r: Self)
        ensures
            r@ == self@,
    {
        ManagementAddress {
            address: self.address.copy(),
            interface_subtype: self.interface_subtype,
            interface_number: self.interface_number,
            oid: self.oid.clone(),
        }
    }

    pub fn decode(buf: &[u8]) -> (r: Result<Self, TlvDecodeError>)
        ensures
            crate::wire::decodes_as(r, parse_management_address(buf@)),
    {
        if buf.len() == 0 {
            return Err(TlvDecodeError::BufferTooShort);
        }
        let addr_str_length = buf[0] as usize;
        if buf.len() < 1 + addr_str_length {
            return Err(TlvDecodeError::BufferTooShort);
        }
        let addr_bytes = vstd::slice::slice_subrange(buf, 1, 1 + addr_str_length);
        let address = match NetworkAddress::decode(addr_bytes) {
            Ok(a) => a,
            Err(e) => return Err(e),
        };
        let rest = vstd::slice::slice_subrange(buf, 1 + addr_str_length, buf.len());
        assert(rest@ =~= buf@.skip(1 + addr_str_length));
        if rest.len() < 6 {
            return Err(TlvDecodeError::BufferTooShort);
        }
        let interface_subtype = match ManagementInterfaceKind::try_from_code(rest[0]) {
            Ok(k) => k,
            Err(x) => return Err(TlvDecodeError::UnknownManagementInterfaceSubtype(x)),
        };
        let interface_number = read_be32(rest, 1);
        let oid_len = rest[5] as usize;
        let oid = vstd::slice::slice_subrange(rest, 6, rest.len());
        assert(oid@ =~= rest@.skip(6));
        if oid.len() > oid_len {
            Err(TlvDecodeError::BufferTooLong)
        } else if oid.len() < oid_len {
            Err(TlvDecodeError::BufferTooShort)
        } else {
            Ok(ManagementAddress { address, interface_subtype, interface_number, oid: decode_text(oid) })
        }
    }

    pub fn encoded_size(&self) -> (r: usize)
        requires
            wf_management_address(self@),
        ensures
            r == serialize_management_address(self@).len(),
    {
        self.address.encoded_size() + text_bytes(&self.oid).len() + 7
    }

    pub fn encode(&self, buf: &mut Vec<u8>)
        requires
            wf_management_address(self@),
        ensures
            final(buf)@ == old(buf)@ + serialize_management_address(self@),
    {
        let ghost start = buf@;
        buf.push(self.address.encoded_size() as u8);
        self.address.encode(buf);
        buf.push(self.interface_subtype.code());
        push_be32(buf, self.interface_number);
        let oid = text_bytes(&self.oid);
        buf.push(oid.len() as u8);
        push_bytes(buf, oid);
        assert(buf@ =~= start + serialize_management_address(self@));
    }
}

} // verus!
