use vstd::prelude::*;

use super::{length_error, TlvDecodeError};
use crate::wire::read_array;

verus! {

/// The subtype byte that introduces a network address.
#[derive(Clone, Copy, PartialEq, Eq, Structural, Hash, Debug)]
pub enum NetworkAddressKind {
    Ipv4,
    Ipv6,
    Unknown(u8),
}

pub open spec fn network_address_kind_of(b: u8) -> NetworkAddressKind {
    if b == 1 {
        NetworkAddressKind::Ipv4
    } else if b == 2 {
        NetworkAddressKind::Ipv6
    } else {
        NetworkAddressKind::Unknown(b)
    }
}

pub open spec fn network_address_kind_code(k: NetworkAddressKind) -> u8 {
    match k {
        NetworkAddressKind::Ipv4 => 1,
        NetworkAddressKind::Ipv6 => 2,
        NetworkAddressKind::Unknown(x) => x,
    }
}

impl NetworkAddressKind {
    pub fn from_code(b: u8) -> (r: Self)
        ensures
            r == network_address_kind_of(b),
    {
        match b {
            1 => Self::Ipv4,
            2 => Self::Ipv6,
            x => Self::Unknown(x),
        }
    }

    pub fn code(&self) -> (r: u8)
        ensures
            r == network_address_kind_code(*self),
    {
        match self {
            Self::Ipv4 => 1,
            Self::Ipv6 => 2,
            Self::Unknown(x) => *x,
        }
    }
}

/// An IPv4 or IPv6 address, as its bytes in network order.
#[derive(Clone, Copy, PartialEq, Eq, Hash, Debug)]
pub enum IpAddress {
    V4([u8; 4]),
    V6([u8; 16]),
}

/// An address with its IANA address-family subtype. Families other than
/// IPv4 and IPv6 are carried opaquely so that they encode back unchanged.
#[derive(Clone, PartialEq, Eq, Hash, Debug)]
pub enum NetworkAddress {
    Ip(IpAddress),
    Other(u8, Vec<u8>),
}

pub enum SpecNetworkAddress {
    Ipv4(Seq<u8>),
    Ipv6(Seq<u8>),
    Other(u8, Seq<u8>),
}

impl View for NetworkAddress {
    type V = SpecNetworkAddress;

    open spec fn view(&self) -> SpecNetworkAddress {
        match self {
            NetworkAddress::Ip(IpAddress::V4(a)) => SpecNetworkAddress::Ipv4(a@),
            NetworkAddress::Ip(IpAddress::V6(a)) => SpecNetworkAddress::Ipv6(a@),
            NetworkAddress::Other(k, d) => SpecNetworkAddress::Other(*k, d@),
        }
    }
}

/// Wire form `[subtype][address bytes]`: IPv4 takes exactly 4 bytes, IPv6
/// exactly 16, any other subtype takes the rest as it stands.
pub open spec fn parse_network_address(b: Seq<u8>) -> Result<SpecNetworkAddress, TlvDecodeError> {
    if b.len() == 0 {
        Err(TlvDecodeError::BufferTooShort)
    } else {
        let rest = b.skip(1);
        if b[0] == 1 {
            if rest.len() == 4 {
                Ok(SpecNetworkAddress::Ipv4(rest))
            } else {
                Err(length_error(rest.len() as int, 4))
            }
        } else if b[0] == 2 {
            if rest.len() == 16 {
                Ok(SpecNetworkAddress::Ipv6(rest))
            } else {
                Err(length_error(rest.len() as int, 16))
            }
        } else {
            Ok(SpecNetworkAddress::Other(b[0], rest))
        }
    }
}

pub open spec fn serialize_network_address(a: SpecNetworkAddress) -> Seq<u8> {
    match a {
        SpecNetworkAddress::Ipv4(x) => seq![1u8] + x,
        SpecNetworkAddress::Ipv6(x) => seq![2u8] + x,
        SpecNetworkAddress::Other(k, x) => seq![k] + x,
    }
}

/// The addresses that encode to a form that decodes back to them.
pub open spec fn wf_network_address(a: SpecNetworkAddress) -> bool {
    match a {
        SpecNetworkAddress::Ipv4(x) => x.len() == 4,
        SpecNetworkAddress::Ipv6(x) => x.len() == 16,
        SpecNetworkAddress::Other(k, x) => k != 1 && k != 2 && x.len() < 0x10000,
    }
}

pub proof fn lemma_network_address_round_trip(a: SpecNetworkAddress)
    requires
        wf_network_address(a),
    ensures
        parse_network_address(serialize_network_address(a)) == Ok::<_, TlvDecodeError>(a),
{
    let b = serialize_network_address(a);
    match a {
        SpecNetworkAddress::Ipv4(x) => assert(b.skip(1) =~= x),
        SpecNetworkAddress::Ipv6(x) => assert(b.skip(1) =~= x),
        SpecNetworkAddress::Other(k, x) => assert(b.skip(1) =~= x),
    }
}

impl NetworkAddress {
    pub fn kind(&self) -> (r: NetworkAddressKind)
        ensures
            r == network_address_kind_of(serialize_network_address(self@)[0]),
    {
        match self {
            Self::Ip(IpAddress::V4(_)) => NetworkAddressKind::Ipv4,
            Self::Ip(IpAddress::V6(_)) => NetworkAddressKind::Ipv6,
            Self::Other(k, _) => NetworkAddressKind::from_code(*k),
        }
    }

    /// The value with no borrowed parts; every part of it is owned already.
    pub fn to_static(self) -> (r: Self)
        ensures
            r == self,
    {
        self
    }

    /// An owned copy.
    pub fn copy(&self) -> (r: Self)
        ensures
            r@ == self@,
    {
        match self {
            Self::Ip(a) => Self::Ip(*a),
            Self::Other(k, d) => {
                let c = crate::wire::copy_range(d.as_slice(), 0, d.len());
                assert(c@ =~= d@);
                Self::Other(*k, c)
            },
        }
    }

    pub fn decode(buf: &[u8]) -> (r: Result<Self, TlvDecodeError>)
        ensures
            crate::wire::decodes_as(r, parse_network_address(buf@)),
    {
        if buf.len() == 0 {
            return Err(TlvDecodeError::BufferTooShort);
        }
        let subtype = buf[0];
        let n = buf.len() - 1;
        proof {
            assert(buf@.skip(1) =~= buf@.subrange(1, buf@.len() as int));
        }
        if subtype == 1 {
            if n < 4 {
                Err(TlvDecodeError::BufferTooShort)
            } else if n > 4 {
                Err(TlvDecodeError::BufferTooLong)
            } else {
                Ok(NetworkAddress::Ip(IpAddress::V4(read_array(buf, 1))))
            }
        } else if subtype == 2 {
            if n < 16 {
                Err(TlvDecodeError::BufferTooShort)
            } else if n > 16 {
                Err(TlvDecodeError::BufferTooLong)
            } else {
                Ok(NetworkAddress::Ip(IpAddress::V6(read_array(buf, 1))))
            }
        } else {
            Ok(NetworkAddress::Other(subtype, crate::wire::copy_range(buf, 1, buf.len())))
        }
    }

    pub fn encoded_size(&self) -> (r: usize)
        requires
            wf_network_address(self@),
        ensures
            r == serialize_network_address(self@).len(),
    {
        match self {
            Self::Ip(IpAddress::V4(_)) => 5,
            Self::Ip(IpAddress::V6(_)) => 17,
            Self::Other(_, d) => d.len() + 1,
        }
    }

    pub fn encode(&self, buf: &mut Vec<u8>)
        ensures
            final(buf)@ == old(buf)@ + serialize_network_address(self@),
    {
        let ghost start = buf@;
        match self {
            Self::Ip(IpAddress::V4(a)) => {
                buf.push(1);
                crate::wire::push_bytes(buf, a.as_slice());
            },
            Self::Ip(IpAddress::V6(a)) => {
                buf.push(2);
                crate::wire::push_bytes(buf, a.as_slice());
            },
            Self::Other(k, d) => {
                buf.push(*k);
                crate::wire::push_bytes(buf, d.as_slice());
            },
        }
        assert(buf@ =~= start + serialize_network_address(self@));
    }
}

} // verus!
