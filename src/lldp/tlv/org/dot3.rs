//! IEEE 802.3 (physical layer) organizationally specific elements.
use vstd::prelude::*;

use crate::lldp::tlv::{length_error, TlvDecodeError};
use crate::wire::{be16, be16_bytes, le16_bytes, lemma_be16_round_trip, push_be16, push_le16, read_be16, read_le16};

verus! {

/// The subtypes of the 802.3 organization.
#[derive(Clone, Copy, PartialEq, Eq, Structural, Hash, Debug)]
pub enum TlvKind {
    MacPhyStatus,
    Power,
    LinkAggregation,
    MaximumFrameSize,
}

pub open spec fn tlv_kind_code(k: TlvKind) -> u8 {
    match k {
        TlvKind::MacPhyStatus => 1,
        TlvKind::Power => 2,
        TlvKind::LinkAggregation => 3,
        TlvKind::MaximumFrameSize => 4,
    }
}

impl TlvKind {
    /// The kind with wire code `b`, or `b` itself where no kind has it.
    pub fn try_from_code(b: u8) -> (r: Result<Self, u8>)
        ensures
            1 <= b <= 4 <==> r is Ok,
            r matches Ok(k) ==> tlv_kind_code(k) == b,
            r matches Err(x) ==> x == b,
    {
        match b {
            1 => Ok(Self::MacPhyStatus),
            2 => Ok(Self::Power),
            3 => Ok(Self::LinkAggregation),
            4 => Ok(Self::MaximumFrameSize),
            x => Err(x),
        }
    }

    pub fn code(&self) -> (r: u8)
        ensures
            r == tlv_kind_code(*self),
    {
        match self {
            Self::MacPhyStatus => 1,
            Self::Power => 2,
            Self::LinkAggregation => 3,
            Self::MaximumFrameSize => 4,
        }
    }
}

/// Auto-negotiation state bits: supported (bit 0) and enabled (bit 1).
#[derive(Clone, Copy, PartialEq, Eq, Structural, Hash, Debug)]
pub struct AutoNegotiationStatus {
    pub bits: u8,
}

impl AutoNegotiationStatus {
    pub const SUPPORTED: u8 = 0x01;
    pub const ENABLED: u8 = 0x02;

    pub fn from_bits_retain(bits: u8) -> (r: Self)
        ensures
            r.bits == bits,
    {
        AutoNegotiationStatus { bits }
    }

    pub fn bits(&self) -> (r: u8)
        ensures
            r == self.bits,
    {
        self.bits
    }
}

/// The physical-layer modes advertised during auto-negotiation, one bit
/// each.
#[derive(Clone, Copy, PartialEq, Eq, Structural, Hash, Debug)]
pub struct AutoNegotiationCapability {
    pub bits: u16,
}

impl AutoNegotiationCapability {
    pub const OTHER: u16 = 0x0001;
    pub const B_10_BASE_T: u16 = 0x0002;
    pub const B_10_BASE_T_FD: u16 = 0x0004;
    pub const B_100_BASE_T4: u16 = 0x0008;
    pub const B_100_BASE_TX: u16 = 0x0010;
    pub const B_100_BASE_TX_FD: u16 = 0x0020;
    pub const B_100_BASE_T2: u16 = 0x0040;
    pub const B_100_BASE_T2_FD: u16 = 0x0080;
    pub const FDX_PAUSE: u16 = 0x0100;
    pub const FDX_A_PAUSE: u16 = 0x0200;
    pub const FDX_S_PAUSE: u16 = 0x0400;
    pub const FDX_B_PAUSE: u16 = 0x0800;
    pub const B_1000_BASE_X: u16 = 0x1000;
    pub const B_1000_BASE_X_FD: u16 = 0x2000;
    pub const B_1000_BASE_T: u16 = 0x4000;
    pub const B_1000_BASE_T_FD: u16 = 0x8000;

    pub fn from_bits_retain(bits: u16) -> (r: Self)
        ensures
            r.bits == bits,
    {
        AutoNegotiationCapability { bits }
    }

    pub fn bits(&self) -> (r: u16)
        ensures
            r == self.bits,
    {
        self.bits
    }
}

/// A medium attachment unit type (IANA dot3MauType, RFC 4836); codes with
/// no variant of their own are carried in `Unknown`.
#[derive(Clone, Copy, PartialEq, Eq, Structural, Hash, Debug)]
pub enum MauType {
    Aui,
    B10Base5,
    Foirl,
    B10Base2,
    B10BaseT,
    B10BaseFP,
    B10BaseFB,
    B10BaseFL,
    B10Broad36,
    B10BaseTHD,
    B10BaseTFD,
    B10BaseFLHD,
    B10BaseFLFD,
    B100BaseT4,
    B100BaseTXHD,
    B100BaseTXFD,
    B100BaseFXHD,
    B100BaseFXFD,
    B100BaseT2HD,
    B100BaseT2FD,
    B1000BaseXHD,
    B1000BaseXFD,
    B1000BaseLXHD,
    B1000BaseLXFD,
    B1000BaseSXHD,
    B1000BaseSXFD,
    B1000BaseCXHD,
    B1000BaseCXFD,
    B1000BaseTHD,
    B1000BaseTFD,
    B10GigBaseX,
    B10GigBaseLX4,
    B10GigBaseR,
    B10GigBaseER,
    B10GigBaseLR,
    B10GigBaseSR,
    B10GigBaseW,
    B10GigBaseEW,
    B10GigBaseLW,
    B10GigBaseSW,
    B10GigBaseCX4,
    B2BaseTL,
    B10PassTS,
    B100BaseBX10D,
    B100BaseBX10U,
    B100BaseLX10,
    B1000BaseBX10D,
    B1000BaseBX10U,
    B1000BaseLX10,
    B1000BasePX10D,
    B1000BasePX10U,
    B1000BasePX20D,
    B1000BasePX20U,
    Unknown(u16),
}

pub open spec fn mau_of_code(c: u16) -> MauType {
    match c {
        1 => MauType::Aui,
        2 => MauType::B10Base5,
        3 => MauType::Foirl,
        4 => MauType::B10Base2,
        5 => MauType::B10BaseT,
        6 => MauType::B10BaseFP,
        7 => MauType::B10BaseFB,
        8 => MauType::B10BaseFL,
        9 => MauType::B10Broad36,
        10 => MauType::B10BaseTHD,
        11 => MauType::B10BaseTFD,
        12 => MauType::B10BaseFLHD,
        13 => MauType::B10BaseFLFD,
        14 => MauType::B100BaseT4,
        15 => MauType::B100BaseTXHD,
        16 => MauType::B100BaseTXFD,
        17 => MauType::B100BaseFXHD,
        18 => MauType::B100BaseFXFD,
        19 => MauType::B100BaseT2HD,
        20 => MauType::B100BaseT2FD,
        21 => MauType::B1000BaseXHD,
        22 => MauType::B1000BaseXFD,
        23 => MauType::B1000BaseLXHD,
        24 => MauType::B1000BaseLXFD,
        25 => MauType::B1000BaseSXHD,
        26 => MauType::B1000BaseSXFD,
        27 => MauType::B1000BaseCXHD,
        28 => MauType::B1000BaseCXFD,
        29 => MauType::B1000BaseTHD,
        30 => MauType::B1000BaseTFD,
        31 => MauType::B10GigBaseX,
        32 => MauType::B10GigBaseLX4,
        33 => MauType::B10GigBaseR,
        34 => MauType::B10GigBaseER,
        35 => MauType::B10GigBaseLR,
        36 => MauType::B10GigBaseSR,
        37 => MauType::B10GigBaseW,
        38 => MauType::B10GigBaseEW,
        39 => MauType::B10GigBaseLW,
        40 => MauType::B10GigBaseSW,
        41 => MauType::B10GigBaseCX4,
        42 => MauType::B2BaseTL,
        43 => MauType::B10PassTS,
        44 => MauType::B100BaseBX10D,
        45 => MauType::B100BaseBX10U,
        46 => MauType::B100BaseLX10,
        47 => MauType::B1000BaseBX10D,
        48 => MauType::B1000BaseBX10U,
        49 => MauType::B1000BaseLX10,
        50 => MauType::B1000BasePX10D,
        51 => MauType::B1000BasePX10U,
        52 => MauType::B1000BasePX20D,
        53 => MauType::B1000BasePX20U,
        _ => MauType::Unknown(c),
    }
}

pub open spec fn mau_code(m: MauType) -> u16 {
    match m {
        MauType::Aui => 1,
        MauType::B10Base5 => 2,
        MauType::Foirl => 3,
        MauType::B10Base2 => 4,
        MauType::B10BaseT => 5,
        MauType::B10BaseFP => 6,
        MauType::B10BaseFB => 7,
        MauType::B10BaseFL => 8,
        MauType::B10Broad36 => 9,
        MauType::B10BaseTHD => 10,
        MauType::B10BaseTFD => 11,
        MauType::B10BaseFLHD => 12,
        MauType::B10BaseFLFD => 13,
        MauType::B100BaseT4 => 14,
        MauType::B100BaseTXHD => 15,
        MauType::B100BaseTXFD => 16,
        MauType::B100BaseFXHD => 17,
        MauType::B100BaseFXFD => 18,
        MauType::B100BaseT2HD => 19,
        MauType::B100BaseT2FD => 20,
        MauType::B1000BaseXHD => 21,
        MauType::B1000BaseXFD => 22,
        MauType::B1000BaseLXHD => 23,
        MauType::B1000BaseLXFD => 24,
        MauType::B1000BaseSXHD => 25,
        MauType::B1000BaseSXFD => 26,
        MauType::B1000BaseCXHD => 27,
        MauType::B1000BaseCXFD => 28,
        MauType::B1000BaseTHD => 29,
        MauType::B1000BaseTFD => 30,
        MauType::B10GigBaseX => 31,
        MauType::B10GigBaseLX4 => 32,
        MauType::B10GigBaseR => 33,
        MauType::B10GigBaseER => 34,
        MauType::B10GigBaseLR => 35,
        MauType::B10GigBaseSR => 36,
        MauType::B10GigBaseW => 37,
        MauType::B10GigBaseEW => 38,
        MauType::B10GigBaseLW => 39,
        MauType::B10GigBaseSW => 40,
        MauType::B10GigBaseCX4 => 41,
        MauType::B2BaseTL => 42,
        MauType::B10PassTS => 43,
        MauType::B100BaseBX10D => 44,
        MauType::B100BaseBX10U => 45,
        MauType::B100BaseLX10 => 46,
        MauType::B1000BaseBX10D => 47,
        MauType::B1000BaseBX10U => 48,
        MauType::B1000BaseLX10 => 49,
        MauType::B1000BasePX10D => 50,
        MauType::B1000BasePX10U => 51,
        MauType::B1000BasePX20D => 52,
        MauType::B1000BasePX20U => 53,
        MauType::Unknown(x) => x,
    }
}

/// The MAU types that encode to a code that decodes back to them: `Unknown`
/// only for codes that have no variant of their own.
pub open spec fn wf_mau(m: MauType) -> bool {
    m matches MauType::Unknown(x) ==> !(1 <= x <= 53)
}

pub proof fn lemma_mau_round_trip(m: MauType)
    requires
        wf_mau(m),
    ensures
        mau_of_code(mau_code(m)) == m,
{
}

/// Nominal link speed in Mb/s of the MAU type with code `c`.
pub open spec fn speed_of_code(c: u16) -> Option<u16> {
    if (1 <= c <= 13) || c == 43 {
        Some(10u16)
    } else if (14 <= c <= 20) || (44 <= c <= 46) {
        Some(100u16)
    } else if (21 <= c <= 30) || (47 <= c <= 53) {
        Some(1000u16)
    } else if 31 <= c <= 41 {
        Some(10000u16)
    } else if c == 42 {
        Some(2u16)
    } else {
        None
    }
}

/// Duplex of the MAU type with code `c`, where the type fixes it.
pub open spec fn duplex_of_code(c: u16) -> Option<Duplex> {
    if c == 10 || c == 12 || (15 <= c <= 29 && c % 2 == 1) {
        Some(Duplex::Half)
    } else if c == 11 || c == 13 || (16 <= c <= 30 && c % 2 == 0) || (31 <= c <= 41) {
        Some(Duplex::Full)
    } else {
        None
    }
}

#[derive(Clone, Copy, PartialEq, Eq, Structural, Hash, Debug)]
pub enum Duplex {
    Full,
    Half,
}

impl MauType {
    pub fn from_code(c: u16) -> (r: Self)
        ensures
            r == mau_of_code(c),
            wf_mau(r),
    {
        match c {
            1 => Self::Aui,
            2 => Self::B10Base5,
            3 => Self::Foirl,
            4 => Self::B10Base2,
            5 => Self::B10BaseT,
            6 => Self::B10BaseFP,
            7 => Self::B10BaseFB,
            8 => Self::B10BaseFL,
            9 => Self::B10Broad36,
            10 => Self::B10BaseTHD,
            11 => Self::B10BaseTFD,
            12 => Self::B10BaseFLHD,
            13 => Self::B10BaseFLFD,
            14 => Self::B100BaseT4,
            15 => Self::B100BaseTXHD,
            16 => Self::B100BaseTXFD,
            17 => Self::B100BaseFXHD,
            18 => Self::B100BaseFXFD,
            19 => Self::B100BaseT2HD,
            20 => Self::B100BaseT2FD,
            21 => Self::B1000BaseXHD,
            22 => Self::B1000BaseXFD,
            23 => Self::B1000BaseLXHD,
            24 => Self::B1000BaseLXFD,
            25 => Self::B1000BaseSXHD,
            26 => Self::B1000BaseSXFD,
            27 => Self::B1000BaseCXHD,
            28 => Self::B1000BaseCXFD,
            29 => Self::B1000BaseTHD,
            30 => Self::B1000BaseTFD,
            31 => Self::B10GigBaseX,
            32 => Self::B10GigBaseLX4,
            33 => Self::B10GigBaseR,
            34 => Self::B10GigBaseER,
            35 => Self::B10GigBaseLR,
            36 => Self::B10GigBaseSR,
            37 => Self::B10GigBaseW,
            38 => Self::B10GigBaseEW,
            39 => Self::B10GigBaseLW,
            40 => Self::B10GigBaseSW,
            41 => Self::B10GigBaseCX4,
            42 => Self::B2BaseTL,
            43 => Self::B10PassTS,
            44 => Self::B100BaseBX10D,
            45 => Self::B100BaseBX10U,
            46 => Self::B100BaseLX10,
            47 => Self::B1000BaseBX10D,
            48 => Self::B1000BaseBX10U,
            49 => Self::B1000BaseLX10,
            50 => Self::B1000BasePX10D,
            51 => Self::B1000BasePX10U,
            52 => Self::B1000BasePX20D,
            53 => Self::B1000BasePX20U,
            x => Self::Unknown(x),
        }
    }

    pub fn code(&self) -> (r: u16)
        ensures
            r == mau_code(*self),
    {
        match self {
            Self::Aui => 1,
            Self::B10Base5 => 2,
            Self::Foirl => 3,
            Self::B10Base2 => 4,
            Self::B10BaseT => 5,
            Self::B10BaseFP => 6,
            Self::B10BaseFB => 7,
            Self::B10BaseFL => 8,
            Self::B10Broad36 => 9,
            Self::B10BaseTHD => 10,
            Self::B10BaseTFD => 11,
            Self::B10BaseFLHD => 12,
            Self::B10BaseFLFD => 13,
            Self::B100BaseT4 => 14,
            Self::B100BaseTXHD => 15,
            Self::B100BaseTXFD => 16,
            Self::B100BaseFXHD => 17,
            Self::B100BaseFXFD => 18,
            Self::B100BaseT2HD => 19,
            Self::B100BaseT2FD => 20,
            Self::B1000BaseXHD => 21,
            Self::B1000BaseXFD => 22,
            Self::B1000BaseLXHD => 23,
            Self::B1000BaseLXFD => 24,
            Self::B1000BaseSXHD => 25,
            Self::B1000BaseSXFD => 26,
            Self::B1000BaseCXHD => 27,
            Self::B1000BaseCXFD => 28,
            Self::B1000BaseTHD => 29,
            Self::B1000BaseTFD => 30,
            Self::B10GigBaseX => 31,
            Self::B10GigBaseLX4 => 32,
            Self::B10GigBaseR => 33,
            Self::B10GigBaseER => 34,
            Self::B10GigBaseLR => 35,
            Self::B10GigBaseSR => 36,
            Self::B10GigBaseW => 37,
            Self::B10GigBaseEW => 38,
            Self::B10GigBaseLW => 39,
            Self::B10GigBaseSW => 40,
            Self::B10GigBaseCX4 => 41,
            Self::B2BaseTL => 42,
            Self::B10PassTS => 43,
            Self::B100BaseBX10D => 44,
            Self::B100BaseBX10U => 45,
            Self::B100BaseLX10 => 46,
            Self::B1000BaseBX10D => 47,
            Self::B1000BaseBX10U => 48,
            Self::B1000BaseLX10 => 49,
            Self::B1000BasePX10D => 50,
            Self::B1000BasePX10U => 51,
            Self::B1000BasePX20D => 52,
            Self::B1000BasePX20U => 53,
            Self::Unknown(x) => *x,
        }
    }

    /// Nominal link speed in Mb/s; `None` for an unknown type.
    pub fn speed(&self) -> (r: Option<u16>)
        ensures
            r == (if *self is Unknown { None } else { speed_of_code(mau_code(*self)) }),
    {
        if let Self::Unknown(_) = self {
            return None;
        }
        let c = self.code();
        if (1 <= c && c <= 13) || c == 43 {
            Some(10)
        } else if (14 <= c && c <= 20) || (44 <= c && c <= 46) {
            Some(100)
        } else if (21 <= c && c <= 30) || (47 <= c && c <= 53) {
            Some(1000)
        } else if 31 <= c && c <= 41 {
            Some(10000)
        } else if c == 42 {
            Some(2)
        } else {
            None
        }
    }

    /// Duplex mode; `None` for an unknown type or one that fixes none.
    pub fn duplex(&self) -> (r: Option<Duplex>)
        ensures
            r == (if *self is Unknown { None } else { duplex_of_code(mau_code(*self)) }),
    {
        if let Self::Unknown(_) = self {
            return None;
        }
        let c = self.code();
        if c == 10 || c == 12 || (15 <= c && c <= 29 && c % 2 == 1) {
            Some(Duplex::Half)
        } else if c == 11 || c == 13 || (16 <= c && c <= 30 && c % 2 == 0) || (31 <= c && c <= 41) {
            Some(Duplex::Full)
        } else {
            None
        }
    }
}

/// Auto-negotiation state, advertised capabilities and operational MAU type
/// of the sending port.
#[derive(Clone, Copy, PartialEq, Eq, Structural, Hash, Debug)]
pub struct MacPhyStatus {
    pub status: AutoNegotiationStatus,
    pub advertised: AutoNegotiationCapability,
    pub mau: MauType,
}

/// An 802.3 element.
#[derive(Clone, Copy, PartialEq, Eq, Structural, Hash, Debug)]
pub enum Tlv {
    MacPhyStatus(MacPhyStatus),
}

impl View for Tlv {
    type V = Tlv;

    open spec fn view(&self) -> Tlv {
        *self
    }
}

/// The body after the subtype byte: MAC/PHY status is exactly five bytes,
/// the status byte, the advertised capabilities (little-endian) and the
/// MAU type (big-endian). The other subtypes are not modeled and are
/// errors.
pub open spec fn parse(subtype: u8, b: Seq<u8>) -> Result<Tlv, TlvDecodeError> {
    if subtype == 1 {
        if b.len() == 5 {
            Ok(
                Tlv::MacPhyStatus(
                    MacPhyStatus {
                        status: AutoNegotiationStatus { bits: b[0] },
                        advertised: AutoNegotiationCapability { bits: be16(b[2], b[1]) },
                        mau: mau_of_code(be16(b[3], b[4])),
                    },
                ),
            )
        } else {
            Err(length_error(b.len() as int, 5))
        }
    } else {
        Err(TlvDecodeError::UnknownTlv(subtype))
    }
}

/// The subtype byte followed by the body.
pub open spec fn serialize(t: Tlv) -> Seq<u8> {
    match t {
        Tlv::MacPhyStatus(s) => seq![1u8, s.status.bits] + le16_bytes(s.advertised.bits) + be16_bytes(
            mau_code(s.mau),
        ),
    }
}

pub open spec fn wf(t: Tlv) -> bool {
    match t {
        Tlv::MacPhyStatus(s) => wf_mau(s.mau),
    }
}

pub proof fn lemma_round_trip(t: Tlv)
    requires
        wf(t),
    ensures
        parse(serialize(t)[0], serialize(t).skip(1)) == Ok::<_, TlvDecodeError>(t),
{
    match t {
        Tlv::MacPhyStatus(s) => {
            let b = serialize(t).skip(1);
            assert(b =~= seq![s.status.bits] + le16_bytes(s.advertised.bits) + be16_bytes(mau_code(s.mau)));
            lemma_be16_round_trip(s.advertised.bits);
            lemma_be16_round_trip(mau_code(s.mau));
            lemma_mau_round_trip(s.mau);
        },
    }
}

impl Tlv {
    pub fn kind(&self) -> (r: TlvKind)
        ensures
            r == TlvKind::MacPhyStatus,
    {
        match self {
            Self::MacPhyStatus(_) => TlvKind::MacPhyStatus,
        }
    }

    pub fn decode(subtype: u8, buf: &[u8]) -> (r: Result<Self, TlvDecodeError>)
        ensures
            crate::wire::decodes_as(r, parse(subtype, buf@)),
    {
        let kind = match TlvKind::try_from_code(subtype) {
            Ok(k) => k,
            Err(x) => return Err(TlvDecodeError::UnknownTlv(x)),
        };
        match kind {
            TlvKind::MacPhyStatus => {
                if buf.len() > 5 {
                    Err(TlvDecodeError::BufferTooLong)
                } else if buf.len() < 5 {
                    Err(TlvDecodeError::BufferTooShort)
                } else {
                    let status = AutoNegotiationStatus::from_bits_retain(buf[0]);
                    let advertised = AutoNegotiationCapability::from_bits_retain(read_le16(buf, 1));
                    let mau = MauType::from_code(read_be16(buf, 3));
                    Ok(Tlv::MacPhyStatus(MacPhyStatus { status, advertised, mau }))
                }
            },
            _ => Err(TlvDecodeError::UnknownTlv(kind.code())),
        }
    }

    pub fn encoded_size(&self) -> (r: usize)
        ensures
            r == serialize(*self).len(),
    {
        let size = match self {
            Self::MacPhyStatus(_) => 5,
        };
        size + 1
    }

    pub fn encode(&self, buf: &mut Vec<u8>)
        ensures
            final(buf)@ == old(buf)@ + serialize(*self),
    {
        let ghost start = buf@;
        buf.push(self.kind().code());
        match self {
            Self::MacPhyStatus(x) => {
                buf.push(x.status.bits());
                push_le16(buf, x.advertised.bits());
                push_be16(buf, x.mau.code());
            },
        }
        assert(buf@ =~= start + serialize(*self));
    }
}

} // verus!
