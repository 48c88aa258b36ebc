//! LLDP type-length-value elements: framing, dispatch on the type code, and
//! the element kinds themselves.
use vstd::prelude::*;
use vstd::utf8::encode_utf8;

use crate::wire::{
    be16, be16_bytes, decode_text, decodes_as, lemma_be16_round_trip, lemma_text_round_trip,
    push_be16, push_bytes, read_be16, text_bytes, text_of,
};

mod address;
pub use address::{IpAddress, NetworkAddress, NetworkAddressKind, SpecNetworkAddress};

mod chassis_id;
pub use chassis_id::{ChassisId, ChassisIdKind, SpecChassisId};

mod port_id;
pub use port_id::{PortId, PortIdKind, SpecPortId};

pub mod org;

mod system_capabilities;
pub use system_capabilities::{Capabilities, CapabilityFlags};

mod management_address;
pub use management_address::{ManagementAddress, ManagementInterfaceKind, SpecManagementAddress};

use chassis_id::{lemma_chassis_id_round_trip, parse_chassis_id, serialize_chassis_id, wf_chassis_id};
use management_address::{
    lemma_management_address_round_trip, parse_management_address, serialize_management_address,
    wf_management_address,
};
use org::{lemma_org_tlv_round_trip, parse_org_tlv, serialize_org_tlv, wf_org_tlv, OrgTlv, SpecOrgTlv};
use port_id::{lemma_port_id_round_trip, parse_port_id, serialize_port_id, wf_port_id};
use system_capabilities::{lemma_capabilities_round_trip, parse_capabilities, serialize_capabilities};

verus! {

/// A framing error: the buffer ends inside a declared element.
#[derive(Clone, Copy, PartialEq, Eq, Structural, Debug)]
pub enum RawTlvError {
    BufferTooShort,
}

/// A per-element error: the element is dropped and decoding goes on.
#[derive(Clone, Copy, PartialEq, Eq, Structural, Debug)]
pub enum TlvDecodeError {
    BufferTooShort,
    BufferTooLong,
    BytesAfterEnd,
    UnknownChassisIdSubtype(u8),
    UnknownPortIdSubtype(u8),
    UnknownManagementInterfaceSubtype(u8),
    UnknownTlv(u8),
}

/// The error for a field of fixed length `want` that is `len` bytes long.
pub open spec fn length_error(len: int, want: int) -> TlvDecodeError {
    if len < want {
        TlvDecodeError::BufferTooShort
    } else {
        TlvDecodeError::BufferTooLong
    }
}


/// The element kinds by their 7-bit type code.
#[derive(Clone, Copy, PartialEq, Eq, Structural, Hash, Debug)]
pub enum TlvKind {
    End,
    ChassisId,
    PortId,
    TimeToLive,
    PortDescription,
    SystemName,
    SystemDescription,
    Capabilities,
    ManagementAddress,
    Org,
}

pub open spec fn tlv_kind_code(k: TlvKind) -> u8 {
    match k {
        TlvKind::End => 0,
        TlvKind::ChassisId => 1,
        TlvKind::PortId => 2,
        TlvKind::TimeToLive => 3,
        TlvKind::PortDescription => 4,
        TlvKind::SystemName => 5,
        TlvKind::SystemDescription => 6,
        TlvKind::Capabilities => 7,
        TlvKind::ManagementAddress => 8,
        TlvKind::Org => 127,
    }
}

impl TlvKind {
    /// The kind with type code `b`, or `b` itself where no kind has it.
    pub fn try_from_code(b: u8) -> (r: Result<Self, u8>)
        ensures
            (b <= 8 || b == 127) <==> r is Ok,
            r matches Ok(k) ==> tlv_kind_code(k) == b,
            r matches Err(x) ==> x == b,
    {
        match b {
            0 => Ok(Self::End),
            1 => Ok(Self::ChassisId),
            2 => Ok(Self::PortId),
            3 => Ok(Self::TimeToLive),
            4 => Ok(Self::PortDescription),
            5 => Ok(Self::SystemName),
            6 => Ok(Self::SystemDescription),
            7 => Ok(Self::Capabilities),
            8 => Ok(Self::ManagementAddress),
            127 => Ok(Self::Org),
            x => Err(x),
        }
    }

    pub fn code(&self) -> (r: u8)
        ensures
            r == tlv_kind_code(*self),
    {
        match self {
            Self::End => 0,
            Self::ChassisId => 1,
            Self::PortId => 2,
            Self::TimeToLive => 3,
            Self::PortDescription => 4,
            Self::SystemName => 5,
            Self::SystemDescription => 6,
            Self::Capabilities => 7,
            Self::ManagementAddress => 8,
            Self::Org => 127,
        }
    }
}

/// One decoded element.
#[derive(Clone, PartialEq, Eq, Hash, Debug)]
pub enum Tlv {
    End,
    ChassisId(ChassisId),
    PortId(PortId),
    TimeToLive(u16),
    PortDescription(String),
    SystemName(String),
    SystemDescription(String),
    Capabilities(Capabilities),
    ManagementAddress(ManagementAddress),
    Org(OrgTlv),
}

pub enum SpecTlv {
    End,
    ChassisId(SpecChassisId),
    PortId(SpecPortId),
    TimeToLive(u16),
    PortDescription(Seq<char>),
    SystemName(Seq<char>),
    SystemDescription(Seq<char>),
    Capabilities(Capabilities),
    ManagementAddress(SpecManagementAddress),
    Org(SpecOrgTlv),
}

impl View for Tlv {
    type V = SpecTlv;

    open spec fn view(&self) -> SpecTlv {
        match self {
            Tlv::End => SpecTlv::End,
            Tlv::ChassisId(c) => SpecTlv::ChassisId(c@),
            Tlv::PortId(p) => SpecTlv::PortId(p@),
            Tlv::TimeToLive(v) => SpecTlv::TimeToLive(*v),
            Tlv::PortDescription(s) => SpecTlv::PortDescription(s@),
            Tlv::SystemName(s) => SpecTlv::SystemName(s@),
            Tlv::SystemDescription(s) => SpecTlv::SystemDescription(s@),
            Tlv::Capabilities(c) => SpecTlv::Capabilities(*c),
            Tlv::ManagementAddress(m) => SpecTlv::ManagementAddress(m@),
            Tlv::Org(o) => SpecTlv::Org(o@),
        }
    }
}

pub open spec fn spec_tlv_kind(t: SpecTlv) -> TlvKind {
    match t {
        SpecTlv::End => TlvKind::End,
        SpecTlv::ChassisId(_) => TlvKind::ChassisId,
        SpecTlv::PortId(_) => TlvKind::PortId,
        SpecTlv::TimeToLive(_) => TlvKind::TimeToLive,
        SpecTlv::PortDescription(_) => TlvKind::PortDescription,
        SpecTlv::SystemName(_) => TlvKind::SystemName,
        SpecTlv::SystemDescription(_) => TlvKind::SystemDescription,
        SpecTlv::Capabilities(_) => TlvKind::Capabilities,
        SpecTlv::ManagementAddress(_) => TlvKind::ManagementAddress,
        SpecTlv::Org(_) => TlvKind::Org,
    }
}

/// The payload of an element of type `ty`. End carries nothing; the time to
/// live is exactly two bytes; text fields take the whole payload.
pub open spec fn parse_tlv(ty: u8, p: Seq<u8>) -> Result<SpecTlv, TlvDecodeError> {
    if ty == 0 {
        if p.len() == 0 {
            Ok(SpecTlv::End)
        } else {
            Err(TlvDecodeError::BytesAfterEnd)
        }
    } else if ty == 1 {
        match parse_chassis_id(p) {
            Ok(c) => Ok(SpecTlv::ChassisId(c)),
            Err(e) => Err(e),
        }
    } else if ty == 2 {
        match parse_port_id(p) {
            Ok(c) => Ok(SpecTlv::PortId(c)),
            Err(e) => Err(e),
        }
    } else if ty == 3 {
        if p.len() == 2 {
            Ok(SpecTlv::TimeToLive(be16(p[0], p[1])))
        } else {
            Err(length_error(p.len() as int, 2))
        }
    } else if ty == 4 {
        Ok(SpecTlv::PortDescription(text_of(p)))
    } else if ty == 5 {
        Ok(SpecTlv::SystemName(text_of(p)))
    } else if ty == 6 {
        Ok(SpecTlv::SystemDescription(text_of(p)))
    } else if ty == 7 {
        match parse_capabilities(p) {
            Ok(c) => Ok(SpecTlv::Capabilities(c)),
            Err(e) => Err(e),
        }
    } else if ty == 8 {
        match parse_management_address(p) {
            Ok(c) => Ok(SpecTlv::ManagementAddress(c)),
            Err(e) => Err(e),
        }
    } else if ty == 127 {
        match parse_org_tlv(p) {
            Ok(c) => Ok(SpecTlv::Org(c)),
            Err(e) => Err(e),
        }
    } else {
        Err(TlvDecodeError::UnknownTlv(ty))
    }
}

pub open spec fn tlv_payload(t: SpecTlv) -> Seq<u8> {
    match t {
        SpecTlv::End => Seq::empty(),
        SpecTlv::ChassisId(c) => serialize_chassis_id(c),
        SpecTlv::PortId(p) => serialize_port_id(p),
        SpecTlv::TimeToLive(v) => be16_bytes(v),
        SpecTlv::PortDescription(s) => encode_utf8(s),
        SpecTlv::SystemName(s) => encode_utf8(s),
        SpecTlv::SystemDescription(s) => encode_utf8(s),
        SpecTlv::Capabilities(c) => serialize_capabilities(c),
        SpecTlv::ManagementAddress(m) => serialize_management_address(m),
        SpecTlv::Org(o) => serialize_org_tlv(o),
    }
}

/// The two header bytes: type in the top 7 bits, payload length in the
/// bottom 9, big-endian.
pub open spec fn tlv_header(ty: u8, len: nat) -> Seq<u8> {
    seq![(ty as int * 2 + len as int / 256) as u8, (len % 256) as u8]
}

pub open spec fn serialize_tlv(t: SpecTlv) -> Seq<u8> {
    tlv_header(tlv_kind_code(spec_tlv_kind(t)), tlv_payload(t).len()) + tlv_payload(t)
}

/// The elements that encode to a form that decodes back to them: each part
/// well formed and the payload at most 511 bytes.
pub open spec fn wf_tlv(t: SpecTlv) -> bool {
    &&& tlv_payload(t).len() <= 511
    &&& match t {
        SpecTlv::ChassisId(c) => wf_chassis_id(c),
        SpecTlv::PortId(p) => wf_port_id(p),
        SpecTlv::ManagementAddress(m) => wf_management_address(m),
        SpecTlv::Org(o) => wf_org_tlv(o),
        _ => true,
    }
}

/// The type code in an element header.
pub open spec fn raw_type(b: Seq<u8>) -> u8 {
    b[0] / 2
}

/// The payload length in an element header.
pub open spec fn raw_len(b: Seq<u8>) -> nat {
    ((b[0] % 2) as nat) * 256 + b[1] as nat
}

/// Whether `b` begins with a whole element: a header and the payload
/// length it declares.
pub open spec fn frames(b: Seq<u8>) -> bool {
    b.len() >= 2 && b.len() >= 2 + raw_len(b)
}

/// What a scan of a payload yields: the elements that decoded, the errors
/// of those that did not, the bytes framed, and the framing error that
/// stopped the scan, if one did.
pub struct SpecTlvList {
    pub tlvs: Seq<SpecTlv>,
    pub errors: Seq<TlvDecodeError>,
    pub end_len: nat,
    pub critical_error: Option<RawTlvError>,
}

/// Elements are framed one after another until the buffer is used up or a
/// header declares more bytes than remain; an element whose payload does
/// not decode is recorded as an error and skipped.
pub open spec fn scan(b: Seq<u8>) -> SpecTlvList
    decreases b.len(),
{
    if b.len() == 0 {
        SpecTlvList { tlvs: Seq::empty(), errors: Seq::empty(), end_len: 0, critical_error: None }
    } else if !frames(b) {
        SpecTlvList {
            tlvs: Seq::empty(),
            errors: Seq::empty(),
            end_len: 0,
            critical_error: Some(RawTlvError::BufferTooShort),
        }
    } else {
        let n = 2 + raw_len(b);
        let rest = scan(b.skip(n as int));
        match parse_tlv(raw_type(b), b.subrange(2, n as int)) {
            Ok(t) => SpecTlvList { tlvs: seq![t] + rest.tlvs, end_len: n + rest.end_len, ..rest },
            Err(e) => SpecTlvList {
                errors: seq![e] + rest.errors,
                end_len: n + rest.end_len,
                ..rest
            },
        }
    }
}

/// The elements of a payload, or the framing error that makes the rest of
/// it unreadable.
pub open spec fn spec_decode_list(b: Seq<u8>) -> Result<Seq<SpecTlv>, RawTlvError> {
    match scan(b).critical_error {
        Some(e) => Err(e),
        None => Ok(scan(b).tlvs),
    }
}

pub open spec fn serialize_tlvs(ts: Seq<SpecTlv>) -> Seq<u8>
    decreases ts.len(),
{
    if ts.len() == 0 {
        Seq::empty()
    } else {
        serialize_tlv(ts[0]) + serialize_tlvs(ts.drop_first())
    }
}

pub proof fn lemma_tlv_payload_round_trip(t: SpecTlv)
    requires
        wf_tlv(t),
    ensures
        parse_tlv(tlv_kind_code(spec_tlv_kind(t)), tlv_payload(t)) == Ok::<_, TlvDecodeError>(t),
{
    match t {
        SpecTlv::ChassisId(c) => lemma_chassis_id_round_trip(c),
        SpecTlv::PortId(p) => lemma_port_id_round_trip(p),
        SpecTlv::TimeToLive(v) => lemma_be16_round_trip(v),
        SpecTlv::PortDescription(s) => lemma_text_round_trip(s),
        SpecTlv::SystemName(s) => lemma_text_round_trip(s),
        SpecTlv::SystemDescription(s) => lemma_text_round_trip(s),
        SpecTlv::Capabilities(c) => lemma_capabilities_round_trip(c),
        SpecTlv::ManagementAddress(m) => lemma_management_address_round_trip(m),
        SpecTlv::Org(o) => lemma_org_tlv_round_trip(o),
        SpecTlv::End => {},
    }
}

/// Scanning an encoded element followed by anything yields that element
/// followed by what the rest yields.
pub proof fn lemma_scan_serialized(t: SpecTlv, rest: Seq<u8>)
    requires
        wf_tlv(t),
    ensures
        scan(serialize_tlv(t) + rest) == (SpecTlvList {
            tlvs: seq![t] + scan(rest).tlvs,
            end_len: serialize_tlv(t).len() + scan(rest).end_len,
            ..scan(rest)
        }),
{
    let p = tlv_payload(t);
    let code = tlv_kind_code(spec_tlv_kind(t));
    let b = serialize_tlv(t) + rest;
    assert(code <= 127);
    assert(raw_type(b) == code);
    assert(raw_len(b) == p.len());
    assert(frames(b));
    assert(b.subrange(2, 2 + p.len() as int) =~= p);
    assert(b.skip(2 + p.len() as int) =~= rest);
    lemma_tlv_payload_round_trip(t);
}

/// Round trip of elements: any sequence of well-formed elements, encoded
/// one after another, decodes back to the same sequence.
pub proof fn lemma_tlvs_round_trip(ts: Seq<SpecTlv>)
    requires
        forall|i: int| 0 <= i < ts.len() ==> wf_tlv(#[trigger] ts[i]),
    ensures
        spec_decode_list(serialize_tlvs(ts)) == Ok::<_, RawTlvError>(ts),
        scan(serialize_tlvs(ts)).errors.len() == 0,
    decreases ts.len(),
{
    if ts.len() == 0 {
        assert(serialize_tlvs(ts) =~= Seq::<u8>::empty());
        assert(ts =~= Seq::<SpecTlv>::empty());
    } else {
        let rest = ts.drop_first();
        assert forall|i: int| 0 <= i < rest.len() implies wf_tlv(#[trigger] rest[i]) by {
            assert(rest[i] == ts[i + 1]);
        }
        lemma_tlvs_round_trip(rest);
        lemma_scan_serialized(ts[0], serialize_tlvs(rest));
        assert(seq![ts[0]] + rest =~= ts);
    }
}

pub proof fn lemma_serialize_tlvs_concat(a: Seq<SpecTlv>, b: Seq<SpecTlv>)
    ensures
        serialize_tlvs(a + b) == serialize_tlvs(a) + serialize_tlvs(b),
    decreases a.len(),
{
    if a.len() == 0 {
        assert(a + b =~= b);
        assert(serialize_tlvs(a) + serialize_tlvs(b) =~= serialize_tlvs(b));
    } else {
        assert((a + b).drop_first() =~= a.drop_first() + b);
        lemma_serialize_tlvs_concat(a.drop_first(), b);
        assert(serialize_tlvs(a + b) =~= serialize_tlvs(a) + serialize_tlvs(b));
    }
}

pub proof fn lemma_serialize_tlvs_one(t: SpecTlv)
    ensures
        serialize_tlvs(seq![t]) == serialize_tlv(t),
{
    assert(serialize_tlvs(seq![t].drop_first()) == Seq::<u8>::empty());
    assert(serialize_tlv(t) + Seq::<u8>::empty() =~= serialize_tlv(t));
}

/// Round trip of one element: a well-formed element decodes back from its
/// encoding.
pub proof fn lemma_tlv_round_trip(t: SpecTlv)
    requires
        wf_tlv(t),
    ensures
        spec_decode_list(serialize_tlv(t)) == Ok::<_, RawTlvError>(seq![t]),
{
    lemma_tlvs_round_trip(seq![t]);
    assert(serialize_tlvs(seq![t]) =~= serialize_tlv(t) + serialize_tlvs(seq![t].drop_first()));
    assert(serialize_tlvs(seq![t].drop_first()) =~= Seq::<u8>::empty());
    assert(serialize_tlv(t) + Seq::<u8>::empty() =~= serialize_tlv(t));
}

/// Truncation: a payload one byte shorter than a fixed length is too
/// short, one byte longer is too long (time to live, capabilities, and the
/// 802.1 port VLAN id and 802.3 MAC/PHY status bodies).
pub proof fn lemma_fixed_length_errors(p: Seq<u8>)
    ensures
        p.len() == 1 ==> parse_tlv(3, p) == Err::<SpecTlv, _>(TlvDecodeError::BufferTooShort),
        p.len() == 3 ==> parse_tlv(3, p) == Err::<SpecTlv, _>(TlvDecodeError::BufferTooLong),
        p.len() == 3 ==> parse_tlv(7, p) == Err::<SpecTlv, _>(TlvDecodeError::BufferTooShort),
        p.len() == 5 ==> parse_tlv(7, p) == Err::<SpecTlv, _>(TlvDecodeError::BufferTooLong),
        p.len() == 1 ==> org::dot1::parse(1, p) == Err::<org::dot1::SpecTlv, _>(
            TlvDecodeError::BufferTooShort,
        ),
        p.len() == 3 ==> org::dot1::parse(1, p) == Err::<org::dot1::SpecTlv, _>(
            TlvDecodeError::BufferTooLong,
        ),
        p.len() == 4 ==> org::dot3::parse(1, p) == Err::<org::dot3::Tlv, _>(
            TlvDecodeError::BufferTooShort,
        ),
        p.len() == 6 ==> org::dot3::parse(1, p) == Err::<org::dot3::Tlv, _>(
            TlvDecodeError::BufferTooLong,
        ),
{
}

/// Organization fallback for a whole element: an element of type 127 whose
/// payload names an organization not understood here decodes to a custom
/// element that encodes back to the same bytes.
pub proof fn lemma_custom_org_element_round_trip(b: Seq<u8>)
    requires
        frames(b),
        b.len() == 2 + raw_len(b),
        raw_type(b) == 127,
        raw_len(b) >= 4,
        b.subrange(2, 5) != org::dot1_oui(),
        b.subrange(2, 5) != org::dot3_oui(),
    ensures
        spec_decode_list(b) matches Ok(ts) && (ts.len() == 1 && (ts[0] matches SpecTlv::Org(o)
            && o is Custom) && serialize_tlv(ts[0]) == b),
{
    let p = b.subrange(2, b.len() as int);
    assert(p.take(3) =~= b.subrange(2, 5));
    org::lemma_custom_org_round_trip(p);
    assert(b.skip(b.len() as int) =~= Seq::<u8>::empty());
    let t = SpecTlv::Org(parse_org_tlv(p)->Ok_0);
    assert(parse_tlv(raw_type(b), b.subrange(2, 2 + raw_len(b) as int)) == Ok::<_, TlvDecodeError>(t));
    let e = scan(b.skip(2 + raw_len(b) as int));
    assert(e.tlvs.len() == 0 && e.critical_error is None);
    assert(scan(b).tlvs == seq![t] + e.tlvs);
    assert(seq![t] + e.tlvs =~= seq![t]);
    assert(tlv_payload(t) =~= p);
    assert(serialize_tlv(t) =~= b);
}

/// The header and payload of one element, borrowed from the buffer.
#[derive(Clone, Copy, Debug)]
pub struct RawTlv<'a> {
    pub ty: u8,
    pub payload: &'a [u8],
}

impl<'a> RawTlv<'a> {
    pub fn total_len(&self) -> (r: usize)
        requires
            self.payload@.len() <= 511,
        ensures
            r == self.payload@.len() + 2,
    {
        self.payload.len() + 2
    }

    pub fn decode(buf: &'a [u8]) -> (r: Result<Self, RawTlvError>)
        ensures
            frames(buf@) <==> r is Ok,
            r matches Ok(raw) ==> raw.ty == raw_type(buf@) && raw.payload@ == buf@.subrange(
                2,
                2 + raw_len(buf@) as int,
            ),
            r matches Err(e) ==> e == RawTlvError::BufferTooShort,
    {
        if buf.len() < 2 {
            return Err(RawTlvError::BufferTooShort);
        }
        let payload_ty = buf[0] / 2;
        let payload_len = ((buf[0] % 2) as usize) * 256 + buf[1] as usize;
        if buf.len() < payload_len + 2 {
            return Err(RawTlvError::BufferTooShort);
        }
        let payload = vstd::slice::slice_subrange(buf, 2, 2 + payload_len);
        Ok(RawTlv { ty: payload_ty, payload })
    }
}

impl Tlv {
    pub fn kind(&self) -> (r: TlvKind)
        ensures
            r == spec_tlv_kind(self@),
    {
        match self {
            Self::End => TlvKind::End,
            Self::ChassisId(_) => TlvKind::ChassisId,
            Self::PortId(_) => TlvKind::PortId,
            Self::TimeToLive(_) => TlvKind::TimeToLive,
            Self::PortDescription(_) => TlvKind::PortDescription,
            Self::SystemName(_) => TlvKind::SystemName,
            Self::SystemDescription(_) => TlvKind::SystemDescription,
            Self::Capabilities(_) => TlvKind::Capabilities,
            Self::ManagementAddress(_) => TlvKind::ManagementAddress,
            Self::Org(_) => TlvKind::Org,
        }
    }

    /// The value with no borrowed parts; every part of it is owned already.
    pub fn into_static(self) -> (r: Self)
        ensures
            r == self,
    {
        self
    }

    /// An owned copy of the value.
    pub fn to_static(&self) -> (r: Self)
        ensures
            r@ == self@,
    {
        match self {
            Self::End => Self::End,
            Self::ChassisId(x) => Self::ChassisId(x.copy()),
            Self::PortId(x) => Self::PortId(x.copy()),
            Self::TimeToLive(x) => Self::TimeToLive(*x),
            Self::PortDescription(x) => Self::PortDescription(x.clone()),
            Self::SystemName(x) => Self::SystemName(x.clone()),
            Self::SystemDescription(x) => Self::SystemDescription(x.clone()),
            Self::Capabilities(x) => Self::Capabilities(*x),
            Self::ManagementAddress(x) => Self::ManagementAddress(x.copy()),
            Self::Org(x) => Self::Org(x.copy()),
        }
    }

    pub fn decode(raw: RawTlv) -> (r: Result<Self, TlvDecodeError>)
        ensures
            decodes_as(r, parse_tlv(raw.ty, raw.payload@)),
    {
        let kind = match TlvKind::try_from_code(raw.ty) {
            Ok(k) => k,
            Err(x) => return Err(TlvDecodeError::UnknownTlv(x)),
        };
        let p = raw.payload;
        match kind {
            TlvKind::End => {
                if p.len() > 0 {
                    Err(TlvDecodeError::BytesAfterEnd)
                } else {
                    Ok(Tlv::End)
                }
            },
            TlvKind::ChassisId => match ChassisId::decode(p) {
                Ok(x) => Ok(Tlv::ChassisId(x)),
                Err(e) => Err(e),
            },
            TlvKind::PortId => match PortId::decode(p) {
                Ok(x) => Ok(Tlv::PortId(x)),
                Err(e) => Err(e),
            },
            TlvKind::TimeToLive => {
                if p.len() > 2 {
                    Err(TlvDecodeError::BufferTooLong)
                } else if p.len() < 2 {
                    Err(TlvDecodeError::BufferTooShort)
                } else {
                    Ok(Tlv::TimeToLive(read_be16(p, 0)))
                }
            },
            TlvKind::PortDescription => Ok(Tlv::PortDescription(decode_text(p))),
            TlvKind::SystemName => Ok(Tlv::SystemName(decode_text(p))),
            TlvKind::SystemDescription => Ok(Tlv::SystemDescription(decode_text(p))),
            TlvKind::Capabilities => match Capabilities::decode(p) {
                Ok(x) => Ok(Tlv::Capabilities(x)),
                Err(e) => Err(e),
            },
            TlvKind::ManagementAddress => match ManagementAddress::decode(p) {
                Ok(x) => Ok(Tlv::ManagementAddress(x)),
                Err(e) => Err(e),
            },
            TlvKind::Org => match OrgTlv::decode(p) {
                Ok(x) => Ok(Tlv::Org(x)),
                Err(e) => Err(e),
            },
        }
    }

    /// Appends the payload alone.
    fn encode_payload(&self, buf: &mut Vec<u8>)
        requires
            wf_tlv(self@),
        ensures
            final(buf)@ == old(buf)@ + tlv_payload(self@),
    {
        let ghost start = buf@;
        match self {
            Self::End => {},
            Self::ChassisId(x) => x.encode(buf),
            Self::PortId(x) => x.encode(buf),
            Self::TimeToLive(x) => push_be16(buf, *x),
            Self::PortDescription(x) => push_bytes(buf, text_bytes(x)),
            Self::SystemName(x) => push_bytes(buf, text_bytes(x)),
            Self::SystemDescription(x) => push_bytes(buf, text_bytes(x)),
            Self::Capabilities(x) => x.encode(buf),
            Self::ManagementAddress(x) => x.encode(buf),
            Self::Org(x) => x.encode(buf),
        }
        assert(buf@ =~= start + tlv_payload(self@));
    }

    pub fn encoded_size(&self) -> (r: usize)
        requires
            wf_tlv(self@),
        ensures
            r == serialize_tlv(self@).len(),
    {
        let size = match self {
            Self::End => 0,
            Self::ChassisId(x) => x.encoded_size(),
            Self::PortId(x) => x.encoded_size(),
            Self::TimeToLive(_) => 2,
            Self::PortDescription(x) => text_bytes(x).len(),
            Self::SystemName(x) => text_bytes(x).len(),
            Self::SystemDescription(x) => text_bytes(x).len(),
            Self::Capabilities(x) => x.encoded_size(),
            Self::ManagementAddress(x) => x.encoded_size(),
            Self::Org(x) => x.encoded_size(),
        };
        size + 2
    }

    pub fn encode(&self, buf: &mut Vec<u8>)
        requires
            wf_tlv(self@),
        ensures
            final(buf)@ == old(buf)@ + serialize_tlv(self@),
    {
        let ghost start = buf@;
        let mut payload: Vec<u8> = Vec::new();
        self.encode_payload(&mut payload);
        let len = payload.len();
        let code = self.kind().code();
        buf.push(code * 2 + (len / 256) as u8);
        buf.push((len % 256) as u8);
        push_bytes(buf, payload.as_slice());
        assert(buf@ =~= start + serialize_tlv(self@));
    }
}

/// The elements of a payload with the errors met on the way.
#[derive(Clone, Debug)]
pub struct TlvList {
    pub tlvs: Vec<Tlv>,
    pub errors: Vec<TlvDecodeError>,
    pub end_len: usize,
    pub critical_error: Option<RawTlvError>,
}

impl View for TlvList {
    type V = SpecTlvList;

    open spec fn view(&self) -> SpecTlvList {
        SpecTlvList {
            tlvs: self.tlvs@.map_values(|t: Tlv| t@),
            errors: self.errors@,
            end_len: self.end_len as nat,
            critical_error: self.critical_error,
        }
    }
}

impl TlvList {
    pub fn decode(buf: &[u8]) -> (r: Self)
        ensures
            r@ == scan(buf@),
    {
        let mut list = TlvList {
            tlvs: Vec::new(),
            errors: Vec::new(),
            end_len: 0,
            critical_error: None,
        };
        let mut pos: usize = 0;
        assert(buf@.skip(0) =~= buf@);
        assert(list@.tlvs + scan(buf@).tlvs =~= scan(buf@).tlvs);
        assert(list@.errors + scan(buf@).errors =~= scan(buf@).errors);
        while pos < buf.len()
            invariant
                pos <= buf@.len(),
                list.critical_error is None,
                list.end_len == pos,
                scan(buf@) == (SpecTlvList {
                    tlvs: list@.tlvs + scan(buf@.skip(pos as int)).tlvs,
                    errors: list@.errors + scan(buf@.skip(pos as int)).errors,
                    end_len: pos as nat + scan(buf@.skip(pos as int)).end_len,
                    critical_error: scan(buf@.skip(pos as int)).critical_error,
                }),
            decreases buf@.len() - pos,
        {
            let rest = vstd::slice::slice_subrange(buf, pos, buf.len());
            assert(rest@ =~= buf@.skip(pos as int));
            match RawTlv::decode(rest) {
                Ok(raw) => {
                    let n = raw.total_len();
                    let ghost old_tlvs = list@.tlvs;
                    let ghost old_errors = list@.errors;
                    assert(rest@.skip(n as int) =~= buf@.skip(pos + n));
                    match Tlv::decode(raw) {
                        Ok(tlv) => {
                            list.tlvs.push(tlv);
                            assert(list@.tlvs =~= old_tlvs + seq![tlv@]);
                        },
                        Err(err) => {
                            list.errors.push(err);
                        },
                    }
                    pos = pos + n;
                    list.end_len = pos;
                    assert(list@.tlvs + scan(buf@.skip(pos as int)).tlvs =~= old_tlvs + scan(
                        rest@,
                    ).tlvs);
                    assert(list@.errors + scan(buf@.skip(pos as int)).errors =~= old_errors
                        + scan(rest@).errors);
                },
                Err(err) => {
                    list.critical_error = Some(err);
                    return list;
                },
            }
        }
        assert(buf@.skip(pos as int) =~= Seq::<u8>::empty());
        assert(list@.tlvs + Seq::<SpecTlv>::empty() =~= list@.tlvs);
        assert(list@.errors + Seq::<TlvDecodeError>::empty() =~= list@.errors);
        list
    }
}

/// The elements of a payload; elements that do not decode are left out.
pub fn decode_list(buf: &[u8]) -> (r: Result<Vec<Tlv>, RawTlvError>)
    ensures
        match spec_decode_list(buf@) {
            Ok(ts) => r matches Ok(v) && v@.map_values(|t: Tlv| t@) == ts,
            Err(e) => r == Err::<Vec<Tlv>, _>(e),
        },
{
    let list = TlvList::decode(buf);
    match list.critical_error {
        Some(e) => Err(e),
        None => Ok(list.tlvs),
    }
}

} // verus!
