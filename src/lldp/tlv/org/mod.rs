//! Organizationally specific elements: the first three payload bytes name
//! the organization, the fourth the subtype within it.
use vstd::prelude::*;

use crate::lldp::tlv::TlvDecodeError;
use crate::wire::{copy_range, push_bytes, read_array};

pub mod dot1;
pub mod dot3;

verus! {

/// The identifier of the IEEE 802.1 organization.
pub open spec fn dot1_oui() -> Seq<u8> {
    seq![0x00u8, 0x80u8, 0xc2u8]
}

/// The identifier of the IEEE 802.3 organization.
pub open spec fn dot3_oui() -> Seq<u8> {
    seq![0x00u8, 0x12u8, 0x0fu8]
}

/// An organizationally specific element: one of the two organizations
/// understood here, or any other carried as it came.
#[derive(Clone, PartialEq, Eq, Hash, Debug)]
pub enum OrgTlv {
    Dot1(dot1::Tlv),
    Dot3(dot3::Tlv),
    Custom(CustomOrgTlv),
}

/// An element of an organization not understood here: its identifier,
/// subtype and body, kept so that it encodes back unchanged.
#[derive(Clone, PartialEq, Eq, Hash, Debug)]
pub struct CustomOrgTlv {
    pub org: [u8; 3],
    pub subtype: u8,
    pub data: Vec<u8>,
}

pub struct SpecCustomOrgTlv {
    pub org: Seq<u8>,
    pub subtype: u8,
    pub data: Seq<u8>,
}

pub enum SpecOrgTlv {
    Dot1(dot1::SpecTlv),
    Dot3(dot3::Tlv),
    Custom(SpecCustomOrgTlv),
}

impl View for CustomOrgTlv {
    type V = SpecCustomOrgTlv;

    open spec fn view(&self) -> SpecCustomOrgTlv {
        SpecCustomOrgTlv { org: self.org@, subtype: self.subtype, data: self.data@ }
    }
}

impl View for OrgTlv {
    type V = SpecOrgTlv;

    open spec fn view(&self) -> SpecOrgTlv {
        match self {
            OrgTlv::Dot1(t) => SpecOrgTlv::Dot1(t@),
            OrgTlv::Dot3(t) => SpecOrgTlv::Dot3(*t),
            OrgTlv::Custom(c) => SpecOrgTlv::Custom(c@),
        }
    }
}

pub open spec fn spec_org(o: SpecOrgTlv) -> Seq<u8> {
    match o {
        SpecOrgTlv::Dot1(_) => dot1_oui(),
        SpecOrgTlv::Dot3(_) => dot3_oui(),
        SpecOrgTlv::Custom(c) => c.org,
    }
}

/// Wire form `[organization, 3 bytes][subtype][body]`. The two known
/// organizations decode their subtypes; any other organization's element is
/// captured whole.
pub open spec fn parse_org_tlv(b: Seq<u8>) -> Result<SpecOrgTlv, TlvDecodeError> {
    if b.len() < 4 {
        Err(TlvDecodeError::BufferTooShort)
    } else {
        let org = b.take(3);
        let body = b.skip(4);
        if org == dot1_oui() {
            match dot1::parse(b[3], body) {
                Ok(t) => Ok(SpecOrgTlv::Dot1(t)),
                Err(e) => Err(e),
            }
        } else if org == dot3_oui() {
            match dot3::parse(b[3], body) {
                Ok(t) => Ok(SpecOrgTlv::Dot3(t)),
                Err(e) => Err(e),
            }
        } else {
            Ok(SpecOrgTlv::Custom(SpecCustomOrgTlv { org, subtype: b[3], data: body }))
        }
    }
}

pub open spec fn serialize_org_tlv(o: SpecOrgTlv) -> Seq<u8> {
    spec_org(o) + match o {
        SpecOrgTlv::Dot1(t) => dot1::serialize(t),
        SpecOrgTlv::Dot3(t) => dot3::serialize(t),
        SpecOrgTlv::Custom(c) => seq![c.subtype] + c.data,
    }
}

/// The elements that encode to a form that decodes back to them: a custom
/// element names an organization other than the two understood here.
pub open spec fn wf_org_tlv(o: SpecOrgTlv) -> bool {
    match o {
        SpecOrgTlv::Dot1(t) => dot1::wf(t),
        SpecOrgTlv::Dot3(t) => dot3::wf(t),
        SpecOrgTlv::Custom(c) => c.org.len() == 3 && c.org != dot1_oui() && c.org != dot3_oui(),
    }
}

pub proof fn lemma_org_tlv_round_trip(o: SpecOrgTlv)
    requires
        wf_org_tlv(o),
    ensures
        parse_org_tlv(serialize_org_tlv(o)) == Ok::<_, TlvDecodeError>(o),
{
    let b = serialize_org_tlv(o);
    assert(b.take(3) =~= spec_org(o));
    match o {
        SpecOrgTlv::Dot1(t) => {
            assert(dot1_oui() != dot3_oui());
            dot1::lemma_round_trip(t);
            assert(b.skip(3) =~= dot1::serialize(t));
            assert(b.skip(4) =~= dot1::serialize(t).skip(1));
        },
        SpecOrgTlv::Dot3(t) => {
            assert(dot1_oui()[1] != dot3_oui()[1]);
            dot3::lemma_round_trip(t);
            assert(b.skip(3) =~= dot3::serialize(t));
            assert(b.skip(4) =~= dot3::serialize(t).skip(1));
        },
        SpecOrgTlv::Custom(c) => {
            assert(b.skip(4) =~= c.data);
        },
    }
}

/// Organization fallback: the payload of an element of any organization
/// not understood here decodes to a custom element, which encodes back to
/// the same bytes.
pub proof fn lemma_custom_org_round_trip(b: Seq<u8>)
    requires
        b.len() >= 4,
        b.take(3) != dot1_oui(),
        b.take(3) != dot3_oui(),
    ensures
        parse_org_tlv(b) matches Ok(o) && o is Custom && wf_org_tlv(o) && serialize_org_tlv(o) == b,
{
    let o = SpecOrgTlv::Custom(SpecCustomOrgTlv { org: b.take(3), subtype: b[3], data: b.skip(4) });
    assert(serialize_org_tlv(o) =~= b);
}

impl OrgTlv {
    /// The identifier of the element's organization.
    pub fn org(&self) -> (r: [u8; 3])
        ensures
            r@ == spec_org(self@),
    {
        match self {
            Self::Dot1(_) => {
                let mut r = [0u8; 3];
                r[1] = 0x80;
                r[2] = 0xc2;
                assert(r@ =~= dot1_oui());
                r
            },
            Self::Dot3(_) => {
                let mut r = [0u8; 3];
                r[1] = 0x12;
                r[2] = 0x0f;
                assert(r@ =~= dot3_oui());
                r
            },
            Self::Custom(c) => c.org,
        }
    }

    /// The value with no borrowed parts; every part of it is owned already.
    pub fn to_static(self) -> (r: Self)
        ensures
            r == self,
    {
        self
    }

    /// An owned copy.
    pub fn copy(&self) -> (r: Self)
        ensures
            r@ == self@,
    {
        match self {
            Self::Dot1(t) => Self::Dot1(t.copy()),
            Self::Dot3(t) => Self::Dot3(*t),
            Self::Custom(c) => Self::Custom(c.copy()),
        }
    }

    pub fn decode(buf: &[u8]) -> (r: Result<Self, TlvDecodeError>)
        ensures
            crate::wire::decodes_as(r, parse_org_tlv(buf@)),
    {
        if buf.len() < 4 {
            return Err(TlvDecodeError::BufferTooShort);
        }
        let org: [u8; 3] = read_array(buf, 0);
        let subtype = buf[3];
        let body = vstd::slice::slice_subrange(buf, 4, buf.len());
        assert(body@ =~= buf@.skip(4));
        assert(org@ =~= buf@.take(3));
        if org[0] == 0x00 && org[1] == 0x80 && org[2] == 0xc2 {
            assert(org@ =~= dot1_oui());
            match dot1::Tlv::decode(subtype, body) {
                Ok(t) => Ok(OrgTlv::Dot1(t)),
                Err(e) => Err(e),
            }
        } else if org[0] == 0x00 && org[1] == 0x12 && org[2] == 0x0f {
            assert(org@ =~= dot3_oui());
            match dot3::Tlv::decode(subtype, body) {
                Ok(t) => Ok(OrgTlv::Dot3(t)),
                Err(e) => Err(e),
            }
        } else {
            assert(org@ != dot1_oui() && org@ != dot3_oui()) by {
                if org@ == dot1_oui() {
                    assert(org@[1] == 0x80);
                }
                if org@ == dot3_oui() {
                    assert(org@[1] == 0x12);
                }
            }
            let data = copy_range(body, 0, body.len());
            assert(data@ =~= body@);
            Ok(OrgTlv::Custom(CustomOrgTlv { org, subtype, data }))
        }
    }

    pub fn encoded_size(&self) -> (r: usize)
        requires
            wf_org_tlv(self@),
            serialize_org_tlv(self@).len() <= 511,
        ensures
            r == serialize_org_tlv(self@).len(),
    {
        let size = match self {
            Self::Dot1(x) => x.encoded_size(),
            Self::Dot3(x) => x.encoded_size(),
            Self::Custom(x) => x.encoded_size(),
        };
        size + 3
    }

    pub fn encode(&self, buf: &mut Vec<u8>)
        requires
            wf_org_tlv(self@),
        ensures
            final(buf)@ == old(buf)@ + serialize_org_tlv(self@),
    {
        let ghost start = buf@;
        let org = self.org();
        push_bytes(buf, org.as_slice());
        match self {
            Self::Dot1(x) => x.encode(buf),
            Self::Dot3(x) => x.encode(buf),
            Self::Custom(x) => x.encode(buf),
        }
        assert(buf@ =~= start + serialize_org_tlv(self@));
    }
}

impl CustomOrgTlv {
    /// The value with no borrowed parts; every part of it is owned already.
    pub fn to_static(self) -> (r: Self)
        ensures
            r == self,
    {
        self
    }

    /// An owned copy.
    pub fn copy(&self) -> (r: Self)
        ensures
            r@ == self@,
    {
        let data = copy_range(self.data.as_slice(), 0, self.data.len());
        assert(data@ =~= self.data@);
        CustomOrgTlv { org: self.org, subtype: self.subtype, data }
    }

    /// The size of the subtype and body.
    pub fn encoded_size(&self) -> (r: usize)
        requires
            self.data@.len() < 0x10000,
        ensures
            r == self.data@.len() + 1,
    {
        self.data.len() + 1
    }

    /// Appends the subtype and the body.
    pub fn encode(&self, buf: &mut Vec<u8>)
        ensures
            final(buf)@ == old(buf)@ + seq![self.subtype] + self.data@,
    {
        let ghost start = buf@;
        buf.push(self.subtype);
        push_bytes(buf, self.data.as_slice());
        assert(buf@ =~= start + seq![self.subtype] + self.data@);
    }
}

} // verus!
