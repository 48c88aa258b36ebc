//! Assembly of an LLDP data unit from its elements, and its encoding.
use vstd::prelude::*;

use super::tlv::org::dot1;
use super::tlv::org::dot3::{self, MacPhyStatus};
use super::tlv::org::{OrgTlv, SpecOrgTlv};
use super::tlv::{
    decode_list, lemma_serialize_tlvs_concat, lemma_serialize_tlvs_one, lemma_tlvs_round_trip, serialize_tlvs, spec_decode_list, wf_tlv,
    Capabilities, ChassisId, ManagementAddress, PortId, RawTlvError, SpecChassisId,
    SpecManagementAddress, SpecPortId, SpecTlv, Tlv,
};
use crate::wire::{decodes_as, opt_view};

verus! {

/// Why a payload yields no data unit.
#[derive(Clone, Copy, PartialEq, Eq, Structural, Debug)]
pub enum DataUnitError {
    MissingChassisId,
    MissingPortId,
    MissingTimeToLive,
    RawTlvError(RawTlvError),
}

/// A field that a second element of its kind replaced.
#[derive(Clone, Copy, PartialEq, Eq, Structural, Hash, Debug)]
pub enum DuplicateField {
    ChassisId,
    PortId,
    TimeToLive,
    PortDescription,
    SystemName,
    SystemDescription,
    Capabilities,
    PortVlanId,
    MacPhyStatus,
}

/// The 802.1 fields of a data unit.
#[derive(Clone, PartialEq, Eq, Hash, Debug, Default)]
pub struct Dot1 {
    pub port_vlan_id: Option<u16>,
    pub vlan_name: Vec<(u16, String)>,
}

/// The 802.3 fields of a data unit.
#[derive(Clone, Copy, PartialEq, Eq, Structural, Hash, Debug, Default)]
pub struct Dot3 {
    pub mac_phy_status: Option<MacPhyStatus>,
}

/// The organizationally specific fields of a data unit.
#[derive(Clone, PartialEq, Eq, Hash, Debug, Default)]
pub struct Org {
    pub dot1: Dot1,
    pub dot3: Dot3,
}

/// One assembled LLDP message.
#[derive(Clone, PartialEq, Eq, Hash, Debug)]
pub struct DataUnit {
    pub chassis_id: ChassisId,
    pub port_id: PortId,
    pub time_to_live: u16,
    pub port_description: Option<String>,
    pub system_name: Option<String>,
    pub system_description: Option<String>,
    pub capabilities: Option<Capabilities>,
    pub management_address: Vec<ManagementAddress>,
    pub org: Org,
}

pub struct SpecDot1 {
    pub port_vlan_id: Option<u16>,
    pub vlan_name: Seq<(u16, Seq<char>)>,
}

pub struct SpecOrg {
    pub dot1: SpecDot1,
    pub dot3: Dot3,
}

pub struct SpecDataUnit {
    pub chassis_id: SpecChassisId,
    pub port_id: SpecPortId,
    pub time_to_live: u16,
    pub port_description: Option<Seq<char>>,
    pub system_name: Option<Seq<char>>,
    pub system_description: Option<Seq<char>>,
    pub capabilities: Option<Capabilities>,
    pub management_address: Seq<SpecManagementAddress>,
    pub org: SpecOrg,
}

pub open spec fn vlan_names_view(v: Seq<(u16, String)>) -> Seq<(u16, Seq<char>)> {
    v.map_values(|p: (u16, String)| (p.0, p.1@))
}

pub open spec fn management_addresses_view(v: Seq<ManagementAddress>) -> Seq<
    SpecManagementAddress,
> {
    v.map_values(|m: ManagementAddress| m@)
}

pub open spec fn tlvs_view(v: Seq<Tlv>) -> Seq<SpecTlv> {
    v.map_values(|t: Tlv| t@)
}

impl View for Dot1 {
    type V = SpecDot1;

    open spec fn view(&self) -> SpecDot1 {
        SpecDot1 { port_vlan_id: self.port_vlan_id, vlan_name: vlan_names_view(self.vlan_name@) }
    }
}

impl View for Org {
    type V = SpecOrg;

    open spec fn view(&self) -> SpecOrg {
        SpecOrg { dot1: self.dot1@, dot3: self.dot3 }
    }
}

impl View for DataUnit {
    type V = SpecDataUnit;

    open spec fn view(&self) -> SpecDataUnit {
        SpecDataUnit {
            chassis_id: self.chassis_id@,
            port_id: self.port_id@,
            time_to_live: self.time_to_live,
            port_description: opt_view(self.port_description),
            system_name: opt_view(self.system_name),
            system_description: opt_view(self.system_description),
            capabilities: self.capabilities,
            management_address: management_addresses_view(self.management_address@),
            org: self.org@,
        }
    }
}

/// The fields gathered so far while the elements of a message are read.
pub struct SpecAccumulator {
    pub chassis_id: Option<SpecChassisId>,
    pub port_id: Option<SpecPortId>,
    pub time_to_live: Option<u16>,
    pub port_description: Option<Seq<char>>,
    pub system_name: Option<Seq<char>>,
    pub system_description: Option<Seq<char>>,
    pub capabilities: Option<Capabilities>,
    pub management_address: Seq<SpecManagementAddress>,
    pub org: SpecOrg,
}

pub open spec fn empty_accumulator() -> SpecAccumulator {
    SpecAccumulator {
        chassis_id: None,
        port_id: None,
        time_to_live: None,
        port_description: None,
        system_name: None,
        system_description: None,
        capabilities: None,
        management_address: Seq::empty(),
        org: SpecOrg {
            dot1: SpecDot1 { port_vlan_id: None, vlan_name: Seq::empty() },
            dot3: Dot3 { mac_phy_status: None },
        },
    }
}

/// One element read into the fields: a single-valued field takes the
/// latest value, a list field appends, End and elements of other
/// organizations change nothing.
pub open spec fn step(a: SpecAccumulator, t: SpecTlv) -> SpecAccumulator {
    match t {
        SpecTlv::ChassisId(c) => SpecAccumulator { chassis_id: Some(c), ..a },
        SpecTlv::PortId(p) => SpecAccumulator { port_id: Some(p), ..a },
        SpecTlv::TimeToLive(v) => SpecAccumulator { time_to_live: Some(v), ..a },
        SpecTlv::PortDescription(s) => SpecAccumulator { port_description: Some(s), ..a },
        SpecTlv::SystemName(s) => SpecAccumulator { system_name: Some(s), ..a },
        SpecTlv::SystemDescription(s) => SpecAccumulator { system_description: Some(s), ..a },
        SpecTlv::Capabilities(c) => SpecAccumulator { capabilities: Some(c), ..a },
        SpecTlv::ManagementAddress(m) => SpecAccumulator {
            management_address: a.management_address.push(m),
            ..a
        },
        SpecTlv::Org(SpecOrgTlv::Dot1(dot1::SpecTlv::PortVlanId(v))) => SpecAccumulator {
            org: SpecOrg { dot1: SpecDot1 { port_vlan_id: Some(v), ..a.org.dot1 }, ..a.org },
            ..a
        },
        SpecTlv::Org(SpecOrgTlv::Dot1(dot1::SpecTlv::VlanName(v, n))) => SpecAccumulator {
            org: SpecOrg {
                dot1: SpecDot1 { vlan_name: a.org.dot1.vlan_name.push((v, n)), ..a.org.dot1 },
                ..a.org
            },
            ..a
        },
        SpecTlv::Org(SpecOrgTlv::Dot3(dot3::Tlv::MacPhyStatus(s))) => SpecAccumulator {
            org: SpecOrg { dot3: Dot3 { mac_phy_status: Some(s) }, ..a.org },
            ..a
        },
        _ => a,
    }
}

/// The field that element `t` replaces, where one was already set.
pub open spec fn duplicate_of(a: SpecAccumulator, t: SpecTlv) -> Option<DuplicateField> {
    match t {
        SpecTlv::ChassisId(_) => if a.chassis_id is Some {
            Some(DuplicateField::ChassisId)
        } else {
            None
        },
        SpecTlv::PortId(_) => if a.port_id is Some {
            Some(DuplicateField::PortId)
        } else {
            None
        },
        SpecTlv::TimeToLive(_) => if a.time_to_live is Some {
            Some(DuplicateField::TimeToLive)
        } else {
            None
        },
        SpecTlv::PortDescription(_) => if a.port_description is Some {
            Some(DuplicateField::PortDescription)
        } else {
            None
        },
        SpecTlv::SystemName(_) => if a.system_name is Some {
            Some(DuplicateField::SystemName)
        } else {
            None
        },
        SpecTlv::SystemDescription(_) => if a.system_description is Some {
            Some(DuplicateField::SystemDescription)
        } else {
            None
        },
        SpecTlv::Capabilities(_) => if a.capabilities is Some {
            Some(DuplicateField::Capabilities)
        } else {
            None
        },
        SpecTlv::Org(SpecOrgTlv::Dot1(dot1::SpecTlv::PortVlanId(_))) => if a.org.dot1.port_vlan_id is Some {
            Some(DuplicateField::PortVlanId)
        } else {
            None
        },
        SpecTlv::Org(SpecOrgTlv::Dot3(dot3::Tlv::MacPhyStatus(_))) => if a.org.dot3.mac_phy_status is Some {
            Some(DuplicateField::MacPhyStatus)
        } else {
            None
        },
        _ => None,
    }
}

/// The fields after reading `ts` in order, starting from `a`.
pub open spec fn accumulate_from(a: SpecAccumulator, ts: Seq<SpecTlv>) -> SpecAccumulator
    decreases ts.len(),
{
    if ts.len() == 0 {
        a
    } else {
        step(accumulate_from(a, ts.drop_last()), ts.last())
    }
}

pub open spec fn accumulate(ts: Seq<SpecTlv>) -> SpecAccumulator {
    accumulate_from(empty_accumulator(), ts)
}

/// The replaced fields, in the order in which they were replaced.
pub open spec fn duplicates(ts: Seq<SpecTlv>) -> Seq<DuplicateField>
    decreases ts.len(),
{
    if ts.len() == 0 {
        Seq::empty()
    } else {
        let before = ts.drop_last();
        match duplicate_of(accumulate(before), ts.last()) {
            Some(d) => duplicates(before).push(d),
            None => duplicates(before),
        }
    }
}

/// The data unit of the gathered fields; chassis id, port id and time to
/// live must be present, and are looked for in that order.
pub open spec fn finish(a: SpecAccumulator) -> Result<SpecDataUnit, DataUnitError> {
    match (a.chassis_id, a.port_id, a.time_to_live) {
        (None, _, _) => Err(DataUnitError::MissingChassisId),
        (Some(_), None, _) => Err(DataUnitError::MissingPortId),
        (Some(_), Some(_), None) => Err(DataUnitError::MissingTimeToLive),
        (Some(c), Some(p), Some(ttl)) => Ok(
            SpecDataUnit {
                chassis_id: c,
                port_id: p,
                time_to_live: ttl,
                port_description: a.port_description,
                system_name: a.system_name,
                system_description: a.system_description,
                capabilities: a.capabilities,
                management_address: a.management_address,
                org: a.org,
            },
        ),
    }
}

/// The data unit of a whole payload.
pub open spec fn spec_decode_data_unit(b: Seq<u8>) -> Result<SpecDataUnit, DataUnitError> {
    match spec_decode_list(b) {
        Err(e) => Err(DataUnitError::RawTlvError(e)),
        Ok(ts) => finish(accumulate(ts)),
    }
}

pub open spec fn head_tlvs(c: SpecChassisId, p: SpecPortId, ttl: u16) -> Seq<SpecTlv> {
    seq![SpecTlv::ChassisId(c), SpecTlv::PortId(p), SpecTlv::TimeToLive(ttl)]
}

pub open spec fn port_description_tlvs(o: Option<Seq<char>>) -> Seq<SpecTlv> {
    match o {
        Some(s) => seq![SpecTlv::PortDescription(s)],
        None => Seq::empty(),
    }
}

pub open spec fn system_name_tlvs(o: Option<Seq<char>>) -> Seq<SpecTlv> {
    match o {
        Some(s) => seq![SpecTlv::SystemName(s)],
        None => Seq::empty(),
    }
}

pub open spec fn system_description_tlvs(o: Option<Seq<char>>) -> Seq<SpecTlv> {
    match o {
        Some(s) => seq![SpecTlv::SystemDescription(s)],
        None => Seq::empty(),
    }
}

pub open spec fn capabilities_tlvs(o: Option<Capabilities>) -> Seq<SpecTlv> {
    match o {
        Some(c) => seq![SpecTlv::Capabilities(c)],
        None => Seq::empty(),
    }
}

pub open spec fn management_tlvs(ms: Seq<SpecManagementAddress>) -> Seq<SpecTlv> {
    ms.map_values(|m: SpecManagementAddress| SpecTlv::ManagementAddress(m))
}

pub open spec fn port_vlan_id_tlvs(o: Option<u16>) -> Seq<SpecTlv> {
    match o {
        Some(v) => seq![SpecTlv::Org(SpecOrgTlv::Dot1(dot1::SpecTlv::PortVlanId(v)))],
        None => Seq::empty(),
    }
}

pub open spec fn vlan_name_tlvs(vs: Seq<(u16, Seq<char>)>) -> Seq<SpecTlv> {
    vs.map_values(
        |p: (u16, Seq<char>)| SpecTlv::Org(SpecOrgTlv::Dot1(dot1::SpecTlv::VlanName(p.0, p.1))),
    )
}

pub open spec fn mac_phy_status_tlvs(o: Option<MacPhyStatus>) -> Seq<SpecTlv> {
    match o {
        Some(s) => seq![SpecTlv::Org(SpecOrgTlv::Dot3(dot3::Tlv::MacPhyStatus(s)))],
        None => Seq::empty(),
    }
}

/// The elements that encode a data unit, in this order: chassis id, port
/// id, time to live, the optional text fields and capabilities, the
/// management addresses, and the 802.1 and 802.3 fields.
pub open spec fn du_tlvs(d: SpecDataUnit) -> Seq<SpecTlv> {
    head_tlvs(d.chassis_id, d.port_id, d.time_to_live) + port_description_tlvs(
        d.port_description,
    ) + system_name_tlvs(d.system_name) + system_description_tlvs(d.system_description)
        + capabilities_tlvs(d.capabilities) + management_tlvs(d.management_address)
        + port_vlan_id_tlvs(d.org.dot1.port_vlan_id) + vlan_name_tlvs(d.org.dot1.vlan_name)
        + mac_phy_status_tlvs(d.org.dot3.mac_phy_status)
}

pub open spec fn serialize_data_unit(d: SpecDataUnit) -> Seq<u8> {
    serialize_tlvs(du_tlvs(d))
}

/// The data units whose every element encodes to a form that decodes back
/// to it.
pub open spec fn wf_data_unit(d: SpecDataUnit) -> bool {
    forall|i: int| 0 <= i < du_tlvs(d).len() ==> wf_tlv(#[trigger] du_tlvs(d)[i])
}

pub proof fn lemma_accumulate_concat(a: SpecAccumulator, xs: Seq<SpecTlv>, ys: Seq<SpecTlv>)
    ensures
        accumulate_from(a, xs + ys) == accumulate_from(accumulate_from(a, xs), ys),
    decreases ys.len(),
{
    if ys.len() == 0 {
        assert(xs + ys =~= xs);
    } else {
        assert((xs + ys).drop_last() =~= xs + ys.drop_last());
        lemma_accumulate_concat(a, xs, ys.drop_last());
    }
}

pub proof fn lemma_accumulate_empty(a: SpecAccumulator, ts: Seq<SpecTlv>)
    requires
        ts.len() == 0,
    ensures
        accumulate_from(a, ts) == a,
{
}

pub proof fn lemma_accumulate_one(a: SpecAccumulator, t: SpecTlv)
    ensures
        accumulate_from(a, seq![t]) == step(a, t),
{
    lemma_accumulate_empty(a, seq![t].drop_last());
}

pub proof fn lemma_accumulate_head(c: SpecChassisId, p: SpecPortId, ttl: u16)
    ensures
        accumulate_from(empty_accumulator(), head_tlvs(c, p, ttl)) == (SpecAccumulator {
            chassis_id: Some(c),
            port_id: Some(p),
            time_to_live: Some(ttl),
            ..empty_accumulator()
        }),
{
    let h = head_tlvs(c, p, ttl);
    let e = empty_accumulator();
    assert(h =~= seq![SpecTlv::ChassisId(c)] + seq![SpecTlv::PortId(p)] + seq![
        SpecTlv::TimeToLive(ttl),
    ]);
    lemma_accumulate_concat(e, seq![SpecTlv::ChassisId(c)] + seq![SpecTlv::PortId(p)], seq![
        SpecTlv::TimeToLive(ttl),
    ]);
    lemma_accumulate_concat(e, seq![SpecTlv::ChassisId(c)], seq![SpecTlv::PortId(p)]);
    lemma_accumulate_one(e, SpecTlv::ChassisId(c));
    lemma_accumulate_one(step(e, SpecTlv::ChassisId(c)), SpecTlv::PortId(p));
    lemma_accumulate_one(
        step(step(e, SpecTlv::ChassisId(c)), SpecTlv::PortId(p)),
        SpecTlv::TimeToLive(ttl),
    );
}

pub proof fn lemma_accumulate_optionals(a: SpecAccumulator, d: SpecDataUnit)
    ensures
        accumulate_from(
            a,
            port_description_tlvs(d.port_description) + system_name_tlvs(d.system_name)
                + system_description_tlvs(d.system_description) + capabilities_tlvs(
                d.capabilities,
            ),
        ) == (SpecAccumulator {
            port_description: if d.port_description is Some {
                d.port_description
            } else {
                a.port_description
            },
            system_name: if d.system_name is Some {
                d.system_name
            } else {
                a.system_name
            },
            system_description: if d.system_description is Some {
                d.system_description
            } else {
                a.system_description
            },
            capabilities: if d.capabilities is Some {
                d.capabilities
            } else {
                a.capabilities
            },
            ..a
        }),
{
    let descr_tlvs = port_description_tlvs(d.port_description);
    let name_tlvs = system_name_tlvs(d.system_name);
    let sys_descr_tlvs = system_description_tlvs(d.system_description);
    let caps_tlvs = capabilities_tlvs(d.capabilities);
    lemma_accumulate_concat(a, descr_tlvs + name_tlvs + sys_descr_tlvs, caps_tlvs);
    lemma_accumulate_concat(a, descr_tlvs + name_tlvs, sys_descr_tlvs);
    lemma_accumulate_concat(a, descr_tlvs, name_tlvs);
    let after_descr = accumulate_from(a, descr_tlvs);
    match d.port_description {
        Some(s) => lemma_accumulate_one(a, SpecTlv::PortDescription(s)),
        None => lemma_accumulate_empty(a, descr_tlvs),
    }
    let after_name = accumulate_from(after_descr, name_tlvs);
    match d.system_name {
        Some(s) => lemma_accumulate_one(after_descr, SpecTlv::SystemName(s)),
        None => lemma_accumulate_empty(after_descr, name_tlvs),
    }
    let after_sys_descr = accumulate_from(after_name, sys_descr_tlvs);
    match d.system_description {
        Some(s) => lemma_accumulate_one(after_name, SpecTlv::SystemDescription(s)),
        None => lemma_accumulate_empty(after_name, sys_descr_tlvs),
    }
    match d.capabilities {
        Some(c) => lemma_accumulate_one(after_sys_descr, SpecTlv::Capabilities(c)),
        None => lemma_accumulate_empty(after_sys_descr, caps_tlvs),
    }
}

pub proof fn lemma_accumulate_management(a: SpecAccumulator, ms: Seq<SpecManagementAddress>)
    ensures
        accumulate_from(a, management_tlvs(ms)) == (SpecAccumulator {
            management_address: a.management_address + ms,
            ..a
        }),
    decreases ms.len(),
{
    let ts = management_tlvs(ms);
    if ms.len() == 0 {
        assert(a.management_address + ms =~= a.management_address);
    } else {
        assert(ts.drop_last() =~= management_tlvs(ms.drop_last()));
        lemma_accumulate_management(a, ms.drop_last());
        assert((a.management_address + ms.drop_last()).push(ms.last()) =~= a.management_address
            + ms);
    }
}

pub proof fn lemma_accumulate_vlan_names(a: SpecAccumulator, vs: Seq<(u16, Seq<char>)>)
    ensures
        accumulate_from(a, vlan_name_tlvs(vs)) == (SpecAccumulator {
            org: SpecOrg {
                dot1: SpecDot1 { vlan_name: a.org.dot1.vlan_name + vs, ..a.org.dot1 },
                ..a.org
            },
            ..a
        }),
    decreases vs.len(),
{
    let ts = vlan_name_tlvs(vs);
    if vs.len() == 0 {
        assert(a.org.dot1.vlan_name + vs =~= a.org.dot1.vlan_name);
    } else {
        assert(ts.drop_last() =~= vlan_name_tlvs(vs.drop_last()));
        lemma_accumulate_vlan_names(a, vs.drop_last());
        assert((a.org.dot1.vlan_name + vs.drop_last()).push(vs.last()) =~= a.org.dot1.vlan_name
            + vs);
    }
}

pub proof fn lemma_accumulate_org(a: SpecAccumulator, o: SpecOrg)
    requires
        a.org.dot1.port_vlan_id is None,
        a.org.dot1.vlan_name.len() == 0,
        a.org.dot3.mac_phy_status is None,
    ensures
        accumulate_from(
            a,
            port_vlan_id_tlvs(o.dot1.port_vlan_id) + vlan_name_tlvs(o.dot1.vlan_name)
                + mac_phy_status_tlvs(o.dot3.mac_phy_status),
        ) == (SpecAccumulator { org: o, ..a }),
{
    let pvid_tlvs = port_vlan_id_tlvs(o.dot1.port_vlan_id);
    let vlans_tlvs = vlan_name_tlvs(o.dot1.vlan_name);
    let phy_tlvs = mac_phy_status_tlvs(o.dot3.mac_phy_status);
    lemma_accumulate_concat(a, pvid_tlvs + vlans_tlvs, phy_tlvs);
    lemma_accumulate_concat(a, pvid_tlvs, vlans_tlvs);
    let after_pvid = accumulate_from(a, pvid_tlvs);
    match o.dot1.port_vlan_id {
        Some(v) => lemma_accumulate_one(
            a,
            SpecTlv::Org(SpecOrgTlv::Dot1(dot1::SpecTlv::PortVlanId(v))),
        ),
        None => lemma_accumulate_empty(a, pvid_tlvs),
    }
    lemma_accumulate_vlan_names(after_pvid, o.dot1.vlan_name);
    let after_vlans = accumulate_from(after_pvid, vlans_tlvs);
    assert(a.org.dot1.vlan_name + o.dot1.vlan_name =~= o.dot1.vlan_name);
    match o.dot3.mac_phy_status {
        Some(st) => lemma_accumulate_one(
            after_vlans,
            SpecTlv::Org(SpecOrgTlv::Dot3(dot3::Tlv::MacPhyStatus(st))),
        ),
        None => lemma_accumulate_empty(after_vlans, phy_tlvs),
    }
}

/// Round trip of data units: a well-formed data unit decodes back from its
/// encoding.
pub proof fn lemma_data_unit_round_trip(d: SpecDataUnit)
    requires
        wf_data_unit(d),
    ensures
        spec_decode_data_unit(serialize_data_unit(d)) == Ok::<_, DataUnitError>(d),
{
    let ts = du_tlvs(d);
    lemma_tlvs_round_trip(ts);
    let h = head_tlvs(d.chassis_id, d.port_id, d.time_to_live);
    let opt = port_description_tlvs(d.port_description) + system_name_tlvs(d.system_name)
        + system_description_tlvs(d.system_description) + capabilities_tlvs(d.capabilities);
    let m = management_tlvs(d.management_address);
    let o = port_vlan_id_tlvs(d.org.dot1.port_vlan_id) + vlan_name_tlvs(d.org.dot1.vlan_name)
        + mac_phy_status_tlvs(d.org.dot3.mac_phy_status);
    assert(ts =~= h + opt + m + o);
    let e = empty_accumulator();
    lemma_accumulate_concat(e, h + opt + m, o);
    lemma_accumulate_concat(e, h + opt, m);
    lemma_accumulate_concat(e, h, opt);
    lemma_accumulate_head(d.chassis_id, d.port_id, d.time_to_live);
    let after_head = accumulate_from(e, h);
    lemma_accumulate_optionals(after_head, d);
    let after_descr = accumulate_from(after_head, opt);
    lemma_accumulate_management(after_descr, d.management_address);
    let after_name = accumulate_from(after_descr, m);
    assert(after_descr.management_address + d.management_address =~= d.management_address);
    lemma_accumulate_org(after_name, d.org);
}

/// Duplicate fields, last one wins: when the last system name element of a
/// sequence is at `i`, the assembled system name is that element's.
pub proof fn lemma_last_system_name_wins(ts: Seq<SpecTlv>, i: int)
    requires
        0 <= i < ts.len(),
        ts[i] is SystemName,
        forall|j: int| i < j < ts.len() ==> !(#[trigger] ts[j] is SystemName),
    ensures
        accumulate(ts).system_name == Some(ts[i]->SystemName_0),
    decreases ts.len(),
{
    if i < ts.len() - 1 {
        let before = ts.drop_last();
        assert forall|j: int| i < j < before.len() implies !(#[trigger] before[j] is SystemName) by {
            assert(before[j] == ts[j]);
        }
        lemma_last_system_name_wins(before, i);
        assert(!(ts.last() is SystemName));
    }
}

/// The number of system name elements in a sequence.
pub open spec fn count_system_names(ts: Seq<SpecTlv>) -> nat
    decreases ts.len(),
{
    if ts.len() == 0 {
        0
    } else {
        count_system_names(ts.drop_last()) + if ts.last() is SystemName {
            1nat
        } else {
            0nat
        }
    }
}

/// The number of replaced system names among the duplicate fields.
pub open spec fn count_system_name_duplicates(ds: Seq<DuplicateField>) -> nat
    decreases ds.len(),
{
    if ds.len() == 0 {
        0
    } else {
        count_system_name_duplicates(ds.drop_last()) + if ds.last() == DuplicateField::SystemName {
            1nat
        } else {
            0nat
        }
    }
}

proof fn lemma_system_name_set(ts: Seq<SpecTlv>)
    ensures
        accumulate(ts).system_name is Some <==> count_system_names(ts) > 0,
    decreases ts.len(),
{
    if ts.len() > 0 {
        lemma_system_name_set(ts.drop_last());
    }
}

/// Duplicate fields, one warning per replaced value: a sequence with `n`
/// system name elements yields `n - 1` system name duplicates (none for
/// none).
pub proof fn lemma_system_name_duplicates(ts: Seq<SpecTlv>)
    ensures
        count_system_name_duplicates(duplicates(ts)) == if count_system_names(ts) > 0 {
            (count_system_names(ts) - 1) as nat
        } else {
            0
        },
    decreases ts.len(),
{
    if ts.len() > 0 {
        let before = ts.drop_last();
        lemma_system_name_duplicates(before);
        lemma_system_name_set(before);
        match duplicate_of(accumulate(before), ts.last()) {
            Some(d) => {
                assert(duplicates(before).push(d).drop_last() =~= duplicates(before));
            },
            None => {},
        }
    }
}

/// Missing mandatory field: a sequence without a chassis id element
/// assembles to no data unit, but to the missing chassis id error.
pub proof fn lemma_missing_chassis_id(ts: Seq<SpecTlv>)
    requires
        forall|j: int| 0 <= j < ts.len() ==> !(#[trigger] ts[j] is ChassisId),
    ensures
        accumulate(ts).chassis_id is None,
        finish(accumulate(ts)) == Err::<SpecDataUnit, _>(DataUnitError::MissingChassisId),
    decreases ts.len(),
{
    if ts.len() > 0 {
        let before = ts.drop_last();
        assert forall|j: int| 0 <= j < before.len() implies !(#[trigger] before[j] is ChassisId) by {
            assert(before[j] == ts[j]);
        }
        lemma_missing_chassis_id(before);
        assert(!(ts.last() is ChassisId));
    }
}

/// The exec counterpart of [`SpecAccumulator`].
struct Accumulator {
    chassis_id: Option<ChassisId>,
    port_id: Option<PortId>,
    time_to_live: Option<u16>,
    port_description: Option<String>,
    system_name: Option<String>,
    system_description: Option<String>,
    capabilities: Option<Capabilities>,
    management_address: Vec<ManagementAddress>,
    org: Org,
}

impl View for Accumulator {
    type V = SpecAccumulator;

    closed spec fn view(&self) -> SpecAccumulator {
        SpecAccumulator {
            chassis_id: opt_view(self.chassis_id),
            port_id: opt_view(self.port_id),
            time_to_live: self.time_to_live,
            port_description: opt_view(self.port_description),
            system_name: opt_view(self.system_name),
            system_description: opt_view(self.system_description),
            capabilities: self.capabilities,
            management_address: management_addresses_view(self.management_address@),
            org: self.org@,
        }
    }
}

impl Accumulator {
    fn new() -> (r: Self)
        ensures
            r@ == empty_accumulator(),
    {
        let r = Accumulator {
            chassis_id: None,
            port_id: None,
            time_to_live: None,
            port_description: None,
            system_name: None,
            system_description: None,
            capabilities: None,
            management_address: Vec::new(),
            org: Org {
                dot1: Dot1 { port_vlan_id: None, vlan_name: Vec::new() },
                dot3: Dot3 { mac_phy_status: None },
            },
        };
        assert(r@.management_address =~= Seq::empty());
        assert(r@.org.dot1.vlan_name =~= Seq::empty());
        r
    }

    fn add(&mut self, t: Tlv) -> (d: Option<DuplicateField>)
        ensures
            final(self)@ == step(old(self)@, t@),
            d == duplicate_of(old(self)@, t@),
    {
        match t {
            Tlv::End => None,
            Tlv::ChassisId(new) => {
                let d = if self.chassis_id.is_some() {
                    Some(DuplicateField::ChassisId)
                } else {
                    None
                };
                self.chassis_id = Some(new);
                d
            },
            Tlv::PortId(new) => {
                let d = if self.port_id.is_some() {
                    Some(DuplicateField::PortId)
                } else {
                    None
                };
                self.port_id = Some(new);
                d
            },
            Tlv::TimeToLive(new) => {
                let d = if self.time_to_live.is_some() {
                    Some(DuplicateField::TimeToLive)
                } else {
                    None
                };
                self.time_to_live = Some(new);
                d
            },
            Tlv::PortDescription(new) => {
                let d = if self.port_description.is_some() {
                    Some(DuplicateField::PortDescription)
                } else {
                    None
                };
                self.port_description = Some(new);
                d
            },
            Tlv::SystemName(new) => {
                let d = if self.system_name.is_some() {
                    Some(DuplicateField::SystemName)
                } else {
                    None
                };
                self.system_name = Some(new);
                d
            },
            Tlv::SystemDescription(new) => {
                let d = if self.system_description.is_some() {
                    Some(DuplicateField::SystemDescription)
                } else {
                    None
                };
                self.system_description = Some(new);
                d
            },
            Tlv::Capabilities(new) => {
                let d = if self.capabilities.is_some() {
                    Some(DuplicateField::Capabilities)
                } else {
                    None
                };
                self.capabilities = Some(new);
                d
            },
            Tlv::ManagementAddress(x) => {
                let ghost before = self.management_address@;
                self.management_address.push(x);
                assert(management_addresses_view(self.management_address@)
                    =~= management_addresses_view(before).push(x@));
                None
            },
            Tlv::Org(OrgTlv::Dot1(dot1::Tlv::PortVlanId(new))) => {
                let d = if self.org.dot1.port_vlan_id.is_some() {
                    Some(DuplicateField::PortVlanId)
                } else {
                    None
                };
                self.org.dot1.port_vlan_id = Some(new);
                d
            },
            Tlv::Org(OrgTlv::Dot1(dot1::Tlv::VlanName(x, y))) => {
                let ghost before = self.org.dot1.vlan_name@;
                self.org.dot1.vlan_name.push((x, y));
                assert(vlan_names_view(self.org.dot1.vlan_name@) =~= vlan_names_view(before).push(
                    (x, y@),
                ));
                None
            },
            Tlv::Org(OrgTlv::Dot3(dot3::Tlv::MacPhyStatus(new))) => {
                let d = if self.org.dot3.mac_phy_status.is_some() {
                    Some(DuplicateField::MacPhyStatus)
                } else {
                    None
                };
                self.org.dot3.mac_phy_status = Some(new);
                d
            },
            Tlv::Org(OrgTlv::Custom(_)) => None,
        }
    }

    fn finish(self) -> (r: Result<DataUnit, DataUnitError>)
        ensures
            decodes_as(r, finish(self@)),
    {
        let chassis_id = match self.chassis_id {
            Some(x) => x,
            None => return Err(DataUnitError::MissingChassisId),
        };
        let port_id = match self.port_id {
            Some(x) => x,
            None => return Err(DataUnitError::MissingPortId),
        };
        let time_to_live = match self.time_to_live {
            Some(x) => x,
            None => return Err(DataUnitError::MissingTimeToLive),
        };
        Ok(
            DataUnit {
                chassis_id,
                port_id,
                time_to_live,
                port_description: self.port_description,
                system_name: self.system_name,
                system_description: self.system_description,
                capabilities: self.capabilities,
                management_address: self.management_address,
                org: self.org,
            },
        )
    }
}

impl Org {
    /// The value with no borrowed parts; every part of it is owned already.
    pub fn to_static(self) -> (r: Self)
        ensures
            r == self,
    {
        self
    }
}

impl Dot1 {
    /// The value with no borrowed parts; every part of it is owned already.
    pub fn to_static(self) -> (r: Self)
        ensures
            r == self,
    {
        self
    }
}

impl DataUnit {
    /// The value with no borrowed parts; every part of it is owned already.
    pub fn to_static(self) -> (r: Self)
        ensures
            r == self,
    {
        self
    }

    /// The elements of the data unit, in encoding order.
    fn into_tlvs(self) -> (r: Vec<Tlv>)
        ensures
            tlvs_view(r@) == du_tlvs(self@),
    {
        let ghost d = self@;
        let mut v: Vec<Tlv> = Vec::new();
        v.push(Tlv::ChassisId(self.chassis_id));
        v.push(Tlv::PortId(self.port_id));
        v.push(Tlv::TimeToLive(self.time_to_live));
        let ghost pre = head_tlvs(d.chassis_id, d.port_id, d.time_to_live);
        assert(tlvs_view(v@) =~= pre);
        if let Some(x) = self.port_description {
            v.push(Tlv::PortDescription(x));
        }
        proof {
            pre = pre + port_description_tlvs(d.port_description);
        }
        assert(tlvs_view(v@) =~= pre);
        if let Some(x) = self.system_name {
            v.push(Tlv::SystemName(x));
        }
        proof {
            pre = pre + system_name_tlvs(d.system_name);
        }
        assert(tlvs_view(v@) =~= pre);
        if let Some(x) = self.system_description {
            v.push(Tlv::SystemDescription(x));
        }
        proof {
            pre = pre + system_description_tlvs(d.system_description);
        }
        assert(tlvs_view(v@) =~= pre);
        if let Some(x) = self.capabilities {
            v.push(Tlv::Capabilities(x));
        }
        proof {
            pre = pre + capabilities_tlvs(d.capabilities);
        }
        assert(tlvs_view(v@) =~= pre);
        let ghost ms = self.management_address@;
        assert(management_tlvs(management_addresses_view(ms.take(0))) =~= Seq::<SpecTlv>::empty());
        assert(pre + Seq::<SpecTlv>::empty() =~= pre);
        for m in it: self.management_address.into_iter()
            invariant
                it.seq() == ms,
                tlvs_view(v@) == pre + management_tlvs(
                    management_addresses_view(ms.take(it.index() as int)),
                ),
        {
            let ghost i = it.index() as int;
            let ghost before = v@;
            v.push(Tlv::ManagementAddress(m));
            assert(management_tlvs(management_addresses_view(ms.take(i + 1))) =~= management_tlvs(
                management_addresses_view(ms.take(i)),
            ).push(SpecTlv::ManagementAddress(m@)));
            assert(tlvs_view(v@) =~= tlvs_view(before).push(SpecTlv::ManagementAddress(m@)));
        }
        assert(ms.take(ms.len() as int) =~= ms);
        proof {
            pre = pre + management_tlvs(d.management_address);
        }
        if let Some(x) = self.org.dot1.port_vlan_id {
            v.push(Tlv::Org(OrgTlv::Dot1(dot1::Tlv::PortVlanId(x))));
        }
        proof {
            pre = pre + port_vlan_id_tlvs(d.org.dot1.port_vlan_id);
        }
        assert(tlvs_view(v@) =~= pre);
        let ghost vs = self.org.dot1.vlan_name@;
        assert(vlan_name_tlvs(vlan_names_view(vs.take(0))) =~= Seq::<SpecTlv>::empty());
        assert(pre + Seq::<SpecTlv>::empty() =~= pre);
        for p in it: self.org.dot1.vlan_name.into_iter()
            invariant
                it.seq() == vs,
                tlvs_view(v@) == pre + vlan_name_tlvs(vlan_names_view(vs.take(it.index() as int))),
        {
            let ghost i = it.index() as int;
            let ghost before = v@;
            let (id, name) = p;
            v.push(Tlv::Org(OrgTlv::Dot1(dot1::Tlv::VlanName(id, name))));
            assert(vlan_name_tlvs(vlan_names_view(vs.take(i + 1))) =~= vlan_name_tlvs(
                vlan_names_view(vs.take(i)),
            ).push(SpecTlv::Org(SpecOrgTlv::Dot1(dot1::SpecTlv::VlanName(id, name@)))));
            assert(tlvs_view(v@) =~= tlvs_view(before).push(
                SpecTlv::Org(SpecOrgTlv::Dot1(dot1::SpecTlv::VlanName(id, name@))),
            ));
        }
        assert(vs.take(vs.len() as int) =~= vs);
        proof {
            pre = pre + vlan_name_tlvs(d.org.dot1.vlan_name);
        }
        if let Some(x) = self.org.dot3.mac_phy_status {
            v.push(Tlv::Org(OrgTlv::Dot3(dot3::Tlv::MacPhyStatus(x))));
        }
        proof {
            pre = pre + mac_phy_status_tlvs(d.org.dot3.mac_phy_status);
        }
        assert(tlvs_view(v@) =~= pre);
        v
    }

    /// Appends the encoding of the data unit: its elements one after
    /// another.
    pub fn encode(self, buf: &mut Vec<u8>)
        requires
            wf_data_unit(self@),
        ensures
            final(buf)@ == old(buf)@ + serialize_data_unit(self@),
    {
        let ghost start = buf@;
        let ghost d = self@;
        let v = self.into_tlvs();
        let ghost ts = tlvs_view(v@);
        let mut i: usize = 0;
        assert(ts.take(0) =~= Seq::<SpecTlv>::empty());
        assert(start + Seq::<u8>::empty() =~= start);
        while i < v.len()
            invariant
                i <= v@.len(),
                ts == tlvs_view(v@),
                ts == du_tlvs(d),
                wf_data_unit(d),
                buf@ == start + serialize_tlvs(ts.take(i as int)),
            decreases v@.len() - i,
        {
            proof {
                assert(ts.take(i + 1) =~= ts.take(i as int) + seq![ts[i as int]]);
                lemma_serialize_tlvs_concat(ts.take(i as int), seq![ts[i as int]]);
                lemma_serialize_tlvs_one(ts[i as int]);
                assert(wf_tlv(du_tlvs(d)[i as int]));
            }
            v[i].encode(buf);
            i += 1;
        }
        assert(ts.take(i as int) =~= ts);
    }

    /// Folds a sequence of elements into one data unit, with the fields
    /// that a later element replaced.
    pub fn assemble(tlvs: Vec<Tlv>) -> (r: (Result<DataUnit, DataUnitError>, Vec<DuplicateField>))
        ensures
            decodes_as(r.0, finish(accumulate(tlvs_view(tlvs@)))),
            r.1@ == duplicates(tlvs_view(tlvs@)),
    {
        let ghost ts = tlvs_view(tlvs@);
        let mut acc = Accumulator::new();
        let mut warnings: Vec<DuplicateField> = Vec::new();
        assert(ts.take(0) =~= Seq::<SpecTlv>::empty());
        for tlv in iter: tlvs.into_iter()
            invariant
                iter.seq() == tlvs@,
                ts == tlvs_view(tlvs@),
                acc@ == accumulate(ts.take(iter.index() as int)),
                warnings@ == duplicates(ts.take(iter.index() as int)),
        {
            let ghost i = iter.index() as int;
            assert(ts.take(i + 1).drop_last() =~= ts.take(i));
            assert(ts.take(i + 1).last() == tlv@);
            match acc.add(tlv) {
                Some(d) => warnings.push(d),
                None => {},
            }
        }
        assert(ts.take(ts.len() as int) =~= ts);
        (acc.finish(), warnings)
    }

    /// Decodes and assembles a whole LLDP payload. Elements that do not
    /// decode are left out; a framing error or a missing mandatory field
    /// fails the whole unit.
    pub fn decode(buf: &[u8]) -> (r: Result<Self, DataUnitError>)
        ensures
            decodes_as(r, spec_decode_data_unit(buf@)),
    {
        match decode_list(buf) {
            Err(e) => Err(DataUnitError::RawTlvError(e)),
            Ok(tlvs) => DataUnit::assemble(tlvs).0,
        }
    }
}

} // verus!
