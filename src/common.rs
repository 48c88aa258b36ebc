//! A view over either protocol's data unit.
use vstd::prelude::*;

use crate::cdp;
use crate::lldp::du as lldp;
use crate::lldp::tlv::{PortId, SpecPortId};

verus! {

#[derive(Clone, Copy, PartialEq, Eq, Structural, Hash, Debug)]
pub enum Protocol {
    Cdp,
    Lldp,
}

/// A data unit of either protocol.
#[derive(Clone, PartialEq, Eq, Hash, Debug)]
pub enum DataUnit {
    Cdp(cdp::DataUnit),
    Lldp(lldp::DataUnit),
}

pub enum SpecDataUnit {
    Cdp(cdp::SpecDataUnit),
    Lldp(lldp::SpecDataUnit),
}

impl View for DataUnit {
    type V = SpecDataUnit;

    open spec fn view(&self) -> SpecDataUnit {
        match self {
            DataUnit::Cdp(x) => SpecDataUnit::Cdp(x@),
            DataUnit::Lldp(x) => SpecDataUnit::Lldp(x@),
        }
    }
}

pub open spec fn spec_protocol(d: SpecDataUnit) -> Protocol {
    match d {
        SpecDataUnit::Cdp(_) => Protocol::Cdp,
        SpecDataUnit::Lldp(_) => Protocol::Lldp,
    }
}

/// The advertised time to live in seconds; CDP's one byte is widened.
pub open spec fn spec_time_to_live(d: SpecDataUnit) -> u16 {
    match d {
        SpecDataUnit::Cdp(x) => x.time_to_live as u16,
        SpecDataUnit::Lldp(x) => x.time_to_live,
    }
}

/// The advertised name: CDP's device id stands for LLDP's system name.
pub open spec fn spec_system_name(d: SpecDataUnit) -> Option<Seq<char>> {
    match d {
        SpecDataUnit::Cdp(x) => x.device_id,
        SpecDataUnit::Lldp(x) => x.system_name,
    }
}

/// The port's VLAN: CDP's native VLAN stands for LLDP's port VLAN id.
pub open spec fn spec_port_vlan_id(d: SpecDataUnit) -> Option<u16> {
    match d {
        SpecDataUnit::Cdp(x) => x.native_vlan,
        SpecDataUnit::Lldp(x) => x.org.dot1.port_vlan_id,
    }
}

/// The port id: CDP's textual port id is read as an interface name.
pub open spec fn spec_port_id(d: SpecDataUnit) -> Option<SpecPortId> {
    match d {
        SpecDataUnit::Cdp(x) => match x.port_id {
            Some(s) => Some(SpecPortId::InterfaceName(s)),
            None => None,
        },
        SpecDataUnit::Lldp(x) => Some(x.port_id),
    }
}

impl From<lldp::DataUnit> for DataUnit {
    fn from(value: lldp::DataUnit) -> (r: Self)
        ensures
            r == DataUnit::Lldp(value),
    {
        DataUnit::Lldp(value)
    }
}

impl vstd::std_specs::convert::FromSpecImpl<lldp::DataUnit> for DataUnit {
    open spec fn obeys_from_spec() -> bool {
        true
    }

    open spec fn from_spec(v: lldp::DataUnit) -> Self {
        DataUnit::Lldp(v)
    }
}

impl From<cdp::DataUnit> for DataUnit {
    fn from(value: cdp::DataUnit) -> (r: Self)
        ensures
            r == DataUnit::Cdp(value),
    {
        DataUnit::Cdp(value)
    }
}

impl vstd::std_specs::convert::FromSpecImpl<cdp::DataUnit> for DataUnit {
    open spec fn obeys_from_spec() -> bool {
        true
    }

    open spec fn from_spec(v: cdp::DataUnit) -> Self {
        DataUnit::Cdp(v)
    }
}

impl DataUnit {
    pub fn protocol(&self) -> (r: Protocol)
        ensures
            r == spec_protocol(self@),
    {
        match self {
            Self::Cdp(_) => Protocol::Cdp,
            Self::Lldp(_) => Protocol::Lldp,
        }
    }

    /// The value with no borrowed parts; every part of it is owned already.
    pub fn to_static(self) -> (r: Self)
        ensures
            r == self,
    {
        self
    }

    pub fn time_to_live(&self) -> (r: u16)
        ensures
            r == spec_time_to_live(self@),
    {
        match self {
            Self::Cdp(x) => x.time_to_live as u16,
            Self::Lldp(x) => x.time_to_live,
        }
    }

    pub fn system_name(&self) -> (r: Option<&String>)
        ensures
            match r {
                Some(s) => spec_system_name(self@) == Some(s@),
                None => spec_system_name(self@) is None,
            },
    {
        match self {
            Self::Cdp(x) => x.device_id.as_ref(),
            Self::Lldp(x) => x.system_name.as_ref(),
        }
    }

    pub fn port_vlan_id(&self) -> (r: Option<u16>)
        ensures
            r == spec_port_vlan_id(self@),
    {
        match self {
            Self::Cdp(x) => x.native_vlan,
            Self::Lldp(x) => x.org.dot1.port_vlan_id,
        }
    }

    pub fn port_id(&self) -> (r: Option<PortId>)
        ensures
            crate::wire::opt_view(r) == spec_port_id(self@),
    {
        match self {
            Self::Cdp(x) => match &x.port_id {
                Some(p) => Some(PortId::InterfaceName(p.clone())),
                None => None,
            },
            Self::Lldp(x) => Some(x.port_id.copy()),
        }
    }
}

} // verus!
