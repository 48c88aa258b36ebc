//! The Cisco discovery protocol: a versioned header followed by elements.
use vstd::prelude::*;

use crate::wire::{be16, decodes_as, opt_view, read_be16};

pub mod tlv;

use tlv::{
    frames, parse_tlv, raw_total_len, Duplex, RawTlv, RawTlvError, SpecTlv, Tlv, TlvDecodeError, TlvKind,
};

verus! {

/// Why a CDP message yields no data unit.
#[derive(Clone, Copy, PartialEq, Eq, Structural, Debug)]
pub enum DataUnitError {
    BufferTooShort,
    UnknownCdpVersion(u8),
    RawTlvError(RawTlvError),
}

/// One decoded CDP message.
#[derive(Clone, PartialEq, Eq, Hash, Debug)]
pub struct DataUnit {
    pub time_to_live: u8,
    pub device_id: Option<String>,
    pub software_version: Option<String>,
    pub platform: Option<String>,
    pub port_id: Option<String>,
    pub duplex: Option<Duplex>,
    pub native_vlan: Option<u16>,
}

pub struct SpecDataUnit {
    pub time_to_live: u8,
    pub device_id: Option<Seq<char>>,
    pub software_version: Option<Seq<char>>,
    pub platform: Option<Seq<char>>,
    pub port_id: Option<Seq<char>>,
    pub duplex: Option<Duplex>,
    pub native_vlan: Option<u16>,
}

impl View for DataUnit {
    type V = SpecDataUnit;

    open spec fn view(&self) -> SpecDataUnit {
        SpecDataUnit {
            time_to_live: self.time_to_live,
            device_id: opt_view(self.device_id),
            software_version: opt_view(self.software_version),
            platform: opt_view(self.platform),
            port_id: opt_view(self.port_id),
            duplex: self.duplex,
            native_vlan: self.native_vlan,
        }
    }
}

/// One element read into the fields: each field takes the latest value;
/// an element that did not decode changes nothing.
pub open spec fn step(d: SpecDataUnit, t: Result<SpecTlv, tlv::TlvDecodeError>) -> SpecDataUnit {
    match t {
        Ok(SpecTlv::DeviceId(s)) => SpecDataUnit { device_id: Some(s), ..d },
        Ok(SpecTlv::PortId(s)) => SpecDataUnit { port_id: Some(s), ..d },
        Ok(SpecTlv::Platform(s)) => SpecDataUnit { platform: Some(s), ..d },
        Ok(SpecTlv::SoftwareVersion(s)) => SpecDataUnit { software_version: Some(s), ..d },
        Ok(SpecTlv::NativeVlan(v)) => SpecDataUnit { native_vlan: Some(v), ..d },
        Ok(SpecTlv::Duplex(x)) => SpecDataUnit { duplex: Some(x), ..d },
        Err(_) => d,
    }
}

/// The kind of field that element `t` replaces, where one was already set.
pub open spec fn duplicate_of(d: SpecDataUnit, t: Result<SpecTlv, TlvDecodeError>) -> Option<TlvKind> {
    match t {
        Ok(SpecTlv::DeviceId(_)) => if d.device_id is Some {
            Some(TlvKind::DeviceId)
        } else {
            None
        },
        Ok(SpecTlv::PortId(_)) => if d.port_id is Some {
            Some(TlvKind::PortId)
        } else {
            None
        },
        Ok(SpecTlv::Platform(_)) => if d.platform is Some {
            Some(TlvKind::Platform)
        } else {
            None
        },
        Ok(SpecTlv::SoftwareVersion(_)) => if d.software_version is Some {
            Some(TlvKind::SoftwareVersion)
        } else {
            None
        },
        Ok(SpecTlv::NativeVlan(_)) => if d.native_vlan is Some {
            Some(TlvKind::NativeVlan)
        } else {
            None
        },
        Ok(SpecTlv::Duplex(_)) => if d.duplex is Some {
            Some(TlvKind::Duplex)
        } else {
            None
        },
        Err(_) => None,
    }
}

pub open spec fn opt_seq<T>(o: Option<T>) -> Seq<T> {
    match o {
        Some(x) => seq![x],
        None => Seq::empty(),
    }
}

pub open spec fn err_seq<T, E>(r: Result<T, E>) -> Seq<E> {
    match r {
        Ok(_) => Seq::empty(),
        Err(e) => seq![e],
    }
}

/// What reading the elements of a message body yields: the fields, or
/// the framing error that stops the reading; the errors of the elements
/// that did not decode; and the kinds of the fields that a later element
/// replaced.
pub struct SpecRead {
    pub unit: Result<SpecDataUnit, RawTlvError>,
    pub errors: Seq<TlvDecodeError>,
    pub duplicates: Seq<TlvKind>,
}

/// Reads the elements of `b` into `d`, each field taking the latest
/// value; an element that does not decode changes nothing.
pub open spec fn read_tlvs(d: SpecDataUnit, b: Seq<u8>) -> SpecRead
    decreases b.len(),
{
    if b.len() == 0 {
        SpecRead { unit: Ok(d), errors: Seq::empty(), duplicates: Seq::empty() }
    } else if !frames(b) {
        SpecRead {
            unit: Err(RawTlvError::BufferTooShort),
            errors: Seq::empty(),
            duplicates: Seq::empty(),
        }
    } else {
        let n = raw_total_len(b);
        let t = parse_tlv(be16(b[0], b[1]), b.subrange(4, n as int));
        let rest = read_tlvs(step(d, t), b.skip(n as int));
        SpecRead {
            unit: rest.unit,
            errors: err_seq(t) + rest.errors,
            duplicates: opt_seq(duplicate_of(d, t)) + rest.duplicates,
        }
    }
}

pub open spec fn empty_unit(ttl: u8) -> SpecDataUnit {
    SpecDataUnit {
        time_to_live: ttl,
        device_id: None,
        software_version: None,
        platform: None,
        port_id: None,
        duplex: None,
        native_vlan: None,
    }
}

/// The message: version (must be 2), time to live, a checksum that is not
/// checked, then the elements.
pub open spec fn spec_decode(b: Seq<u8>) -> Result<SpecDataUnit, DataUnitError> {
    if b.len() < 4 {
        Err(DataUnitError::BufferTooShort)
    } else if b[0] != 2 {
        Err(DataUnitError::UnknownCdpVersion(b[0]))
    } else {
        match read_tlvs(empty_unit(b[1]), b.skip(4)).unit {
            Ok(d) => Ok(d),
            Err(e) => Err(DataUnitError::RawTlvError(e)),
        }
    }
}

/// The element errors and replaced fields met while decoding a message.
pub open spec fn spec_report(b: Seq<u8>) -> (Seq<TlvDecodeError>, Seq<TlvKind>) {
    if b.len() < 4 || b[0] != 2 {
        (Seq::empty(), Seq::empty())
    } else {
        let r = read_tlvs(empty_unit(b[1]), b.skip(4));
        (r.errors, r.duplicates)
    }
}

/// Version gate: a message of at least a header's length whose version
/// byte is not 2 fails with that version, whatever follows it.
pub proof fn lemma_version_gate(b: Seq<u8>)
    requires
        b.len() >= 4,
        b[0] != 2,
    ensures
        spec_decode(b) == Err::<SpecDataUnit, _>(DataUnitError::UnknownCdpVersion(b[0])),
{
}

impl DataUnit {
    /// The value with no borrowed parts; every part of it is owned already.
    pub fn to_static(self) -> (r: Self)
        ensures
            r == self,
    {
        self
    }

    /// Decodes a CDP message (without its SNAP/LLC framing). Elements that
    /// do not decode are left out; a later element replaces an earlier one
    /// of its kind.
    pub fn decode(buf: &[u8]) -> (r: Result<Self, DataUnitError>)
        ensures
            decodes_as(r, spec_decode(buf@)),
    {
        Self::decode_report(buf).0
    }

    /// Decodes as [`Self::decode`] does, and hands back the errors of the
    /// elements that were left out and the kinds of the fields that a later
    /// element replaced, in the order met.
    pub fn decode_report(buf: &[u8]) -> (r: (
        Result<Self, DataUnitError>,
        Vec<TlvDecodeError>,
        Vec<TlvKind>,
    ))
        ensures
            decodes_as(r.0, spec_decode(buf@)),
            r.1@ == spec_report(buf@).0,
            r.2@ == spec_report(buf@).1,
    {
        let mut errors: Vec<TlvDecodeError> = Vec::new();
        let mut duplicates: Vec<TlvKind> = Vec::new();
        if buf.len() < 4 {
            return (Err(DataUnitError::BufferTooShort), errors, duplicates);
        }
        let version = buf[0];
        if version != 2 {
            return (Err(DataUnitError::UnknownCdpVersion(version)), errors, duplicates);
        }
        let time_to_live = buf[1];
        let _checksum = read_be16(buf, 2);
        let mut du = DataUnit {
            time_to_live,
            device_id: None,
            software_version: None,
            platform: None,
            port_id: None,
            duplex: None,
            native_vlan: None,
        };
        let mut pos: usize = 4;
        let ghost whole = read_tlvs(empty_unit(buf@[1]), buf@.skip(4));
        assert(du@ == empty_unit(buf@[1]));
        assert(errors@ + whole.errors =~= whole.errors);
        assert(duplicates@ + whole.duplicates =~= whole.duplicates);
        while pos < buf.len()
            invariant
                4 <= pos <= buf@.len(),
                buf@[0] == 2,
                whole == read_tlvs(empty_unit(buf@[1]), buf@.skip(4)),
                whole.unit == read_tlvs(du@, buf@.skip(pos as int)).unit,
                whole.errors == errors@ + read_tlvs(du@, buf@.skip(pos as int)).errors,
                whole.duplicates == duplicates@ + read_tlvs(du@, buf@.skip(pos as int)).duplicates,
            decreases buf@.len() - pos,
        {
            let rest = vstd::slice::slice_subrange(buf, pos, buf.len());
            assert(rest@ =~= buf@.skip(pos as int));
            let ghost before = read_tlvs(du@, rest@);
            let ghost old_errors = errors@;
            let ghost old_duplicates = duplicates@;
            let raw = match RawTlv::decode(rest) {
                Ok(raw) => raw,
                Err(e) => return (Err(DataUnitError::RawTlvError(e)), errors, duplicates),
            };
            let n = raw.total_len();
            assert(rest@.skip(n as int) =~= buf@.skip(pos + n));
            let replaced = match Tlv::decode(raw) {
                Ok(Tlv::DeviceId(new)) => {
                    let replaced = if du.device_id.is_some() {
                        Some(TlvKind::DeviceId)
                    } else {
                        None
                    };
                    du.device_id = Some(new);
                    replaced
                },
                Ok(Tlv::PortId(new)) => {
                    let replaced = if du.port_id.is_some() {
                        Some(TlvKind::PortId)
                    } else {
                        None
                    };
                    du.port_id = Some(new);
                    replaced
                },
                Ok(Tlv::Platform(new)) => {
                    let replaced = if du.platform.is_some() {
                        Some(TlvKind::Platform)
                    } else {
                        None
                    };
                    du.platform = Some(new);
                    replaced
                },
                Ok(Tlv::SoftwareVersion(new)) => {
                    let replaced = if du.software_version.is_some() {
                        Some(TlvKind::SoftwareVersion)
                    } else {
                        None
                    };
                    du.software_version = Some(new);
                    replaced
                },
                Ok(Tlv::NativeVlan(new)) => {
                    let replaced = if du.native_vlan.is_some() {
                        Some(TlvKind::NativeVlan)
                    } else {
                        None
                    };
                    du.native_vlan = Some(new);
                    replaced
                },
                Ok(Tlv::Duplex(new)) => {
                    let replaced = if du.duplex.is_some() {
                        Some(TlvKind::Duplex)
                    } else {
                        None
                    };
                    du.duplex = Some(new);
                    replaced
                },
                Err(e) => {
                    errors.push(e);
                    None
                },
            };
            if let Some(kind) = replaced {
                duplicates.push(kind);
            }
            pos = pos + n;
            assert(errors@ + read_tlvs(du@, buf@.skip(pos as int)).errors =~= old_errors + before.errors);
            assert(duplicates@ + read_tlvs(du@, buf@.skip(pos as int)).duplicates =~= old_duplicates
                + before.duplicates);
        }
        assert(errors@ + Seq::<TlvDecodeError>::empty() =~= errors@);
        assert(duplicates@ + Seq::<TlvKind>::empty() =~= duplicates@);
        (Ok(du), errors, duplicates)
    }
}

} // verus!
