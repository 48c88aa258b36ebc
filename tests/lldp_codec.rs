use rlldp::lldp::du::{DataUnit, DataUnitError, Dot1, Dot3, DuplicateField, Org};
use rlldp::lldp::tlv::org::dot3::{
    AutoNegotiationCapability, AutoNegotiationStatus, Duplex, MacPhyStatus, MauType,
};
use rlldp::lldp::tlv::org::{dot1, dot3, CustomOrgTlv, OrgTlv};
use rlldp::lldp::tlv::{
    decode_list, Capabilities, CapabilityFlags, ChassisId, IpAddress, ManagementAddress,
    ManagementInterfaceKind, NetworkAddress, PortId, RawTlvError, Tlv, TlvDecodeError, TlvList,
};
use rlldp::MacAddress;

fn test_encode_decode(tlv: Tlv) {
    let mut buf = Vec::new();
    tlv.encode(&mut buf);
    assert_eq!(buf.len(), tlv.encoded_size());
    let parsed = decode_list(&buf).unwrap();
    assert_eq!(parsed, vec![tlv]);
}

fn ipv4(a: u8, b: u8, c: u8, d: u8) -> NetworkAddress {
    NetworkAddress::Ip(IpAddress::V4([a, b, c, d]))
}

fn ipv6_of_segments(s: [u16; 8]) -> NetworkAddress {
    let mut b = [0u8; 16];
    for i in 0..8 {
        b[2 * i] = (s[i] >> 8) as u8;
        b[2 * i + 1] = (s[i] & 0xff) as u8;
    }
    NetworkAddress::Ip(IpAddress::V6(b))
}

fn du_encode_decode(du: DataUnit) {
    let mut buf = Vec::new();
    du.clone().encode(&mut buf);
    let parsed = DataUnit::decode(&buf).unwrap();
    assert_eq!(parsed, du);
}

#[test]
fn du_basic_encode_decode() {
    du_encode_decode(DataUnit {
        chassis_id: ChassisId::Local("chassis".to_string()),
        port_id: PortId::Local("port".to_string()),
        time_to_live: 1234,
        port_description: Some("port_description".to_string()),
        system_name: Some("system_name".to_string()),
        system_description: Some("system_description".to_string()),
        capabilities: None,
        management_address: vec![
            ManagementAddress {
                address: ipv4(1, 2, 3, 4),
                interface_subtype: ManagementInterfaceKind::IfIndex,
                interface_number: 123456,
                oid: "oid".to_string(),
            },
            ManagementAddress {
                address: ipv4(5, 6, 7, 8),
                interface_subtype: ManagementInterfaceKind::SysPort,
                interface_number: 567890,
                oid: "".to_string(),
            },
        ],
        org: Org {
            dot1: Dot1 {
                port_vlan_id: Some(1234),
                vlan_name: vec![(1234, "vlan1".to_string()), (5678, "vlan2".to_string())],
            },
            dot3: Dot3 {
                mac_phy_status: Some(MacPhyStatus {
                    status: AutoNegotiationStatus::from_bits_retain(AutoNegotiationStatus::ENABLED),
                    advertised: AutoNegotiationCapability::from_bits_retain(
                        AutoNegotiationCapability::OTHER | AutoNegotiationCapability::B_1000_BASE_T_FD,
                    ),
                    mau: MauType::B1000BaseTFD,
                }),
            },
        },
    })
}

#[test]
fn chassis_id_basic_encode_decode() {
    let s = "foobarbaz".to_string();
    test_encode_decode(Tlv::ChassisId(ChassisId::Chassis(s.clone())));
    test_encode_decode(Tlv::ChassisId(ChassisId::InterfaceAlias(s.clone())));
    test_encode_decode(Tlv::ChassisId(ChassisId::InterfaceName(s.clone())));
    test_encode_decode(Tlv::ChassisId(ChassisId::PortComponent(s.clone())));
    test_encode_decode(Tlv::ChassisId(ChassisId::Local(s.clone())));
    test_encode_decode(Tlv::ChassisId(ChassisId::MacAddress(MacAddress([12, 34, 56, 78, 90, 12]))));
    test_encode_decode(Tlv::ChassisId(ChassisId::NetworkAddress(ipv4(1, 2, 3, 4))));
    test_encode_decode(Tlv::ChassisId(ChassisId::NetworkAddress(ipv6_of_segments([1, 2, 3, 4, 5, 6, 7, 8]))));
    test_encode_decode(Tlv::ChassisId(ChassisId::NetworkAddress(NetworkAddress::Other(
        44,
        vec![11, 22, 33, 44, 55],
    ))));
}

#[test]
fn port_id_basic_encode_decode() {
    let s = "foobarbaz".to_string();
    test_encode_decode(Tlv::PortId(PortId::InterfaceAlias(s.clone())));
    test_encode_decode(Tlv::PortId(PortId::InterfaceName(s.clone())));
    test_encode_decode(Tlv::PortId(PortId::PortComponent(s.clone())));
    test_encode_decode(Tlv::PortId(PortId::Local(s.clone())));
    test_encode_decode(Tlv::PortId(PortId::MacAddress(MacAddress([12, 34, 56, 78, 90, 12]))));
    test_encode_decode(Tlv::PortId(PortId::AgentCircuitId(vec![1, 2, 3, 4])));
    test_encode_decode(Tlv::PortId(PortId::NetworkAddress(ipv4(1, 2, 3, 4))));
    test_encode_decode(Tlv::PortId(PortId::NetworkAddress(ipv6_of_segments([1, 2, 3, 4, 5, 6, 7, 8]))));
    test_encode_decode(Tlv::PortId(PortId::NetworkAddress(NetworkAddress::Other(
        44,
        vec![11, 22, 33, 44, 55],
    ))));
}

#[test]
fn dot1_test_encode_decode() {
    test_encode_decode(Tlv::Org(OrgTlv::Dot1(dot1::Tlv::PortVlanId(1234))));
    test_encode_decode(Tlv::Org(OrgTlv::Dot1(dot1::Tlv::VlanName(1234, "foobarbaz".to_string()))));
}

#[test]
fn management_address_basic_encode_decode() {
    test_encode_decode(Tlv::ManagementAddress(ManagementAddress {
        address: ipv4(1, 2, 4, 4),
        interface_subtype: ManagementInterfaceKind::IfIndex,
        interface_number: 1234,
        oid: "foobarbaz".to_string(),
    }));
}

#[test]
fn dot3_test_encode_decode() {
    test_encode_decode(Tlv::Org(OrgTlv::Dot3(dot3::Tlv::MacPhyStatus(MacPhyStatus {
        status: AutoNegotiationStatus::from_bits_retain(AutoNegotiationStatus::ENABLED),
        advertised: AutoNegotiationCapability::from_bits_retain(
            AutoNegotiationCapability::OTHER | AutoNegotiationCapability::B_1000_BASE_T_FD,
        ),
        mau: MauType::B1000BaseTFD,
    }))));
}

#[test]
fn custom_org_tlv_basic_encode_decode() {
    test_encode_decode(Tlv::Org(OrgTlv::Custom(CustomOrgTlv {
        org: [1, 2, 3],
        subtype: 123,
        data: vec![1, 2, 3, 4],
    })))
}

#[test]
fn system_capabilities_basic_encode_decode() {
    let capabilities =
        CapabilityFlags::from_bits_retain(CapabilityFlags::OTHER | CapabilityFlags::TWO_PORT_MAC_RELAY);
    let enabled_capabilities =
        CapabilityFlags::from_bits_retain(CapabilityFlags::REPEATER | CapabilityFlags::S_VLAN);
    test_encode_decode(Tlv::Capabilities(Capabilities { capabilities, enabled_capabilities }))
}

/// One element: header (type, length) then payload.
fn element(ty: u8, payload: &[u8]) -> Vec<u8> {
    let len = payload.len();
    let mut v = vec![(ty << 1) | ((len >> 8) as u8), (len & 0xff) as u8];
    v.extend_from_slice(payload);
    v
}

#[test]
fn end_element_encodes_to_two_zero_bytes() {
    let mut buf = Vec::new();
    Tlv::End.encode(&mut buf);
    assert_eq!(buf, vec![0, 0]);
    assert_eq!(decode_list(&buf).unwrap(), vec![Tlv::End]);
}

#[test]
fn time_to_live_header_and_payload_bytes() {
    let mut buf = Vec::new();
    Tlv::TimeToLive(0x0102).encode(&mut buf);
    assert_eq!(buf, vec![0x06, 0x02, 0x01, 0x02]);
}

#[test]
fn truncated_and_overlong_fixed_fields() {
    let short = TlvList::decode(&element(3, &[1]));
    assert_eq!(short.errors, vec![TlvDecodeError::BufferTooShort]);
    let long = TlvList::decode(&element(3, &[1, 2, 3]));
    assert_eq!(long.errors, vec![TlvDecodeError::BufferTooLong]);
    let short = TlvList::decode(&element(7, &[1, 2, 3]));
    assert_eq!(short.errors, vec![TlvDecodeError::BufferTooShort]);
    let long = TlvList::decode(&element(7, &[1, 2, 3, 4, 5]));
    assert_eq!(long.errors, vec![TlvDecodeError::BufferTooLong]);
    let short = TlvList::decode(&element(127, &[0x00, 0x80, 0xc2, 1, 9]));
    assert_eq!(short.errors, vec![TlvDecodeError::BufferTooShort]);
    let long = TlvList::decode(&element(127, &[0x00, 0x12, 0x0f, 1, 1, 2, 3, 4, 5, 6]));
    assert_eq!(long.errors, vec![TlvDecodeError::BufferTooLong]);
    let short = TlvList::decode(&element(1, &[4, 1, 2, 3, 4, 5]));
    assert_eq!(short.errors, vec![TlvDecodeError::BufferTooShort]);
    let long = TlvList::decode(&element(2, &[3, 1, 2, 3, 4, 5, 6, 7]));
    assert_eq!(long.errors, vec![TlvDecodeError::BufferTooLong]);
}

#[test]
fn per_element_errors_are_skipped_and_recorded() {
    let mut buf = element(0, &[9]);
    buf.extend(element(1, &[9, 1]));
    buf.extend(element(2, &[0, 1]));
    buf.extend(element(8, &[5, 1, 1, 2, 3, 4, 9, 0, 0, 0, 0, 0]));
    buf.extend(element(100, &[]));
    buf.extend(element(127, &[0x00, 0x80, 0xc2, 2, 0]));
    buf.extend(element(5, b"name"));
    let list = TlvList::decode(&buf);
    assert_eq!(list.tlvs, vec![Tlv::SystemName("name".to_string())]);
    assert_eq!(
        list.errors,
        vec![
            TlvDecodeError::BytesAfterEnd,
            TlvDecodeError::UnknownChassisIdSubtype(9),
            TlvDecodeError::UnknownPortIdSubtype(0),
            TlvDecodeError::UnknownManagementInterfaceSubtype(9),
            TlvDecodeError::UnknownTlv(100),
            TlvDecodeError::UnknownTlv(2),
        ]
    );
    assert_eq!(list.end_len, buf.len());
    assert_eq!(list.critical_error, None);
}

#[test]
fn framing_error_stops_the_scan() {
    let mut buf = element(5, b"a");
    buf.extend_from_slice(&[0x0a, 0x05, 1, 2]);
    let list = TlvList::decode(&buf);
    assert_eq!(list.tlvs, vec![Tlv::SystemName("a".to_string())]);
    assert_eq!(list.end_len, 3);
    assert_eq!(list.critical_error, Some(RawTlvError::BufferTooShort));
    assert_eq!(decode_list(&buf), Err(RawTlvError::BufferTooShort));
    assert_eq!(DataUnit::decode(&[0x02]), Err(DataUnitError::RawTlvError(RawTlvError::BufferTooShort)));
}

#[test]
fn invalid_utf8_text_is_replaced() {
    let list = decode_list(&element(5, &[0x66, 0xff, 0x67])).unwrap();
    assert_eq!(list, vec![Tlv::SystemName("f\u{fffd}g".to_string())]);
    let list = decode_list(&element(4, "gr\u{fc}n".as_bytes())).unwrap();
    assert_eq!(list, vec![Tlv::PortDescription("gr\u{fc}n".to_string())]);
}

fn mandatory(buf: &mut Vec<u8>, chassis: bool, port: bool, ttl: bool) {
    if chassis {
        buf.extend(element(1, &[7, b'c']));
    }
    if port {
        buf.extend(element(2, &[7, b'p']));
    }
    if ttl {
        buf.extend(element(3, &[0, 120]));
    }
}

#[test]
fn second_system_name_wins_with_one_warning() {
    let tlvs = vec![
        Tlv::ChassisId(ChassisId::Local("c".to_string())),
        Tlv::PortId(PortId::Local("p".to_string())),
        Tlv::TimeToLive(120),
        Tlv::SystemName("first".to_string()),
        Tlv::SystemName("second".to_string()),
    ];
    let (du, warnings) = DataUnit::assemble(tlvs);
    assert_eq!(du.unwrap().system_name, Some("second".to_string()));
    assert_eq!(warnings, vec![DuplicateField::SystemName]);
}

#[test]
fn missing_chassis_id_fails() {
    let tlvs = vec![Tlv::PortId(PortId::Local("p".to_string())), Tlv::TimeToLive(120)];
    let (du, warnings) = DataUnit::assemble(tlvs);
    assert_eq!(du, Err(DataUnitError::MissingChassisId));
    assert!(warnings.is_empty());
    let mut buf = Vec::new();
    mandatory(&mut buf, false, true, true);
    assert_eq!(DataUnit::decode(&buf), Err(DataUnitError::MissingChassisId));
}

#[test]
fn missing_port_id_and_time_to_live_fail() {
    let mut buf = Vec::new();
    mandatory(&mut buf, true, false, true);
    assert_eq!(DataUnit::decode(&buf), Err(DataUnitError::MissingPortId));
    let mut buf = Vec::new();
    mandatory(&mut buf, true, true, false);
    assert_eq!(DataUnit::decode(&buf), Err(DataUnitError::MissingTimeToLive));
    let mut buf = Vec::new();
    mandatory(&mut buf, true, true, true);
    buf.extend(element(0, &[]));
    let du = DataUnit::decode(&buf).unwrap();
    assert_eq!(du.chassis_id, ChassisId::Local("c".to_string()));
    assert_eq!(du.port_id, PortId::Local("p".to_string()));
    assert_eq!(du.time_to_live, 120);
}

#[test]
fn unknown_organization_round_trips_byte_for_byte() {
    let bytes = element(127, &[0xaa, 0xbb, 0xcc, 0x42, 9, 8, 7]);
    let tlvs = decode_list(&bytes).unwrap();
    assert_eq!(
        tlvs,
        vec![Tlv::Org(OrgTlv::Custom(CustomOrgTlv { org: [0xaa, 0xbb, 0xcc], subtype: 0x42, data: vec![9, 8, 7] }))]
    );
    let mut out = Vec::new();
    tlvs[0].encode(&mut out);
    assert_eq!(out, bytes);
}

#[test]
fn mau_type_speed_and_duplex() {
    assert_eq!(MauType::B1000BaseTFD.speed(), Some(1000));
    assert_eq!(MauType::B1000BaseTFD.duplex(), Some(Duplex::Full));
    assert_eq!(MauType::B10BaseTHD.speed(), Some(10));
    assert_eq!(MauType::B10BaseTHD.duplex(), Some(Duplex::Half));
    assert_eq!(MauType::B100BaseT4.duplex(), None);
    assert_eq!(MauType::B10GigBaseSR.speed(), Some(10000));
    assert_eq!(MauType::B2BaseTL.speed(), Some(2));
    assert_eq!(MauType::Unknown(999).speed(), None);
    assert_eq!(MauType::Unknown(999).duplex(), None);
    assert_eq!(MauType::from_code(8), MauType::B10BaseFL);
    assert_eq!(MauType::B10BaseFL.code(), 8);
    assert_eq!(MauType::from_code(54), MauType::Unknown(54));
}

#[test]
fn advertised_capabilities_are_little_endian() {
    let mut buf = Vec::new();
    Tlv::Org(OrgTlv::Dot3(dot3::Tlv::MacPhyStatus(MacPhyStatus {
        status: AutoNegotiationStatus::from_bits_retain(3),
        advertised: AutoNegotiationCapability::from_bits_retain(0x0102),
        mau: MauType::B1000BaseTFD,
    })))
    .encode(&mut buf);
    assert_eq!(buf, vec![0xfe, 0x09, 0x00, 0x12, 0x0f, 1, 3, 0x02, 0x01, 0x00, 30]);
}

#[test]
fn management_address_wire_form() {
    let mut buf = Vec::new();
    ManagementAddress {
        address: ipv4(10, 0, 0, 1),
        interface_subtype: ManagementInterfaceKind::IfIndex,
        interface_number: 0x01020304,
        oid: "x".to_string(),
    }
    .encode(&mut buf);
    assert_eq!(buf, vec![5, 1, 10, 0, 0, 1, 2, 1, 2, 3, 4, 1, b'x']);
    assert_eq!(ManagementAddress::decode(&buf[..buf.len() - 1]), Err(TlvDecodeError::BufferTooShort));
    let mut long = buf.clone();
    long.push(0);
    assert_eq!(ManagementAddress::decode(&long), Err(TlvDecodeError::BufferTooLong));
}

#[test]
fn network_address_lengths() {
    assert_eq!(NetworkAddress::decode(&[]), Err(TlvDecodeError::BufferTooShort));
    assert_eq!(NetworkAddress::decode(&[1, 1, 2, 3]), Err(TlvDecodeError::BufferTooShort));
    assert_eq!(NetworkAddress::decode(&[1, 1, 2, 3, 4, 5]), Err(TlvDecodeError::BufferTooLong));
    assert_eq!(NetworkAddress::decode(&[2, 0, 0]), Err(TlvDecodeError::BufferTooShort));
    assert_eq!(NetworkAddress::decode(&[9]), Ok(NetworkAddress::Other(9, vec![])));
}
