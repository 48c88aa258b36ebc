use rlldp::common::{DataUnit, Protocol};
use rlldp::lldp::du::{DataUnit as LldpDataUnit, Org};
use rlldp::lldp::tlv::{ChassisId, ManagementAddress, ManagementInterfaceKind, NetworkAddress, PortId, Tlv};
use rlldp::{classify_frame, FramePayload, MacAddress, MacHeader, LLDP_TYPE};

fn frame(dst: [u8; 6], src: [u8; 6], ether_type: u16, payload: &[u8]) -> Vec<u8> {
    let mut f = dst.to_vec();
    f.extend_from_slice(&src);
    f.extend_from_slice(&ether_type.to_be_bytes());
    f.extend_from_slice(payload);
    f
}

#[test]
fn lldp_frame_is_classified() {
    let src = [1, 2, 3, 4, 5, 6];
    let f = frame([0x01, 0x80, 0xc2, 0, 0, 0x0e], src, LLDP_TYPE, &[0, 0]);
    assert_eq!(classify_frame(&f), Some((MacAddress(src), FramePayload::Lldp(14))));
    let h = MacHeader::decode(&f).unwrap();
    assert_eq!(h.source_mac, MacAddress(src));
    assert_eq!(h.ether_type, 0x88cc);
}

#[test]
fn cdp_frame_is_classified() {
    let src = [9, 8, 7, 6, 5, 4];
    let f = frame([0x01, 0x00, 0x0c, 0xcc, 0xcc, 0xcc], src, 40, &[0xaa, 0xaa, 3, 0, 0, 0x0c, 0x20, 0, 2, 180, 0, 0]);
    assert_eq!(classify_frame(&f), Some((MacAddress(src), FramePayload::Cdp(22))));
}

#[test]
fn other_frames_are_ignored() {
    let f = frame([0xff; 6], [1; 6], 0x0800, &[0; 20]);
    assert_eq!(classify_frame(&f), None);
    assert_eq!(classify_frame(&f[..13]), None);
    assert!(MacHeader::decode(&f[..13]).is_none());
}

#[test]
fn unified_view_of_lldp_unit() {
    let du = DataUnit::from(LldpDataUnit {
        chassis_id: ChassisId::Local("c".to_string()),
        port_id: PortId::InterfaceName("eth0".to_string()),
        time_to_live: 90,
        port_description: None,
        system_name: Some("host".to_string()),
        system_description: None,
        capabilities: None,
        management_address: vec![],
        org: Org::default(),
    });
    assert_eq!(du.protocol(), Protocol::Lldp);
    assert_eq!(du.time_to_live(), 90);
    assert_eq!(du.system_name(), Some(&"host".to_string()));
    assert_eq!(du.port_vlan_id(), None);
    assert_eq!(du.port_id(), Some(PortId::InterfaceName("eth0".to_string())));
}

#[test]
fn element_copy_is_equal() {
    let t = Tlv::ManagementAddress(ManagementAddress {
        address: NetworkAddress::Other(6, vec![1, 2]),
        interface_subtype: ManagementInterfaceKind::Unknown,
        interface_number: 7,
        oid: "o".to_string(),
    });
    assert_eq!(t.to_static(), t);
    assert_eq!(t.clone().into_static(), t);
}
