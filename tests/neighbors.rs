use rlldp::cdp;
use rlldp::common::{DataUnit, Protocol};
use rlldp::lldp::du::{DataUnit as LldpDataUnit, Org};
use rlldp::lldp::tlv::{ChassisId, PortId};
use rlldp::neighbor::{NeighborKey, NeighborTable};
use rlldp::MacAddress;

const MAC: MacAddress = MacAddress([0xaa, 0xbb, 0xcc, 0x00, 0x00, 0x01]);

fn lldp_du(ttl: u16, name: &str) -> DataUnit {
    DataUnit::Lldp(LldpDataUnit {
        chassis_id: ChassisId::Local("c".to_string()),
        port_id: PortId::Local("p".to_string()),
        time_to_live: ttl,
        port_description: None,
        system_name: Some(name.to_string()),
        system_description: None,
        capabilities: None,
        management_address: vec![],
        org: Org::default(),
    })
}

fn key() -> NeighborKey {
    NeighborKey { protocol: Protocol::Lldp, source: MAC }
}

#[test]
fn neighbor_lifecycle_refresh_and_expiry() {
    let mut table: NeighborTable<&str> = NeighborTable::new();
    let g1 = table.next_generation();
    assert_eq!(table.update(MAC, lldp_du(2, "a"), 1000, "timer1"), None);
    assert_eq!(table.len(), 1);
    let g2 = table.next_generation();
    assert_eq!(table.update(MAC, lldp_du(2, "b"), 1500, "timer2"), Some("timer1"));
    assert_eq!(table.len(), 1);
    let n = table.get(&key()).unwrap();
    assert_eq!(n.first_detection_time, 1000);
    assert_eq!(n.last_detection_time, 1500);
    assert_eq!(n.generation, g2);
    assert_eq!(n.du.time_to_live(), 2);
    assert!(!table.expire(key(), g1));
    assert_eq!(table.len(), 1);
    assert!(table.expire(key(), g2));
    assert_eq!(table.len(), 0);
    assert!(table.get(&key()).is_none());
}

#[test]
fn stale_expiry_after_refresh_keeps_later_update() {
    let mut table: NeighborTable<u32> = NeighborTable::new();
    let g1 = table.next_generation();
    table.update(MAC, lldp_du(0, "first"), 10, 1);
    table.update(MAC, lldp_du(0, "second"), 11, 2);
    assert!(!table.expire(key(), g1));
    let n = table.get(&key()).unwrap();
    assert_eq!(n.du.system_name(), Some(&"second".to_string()));
}

#[test]
fn expiry_before_refresh_then_update_reinserts() {
    let mut table: NeighborTable<u32> = NeighborTable::new();
    let g1 = table.next_generation();
    table.update(MAC, lldp_du(0, "first"), 10, 1);
    assert!(table.expire(key(), g1));
    assert_eq!(table.update(MAC, lldp_du(0, "second"), 11, 2), None);
    let n = table.get(&key()).unwrap();
    assert_eq!(n.first_detection_time, 11);
    assert_eq!(n.du.system_name(), Some(&"second".to_string()));
}

#[test]
fn protocols_are_separate_keys() {
    let mut table: NeighborTable<u32> = NeighborTable::new();
    table.update(MAC, lldp_du(5, "l"), 1, 1);
    let cdp_du = DataUnit::Cdp(cdp::DataUnit {
        time_to_live: 7,
        device_id: Some("dev".to_string()),
        software_version: None,
        platform: None,
        port_id: Some("Gi0/2".to_string()),
        duplex: None,
        native_vlan: Some(20),
    });
    assert_eq!(cdp_du.time_to_live(), 7);
    assert_eq!(cdp_du.system_name(), Some(&"dev".to_string()));
    assert_eq!(cdp_du.port_vlan_id(), Some(20));
    assert_eq!(cdp_du.port_id(), Some(PortId::InterfaceName("Gi0/2".to_string())));
    assert_eq!(cdp_du.protocol(), Protocol::Cdp);
    assert_eq!(table.update(MAC, cdp_du, 2, 2), None);
    assert_eq!(table.len(), 2);
}
