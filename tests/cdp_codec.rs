use rlldp::cdp::tlv::{Duplex, RawTlvError, TlvDecodeError, TlvKind};
use rlldp::cdp::{DataUnit, DataUnitError};

fn element(ty: u16, payload: &[u8]) -> Vec<u8> {
    let total = (payload.len() + 4) as u16;
    let mut v = ty.to_be_bytes().to_vec();
    v.extend_from_slice(&total.to_be_bytes());
    v.extend_from_slice(payload);
    v
}

fn header(version: u8, ttl: u8) -> Vec<u8> {
    vec![version, ttl, 0xab, 0xcd]
}

#[test]
fn cdp_version_three_is_rejected() {
    let mut buf = header(3, 180);
    buf.extend(element(1, b"switch"));
    assert_eq!(DataUnit::decode(&buf), Err(DataUnitError::UnknownCdpVersion(3)));
    assert_eq!(DataUnit::decode(&[3, 0, 0, 0, 0xff]), Err(DataUnitError::UnknownCdpVersion(3)));
}

#[test]
fn cdp_short_header_is_rejected() {
    assert_eq!(DataUnit::decode(&[2, 180, 0]), Err(DataUnitError::BufferTooShort));
}

#[test]
fn cdp_fields_decode_with_last_one_winning() {
    let mut buf = header(2, 180);
    buf.extend(element(1, b"old"));
    buf.extend(element(1, b"switch"));
    buf.extend(element(3, b"Gi0/1"));
    buf.extend(element(5, b"IOS"));
    buf.extend(element(6, b"cisco"));
    buf.extend(element(0x0a, &[0x00, 0x0a]));
    buf.extend(element(0x0b, &[0x07]));
    buf.extend(element(0x0b, &[0x01, 0x02]));
    buf.extend(element(0x99, &[1]));
    let du = DataUnit::decode(&buf).unwrap();
    assert_eq!(du.time_to_live, 180);
    assert_eq!(du.device_id, Some("switch".to_string()));
    assert_eq!(du.port_id, Some("Gi0/1".to_string()));
    assert_eq!(du.software_version, Some("IOS".to_string()));
    assert_eq!(du.platform, Some("cisco".to_string()));
    assert_eq!(du.native_vlan, Some(10));
    assert_eq!(du.duplex, Some(Duplex::Full));
}

#[test]
fn cdp_duplex_zero_is_half() {
    let mut buf = header(2, 1);
    buf.extend(element(0x0b, &[0]));
    assert_eq!(DataUnit::decode(&buf).unwrap().duplex, Some(Duplex::Half));
}

#[test]
fn cdp_framing_errors() {
    let mut buf = header(2, 1);
    buf.extend_from_slice(&[0, 1, 0, 9, b'a']);
    assert_eq!(DataUnit::decode(&buf), Err(DataUnitError::RawTlvError(RawTlvError::BufferTooShort)));
    let mut buf = header(2, 1);
    buf.extend_from_slice(&[0, 1, 0, 2]);
    assert_eq!(DataUnit::decode(&buf), Err(DataUnitError::RawTlvError(RawTlvError::BufferTooShort)));
}

#[test]
fn cdp_report_lists_skipped_elements_and_replaced_fields() {
    let mut buf = header(2, 60);
    buf.extend(element(1, b"a"));
    buf.extend(element(0x0a, &[1]));
    buf.extend(element(1, b"b"));
    buf.extend(element(0x42, &[]));
    buf.extend(element(0x0b, &[1, 1]));
    let (du, errors, duplicates) = DataUnit::decode_report(&buf);
    assert_eq!(du.unwrap().device_id, Some("b".to_string()));
    assert_eq!(
        errors,
        vec![TlvDecodeError::BufferTooShort, TlvDecodeError::UnknownTlv(0x42), TlvDecodeError::BufferTooLong]
    );
    assert_eq!(duplicates, vec![TlvKind::DeviceId]);
}
