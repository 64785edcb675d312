use drogue_device::device::Uuid;
use drogue_device::interface::gatt::{beacon_data, proxy_pdu_bytes, receive_proxy_pdu};
use drogue_device::interface::{Beacon, BearerError, NetworkId, PDU};
use drogue_device::pdu::network::ObfuscatedAndEncryptedNetworkPDU;
use drogue_device::pdu::ParseError;
use drogue_device::provisioning::ProvisioningPDU;

#[test]
fn network_pdu_is_read_from_a_complete_proxy_pdu() {
    let data = [0x00u8, 0x69, 1, 2, 3, 4, 5, 6, 0xAA, 0xBB];
    match receive_proxy_pdu(&data) {
        Ok(Some(PDU::Network(p))) => {
            assert_eq!(p.ivi, 1);
            assert_eq!(p.nid, 0x69);
            assert_eq!(p.obfuscated, [1, 2, 3, 4, 5, 6]);
            assert_eq!(p.encrypted_and_mic, vec![0xAA, 0xBB]);
        }
        _ => panic!("expected a network PDU"),
    }
}

#[test]
fn provisioning_pdu_is_read_from_a_complete_proxy_pdu() {
    let data = [0x03u8, 0x00, 0x05];
    match receive_proxy_pdu(&data) {
        Ok(Some(PDU::Provisioning(ProvisioningPDU::Invite(invite)))) => {
            assert_eq!(invite.attention_duration, 5);
        }
        _ => panic!("expected a provisioning invite"),
    }
}

#[test]
fn beacons_configuration_and_segments_are_skipped() {
    assert!(matches!(receive_proxy_pdu(&[0x01u8, 0x00, 0x01]), Ok(None)));
    assert!(matches!(receive_proxy_pdu(&[0x02u8, 0x00]), Ok(None)));
    assert!(matches!(receive_proxy_pdu(&[0x43u8, 0x00, 0x05]), Ok(None)));
}

#[test]
fn malformed_proxy_pdus_are_refused() {
    assert!(matches!(
        receive_proxy_pdu(&[0u8; 0]),
        Err(BearerError::ParseError(ParseError::InvalidLength))
    ));
    assert!(matches!(
        receive_proxy_pdu(&[0x05u8, 0x00]),
        Err(BearerError::ParseError(ParseError::InvalidValue))
    ));
    let long = [0x03u8; 80];
    assert!(matches!(
        receive_proxy_pdu(&long),
        Err(BearerError::ParseError(ParseError::InsufficientBuffer))
    ));
}

#[test]
fn provisioning_pdu_goes_out_in_one_proxy_pdu() {
    let pdu = PDU::Provisioning(ProvisioningPDU::InputComplete);
    assert_eq!(proxy_pdu_bytes(&pdu, 23).unwrap(), vec![0x03, 0x04]);
    assert!(matches!(proxy_pdu_bytes(&pdu, 1), Err(BearerError::InsufficientResources)));
}

#[test]
fn network_pdu_sent_over_gatt_is_received_back() {
    let sent = ObfuscatedAndEncryptedNetworkPDU {
        ivi: 1,
        nid: 0x68,
        obfuscated: [9, 8, 7, 6, 5, 4],
        encrypted_and_mic: vec![1, 2, 3, 4, 5, 6, 7, 8, 9],
    };
    let bytes = proxy_pdu_bytes(&PDU::Network(sent), 23).unwrap();
    assert_eq!(bytes[0], 0x00);
    assert_eq!(bytes[1], 0xE8);
    assert_eq!(bytes.len(), 17);
    match receive_proxy_pdu(&bytes) {
        Ok(Some(PDU::Network(p))) => {
            assert_eq!(p.nid, 0x68);
            assert_eq!(p.obfuscated, [9, 8, 7, 6, 5, 4]);
            assert_eq!(p.encrypted_and_mic, vec![1, 2, 3, 4, 5, 6, 7, 8, 9]);
        }
        _ => panic!("expected the network PDU back"),
    }
}

#[test]
fn unprovisioned_beacon_carries_the_device_uuid() {
    let uuid = Uuid([0x11; 16]);
    let data = beacon_data(&Beacon::Unprovisioned, Some(uuid)).unwrap();
    let mut expected = vec![0x02u8, 0x01, 0x06, 0x03, 0x03, 0x27, 0x18, 0x15, 0x16, 0x27, 0x18];
    expected.extend_from_slice(&[0x11; 16]);
    expected.extend_from_slice(&[0x00, 0x00]);
    assert_eq!(data, expected);
    assert!(beacon_data(&Beacon::Unprovisioned, None).is_none());
}

#[test]
fn provisioned_beacon_carries_the_network_id() {
    let id = NetworkId([1, 2, 3, 4, 5, 6, 7, 8]);
    let data = beacon_data(&Beacon::Provisioned(id), None).unwrap();
    assert_eq!(
        data,
        vec![0x02, 0x01, 0x06, 0x03, 0x03, 0x28, 0x18, 0x0C, 0x16, 0x28, 0x18, 0x00, 1, 2, 3, 4, 5, 6, 7, 8]
    );
    assert!(beacon_data(&Beacon::Secure, None).is_none());
}
