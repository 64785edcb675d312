use drogue_device::address::{Address, UnicastAddress};
use drogue_device::driver::pipeline::mesh::{NetworkRetransmitDetails, PublishRetransmitDetails};
use drogue_device::driver::pipeline::publish::Publish;
use drogue_device::driver::pipeline::transmit::{ModelKey, Transmit};
use drogue_device::driver::pipeline::upper::Upper;
use drogue_device::driver::DeviceError;
use drogue_device::keys::NetworkKeyHandle;
use drogue_device::model::foundation::configuration::network_transmit::NetworkTransmitConfig;
use drogue_device::model::foundation::configuration::relay::{Relay, RelayConfig};
use drogue_device::model::ModelIdentifier;
use drogue_device::pdu::access::{AccessMessage, AccessPayload, Opcode};
use drogue_device::pdu::network::ObfuscatedAndEncryptedNetworkPDU;
use drogue_device::pdu::upper::{UpperAccess, UpperPDU};

fn network_pdu(tag: u8) -> ObfuscatedAndEncryptedNetworkPDU {
    ObfuscatedAndEncryptedNetworkPDU { ivi: 0, nid: 1, obfuscated: [tag; 6], encrypted_and_mic: vec![tag; 9] }
}

fn message(parameters: Vec<u8>) -> AccessMessage {
    AccessMessage {
        ttl: None,
        network_key: NetworkKeyHandle { key_index: 0, nid: 1, encryption_key: [0u8; 16], privacy_key: [0u8; 16] },
        ivi: 0,
        nid: 1,
        akf: true,
        aid: 2,
        src: UnicastAddress(1),
        dst: Address::Unicast(UnicastAddress(2)),
        payload: AccessPayload { opcode: Opcode::TwoOctet(0x82, 0x04), parameters },
    }
}

#[test]
fn retransmit_details_come_from_the_configuration() {
    let relay = RelayConfig { relay: Relay::SupportedEnabled, relay_retransmit_count: 1, relay_retransmit_interval_steps: 20 };
    assert_eq!(NetworkRetransmitDetails::from(&relay), NetworkRetransmitDetails { count: 1, interval_ms: 210 });
    let transmit = NetworkTransmitConfig { network_retransmit_count: 2, network_retransmit_interval_steps: 10 };
    assert_eq!(NetworkRetransmitDetails::from(&transmit), NetworkRetransmitDetails { count: 2, interval_ms: 110 });
    assert_eq!(PublishRetransmitDetails::from_settings(3, 1), PublishRetransmitDetails { count: 3, interval_ms: 100 });
}

#[test]
fn network_pdu_is_sent_at_once_and_repeated() {
    let mut transmit = Transmit::new();
    let details = NetworkRetransmitDetails { count: 2, interval_ms: 100 };
    let step = transmit.process_outbound(network_pdu(7), &details, 1000);
    assert_eq!(step.transmit.len(), 1);
    assert_eq!(step.transmit[0].obfuscated, [7u8; 6]);
    let step = transmit.retransmit(1000);
    assert_eq!(step.transmit.len(), 1);
    assert_eq!(step.deadline, Some(1100));
    assert!(transmit.retransmit(1050).transmit.is_empty());
    assert_eq!(transmit.retransmit(1101).transmit.len(), 1);
    assert_eq!(transmit.next_deadline(1101), None);
}

#[test]
fn network_pdu_sent_once_more_goes_out_twice_at_the_first_repeat() {
    let mut transmit = Transmit::new();
    let details = NetworkRetransmitDetails { count: 1, interval_ms: 100 };
    transmit.process_outbound(network_pdu(3), &details, 0);
    let step = transmit.retransmit(0);
    assert_eq!(step.transmit.len(), 2);
    assert_eq!(step.deadline, None);
}

#[test]
fn publication_is_written_and_remembered() {
    let mut upper = Upper::default();
    let key = ModelKey::new(UnicastAddress(1), ModelIdentifier::SIG(0x1000));
    let details = PublishRetransmitDetails { count: 2, interval_ms: 50 };
    match upper.process_outbound(&message(vec![1, 2]), Some((key, details)), 10).unwrap() {
        Some(UpperPDU::Access(a)) => {
            assert_eq!(a.payload, vec![0x82, 0x04, 1, 2]);
            assert!(a.akf);
            assert_eq!(a.aid, 2);
        }
        _ => panic!("no access PDU"),
    }
    let too_long = message(vec![0u8; 379]);
    assert!(matches!(upper.process_outbound(&too_long, None, 10), Err(DeviceError::InsufficientBuffer)));
}

#[test]
fn inbound_access_payload_is_read() {
    let mut upper = Upper::default();
    let pdu = UpperPDU::Access(UpperAccess {
        ttl: Some(3),
        network_key: NetworkKeyHandle { key_index: 0, nid: 1, encryption_key: [0u8; 16], privacy_key: [0u8; 16] },
        ivi: 0,
        nid: 1,
        akf: false,
        aid: 0,
        src: UnicastAddress(5),
        dst: Address::Unicast(UnicastAddress(6)),
        payload: vec![0x80, 0x09, 0x01],
    });
    let m = upper.process_inbound(pdu).unwrap().unwrap();
    assert_eq!(m.payload.opcode, Opcode::TwoOctet(0x80, 0x09));
    assert_eq!(m.payload.parameters, vec![0x01]);
    assert_eq!(m.src, UnicastAddress(5));
}

#[test]
fn publish_cache_repeats_a_publication() {
    let mut publish = Publish::new();
    let key = ModelKey::new(UnicastAddress(1), ModelIdentifier::SIG(0x1000));
    publish.process_outbound(&message(vec![9]), Some((key, PublishRetransmitDetails { count: 2, interval_ms: 50 })), 100);
    assert!(publish.next_deadline().is_some());
}

#[test]
fn repeats_send_the_pdus_handed_in_unchanged() {
    let mut transmit = Transmit::new();
    let details = NetworkRetransmitDetails { count: 3, interval_ms: 10 };
    transmit.process_outbound(network_pdu(1), &details, 0);
    transmit.process_outbound(network_pdu(2), &details, 0);
    for now in [0u64, 11, 22, 33, 44, 55] {
        for p in transmit.retransmit(now).transmit {
            assert!(p.obfuscated == [1u8; 6] || p.obfuscated == [2u8; 6]);
            assert_eq!(p.nid, network_pdu(p.obfuscated[0]).nid);
            assert_eq!(p.encrypted_and_mic, network_pdu(p.obfuscated[0]).encrypted_and_mic);
        }
    }
}
