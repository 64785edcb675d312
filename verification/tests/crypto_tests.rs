use drogue_device::address::{Address, GroupAddress, LabelUuid, UnicastAddress};
use drogue_device::crypto::{k1, s1};
use drogue_device::driver::pipeline::authentication::Authentication;
use drogue_device::driver::pipeline::lower::Lower;
use drogue_device::driver::DeviceError;
use drogue_device::keys::NetworkKeyHandle;
use drogue_device::pdu::lower::{LowerAccess, LowerAccessMessage, LowerPDU};
use drogue_device::pdu::network::CleartextNetworkPDU;
use drogue_device::pdu::upper::{UpperAccess, UpperPDU};

fn hex(s: &str) -> Vec<u8> {
    (0..s.len()).step_by(2).map(|i| u8::from_str_radix(&s[i..i + 2], 16).unwrap()).collect()
}

fn arr16(s: &str) -> [u8; 16] {
    let v = hex(s);
    let mut a = [0u8; 16];
    a.copy_from_slice(&v);
    a
}

fn key() -> NetworkKeyHandle {
    NetworkKeyHandle {
        key_index: 0,
        nid: 0x68,
        encryption_key: arr16("0953fa93e7caac9638f58820220a398e"),
        privacy_key: arr16("8b84eedec100067d670971dd2aa700cf"),
    }
}

fn access_pdu(payload: Vec<u8>) -> CleartextNetworkPDU {
    CleartextNetworkPDU {
        network_key: key(),
        ivi: 0,
        nid: 0x68,
        ttl: 4,
        seq: 0x000102,
        src: UnicastAddress(0x1201),
        dst: Address::Unicast(UnicastAddress(0x0003)),
        transport_pdu: LowerPDU::Access(LowerAccess { akf: false, aid: 0, message: LowerAccessMessage::Unsegmented(payload) }),
    }
}

#[test]
fn s1_of_test_matches_the_sample() {
    assert_eq!(s1(b"test").to_vec(), hex("b73cefbd641ef2ea598c2b6efb62f79c"));
}

#[test]
fn k1_matches_the_sample() {
    let n = hex("3216d1509884b533248541792b877f98");
    let salt = arr16("2ba14ffa0df84a2831938d57d276cab4");
    let p = hex("5a09d60797eeb4478aada59db3352a0d");
    assert_eq!(k1(&n, &salt, &p).to_vec(), hex("f6ed15a8934afbe7d83e8dcb57fcf5d7"));
}

#[test]
fn label_uuid_derives_its_virtual_address() {
    let label = LabelUuid::parse(&hex("0073e7e4d8b9440faf8415df4c56c0e1")).unwrap();
    assert_eq!(label.virtual_address().0, 0xb529);
    assert!(label.virtual_address().0 >= 0x8000 && label.virtual_address().0 < 0xC000);
}

#[test]
fn label_uuid_of_wrong_length_is_refused() {
    assert!(LabelUuid::parse(&[0u8; 15]).is_err());
}

#[test]
fn sent_network_pdu_is_read_back() {
    let mut auth = Authentication::default();
    let pdu = access_pdu(vec![1, 2, 3, 4, 5, 6, 7]);
    let sent = auth.process_outbound(Some(0x12345678), &pdu).unwrap().unwrap();
    assert_eq!(sent.encrypted_and_mic.len(), 2 + 8 + 4);
    assert_ne!(&sent.encrypted_and_mic[3..10], &[1u8, 2, 3, 4, 5, 6, 7][..]);
    let back = auth.process_inbound(Some(0x12345678), &[key()], sent).unwrap().unwrap();
    assert_eq!(back.ttl, 4);
    assert_eq!(back.seq, 0x000102);
    assert_eq!(back.src, UnicastAddress(0x1201));
    assert!(matches!(back.dst, Address::Unicast(UnicastAddress(3))));
    match back.transport_pdu {
        LowerPDU::Access(LowerAccess { message: LowerAccessMessage::Unsegmented(p), .. }) => {
            assert_eq!(p, vec![1, 2, 3, 4, 5, 6, 7])
        }
        _ => panic!("wrong kind"),
    }
}

#[test]
fn network_pdu_under_another_iv_index_fails_authentication() {
    let mut auth = Authentication::default();
    let pdu = access_pdu(vec![1, 2, 3, 4, 5, 6, 7]);
    let sent = auth.process_outbound(Some(7), &pdu).unwrap().unwrap();
    let r = auth.process_inbound(Some(8), &[key()], sent);
    assert!(matches!(r, Err(DeviceError::CryptoError)));
}

#[test]
fn unprovisioned_node_sends_nothing() {
    let mut auth = Authentication::default();
    let pdu = access_pdu(vec![1, 2, 3, 4, 5]);
    assert!(matches!(auth.process_outbound(None, &pdu), Err(DeviceError::NotProvisioned)));
}

#[test]
fn oversized_network_pdu_is_refused() {
    let mut auth = Authentication::default();
    let pdu = CleartextNetworkPDU {
        dst: Address::Group(GroupAddress(0xC001)),
        ..access_pdu(vec![0u8; 23])
    };
    assert!(matches!(auth.process_outbound(Some(1), &pdu), Err(DeviceError::InsufficientBuffer)));
}

#[test]
fn device_key_message_is_read_back_by_the_lower_stage() {
    let mut lower = Lower::default();
    let device_key = arr16("9d6dd0e96eb25dc19a40ed9914f8f03f");
    let message = UpperPDU::Access(UpperAccess {
        ttl: None,
        network_key: key(),
        ivi: 0,
        nid: 0x68,
        akf: false,
        aid: 0,
        src: UnicastAddress(0x0001),
        dst: Address::Unicast(UnicastAddress(0x1201)),
        payload: vec![0x80, 0x08, 0x00],
    });
    let segments = lower.process_outbound(Some(0x12345678), 5, &device_key, &[0x000200], message).unwrap().unwrap();
    let pdus = segments.iter();
    assert_eq!(pdus.len(), 1);
    let p = &pdus[0];
    assert_eq!(p.ttl, 5);
    let copy = CleartextNetworkPDU {
        network_key: p.network_key,
        ivi: p.ivi,
        nid: p.nid,
        ttl: p.ttl,
        seq: p.seq,
        src: p.src,
        dst: p.dst,
        transport_pdu: p.transport_pdu.duplicate(),
    };
    match lower.process_inbound(Some(0x12345678), &device_key, copy).unwrap().unwrap() {
        UpperPDU::Access(a) => {
            assert_eq!(a.payload, vec![0x80, 0x08, 0x00]);
            assert_eq!(a.ttl, Some(5));
            assert!(!a.akf);
        }
        _ => panic!("wrong kind"),
    }
}

#[test]
fn long_device_key_message_is_cut_into_segments() {
    let mut lower = Lower::default();
    let device_key = [7u8; 16];
    let message = UpperPDU::Access(UpperAccess {
        ttl: Some(3),
        network_key: key(),
        ivi: 0,
        nid: 0x68,
        akf: false,
        aid: 0,
        src: UnicastAddress(0x0001),
        dst: Address::Unicast(UnicastAddress(0x1201)),
        payload: vec![0x42; 20],
    });
    let payload_len = 20;
    let needed = Lower::sequences_needed(&message).unwrap();
    assert_eq!(needed, (payload_len + 4 + 11) / 12);
    let seqs: Vec<u32> = (10..10 + needed as u32).collect();
    let segments = lower.process_outbound(Some(1), 5, &device_key, &seqs, message).unwrap().unwrap();
    let pdus = segments.iter();
    assert_eq!(pdus.len(), 2);
    assert_eq!(pdus[0].seq, 10);
    assert_eq!(pdus[1].seq, 11);
    assert_eq!(pdus[0].ttl, 3);
    match &pdus[1].transport_pdu {
        LowerPDU::Access(LowerAccess { message: LowerAccessMessage::Segmented { seq_zero, seg_o, seg_n, segment_m, .. }, .. }) => {
            assert_eq!(*seq_zero, 10);
            assert_eq!(*seg_o, 1);
            assert_eq!(*seg_n, 1);
            assert_eq!(segment_m.len(), 12);
        }
        _ => panic!("not a segment"),
    }
    let total: usize = pdus
        .iter()
        .map(|p| match &p.transport_pdu {
            LowerPDU::Access(LowerAccess { message: LowerAccessMessage::Segmented { segment_m, .. }, .. }) => segment_m.len(),
            _ => 0,
        })
        .sum();
    assert_eq!(total, payload_len + 4);
}

#[test]
fn upper_access_pdu_gives_its_access_message() {
    let access = UpperPDU::Access(UpperAccess {
        ttl: Some(3),
        network_key: key(),
        ivi: 0,
        nid: 0x68,
        akf: false,
        aid: 0,
        src: UnicastAddress(0x0001),
        dst: Address::Unicast(UnicastAddress(0x1201)),
        payload: vec![0x80, 0x08, 0x00, 0x01],
    });
    let message = access.try_into().ok().unwrap();
    assert_eq!(message.opcode(), drogue_device::pdu::access::Opcode::TwoOctet(0x80, 0x08));
    assert_eq!(message.parameters(), &[0x00, 0x01]);
    assert_eq!(message.ttl, None);
    let control = UpperPDU::Control(drogue_device::pdu::upper::UpperControl { data: vec![1, 2] });
    assert!(matches!(control.try_into(), Err(drogue_device::pdu::ParseError::InvalidPDUFormat)));
}

#[test]
fn short_encrypted_pdus_fail_authentication() {
    let mut auth = Authentication::default();
    for len in 7..10 {
        let pdu = drogue_device::pdu::network::ObfuscatedAndEncryptedNetworkPDU {
            ivi: 0,
            nid: 0x68,
            obfuscated: [0x11, 0x22, 0x33, 0x44, 0x55, 0x66],
            encrypted_and_mic: vec![0xA5; len],
        };
        assert!(matches!(auth.process_inbound(Some(0x12345678), &[key()], pdu), Err(DeviceError::CryptoError)));
    }
}
