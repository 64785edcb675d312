use drogue_device::address::{Address, UnicastAddress};
use drogue_device::driver::pipeline::caches::{NetworkMessageCache, ReplayCache};
use drogue_device::driver::pipeline::relay::Relay;
use drogue_device::keys::NetworkKeyHandle;
use drogue_device::pdu::lower::{LowerAccess, LowerAccessMessage, LowerPDU};
use drogue_device::pdu::network::CleartextNetworkPDU;

fn pdu(seq: u32, ttl: u8) -> CleartextNetworkPDU {
    CleartextNetworkPDU {
        network_key: NetworkKeyHandle { key_index: 0, nid: 1, encryption_key: [0u8; 16], privacy_key: [0u8; 16] },
        ivi: 0,
        nid: 1,
        ttl,
        seq,
        src: UnicastAddress(0x0042),
        dst: Address::Unicast(UnicastAddress(0x0007)),
        transport_pdu: LowerPDU::Access(LowerAccess { akf: true, aid: 1, message: LowerAccessMessage::Unsegmented(vec![1, 2, 3, 4, 5]) }),
    }
}

#[test]
fn replayed_sequence_numbers_are_detected() {
    let mut cache = ReplayCache::new();
    let src = UnicastAddress(0x0042);
    assert!(!cache.has_seen(1, 100, src));
    assert!(cache.has_seen(1, 100, src));
    assert!(cache.has_seen(1, 99, src));
    assert!(!cache.has_seen(1, 101, src));
    assert!(cache.has_seen(0, 500, src));
    assert!(!cache.has_seen(2, 5, src));
    assert!(!cache.has_seen(1, 1, UnicastAddress(0x0043)));
}

#[test]
fn replay_cache_forgets_the_least_recently_heard() {
    let mut cache = ReplayCache::new();
    for a in 1..=33u16 {
        assert!(!cache.has_seen(0, 10, UnicastAddress(a)));
    }
    assert!(!cache.has_seen(0, 10, UnicastAddress(1)));
    assert!(cache.has_seen(0, 10, UnicastAddress(33)));
}

#[test]
fn network_message_is_seen_once() {
    let mut cache = NetworkMessageCache::new();
    assert!(!cache.has_seen(7, &pdu(1, 5)));
    assert!(cache.has_seen(7, &pdu(1, 5)));
    assert!(!cache.has_seen(8, &pdu(1, 5)));
    assert!(!cache.has_seen(7, &pdu(2, 5)));
}

#[test]
fn relay_forwards_once_with_one_hop_less() {
    let mut relay = Relay::default();
    let copy = relay.process_inbound(false, false, Some(3), &pdu(9, 5)).unwrap().unwrap();
    assert_eq!(copy.ttl, 4);
    assert_eq!(copy.seq, 9);
    assert!(relay.process_inbound(false, false, Some(3), &pdu(9, 5)).unwrap().is_none());
}

#[test]
fn relay_keeps_local_and_expiring_pdus() {
    let mut relay = Relay::default();
    assert!(relay.process_inbound(true, false, Some(3), &pdu(9, 5)).unwrap().is_none());
    assert!(relay.process_inbound(false, true, Some(3), &pdu(9, 5)).unwrap().is_none());
    assert!(relay.process_inbound(false, false, Some(3), &pdu(9, 1)).unwrap().is_none());
    assert!(relay.process_inbound(false, false, None, &pdu(9, 5)).is_err());
}
