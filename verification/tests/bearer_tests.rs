use drogue_device::device::Uuid;
use drogue_device::driver::pipeline::provisioning_bearer::{BearerMessage, ProvisioningBearer};
use drogue_device::driver::pipeline::segmentation::Segmentation;
use drogue_device::driver::DeviceError;
use drogue_device::generic_provisioning::{
    GenericProvisioningPDU, ProvisioningBearerControl, Reason, TransactionStart,
};
use drogue_device::pdu::bearer::AdvertisingPDU;
use drogue_device::provisioning::{ProvisioningPDU, PublicKey, Random};

const LINK: u32 = 0x1234_5678;

fn uuid() -> Uuid {
    Uuid([0x42u8; 16])
}

fn link_open(u: [u8; 16]) -> AdvertisingPDU {
    AdvertisingPDU {
        link_id: LINK,
        transaction_number: 0,
        pdu: GenericProvisioningPDU::ProvisioningBearerControl(ProvisioningBearerControl::LinkOpen(Uuid(u))),
    }
}

fn single(tn: u8, data: Vec<u8>) -> AdvertisingPDU {
    AdvertisingPDU {
        link_id: LINK,
        transaction_number: tn,
        pdu: GenericProvisioningPDU::TransactionStart(TransactionStart { seg_n: 0, total_len: data.len() as u16, fcs: 0, data }),
    }
}

fn ack(tn: u8) -> AdvertisingPDU {
    AdvertisingPDU { link_id: LINK, transaction_number: tn, pdu: GenericProvisioningPDU::TransactionAck }
}

#[test]
fn link_open_for_this_device_is_acknowledged() {
    let mut bearer = ProvisioningBearer::default();
    let (r, sent) = bearer.process_inbound(&uuid(), link_open([0x42u8; 16]));
    assert!(matches!(r, Ok(None)));
    assert_eq!(sent.len(), 1);
    assert_eq!(sent[0].link_id, LINK);
    assert!(matches!(sent[0].pdu, GenericProvisioningPDU::ProvisioningBearerControl(ProvisioningBearerControl::LinkAck)));
}

#[test]
fn link_open_for_another_device_is_ignored() {
    let mut bearer = ProvisioningBearer::default();
    let (r, sent) = bearer.process_inbound(&uuid(), link_open([0x01u8; 16]));
    assert!(matches!(r, Ok(None)));
    assert!(sent.is_empty());
    let (r, _) = bearer.process_outbound(ProvisioningPDU::Complete).map(|v| (Ok::<_, DeviceError>(()), v)).unwrap_or((Err(DeviceError::InvalidLink), vec![]));
    assert!(matches!(r, Err(DeviceError::InvalidLink)));
}

#[test]
fn transaction_is_read_and_acknowledged() {
    let mut bearer = ProvisioningBearer::default();
    bearer.process_inbound(&uuid(), link_open([0x42u8; 16]));
    let (r, sent) = bearer.process_inbound(&uuid(), single(0, vec![0x00, 0x05]));
    match r {
        Ok(Some(BearerMessage::ProvisioningPDU(ProvisioningPDU::Invite(i)))) => assert_eq!(i.attention_duration, 5),
        _ => panic!("no invite"),
    }
    assert_eq!(sent.len(), 1);
    assert_eq!(sent[0].transaction_number, 0);
    assert!(matches!(sent[0].pdu, GenericProvisioningPDU::TransactionAck));
}

#[test]
fn repeated_transaction_is_acknowledged_again() {
    let mut bearer = ProvisioningBearer::default();
    bearer.process_inbound(&uuid(), link_open([0x42u8; 16]));
    bearer.process_inbound(&uuid(), single(0, vec![0x00, 0x05]));
    let (r, sent) = bearer.process_inbound(&uuid(), single(0, vec![0x00, 0x05]));
    assert!(matches!(r, Ok(None)));
    assert_eq!(sent.len(), 1);
    assert!(matches!(sent[0].pdu, GenericProvisioningPDU::TransactionAck));
}

#[test]
fn outbound_pdu_is_retransmitted_until_acknowledged() {
    let mut bearer = ProvisioningBearer::default();
    bearer.process_inbound(&uuid(), link_open([0x42u8; 16]));
    let sent = bearer.process_outbound(ProvisioningPDU::Random(Random { random: [3u8; 16] })).unwrap();
    assert_eq!(sent.len(), 1);
    assert_eq!(sent[0].transaction_number, 0x80);
    assert_eq!(bearer.try_retransmit().len(), 1);
    let (r, out) = bearer.process_inbound(&uuid(), ack(0x81));
    assert!(matches!(r, Ok(None)));
    assert!(out.is_empty());
    assert_eq!(bearer.try_retransmit().len(), 1);
    bearer.process_inbound(&uuid(), ack(0x80));
    assert!(bearer.try_retransmit().is_empty());
}

#[test]
fn link_close_is_handed_up() {
    let mut bearer = ProvisioningBearer::default();
    bearer.process_inbound(&uuid(), link_open([0x42u8; 16]));
    let close = AdvertisingPDU {
        link_id: LINK,
        transaction_number: 0,
        pdu: GenericProvisioningPDU::ProvisioningBearerControl(ProvisioningBearerControl::LinkClose(Reason::Success)),
    };
    let (r, _) = bearer.process_inbound(&uuid(), close);
    assert!(matches!(r, Ok(Some(BearerMessage::Close(Reason::Success)))));
}

#[test]
fn segmented_public_key_is_reassembled() {
    let mut sender = Segmentation::default();
    let key = PublicKey { x: [5u8; 32], y: [6u8; 32] };
    let segments = sender.process_outbound(ProvisioningPDU::PublicKey(key)).unwrap().iter();
    assert_eq!(segments.len(), 3);
    let mut receiver = Segmentation::default();
    let mut last = None;
    let n = segments.len();
    for (i, s) in segments.into_iter().enumerate() {
        let r = receiver.process_inbound(s).unwrap();
        if i + 1 < n {
            assert!(r.is_none());
        } else {
            last = r;
        }
    }
    match last {
        Some(ProvisioningPDU::PublicKey(k)) => {
            assert_eq!(k.x, [5u8; 32]);
            assert_eq!(k.y, [6u8; 32]);
        }
        _ => panic!("not reassembled"),
    }
}

#[test]
fn segment_data_joins_to_the_pdu_bytes() {
    let mut sender = Segmentation::default();
    let key = PublicKey { x: [5u8; 32], y: [6u8; 32] };
    let segments = sender.process_outbound(ProvisioningPDU::PublicKey(key)).unwrap().iter();
    let mut joined = Vec::new();
    for s in segments {
        match s {
            GenericProvisioningPDU::TransactionStart(t) => {
                assert_eq!(t.total_len, 65);
                assert_eq!(t.data.len(), 20);
                joined.extend_from_slice(&t.data);
            }
            GenericProvisioningPDU::TransactionContinuation(c) => joined.extend_from_slice(&c.data),
            _ => panic!("not a segment"),
        }
    }
    let mut expected = vec![0x03u8];
    expected.extend_from_slice(&[5u8; 32]);
    expected.extend_from_slice(&[6u8; 32]);
    assert_eq!(joined, expected);
}
