use drogue_device::buffer::ByteBuf;
use drogue_device::driver::pipeline::segmentation::fcs;
use drogue_device::generic_provisioning::{
    GenericProvisioningError, GenericProvisioningPDU, ProvisioningBearerControl, Reason, TransactionContinuation,
    TransactionStart,
};
use drogue_device::pdu::ParseError;
use drogue_device::provisioning::{
    AuthenticationMethod, ErrorCode, OOBAction, OOBSize, ProvisioningPDU, PublicKey, Random,
};

fn emitted(pdu: &ProvisioningPDU) -> Vec<u8> {
    let mut buf = ByteBuf::new(128);
    pdu.emit(&mut buf).unwrap();
    buf.as_slice().to_vec()
}

#[test]
fn capabilities_are_read_back_from_their_bytes() {
    let bytes = [0x01u8, 0x02, 0x00, 0x01, 0x00, 0x01, 0x04, 0x00, 0x01, 0x00, 0x00, 0x00];
    let pdu = ProvisioningPDU::parse(&bytes).unwrap();
    match &pdu {
        ProvisioningPDU::Capabilities(c) => {
            assert_eq!(c.number_of_elements, 2);
            assert!(c.static_oob_type.available);
            assert!(!c.public_key_type.available);
            assert_eq!(c.output_oob_size, OOBSize::MaximumSize(4));
            assert_eq!(c.input_oob_size, OOBSize::NotSupported);
        }
        _ => panic!("not capabilities"),
    }
    assert_eq!(emitted(&pdu), bytes.to_vec());
}

#[test]
fn capabilities_with_an_unknown_algorithm_bit_are_refused() {
    let bytes = [0x01u8, 0x01, 0x00, 0x02, 0x00, 0x00, 0x00, 0x00, 0x00, 0x00, 0x00, 0x00];
    assert!(matches!(ProvisioningPDU::parse(&bytes), Err(ParseError::InvalidValue)));
}

#[test]
fn invite_is_read() {
    match ProvisioningPDU::parse(&[0x00, 0x05]).unwrap() {
        ProvisioningPDU::Invite(i) => assert_eq!(i.attention_duration, 5),
        _ => panic!("not an invite"),
    }
}

#[test]
fn start_with_output_authentication_is_read() {
    match ProvisioningPDU::parse(&[0x02, 0x00, 0x00, 0x02, 0x00, 0x04]).unwrap() {
        ProvisioningPDU::Start(s) => {
            assert_eq!(s.authentication_method, AuthenticationMethod::OutputOOBAuthentication);
            assert!(matches!(s.authentication_action, OOBAction::Output(_)));
            assert_eq!(s.authentication_size, OOBSize::MaximumSize(4));
        }
        _ => panic!("not a start"),
    }
}

#[test]
fn public_key_is_read_back_from_its_bytes() {
    let mut bytes = vec![0x03u8];
    bytes.extend((0..64).map(|i| i as u8));
    let pdu = ProvisioningPDU::parse(&bytes).unwrap();
    match &pdu {
        ProvisioningPDU::PublicKey(pk) => {
            assert_eq!(pk.x[0], 0);
            assert_eq!(pk.y[31], 63);
        }
        _ => panic!("not a public key"),
    }
    assert_eq!(emitted(&pdu), bytes);
}

#[test]
fn random_is_emitted_after_its_type() {
    let pdu = ProvisioningPDU::Random(Random { random: [9u8; 16] });
    let mut expected = vec![0x06u8];
    expected.extend([9u8; 16]);
    assert_eq!(emitted(&pdu), expected);
}

#[test]
fn confirmation_of_wrong_length_is_refused() {
    assert!(matches!(ProvisioningPDU::parse(&[0x05, 1, 2, 3]), Err(ParseError::InvalidLength)));
}

#[test]
fn unknown_pdu_type_is_refused() {
    assert!(matches!(ProvisioningPDU::parse(&[0x0A]), Err(ParseError::InvalidPDUFormat)));
    assert!(matches!(ProvisioningPDU::parse(&[]), Err(ParseError::InvalidLength)));
}

#[test]
fn failed_and_complete_are_read() {
    match ProvisioningPDU::parse(&[0x09, 0x04]).unwrap() {
        ProvisioningPDU::Failed(f) => assert_eq!(f.error_code, ErrorCode::ConfirmationFailed),
        _ => panic!("not failed"),
    }
    assert!(matches!(ProvisioningPDU::parse(&[0x08]).unwrap(), ProvisioningPDU::Complete));
    assert!(matches!(ProvisioningPDU::parse(&[0x09, 0x09]), Err(ParseError::InvalidValue)));
}

#[test]
fn input_complete_and_complete_are_one_byte() {
    assert_eq!(emitted(&ProvisioningPDU::InputComplete), vec![0x04]);
    assert_eq!(emitted(&ProvisioningPDU::Complete), vec![0x08]);
    let pk = ProvisioningPDU::PublicKey(PublicKey { x: [1u8; 32], y: [2u8; 32] });
    assert_eq!(emitted(&pk).len(), 65);
}

#[test]
fn emitting_into_a_full_buffer_fails() {
    let mut buf = ByteBuf::new(4);
    assert!(ProvisioningPDU::Random(Random { random: [0u8; 16] }).emit(&mut buf).is_err());
}

#[test]
fn transaction_start_is_read_back() {
    let start = GenericProvisioningPDU::TransactionStart(TransactionStart { seg_n: 2, total_len: 0x0140, fcs: 0xAB, data: vec![1, 2, 3] });
    let mut buf = ByteBuf::new(64);
    start.emit(&mut buf).unwrap();
    assert_eq!(buf.as_slice(), &[0x08, 0x01, 0x40, 0xAB, 1, 2, 3]);
    match GenericProvisioningPDU::parse(buf.as_slice()).unwrap() {
        GenericProvisioningPDU::TransactionStart(t) => {
            assert_eq!(t.seg_n, 2);
            assert_eq!(t.total_len, 0x0140);
            assert_eq!(t.fcs, 0xAB);
            assert_eq!(t.data, vec![1, 2, 3]);
        }
        _ => panic!("not a start"),
    }
}

#[test]
fn transaction_continuation_is_read_back() {
    let cont = GenericProvisioningPDU::TransactionContinuation(TransactionContinuation { segment_index: 3, data: vec![9, 8] });
    let mut buf = ByteBuf::new(64);
    cont.emit(&mut buf).unwrap();
    assert_eq!(buf.as_slice(), &[0x0E, 9, 8]);
    match GenericProvisioningPDU::parse(buf.as_slice()).unwrap() {
        GenericProvisioningPDU::TransactionContinuation(t) => {
            assert_eq!(t.segment_index, 3);
            assert_eq!(t.data, vec![9, 8]);
        }
        _ => panic!("not a continuation"),
    }
}

#[test]
fn acks_and_link_control_are_read() {
    assert!(matches!(GenericProvisioningPDU::parse(&[0x01]).unwrap(), GenericProvisioningPDU::TransactionAck));
    assert!(matches!(GenericProvisioningPDU::parse(&[0x05]), Err(GenericProvisioningError::InvalidBits)));
    let mut open = vec![0x03u8];
    open.extend([0x11u8; 16]);
    match GenericProvisioningPDU::parse(&open).unwrap() {
        GenericProvisioningPDU::ProvisioningBearerControl(ProvisioningBearerControl::LinkOpen(u)) => assert_eq!(u.0, [0x11u8; 16]),
        _ => panic!("not a link open"),
    }
    match GenericProvisioningPDU::parse(&[0x0B, 0x02]).unwrap() {
        GenericProvisioningPDU::ProvisioningBearerControl(ProvisioningBearerControl::LinkClose(r)) => assert_eq!(r, Reason::Fail),
        _ => panic!("not a link close"),
    }
    let mut buf = ByteBuf::new(8);
    GenericProvisioningPDU::ProvisioningBearerControl(ProvisioningBearerControl::LinkAck).emit(&mut buf).unwrap();
    assert_eq!(buf.as_slice(), &[0x07]);
    assert!(matches!(GenericProvisioningPDU::parse(&[0x07, 0x00]), Err(GenericProvisioningError::InvalidSize)));
}

#[test]
fn frame_check_sequence_checks_itself() {
    for data in [vec![0x03u8, 0x3F], vec![0x01, 0x02, 0x00, 0x01, 0, 0, 0, 0, 0, 0, 0, 0], vec![]] {
        let f = fcs(&data);
        let mut with = data.clone();
        with.push(f);
        assert_eq!(fcs(&with), 0x30);
    }
    assert_eq!(fcs(&[0x03, 0x3F]), 0xFC);
}

#[test]
fn oob_sizes_are_one_to_eight() {
    assert_eq!(OOBSize::parse(0), Ok(OOBSize::NotSupported));
    assert_eq!(OOBSize::parse(1), Ok(OOBSize::MaximumSize(1)));
    assert_eq!(OOBSize::parse(8), Ok(OOBSize::MaximumSize(8)));
    assert_eq!(OOBSize::parse(9), Err(ParseError::InvalidValue));
}
