use drogue_device::pdu::access::Opcode;
use drogue_device::buffer::ByteBuf;

#[test]
fn opcode_two_octets_round_trip() {
    let data = [0x80u8, 0x09, 0x01];
    let (op, rest) = Opcode::split(&data).expect("opcode");
    assert_eq!(op, Opcode::TwoOctet(0x80, 0x09));
    assert_eq!(rest, &[0x01]);
    let mut buf = ByteBuf::new(8);
    op.emit(&mut buf).unwrap();
    assert_eq!(buf.as_slice(), &[0x80, 0x09]);
}

use drogue_device::pdu::lower::{LowerAccess, LowerAccessMessage, LowerControl, LowerControlMessage, LowerPDU, SzMic};
use drogue_device::pdu::network::ObfuscatedAndEncryptedNetworkPDU;
use drogue_device::pdu::proxy::{MessageType, ProxyPDU, SAR};
use drogue_device::pdu::ParseError;

#[test]
fn opcodes_of_each_length_are_split() {
    let (op, rest) = Opcode::split(&[0x04, 0xAA]).unwrap();
    assert_eq!(op, Opcode::OneOctet(0x04));
    assert_eq!(rest, &[0xAA]);
    let (op, rest) = Opcode::split(&[0xC1, 0x59, 0x00]).unwrap();
    assert_eq!(op, Opcode::ThreeOctet(0xC1, 0x59, 0x00));
    assert!(rest.is_empty());
    assert!(Opcode::split(&[0x80]).is_none());
    assert!(Opcode::split(&[]).is_none());
}

#[test]
fn unsegmented_access_pdu_is_read_back() {
    let pdu = LowerPDU::Access(LowerAccess { akf: true, aid: 0x15, message: LowerAccessMessage::Unsegmented(vec![1, 2, 3, 4, 5]) });
    let bytes = pdu.encode();
    assert_eq!(bytes, vec![0x40 | 0x15, 1, 2, 3, 4, 5]);
    match LowerPDU::parse(false, &bytes).ok().unwrap() {
        LowerPDU::Access(LowerAccess { akf, aid, message: LowerAccessMessage::Unsegmented(p) }) => {
            assert!(akf);
            assert_eq!(aid, 0x15);
            assert_eq!(p, vec![1, 2, 3, 4, 5]);
        }
        _ => panic!("wrong kind"),
    }
}

#[test]
fn segmented_access_pdu_is_read_back() {
    let pdu = LowerPDU::Access(LowerAccess {
        akf: false,
        aid: 0,
        message: LowerAccessMessage::Segmented { szmic: SzMic::Bit32, seq_zero: 0x1234, seg_o: 2, seg_n: 3, segment_m: vec![9; 12] },
    });
    let bytes = pdu.encode();
    assert_eq!(bytes.len(), 16);
    match LowerPDU::parse(false, &bytes).ok().unwrap() {
        LowerPDU::Access(LowerAccess { message: LowerAccessMessage::Segmented { seq_zero, seg_o, seg_n, segment_m, .. }, .. }) => {
            assert_eq!(seq_zero, 0x1234);
            assert_eq!(seg_o, 2);
            assert_eq!(seg_n, 3);
            assert_eq!(segment_m, vec![9; 12]);
        }
        _ => panic!("wrong kind"),
    }
}

#[test]
fn control_pdu_is_read_back() {
    let pdu = LowerPDU::Control(LowerControl { opcode: 0x0A, message: LowerControlMessage::Unsegmented { parameters: vec![7, 7] } });
    let bytes = pdu.encode();
    assert_eq!(bytes, vec![0x0A, 7, 7]);
    assert!(LowerPDU::parse(true, &bytes).ok().unwrap().is_control());
    assert!(LowerPDU::parse(false, &[]).is_err());
}

#[test]
fn network_pdu_bytes_are_read_back() {
    let pdu = ObfuscatedAndEncryptedNetworkPDU { ivi: 1, nid: 0x69, obfuscated: [1, 2, 3, 4, 5, 6], encrypted_and_mic: vec![7; 10] };
    let bytes = pdu.encode();
    assert_eq!(bytes[0], 0x80 | 0x69);
    let back = ObfuscatedAndEncryptedNetworkPDU::parse(&bytes).ok().unwrap();
    assert_eq!(back.nid, 0x69);
    assert_eq!(back.ivi, 1);
    assert_eq!(back.obfuscated, [1, 2, 3, 4, 5, 6]);
    assert_eq!(back.encrypted_and_mic, vec![7; 10]);
    let long = [0u8; 7 + 29];
    assert!(matches!(ObfuscatedAndEncryptedNetworkPDU::parse(&long), Err(ParseError::InsufficientBuffer)));
}

#[test]
fn proxy_pdu_is_read_back() {
    let pdu = ProxyPDU { sar: SAR::First, message_type: MessageType::ProvisioningPDU, data: vec![1, 2] };
    let mut buf = ByteBuf::new(70);
    pdu.emit(&mut buf).unwrap();
    assert_eq!(buf.as_slice(), &[0x43, 1, 2]);
    let back = ProxyPDU::parse(buf.as_slice()).ok().unwrap();
    assert_eq!(back.sar, SAR::First);
    assert_eq!(back.message_type, MessageType::ProvisioningPDU);
    assert_eq!(back.data, vec![1, 2]);
    assert!(ProxyPDU::parse(&[0x3F]).is_err());
}
