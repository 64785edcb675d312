use drogue_device::buffer::ByteBuf;
use drogue_device::model::firmware::{Control, FirmwareUpdateMessage, FirmwareUpdateServer, Status, Write};
use drogue_device::model::{Message, Model};
use drogue_device::pdu::access::Opcode;
use drogue_device::pdu::ParseError;

#[test]
fn control_steps_are_read_by_type() {
    assert!(matches!(Control::parse(&[1]), Ok(Control::Start)));
    assert!(matches!(Control::parse(&[3]), Ok(Control::MarkBooted)));
    match Control::parse(&[4, 2, 0xAA, 0xBB, 0xCC]) {
        Ok(Control::NextVersion(v)) => assert_eq!(v, vec![0xAA, 0xBB]),
        _ => panic!("no version"),
    }
    assert!(matches!(Control::parse(&[9]), Err(ParseError::InvalidLength)));
}

#[test]
fn write_is_read_and_written_back() {
    let bytes = [0x10u8, 0x00, 0x00, 0x00, 0x03, 1, 2, 3];
    let w = Write::parse(&bytes).ok().unwrap();
    assert_eq!(w.offset, 16);
    assert_eq!(w.payload, vec![1, 2, 3]);
    let mut buf = ByteBuf::new(16);
    w.emit_parameters(&mut buf).unwrap();
    assert_eq!(buf.as_slice(), &bytes);
}

#[test]
fn status_is_read_and_written_back() {
    let bytes = [0x40u8, 0x00, 0x01, 0x00, 0x00, 0x02, b'v', b'1'];
    let s = Status::parse(&bytes).ok().unwrap();
    assert_eq!(s.mtu, 0x40);
    assert_eq!(s.offset, 0x100);
    assert_eq!(s.version, b"v1".to_vec());
    let mut buf = ByteBuf::new(16);
    s.emit_parameters(&mut buf).unwrap();
    assert_eq!(buf.as_slice(), &bytes);
}

#[test]
fn server_reads_firmware_messages() {
    let server = FirmwareUpdateServer;
    assert!(matches!(server.parse(Opcode::ThreeOctet(0xF0, 0x03, 0x00), &[]), Ok(Some(FirmwareUpdateMessage::Get))));
    assert!(matches!(server.parse(Opcode::ThreeOctet(0xF2, 0x03, 0x00), &[2]), Ok(Some(FirmwareUpdateMessage::Control(Control::Update)))));
    assert!(matches!(server.parse(Opcode::OneOctet(0x01), &[]), Ok(None)));
    let m = FirmwareUpdateMessage::Control(Control::NextVersion(vec![1, 2]));
    assert_eq!(m.opcode(), Opcode::ThreeOctet(0xF2, 0x03, 0x00));
    let mut buf = ByteBuf::new(8);
    m.emit_parameters(&mut buf).unwrap();
    assert_eq!(buf.as_slice(), &[4, 2, 1, 2]);
}

#[test]
fn next_version_written_is_read_back() {
    let step = Control::NextVersion(vec![b'2', b'.', b'0']);
    let mut buf = ByteBuf::new(8);
    step.emit_parameters(&mut buf).unwrap();
    match Control::parse(buf.as_slice()) {
        Ok(Control::NextVersion(v)) => assert_eq!(v, b"2.0".to_vec()),
        _ => panic!("expected the next version back"),
    }
    let w = Write { offset: 0x0102_0304, payload: vec![9, 8] };
    let mut buf = ByteBuf::new(16);
    w.emit_parameters(&mut buf).unwrap();
    let back = Write::parse(buf.as_slice()).ok().unwrap();
    assert_eq!(back.offset, 0x0102_0304);
    assert_eq!(back.payload, vec![9, 8]);
}
