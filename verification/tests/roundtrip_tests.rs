use drogue_device::address::{Address, GroupAddress, UnicastAddress, VirtualAddress};
use drogue_device::buffer::ByteBuf;
use drogue_device::model::foundation::configuration::{AppKeyIndex, KeyIndex, NetKeyAppKeyIndexesPair, NetKeyIndex};
use drogue_device::model::{CompanyIdentifier, ModelIdentifier};
use drogue_device::pdu::access::{AccessPayload, Opcode};
use drogue_device::status::Status;

#[test]
fn access_payload_is_read_back_from_its_bytes() {
    let payload = AccessPayload { opcode: Opcode::ThreeOctet(0xC2, 0x59, 0x00), parameters: vec![1, 2, 3] };
    let mut buf = ByteBuf::new(16);
    payload.emit(&mut buf).unwrap();
    assert_eq!(buf.as_slice(), &[0xC2, 0x59, 0x00, 1, 2, 3]);
    let back = AccessPayload::parse(buf.as_slice()).ok().unwrap();
    assert_eq!(back.opcode, payload.opcode);
    assert_eq!(back.parameters, payload.parameters);
}

#[test]
fn access_payload_over_384_bytes_is_refused() {
    let mut data = vec![0x04u8];
    data.extend(vec![0u8; 385]);
    assert!(AccessPayload::parse(&data).is_err());
}

#[test]
fn addresses_are_read_back_by_kind() {
    assert!(matches!(Address::parse(UnicastAddress(0x0102).as_bytes()), Address::Unicast(UnicastAddress(0x0102))));
    assert!(matches!(Address::parse(VirtualAddress(0x8123).as_bytes()), Address::Virtual(VirtualAddress(0x8123))));
    assert!(matches!(Address::parse(GroupAddress(0xC001).as_bytes()), Address::Group(GroupAddress(0xC001))));
    assert!(matches!(Address::parse([0, 0]), Address::Unassigned));
    assert!(UnicastAddress::parse([0x80, 0x00]).is_err());
}

#[test]
fn key_index_pair_is_read_back() {
    let pair = NetKeyAppKeyIndexesPair(NetKeyIndex(KeyIndex(0x0ABC)), AppKeyIndex(KeyIndex(0x0005)));
    let mut buf = ByteBuf::new(8);
    pair.emit(&mut buf).unwrap();
    assert_eq!(NetKeyAppKeyIndexesPair::parse(buf.as_slice()), Ok(pair));
}

#[test]
fn model_identifiers_are_read_back() {
    for m in [ModelIdentifier::SIG(0x1000), ModelIdentifier::Vendor(CompanyIdentifier(0x0059), 0xBEEF)] {
        assert_eq!(ModelIdentifier::parse(&m.encode()), Ok(m));
    }
    assert!(ModelIdentifier::parse(&[1, 2, 3]).is_err());
}

#[test]
fn status_codes_are_read_back() {
    for code in 0u8..=255 {
        let s = Status::from(code);
        assert_eq!(u8::from(s), code);
    }
    assert_eq!(u8::from(Status::CannotBind), 0x0D);
}
