use drogue_device::address::UnicastAddress;
use drogue_device::buffer::ByteBuf;
use drogue_device::model::foundation::configuration::app_key::AppKeyMessage;
use drogue_device::model::foundation::configuration::beacon::BeaconMessage;
use drogue_device::model::foundation::configuration::default_ttl::DefaultTTLMessage;
use drogue_device::model::foundation::configuration::model_app::{ModelAppMessage, ModelAppPayload, ModelAppStatusMessage};
use drogue_device::model::foundation::configuration::network_transmit::NetworkTransmitConfig;
use drogue_device::model::foundation::configuration::relay::{Relay, RelayConfig};
use drogue_device::model::foundation::configuration::server::{ConfigurationMessage, ConfigurationServer};
use drogue_device::model::foundation::configuration::{AppKeyIndex, KeyIndex};
use drogue_device::model::{CompanyIdentifier, Message, Model, ModelIdentifier, Status};
use drogue_device::pdu::access::Opcode;
use drogue_device::pdu::ParseError;

fn parameters<M: Message>(m: &M) -> Vec<u8> {
    let mut buf = ByteBuf::new(64);
    m.emit_parameters(&mut buf).unwrap();
    buf.as_slice().to_vec()
}

#[test]
fn beacon_set_is_read_and_status_written() {
    assert_eq!(BeaconMessage::parse_set(&[0x01]), Ok(BeaconMessage::SetRequest(true)));
    assert_eq!(BeaconMessage::parse_set(&[0x02]), Err(ParseError::InvalidValue));
    assert_eq!(BeaconMessage::parse_set(&[]), Err(ParseError::InvalidLength));
    assert_eq!(BeaconMessage::parse_get(&[]), Ok(BeaconMessage::Get));
    assert_eq!(parameters(&BeaconMessage::Status(true)), vec![0x01]);
    assert_eq!(BeaconMessage::Status(false).opcode(), Opcode::TwoOctet(0x80, 0x0B));
}

#[test]
fn default_ttl_messages_are_read() {
    assert!(DefaultTTLMessage::parse_get(&[]).is_ok());
    assert!(DefaultTTLMessage::parse_get(&[1]).is_err());
    assert!(DefaultTTLMessage::parse_set(&[7]).is_ok());
}

#[test]
fn model_app_bind_is_read_and_its_status_written() {
    let bytes = [0x05u8, 0x00, 0x01, 0x00, 0x00, 0x10];
    let payload = ModelAppPayload::parse(&bytes).unwrap();
    assert_eq!(payload.element_address, UnicastAddress(0x0005));
    assert_eq!(payload.app_key_index, AppKeyIndex(KeyIndex(1)));
    assert_eq!(payload.model_identifier, ModelIdentifier::SIG(0x1000));
    assert_eq!(payload.encode(), bytes.to_vec());
    let status = ModelAppMessage::Status(ModelAppStatusMessage { status: Status::Success, payload });
    let mut expected = vec![0x00u8];
    expected.extend_from_slice(&bytes);
    assert_eq!(parameters(&status), expected);
    assert_eq!(ModelAppPayload::parse(&[0x00, 0x00, 0x01, 0x00, 0x00, 0x10]), Err(ParseError::InvalidValue));
    assert_eq!(ModelAppPayload::parse(&[0x05, 0x00]), Err(ParseError::InvalidLength));
}

#[test]
fn vendor_model_app_bind_is_read() {
    let bytes = [0x05u8, 0x00, 0x02, 0x00, 0x59, 0x00, 0x34, 0x12];
    let payload = ModelAppPayload::parse(&bytes).unwrap();
    assert_eq!(payload.model_identifier, ModelIdentifier::Vendor(CompanyIdentifier(0x0059), 0x1234));
}

#[test]
fn configuration_server_reads_by_opcode() {
    let server = ConfigurationServer;
    match server.parse(Opcode::TwoOctet(0x80, 0x0A), &[0x01]) {
        Ok(Some(ConfigurationMessage::Beacon(BeaconMessage::SetRequest(true)))) => {}
        _ => panic!("beacon set not read"),
    }
    assert!(matches!(server.parse(Opcode::OneOctet(0x3F), &[]), Ok(None)));
}

#[test]
fn app_key_add_is_read() {
    let mut bytes = vec![0x01u8, 0x20, 0x00];
    bytes.extend([0xAAu8; 16]);
    match AppKeyMessage::parse_add(&bytes).unwrap() {
        AppKeyMessage::Add(add) => assert_eq!(add.app_key, [0xAAu8; 16]),
        _ => panic!("not an add"),
    }
    assert!(AppKeyMessage::parse_add(&bytes[..10]).is_err());
}

#[test]
fn relay_state_is_written_with_its_retransmissions() {
    let config = RelayConfig { relay: Relay::SupportedEnabled, relay_retransmit_count: 1, relay_retransmit_interval_steps: 20 };
    let mut buf = ByteBuf::new(8);
    config.emit(&mut buf).unwrap();
    assert_eq!(buf.as_slice(), &[0x01, 0x14]);
    let transmit = NetworkTransmitConfig { network_retransmit_count: 2, network_retransmit_interval_steps: 10 };
    let mut buf = ByteBuf::new(8);
    transmit.emit(&mut buf).unwrap();
    assert_eq!(buf.as_slice(), &[0x0A]);
}
