use drogue_device::driver::pipeline::provisionable::{Provisionable, ProvisioningInputs};
use drogue_device::driver::DeviceError;
use drogue_device::provisioning::{Capabilities, Confirmation, Data, Invite, ProvisioningPDU, PublicKey, Random};

fn capabilities() -> Capabilities {
    let bytes = [0x01u8, 0x01, 0x00, 0x01, 0x00, 0x00, 0x00, 0x00, 0x00, 0x00, 0x00, 0x00];
    match ProvisioningPDU::parse(&bytes).unwrap() {
        ProvisioningPDU::Capabilities(c) => c,
        _ => panic!("not capabilities"),
    }
}

fn hex32(s: &str) -> [u8; 32] {
    let mut out = [0u8; 32];
    for i in 0..32 {
        out[i] = u8::from_str_radix(&s[2 * i..2 * i + 2], 16).unwrap();
    }
    out
}

/// The generator of the P-256 curve, a valid public key.
fn generator() -> PublicKey {
    PublicKey {
        x: hex32("6b17d1f2e12c4247f8bce6e563a440f277037d812deb33a0f4a13945d898c296"),
        y: hex32("4fe342e2fe1a7f9b8ee7eb4a7c0f9e162bce33576b315ececbb6406837bf51f5"),
    }
}

fn inputs() -> ProvisioningInputs {
    ProvisioningInputs {
        number: 0,
        chars: Ok(vec![]),
        device_public_key: PublicKey { x: [0x11u8; 32], y: [0x22u8; 32] },
        random: [0x33u8; 16],
        ecdh_secret: [0x44u8; 32],
    }
}

#[test]
fn device_answers_each_step_of_provisioning() {
    let mut device = Provisionable::new(capabilities());
    let (r, out) = device.process_inbound(ProvisioningPDU::Invite(Invite { attention_duration: 0 }), inputs());
    assert!(matches!(r, Ok(Some(ProvisioningPDU::Capabilities(_)))));
    assert!(out.is_none());
    let start = ProvisioningPDU::parse(&[0x02, 0x00, 0x00, 0x00, 0x00, 0x00]).unwrap();
    let (r, _) = device.process_inbound(start, inputs());
    assert!(matches!(r, Ok(None)));
    let (r, _) = device.process_inbound(ProvisioningPDU::PublicKey(generator()), inputs());
    match r {
        Ok(Some(ProvisioningPDU::PublicKey(k))) => assert_eq!(k.x, [0x11u8; 32]),
        _ => panic!("no public key"),
    }
    let (r, _) = device.process_inbound(ProvisioningPDU::Confirmation(Confirmation { confirmation: [5u8; 16] }), inputs());
    let first = match r {
        Ok(Some(ProvisioningPDU::Confirmation(c))) => c.confirmation,
        _ => panic!("no confirmation"),
    };
    let (r, _) = device.process_inbound(ProvisioningPDU::Random(Random { random: [6u8; 16] }), inputs());
    match r {
        Ok(Some(ProvisioningPDU::Random(rd))) => assert_eq!(rd.random, [0x33u8; 16]),
        _ => panic!("no random"),
    }
    let (r, out) = device.process_inbound(ProvisioningPDU::Data(Data { encrypted: [0u8; 25], mic: [0u8; 8] }), inputs());
    assert!(matches!(r, Err(DeviceError::CryptoError)));
    assert!(out.is_none());
    assert_ne!(first, [0u8; 16]);
}

#[test]
fn confirmation_before_start_is_refused() {
    let mut device = Provisionable::new(capabilities());
    let (r, _) = device.process_inbound(ProvisioningPDU::Confirmation(Confirmation { confirmation: [5u8; 16] }), inputs());
    assert!(matches!(r, Err(DeviceError::InsufficientBuffer)));
}

#[test]
fn random_before_confirmation_is_refused() {
    let mut device = Provisionable::new(capabilities());
    let (r, _) = device.process_inbound(ProvisioningPDU::Random(Random { random: [6u8; 16] }), inputs());
    assert!(matches!(r, Err(DeviceError::CryptoError)));
}

#[test]
fn public_key_off_the_curve_is_not_taken() {
    let mut device = Provisionable::new(capabilities());
    let bad = ProvisioningPDU::PublicKey(PublicKey { x: [1u8; 32], y: [2u8; 32] });
    assert!(!device.can_take(&bad, 0, &Ok(vec![])));
    assert!(device.try_process_inbound(bad, inputs()).is_none());
    match device.try_process_inbound(ProvisioningPDU::PublicKey(generator()), inputs()) {
        Some((Ok(Some(ProvisioningPDU::PublicKey(k))), None)) => assert_eq!(k.y, [0x22u8; 32]),
        _ => panic!("no public key"),
    }
}
