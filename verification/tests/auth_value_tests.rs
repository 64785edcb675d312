use drogue_device::driver::pipeline::auth_value::{
    alphanumeric_accepts, auth_draw, determine_auth_value, number_fits, random_alphanumeric, random_numeric,
    random_physical_oob,
    AuthDraw, AuthValue,
};
use drogue_device::driver::DeviceError;
use drogue_device::provisioning::{
    Algorithm, AuthenticationMethod, InputOOBAction, OOBAction, OOBSize, OutputOOBAction, PublicKeySelected, Start,
};

fn start(action: OOBAction, size: OOBSize) -> Start {
    Start {
        algorithm: Algorithm::P256,
        public_key: PublicKeySelected::NoPublicKey,
        authentication_method: AuthenticationMethod::OutputOOBAuthentication,
        authentication_action: action,
        authentication_size: size,
    }
}

#[test]
fn draws_follow_the_action() {
    assert!(matches!(auth_draw(&start(OOBAction::Output(OutputOOBAction::Blink), OOBSize::MaximumSize(2))), AuthDraw::PhysicalOob(2)));
    assert!(matches!(auth_draw(&start(OOBAction::Input(InputOOBAction::InputNumeric), OOBSize::MaximumSize(4))), AuthDraw::Numeric(4)));
    assert!(matches!(auth_draw(&start(OOBAction::Output(OutputOOBAction::OutputAlphanumeric), OOBSize::MaximumSize(6))), AuthDraw::Alphanumeric(6)));
    assert!(matches!(auth_draw(&start(OOBAction::NoAction, OOBSize::NotSupported)), AuthDraw::Nothing));
}

#[test]
fn physical_counts_are_between_zero_and_the_size() {
    assert_eq!(random_physical_oob(2, 0), None);
    assert_eq!(random_physical_oob(2, 99), Some(99));
    assert_eq!(random_physical_oob(2, 100), None);
}

#[test]
fn numbers_have_at_most_the_digits_asked() {
    assert_eq!(random_numeric(3, 999), Some(999));
    assert_eq!(random_numeric(3, 1000), None);
    assert_eq!(random_numeric(0, 12345), Some(0));
    assert_eq!(random_numeric(9, 12345), Some(0));
}

#[test]
fn alphanumeric_characters_are_digits_and_capitals() {
    assert!(alphanumeric_accepts(b'A'));
    assert!(alphanumeric_accepts(b'7'));
    assert!(alphanumeric_accepts(b'@'));
    assert!(!alphanumeric_accepts(b'a'));
    assert!(matches!(random_alphanumeric(0, &vec![]), Some(Ok(v)) if v.is_empty()));
    assert!(random_alphanumeric(4, &vec![b'A']).is_none());
    assert!(matches!(random_alphanumeric(4, &vec![b'A'; 9]), Some(Err(DeviceError::InsufficientBuffer))));
}

#[test]
fn auth_value_is_made_of_the_draws() {
    let numeric = determine_auth_value(&start(OOBAction::Output(OutputOOBAction::OutputNumeric), OOBSize::MaximumSize(4)), 1234, Ok(vec![]));
    match numeric {
        Ok(AuthValue::OutputNumeric(n)) => assert_eq!(n, 1234),
        _ => panic!("not numeric"),
    }
    let v = determine_auth_value(&start(OOBAction::Input(InputOOBAction::Push), OOBSize::MaximumSize(1)), 3, Ok(vec![])).unwrap();
    let bytes = v.get_bytes();
    assert_eq!(&bytes[12..], &[0, 0, 0, 3]);
    let none = determine_auth_value(&start(OOBAction::NoAction, OOBSize::NotSupported), 3, Ok(vec![])).unwrap();
    assert_eq!(none.get_bytes(), [0u8; 16]);
    let failed = determine_auth_value(
        &start(OOBAction::Output(OutputOOBAction::OutputAlphanumeric), OOBSize::MaximumSize(4)),
        0,
        Err(DeviceError::InsufficientBuffer),
    );
    assert!(matches!(failed, Err(DeviceError::InsufficientBuffer)));
}

#[test]
fn start_takes_only_numbers_its_draw_gives() {
    let blink = start(OOBAction::Output(OutputOOBAction::Blink), OOBSize::MaximumSize(1));
    assert!(!number_fits(&blink, 0));
    assert!(number_fits(&blink, 1));
    assert!(number_fits(&blink, 9));
    assert!(!number_fits(&blink, 10));
    let numeric = start(OOBAction::Input(InputOOBAction::InputNumeric), OOBSize::MaximumSize(2));
    assert!(number_fits(&numeric, 0));
    assert!(number_fits(&numeric, 99));
    assert!(!number_fits(&numeric, 100));
    let wide = start(OOBAction::Output(OutputOOBAction::OutputNumeric), OOBSize::MaximumSize(9));
    assert!(number_fits(&wide, 0));
    assert!(!number_fits(&wide, 5));
    let none = start(OOBAction::NoAction, OOBSize::NotSupported);
    assert!(number_fits(&none, 12345));
}
