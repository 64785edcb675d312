//! The provisionable device: its side of the provisioning protocol, from
//! the invitation to the provisioning data. The values it takes from
//! outside (random draws, its own public key, the ECDH secret) are handed
//! in with each PDU; the provisioning data it obtains is handed out to be
//! stored.
use vstd::prelude::*;
use crate::crypto::{
    aes_cmac, aes_cmac_of, ccm_decrypt_mic64, ccm_decrypt_of, k1, k1_of, p256_point_decodes, p256_point_valid, s1, s1_of,
};
use crate::driver::DeviceError;
use crate::driver::pipeline::auth_value::{
    auth_bytes, auth_fits, chars_view, determine_auth_value, number_drawable, number_fits, spec_auth_value, AuthValue, AuthValueView,
};
use crate::driver::pipeline::transcript::{with_pdu, Transcript, TRANSCRIPT_MAX};
use crate::provisioning::{
    Capabilities, CapabilitiesView, Confirmation, ProvisioningData, ProvisioningPDU, ProvisioningPDUView, PublicKey,
    Random, PUBLIC_KEY,
};

verus! {

/// The salt text of the confirmation key.
pub open spec fn prck() -> Seq<u8> {
    seq![0x70u8, 0x72u8, 0x63u8, 0x6bu8]
}

/// The salt text of the session key.
pub open spec fn prsk() -> Seq<u8> {
    seq![0x70u8, 0x72u8, 0x73u8, 0x6bu8]
}

/// The salt text of the session nonce.
pub open spec fn prsn() -> Seq<u8> {
    seq![0x70u8, 0x72u8, 0x73u8, 0x6eu8]
}

/// What a provisioning step takes from outside.
pub struct ProvisioningInputs {
    /// The number drawn for the authentication value, if it asks for one.
    pub number: u32,
    /// The characters drawn for the authentication value, if it asks for
    /// them (at most sixteen).
    pub chars: Result<Vec<u8>, DeviceError>,
    /// The public key of the device.
    pub device_public_key: PublicKey,
    /// Sixteen random bytes, for the device's random.
    pub random: [u8; 16],
    /// The ECDH secret shared with the provisioner.
    pub ecdh_secret: [u8; 32],
}

/// What the provisioning data PDU gives, to be stored.
pub struct Provisioned {
    pub provisioning_salt: [u8; 16],
    pub data: ProvisioningData,
}

/// The state of the device's side of provisioning.
pub struct ProvisionableView {
    pub capabilities: CapabilitiesView,
    pub transcript: Seq<u8>,
    pub auth_value: Option<AuthValueView>,
    pub random_device: Option<Seq<u8>>,
    pub random_provisioner: Option<Seq<u8>>,
}

/// The device's side of provisioning.
pub struct Provisionable {
    capabilities: Capabilities,
    transcript: Transcript,
    auth_value: Option<AuthValue>,
    random_device: Option<[u8; 16]>,
    random_provisioner: Option<[u8; 16]>,
}

/// The provisioning salt: `s1` of the confirmation salt and both randoms.
pub open spec fn provisioning_salt_of(transcript: Seq<u8>, random_provisioner: Seq<u8>, random_device: Seq<u8>) -> Seq<u8> {
    s1_of(s1_of(transcript) + random_provisioner + random_device)
}

/// The device's confirmation: the AES-CMAC, under the confirmation key, of
/// its random followed by the authentication value.
pub open spec fn confirmation_of(ecdh: Seq<u8>, transcript: Seq<u8>, random_device: Seq<u8>, auth: AuthValueView) -> Seq<u8> {
    aes_cmac_of(k1_of(ecdh, s1_of(transcript), prck()), random_device + auth_bytes(auth))
}

impl Provisionable {
    /// The state of this device's side of provisioning.
    pub closed spec fn spec_view(&self) -> ProvisionableView {
        ProvisionableView {
            capabilities: self.capabilities@,
            transcript: self.transcript@,
            auth_value: match &self.auth_value {
                Some(a) => Some(a@),
                None => None,
            },
            random_device: match self.random_device {
                Some(r) => Some(r@),
                None => None,
            },
            random_provisioner: match self.random_provisioner {
                Some(r) => Some(r@),
                None => None,
            },
        }
    }

    /// A device with these capabilities, before provisioning.
    pub fn new(capabilities: Capabilities) -> (p: Self)
        ensures
            p.spec_view() == (ProvisionableView {
                capabilities: capabilities@,
                transcript: Seq::empty(),
                auth_value: None,
                random_device: None,
                random_provisioner: None,
            }),
    {
        Provisionable {
            capabilities,
            transcript: Transcript::new(),
            auth_value: None,
            random_device: None,
            random_provisioner: None,
        }
    }

    /// Forgets everything of a provisioning run but the capabilities.
    pub fn reset(&mut self)
        ensures
            final(self).spec_view() == (ProvisionableView {
                transcript: Seq::empty(),
                auth_value: None,
                random_device: None,
                random_provisioner: None,
                ..old(self).spec_view()
            }),
    {
        self.transcript.reset();
        self.auth_value = None;
        self.random_device = None;
        self.random_provisioner = None;
    }

    /// Whether a step can be taken on `pdu` with `number` and `chars` drawn (see
    /// [`Provisionable::step_defined`]).
    pub fn can_take(&self, pdu: &ProvisioningPDU, number: u32, chars: &Result<Vec<u8>, DeviceError>) -> (b: bool)
        ensures
            b == Self::step_defined(self.spec_view(), pdu@, number, chars_view(chars)),
    {
        let data_ok = match pdu {
            ProvisioningPDU::Data(_) => self.random_device.is_some() && self.random_provisioner.is_some(),
            _ => true,
        };
        let chars_ok = match chars {
            Ok(c) => c.len() <= 16,
            Err(_) => true,
        };
        let auth_ok = match &self.auth_value {
            Some(AuthValue::InputAlphanumeric(c)) => c.len() <= 16,
            Some(AuthValue::OutputAlphanumeric(c)) => c.len() <= 16,
            _ => true,
        };
        let key_ok = match pdu {
            ProvisioningPDU::PublicKey(pk) => self.transcript.len() + 64 > TRANSCRIPT_MAX || p256_point_decodes(
                &pk.x,
                &pk.y,
            ),
            _ => true,
        };
        let number_ok = match pdu {
            ProvisioningPDU::Start(start) => number_fits(start, number),
            _ => true,
        };
        data_ok && chars_ok && auth_ok && key_ok && number_ok
    }

    /// Whether a step can be taken on `pdu` in state `s` with `number` and
    /// `chars` drawn: a start comes with a number its draw gives (see
    /// [`number_fits`]), provisioning data comes after both randoms, drawn
    /// characters fit the authentication value, and a provisioner's public
    /// key that the transcript takes is a point of the P-256 curve.
    pub open spec fn step_defined(
        s: ProvisionableView,
        pdu: ProvisioningPDUView,
        number: u32,
        chars: Result<Seq<u8>, crate::driver::DeviceError>,
    ) -> bool {
        &&& pdu matches ProvisioningPDUView::Start(start) ==> number_drawable(start, number)
        &&& pdu matches ProvisioningPDUView::PublicKey(x, y) ==> (with_pdu(s.transcript, seq![PUBLIC_KEY] + x + y) is Some
            ==> p256_point_valid(x, y))
        &&& pdu is Data ==> s.random_device is Some && s.random_provisioner is Some
        &&& chars matches Ok(c) ==> c.len() <= 16
        &&& s.auth_value matches Some(a) ==> auth_fits(a)
    }

    /// Whether receiving `pdu` in state `s` with `inputs` leaves `t`,
    /// answers `r` and hands out `out`.
    pub open spec fn inbound_step(
        s: ProvisionableView,
        pdu: ProvisioningPDUView,
        number: u32,
        chars: Result<Seq<u8>, DeviceError>,
        device_key: (Seq<u8>, Seq<u8>),
        random: Seq<u8>,
        ecdh: Seq<u8>,
        t: ProvisionableView,
        r: Result<Option<ProvisioningPDU>, DeviceError>,
        out: Option<Provisioned>,
    ) -> bool {
        match pdu {
            ProvisioningPDUView::Invite(invite) => out is None && match with_pdu(s.transcript, invite.spec_bytes()) {
                None => t == s && r == Err::<Option<ProvisioningPDU>, DeviceError>(DeviceError::InsufficientBuffer),
                Some(tr) => match with_pdu(tr, s.capabilities.spec_bytes()) {
                    None => t == ProvisionableView { transcript: tr, ..s } && r == Err::<Option<ProvisioningPDU>, DeviceError>(
                        DeviceError::InsufficientBuffer,
                    ),
                    Some(tr2) => t == ProvisionableView { transcript: tr2, ..s } && (r matches Ok(Some(p)) && p@
                        == ProvisioningPDUView::Capabilities(s.capabilities)),
                },
            },
            ProvisioningPDUView::Start(start) => out is None && match with_pdu(s.transcript, start.spec_bytes()) {
                None => t == s && r == Err::<Option<ProvisioningPDU>, DeviceError>(DeviceError::InsufficientBuffer),
                Some(tr) => match spec_auth_value(start, number, chars) {
                    Err(e) => t == ProvisionableView { transcript: tr, ..s } && r == Err::<Option<ProvisioningPDU>, DeviceError>(e),
                    Ok(a) => t == ProvisionableView { transcript: tr, auth_value: Some(a), ..s } && (r matches Ok(None)),
                },
            },
            ProvisioningPDUView::PublicKey(x, y) => out is None && match with_pdu(s.transcript, seq![PUBLIC_KEY] + x + y) {
                None => t == s && r == Err::<Option<ProvisioningPDU>, DeviceError>(DeviceError::InsufficientBuffer),
                Some(tr) => match with_pdu(tr, seq![PUBLIC_KEY] + device_key.0 + device_key.1) {
                    None => t == ProvisionableView { transcript: tr, ..s } && r == Err::<Option<ProvisioningPDU>, DeviceError>(
                        DeviceError::InsufficientBuffer,
                    ),
                    Some(tr2) => t == ProvisionableView { transcript: tr2, ..s } && (r matches Ok(Some(p)) && p@
                        == ProvisioningPDUView::PublicKey(device_key.0, device_key.1)),
                },
            },
            ProvisioningPDUView::Confirmation(_) => {
                &&& out is None
                &&& t == ProvisionableView { random_device: Some(random), ..s }
                &&& match s.auth_value {
                    None => r == Err::<Option<ProvisioningPDU>, DeviceError>(DeviceError::InsufficientBuffer),
                    Some(a) => r matches Ok(Some(p)) && p@ == ProvisioningPDUView::Confirmation(
                        confirmation_of(ecdh, s.transcript, random, a),
                    ),
                }
            },
            ProvisioningPDUView::Random(random_provisioner) => {
                &&& out is None
                &&& t == ProvisionableView { random_provisioner: Some(random_provisioner), ..s }
                &&& match s.random_device {
                    None => r == Err::<Option<ProvisioningPDU>, DeviceError>(DeviceError::CryptoError),
                    Some(rd) => r matches Ok(Some(p)) && p@ == ProvisioningPDUView::Random(rd),
                }
            },
            ProvisioningPDUView::Data(encrypted, mic) => {
                let salt = provisioning_salt_of(s.transcript, s.random_provisioner->0, s.random_device->0);
                let key = k1_of(ecdh, salt, prsk());
                let nonce = k1_of(ecdh, salt, prsn()).skip(3);
                &&& t == s
                &&& match ccm_decrypt_of(key, nonce, encrypted, mic) {
                    None => out is None && r == Err::<Option<ProvisioningPDU>, DeviceError>(DeviceError::CryptoError),
                    Some(plain) => if ProvisioningData::readable(plain) {
                        &&& out matches Some(o)
                        &&& o.provisioning_salt@ == salt
                        &&& o.data.read_from(plain)
                        &&& r matches Ok(Some(p)) && p@ == ProvisioningPDUView::Complete
                    } else {
                        out is None && r == Err::<Option<ProvisioningPDU>, DeviceError>(
                            DeviceError::Parse(ProvisioningData::read_error(plain)),
                        )
                    },
                }
            },
            _ => t == s && (r matches Ok(None)) && out is None,
        }
    }

    /// The device's confirmation.
    fn confirmation_device(&self, ecdh_secret: &[u8; 32]) -> (r: Result<Confirmation, DeviceError>)
        requires
            self.spec_view().random_device is Some,
            self.spec_view().auth_value matches Some(a) ==> auth_fits(a),
        ensures
            match self.spec_view().auth_value {
                None => r == Err::<Confirmation, DeviceError>(DeviceError::InsufficientBuffer),
                Some(a) => r matches Ok(c) && c.confirmation@ == confirmation_of(
                    ecdh_secret@,
                    self.spec_view().transcript,
                    self.spec_view().random_device->0,
                    a,
                ),
            },
    {
        let salt = self.transcript.confirmation_salt();
        let confirmation_key = k1(ecdh_secret, &salt, &[0x70u8, 0x72u8, 0x63u8, 0x6bu8]);
        assert([0x70u8, 0x72u8, 0x63u8, 0x6bu8]@ == prck());
        let random_device = match self.random_device {
            Some(r) => r,
            None => return Err(DeviceError::InsufficientBuffer),
        };
        let auth = match &self.auth_value {
            Some(a) => a.get_bytes(),
            None => return Err(DeviceError::InsufficientBuffer),
        };
        let mut bytes: Vec<u8> = vstd::slice::slice_to_vec(random_device.as_slice());
        let mut a = vstd::slice::slice_to_vec(auth.as_slice());
        bytes.append(&mut a);
        let confirmation = aes_cmac(&confirmation_key, bytes.as_slice());
        Ok(Confirmation { confirmation })
    }

    /// Takes a step on `pdu` when one can be taken (see
    /// [`Provisionable::can_take`]), else nothing, leaving the device as it
    /// was: a start with a number its draw does not give, provisioning data
    /// before both randoms, drawn characters that do not fit, or a
    /// provisioner's public key that is not a curve point.
    pub fn try_process_inbound(&mut self, pdu: ProvisioningPDU, inputs: ProvisioningInputs) -> (out: Option<(
        Result<Option<ProvisioningPDU>, DeviceError>,
        Option<Provisioned>,
    )>)
        ensures
            out is None <==> !Self::step_defined(old(self).spec_view(), pdu@, inputs.number, chars_view(&inputs.chars)),
            out is None ==> final(self).spec_view() == old(self).spec_view(),
            out matches Some(o) ==> Self::inbound_step(
                old(self).spec_view(),
                pdu@,
                inputs.number,
                chars_view(&inputs.chars),
                (inputs.device_public_key.x@, inputs.device_public_key.y@),
                inputs.random@,
                inputs.ecdh_secret@,
                final(self).spec_view(),
                o.0,
                o.1,
            ),
            out is Some ==> (final(self).spec_view().auth_value matches Some(a) ==> auth_fits(a)),
    {
        if self.can_take(&pdu, inputs.number, &inputs.chars) {
            Some(self.process_inbound(pdu, inputs))
        } else {
            None
        }
    }

    /// Receives a provisioning PDU from the provisioner: the answer to send,
    /// and the provisioning data once it has been received.
    pub fn process_inbound(&mut self, pdu: ProvisioningPDU, inputs: ProvisioningInputs) -> (out: (
        Result<Option<ProvisioningPDU>, DeviceError>,
        Option<Provisioned>,
    ))
        requires
            Self::step_defined(old(self).spec_view(), pdu@, inputs.number, chars_view(&inputs.chars)),
        ensures
            Self::inbound_step(
                old(self).spec_view(),
                pdu@,
                inputs.number,
                chars_view(&inputs.chars),
                (inputs.device_public_key.x@, inputs.device_public_key.y@),
                inputs.random@,
                inputs.ecdh_secret@,
                final(self).spec_view(),
                out.0,
                out.1,
            ),
            final(self).spec_view().auth_value matches Some(a) ==> auth_fits(a),
    {
        match pdu {
            ProvisioningPDU::Invite(invite) => {
                if self.transcript.add_invite(&invite).is_err() {
                    return (Err(DeviceError::InsufficientBuffer), None);
                }
                if self.transcript.add_capabilities(&self.capabilities).is_err() {
                    return (Err(DeviceError::InsufficientBuffer), None);
                }
                (Ok(Some(ProvisioningPDU::Capabilities(self.capabilities.duplicate()))), None)
            },
            ProvisioningPDU::Start(start) => {
                if self.transcript.add_start(&start).is_err() {
                    return (Err(DeviceError::InsufficientBuffer), None);
                }
                let ghost chars = chars_view(&inputs.chars);
                match determine_auth_value(&start, inputs.number, inputs.chars) {
                    Ok(auth_value) => {
                        assert(auth_fits(auth_value@)) by {
                            assert(chars matches Ok(c) ==> c.len() <= 16);
                        }
                        self.auth_value = Some(auth_value);
                        (Ok(None), None)
                    },
                    Err(e) => (Err(e), None),
                }
            },
            ProvisioningPDU::PublicKey(public_key) => {
                if self.transcript.add_pubkey_provisioner(&public_key).is_err() {
                    return (Err(DeviceError::InsufficientBuffer), None);
                }
                let pk = inputs.device_public_key;
                if self.transcript.add_pubkey_device(&pk).is_err() {
                    return (Err(DeviceError::InsufficientBuffer), None);
                }
                (Ok(Some(ProvisioningPDU::PublicKey(pk))), None)
            },
            ProvisioningPDU::Confirmation(_) => {
                self.random_device = Some(inputs.random);
                match self.confirmation_device(&inputs.ecdh_secret) {
                    Ok(c) => (Ok(Some(ProvisioningPDU::Confirmation(c))), None),
                    Err(e) => (Err(e), None),
                }
            },
            ProvisioningPDU::Random(random) => {
                self.random_provisioner = Some(random.random);
                match self.random_device {
                    Some(random_device) => (Ok(Some(ProvisioningPDU::Random(Random { random: random_device }))), None),
                    None => (Err(DeviceError::CryptoError), None),
                }
            },
            ProvisioningPDU::Data(data) => {
                let random_provisioner = match self.random_provisioner {
                    Some(r) => r,
                    None => return (Err(DeviceError::CryptoError), None),
                };
                let random_device = match self.random_device {
                    Some(r) => r,
                    None => return (Err(DeviceError::CryptoError), None),
                };
                let confirmation_salt = self.transcript.confirmation_salt();
                let mut salt_input: Vec<u8> = vstd::slice::slice_to_vec(confirmation_salt.as_slice());
                let mut rp = vstd::slice::slice_to_vec(random_provisioner.as_slice());
                let mut rd = vstd::slice::slice_to_vec(random_device.as_slice());
                salt_input.append(&mut rp);
                salt_input.append(&mut rd);
                let provisioning_salt = s1(salt_input.as_slice());
                let session_key = k1(&inputs.ecdh_secret, &provisioning_salt, &[0x70u8, 0x72u8, 0x73u8, 0x6bu8]);
                assert([0x70u8, 0x72u8, 0x73u8, 0x6bu8]@ == prsk());
                let session_nonce_full = k1(&inputs.ecdh_secret, &provisioning_salt, &[0x70u8, 0x72u8, 0x73u8, 0x6eu8]);
                assert([0x70u8, 0x72u8, 0x73u8, 0x6eu8]@ == prsn());
                let nonce = crate::bytes::take_array13(&session_nonce_full, 3);
                assert(nonce@ =~= session_nonce_full@.skip(3));
                match ccm_decrypt_mic64(&session_key, &nonce, data.encrypted.as_slice(), &data.mic) {
                    None => (Err(DeviceError::CryptoError), None),
                    Some(plain) => match ProvisioningData::parse(plain.as_slice()) {
                        Ok(provisioning_data) => (
                            Ok(Some(ProvisioningPDU::Complete)),
                            Some(Provisioned { provisioning_salt, data: provisioning_data }),
                        ),
                        Err(e) => (Err(DeviceError::Parse(e)), None),
                    },
                }
            },
            _ => (Ok(None), None),
        }
    }
}


/// The device's confirmation is the AES-CMAC, under the key that k1 derives
/// from the ECDH secret, the salt of the confirmation inputs and the text
/// "prck", of 32 bytes: the device's random, then the authentication value.
pub proof fn lemma_confirmation_layout(
    ecdh: Seq<u8>,
    transcript: Seq<u8>,
    random_device: Seq<u8>,
    auth: AuthValueView,
    message: Seq<u8>,
)
    requires
        random_device.len() == 16,
        auth_fits(auth),
        message.len() == 32,
        message.subrange(0, 16) == random_device,
        message.subrange(16, 32) == auth_bytes(auth),
    ensures
        confirmation_of(ecdh, transcript, random_device, auth) == aes_cmac_of(
            k1_of(ecdh, s1_of(transcript), seq![0x70u8, 0x72u8, 0x63u8, 0x6bu8]),
            message,
        ),
{
    assert(message =~= random_device + auth_bytes(auth));
    assert(prck() =~= seq![0x70u8, 0x72u8, 0x63u8, 0x6bu8]);
}


/// Provisioning data is opened with keys drawn from the provisioning salt,
/// which is s1 of 48 bytes: the confirmation salt (s1 of the confirmation
/// inputs), the provisioner's random, then the device's random. The session
/// key is k1 of the ECDH secret and that salt with the text "prsk", the
/// nonce the last thirteen bytes of k1 with "prsn"; the data handed out is
/// read from what they decrypt, with that salt.
pub proof fn lemma_provisioning_data_keys(
    s: ProvisionableView,
    encrypted: Seq<u8>,
    mic: Seq<u8>,
    number: u32,
    chars: Result<Seq<u8>, DeviceError>,
    device_key: (Seq<u8>, Seq<u8>),
    random: Seq<u8>,
    ecdh: Seq<u8>,
    t: ProvisionableView,
    r: Result<Option<ProvisioningPDU>, DeviceError>,
    out: Option<Provisioned>,
    salt_input: Seq<u8>,
)
    requires
        Provisionable::inbound_step(
            s,
            ProvisioningPDUView::Data(encrypted, mic),
            number,
            chars,
            device_key,
            random,
            ecdh,
            t,
            r,
            out,
        ),
        out is Some,
        s.random_provisioner is Some,
        s.random_device is Some,
        salt_input.len() == 48,
        salt_input.subrange(0, 16) == s1_of(s.transcript),
        salt_input.subrange(16, 32) == s.random_provisioner->0,
        salt_input.subrange(32, 48) == s.random_device->0,
    ensures
        ({
            let salt = s1_of(salt_input);
            let key = k1_of(ecdh, salt, seq![0x70u8, 0x72u8, 0x73u8, 0x6bu8]);
            let nonce = k1_of(ecdh, salt, seq![0x70u8, 0x72u8, 0x73u8, 0x6eu8]).skip(3);
            &&& ccm_decrypt_of(key, nonce, encrypted, mic) matches Some(plain)
            &&& out->0.data.read_from(plain)
            &&& out->0.provisioning_salt@ == salt
        }),
{
    assert(salt_input =~= s1_of(s.transcript) + s.random_provisioner->0 + s.random_device->0);
    assert(prsk() =~= seq![0x70u8, 0x72u8, 0x73u8, 0x6bu8]);
    assert(prsn() =~= seq![0x70u8, 0x72u8, 0x73u8, 0x6eu8]);
}


/// The confirmation inputs grow in the order of the exchange: an invite adds
/// its attention duration and then the device's capabilities (each without
/// its type octet); the provisioner's public key is added before the
/// device's, each as its X then Y coordinate, and the device answers with
/// its own key.
pub proof fn lemma_transcript_order(
    s: ProvisionableView,
    pdu: ProvisioningPDUView,
    number: u32,
    chars: Result<Seq<u8>, DeviceError>,
    device_key: (Seq<u8>, Seq<u8>),
    random: Seq<u8>,
    ecdh: Seq<u8>,
    t: ProvisionableView,
    r: Result<Option<ProvisioningPDU>, DeviceError>,
    out: Option<Provisioned>,
)
    requires
        Provisionable::inbound_step(s, pdu, number, chars, device_key, random, ecdh, t, r, out),
        r is Ok,
    ensures
        pdu matches ProvisioningPDUView::Invite(i) ==> t.transcript == s.transcript + seq![i.attention_duration]
            + s.capabilities.spec_bytes().skip(1),
        pdu matches ProvisioningPDUView::PublicKey(x, y) ==> {
            &&& t.transcript == s.transcript + x + y + device_key.0 + device_key.1
            &&& r matches Ok(Some(p)) && p@ == ProvisioningPDUView::PublicKey(device_key.0, device_key.1)
        },
{
    match pdu {
        ProvisioningPDUView::Invite(i) => {
            assert(i.spec_bytes().skip(1) =~= seq![i.attention_duration]);
        },
        ProvisioningPDUView::PublicKey(x, y) => {
            assert((seq![PUBLIC_KEY] + x + y).skip(1) =~= x + y);
            assert((seq![PUBLIC_KEY] + device_key.0 + device_key.1).skip(1) =~= device_key.0 + device_key.1);
            assert(s.transcript + (x + y) + (device_key.0 + device_key.1) =~= s.transcript + x + y + device_key.0
                + device_key.1);
        },
        _ => {},
    }
}

} // verus!
