//! Access messages, their opcodes and the opcodes of the foundation models.
use vstd::prelude::*;
use crate::address::{Address, UnicastAddress};
use crate::buffer::{appended, lemma_appended_err, lemma_appended_seq, ByteBuf};
use crate::keys::{ApplicationKeyIdentifier, NetworkKeyHandle};
use crate::pdu::upper::UpperAccess;
use crate::pdu::ParseError;
use crate::driver::DeviceError;
use crate::model::Message;
use crate::InsufficientBuffer;

verus! {

/// An access-layer opcode of one, two or three octets.
#[derive(PartialEq, Eq, Structural, Clone, Copy, Debug)]
pub enum Opcode {
    OneOctet(u8),
    TwoOctet(u8, u8),
    ThreeOctet(u8, u8, u8),
}

/// The first octet of a one-octet opcode has its top bit clear, that of a
/// two-octet opcode starts with `10`, that of a three-octet one with `11`.
pub open spec fn first_octet_fits(op: Opcode) -> bool {
    match op {
        Opcode::OneOctet(a) => a & 0b0011_1111 == a,
        Opcode::TwoOctet(a, _) => a & 0b1100_0000 == 0b1000_0000,
        Opcode::ThreeOctet(a, _, _) => a & 0b1100_0000 == 0b1100_0000,
    }
}

impl Opcode {
    /// The octets of this opcode as carried on the wire.
    pub open spec fn spec_bytes(self) -> Seq<u8> {
        match self {
            Opcode::OneOctet(a) => seq![a],
            Opcode::TwoOctet(a, b) => seq![a, b],
            Opcode::ThreeOctet(a, b, c) => seq![a, b, c],
        }
    }

    /// The opcode at the start of `data`, if its first octet announces one
    /// that `data` is long enough to hold. A one-octet opcode keeps only
    /// the low six bits of its octet.
    pub open spec fn spec_split(data: Seq<u8>) -> Option<Opcode> {
        if data.len() == 0 {
            None
        } else if data[0] & 0b1000_0000 == 0 {
            Some(Opcode::OneOctet(data[0] & 0b0011_1111))
        } else if data.len() >= 2 && data[0] & 0b1100_0000 == 0b1000_0000 {
            Some(Opcode::TwoOctet(data[0], data[1]))
        } else if data.len() >= 3 && data[0] & 0b1100_0000 == 0b1100_0000 {
            Some(Opcode::ThreeOctet(data[0], data[1], data[2]))
        } else {
            None
        }
    }

    /// Whether `data` starts with the octets of this opcode.
    pub fn matches(&self, data: &[u8]) -> (r: bool)
        ensures
            r == (self.spec_bytes().len() <= data@.len()
                && data@.take(self.spec_bytes().len() as int) == self.spec_bytes()),
    {
        let r = match self {
            Opcode::OneOctet(a) => data.len() >= 1 && data[0] == *a,
            Opcode::TwoOctet(a, b) => data.len() >= 2 && data[0] == *a && data[1] == *b,
            Opcode::ThreeOctet(a, b, c) => data.len() >= 3 && data[0] == *a && data[1] == *b
                && data[2] == *c,
        };
        proof {
            let n = self.spec_bytes().len() as int;
            if n <= data@.len() {
                if data@.take(n) == self.spec_bytes() {
                    assert(data@.take(n)[0] == data@[0]);
                    if n >= 2 { assert(data@.take(n)[1] == data@[1]); }
                    if n >= 3 { assert(data@.take(n)[2] == data@[2]); }
                }
                if r {
                    assert(data@.take(n) =~= self.spec_bytes());
                }
            }
        }
        r
    }

    /// The number of octets of this opcode.
    pub fn opcode_len(&self) -> (n: usize)
        ensures
            n == self.spec_bytes().len(),
    {
        match self {
            Opcode::OneOctet(_) => 1,
            Opcode::TwoOctet(_, _) => 2,
            Opcode::ThreeOctet(_, _, _) => 3,
        }
    }

    /// Splits `data` into the opcode at its start and the parameters after it.
    pub fn split(data: &[u8]) -> (r: Option<(Opcode, &[u8])>)
        ensures
            r is Some <==> Self::spec_split(data@) is Some,
            r matches Some((op, rest)) ==> op == Self::spec_split(data@).unwrap()
                && rest@ == data@.skip(op.spec_bytes().len() as int),
    {
        if data.len() == 0 {
            None
        } else {
            if data[0] & 0b10000000 == 0 {
                Some((Opcode::OneOctet(data[0] & 0b00111111), vstd::slice::slice_subrange(data, 1, data.len())))
            } else if data.len() >= 2 && data[0] & 0b11000000 == 0b10000000 {
                Some((Opcode::TwoOctet(data[0], data[1]), vstd::slice::slice_subrange(data, 2, data.len())))
            } else if data.len() >= 3 && data[0] & 0b11000000 == 0b11000000 {
                Some((Opcode::ThreeOctet(data[0], data[1], data[2]), vstd::slice::slice_subrange(data, 3, data.len())))
            } else {
                None
            }
        }
    }

    /// The octets of this opcode.
    pub fn encode(&self) -> (v: Vec<u8>)
        ensures
            v@ == self.spec_bytes(),
    {
        let v = match self {
            Opcode::OneOctet(a) => vec![*a],
            Opcode::TwoOctet(a, b) => vec![*a, *b],
            Opcode::ThreeOctet(a, b, c) => vec![*a, *b, *c],
        };
        assert(v@ =~= self.spec_bytes());
        v
    }

    /// Appends the octets of this opcode.
    pub fn emit(&self, xmit: &mut ByteBuf) -> (r: Result<(), InsufficientBuffer>)
        ensures
            final(xmit).cap() == old(xmit).cap(),
            appended(old(xmit)@, final(xmit)@, old(xmit).cap(), self.spec_bytes(), r is Ok),
    {
        xmit.extend_from_slice(self.encode().as_slice())
    }
}

proof fn lemma_first_octet_bits(a: u8)
    by (bit_vector)
    ensures
        a & 0b0011_1111 == a ==> a & 0b1000_0000 == 0,
        a & 0b1100_0000 == 0b1000_0000 ==> a & 0b1000_0000 != 0,
        a & 0b1100_0000 == 0b1100_0000 ==> a & 0b1000_0000 != 0 && a & 0b1100_0000 != 0b1000_0000,
{
}

/// An opcode whose first octet announces its own length is read back from
/// its octets, whatever parameters follow them.
pub proof fn lemma_opcode_roundtrip(op: Opcode, rest: Seq<u8>)
    requires
        first_octet_fits(op),
    ensures
        Opcode::spec_split(op.spec_bytes() + rest) == Some(op),
{
    let data = op.spec_bytes() + rest;
    match op {
        Opcode::OneOctet(a) => { lemma_first_octet_bits(a); assert(data[0] == a); }
        Opcode::TwoOctet(a, b) => { lemma_first_octet_bits(a); assert(data[0] == a && data[1] == b); }
        Opcode::ThreeOctet(a, b, c) => {
            lemma_first_octet_bits(a);
            assert(data[0] == a && data[1] == b && data[2] == c);
        }
    }
}

/// Opcode of the Config Beacon Get message.
#[verifier::allow_in_spec]
pub fn config_beacon_get() -> Opcode
    returns
        Opcode::TwoOctet(0x80, 0x09),
{
    Opcode::TwoOctet(0x80, 0x09)
}

/// Opcode of the Config Beacon Set message.
#[verifier::allow_in_spec]
pub fn config_beacon_set() -> Opcode
    returns
        Opcode::TwoOctet(0x80, 0x0A),
{
    Opcode::TwoOctet(0x80, 0x0A)
}

/// Opcode of the Config Beacon Status message.
#[verifier::allow_in_spec]
pub fn config_beacon_status() -> Opcode
    returns
        Opcode::TwoOctet(0x80, 0x0B),
{
    Opcode::TwoOctet(0x80, 0x0B)
}

/// Opcode of the Config Config Model Publication Set message.
#[verifier::allow_in_spec]
pub fn config_config_model_publication_set() -> Opcode
    returns
        Opcode::OneOctet(0x03),
{
    Opcode::OneOctet(0x03)
}

/// Opcode of the Config Friend Get message.
#[verifier::allow_in_spec]
pub fn config_friend_get() -> Opcode
    returns
        Opcode::TwoOctet(0x80, 0x0F),
{
    Opcode::TwoOctet(0x80, 0x0F)
}

/// Opcode of the Config Friend Set message.
#[verifier::allow_in_spec]
pub fn config_friend_set() -> Opcode
    returns
        Opcode::TwoOctet(0x80, 0x10),
{
    Opcode::TwoOctet(0x80, 0x10)
}

/// Opcode of the Config Friend Status message.
#[verifier::allow_in_spec]
pub fn config_friend_status() -> Opcode
    returns
        Opcode::TwoOctet(0x80, 0x11),
{
    Opcode::TwoOctet(0x80, 0x11)
}

/// Opcode of the Config GATT Proxy Get message.
#[verifier::allow_in_spec]
pub fn config_gatt_proxy_get() -> Opcode
    returns
        Opcode::TwoOctet(0x80, 0x12),
{
    Opcode::TwoOctet(0x80, 0x12)
}

/// Opcode of the Config GATT Proxy Set message.
#[verifier::allow_in_spec]
pub fn config_gatt_proxy_set() -> Opcode
    returns
        Opcode::TwoOctet(0x80, 0x13),
{
    Opcode::TwoOctet(0x80, 0x13)
}

/// Opcode of the Config GATT Proxy Status message.
#[verifier::allow_in_spec]
pub fn config_gatt_proxy_status() -> Opcode
    returns
        Opcode::TwoOctet(0x80, 0x14),
{
    Opcode::TwoOctet(0x80, 0x14)
}

/// Opcode of the Config Heartbeat Publication Get message.
#[verifier::allow_in_spec]
pub fn config_heartbeat_publication_get() -> Opcode
    returns
        Opcode::TwoOctet(0x80, 0x38),
{
    Opcode::TwoOctet(0x80, 0x38)
}

/// Opcode of the Config Heartbeat Publication Set message.
#[verifier::allow_in_spec]
pub fn config_heartbeat_publication_set() -> Opcode
    returns
        Opcode::TwoOctet(0x80, 0x39),
{
    Opcode::TwoOctet(0x80, 0x39)
}

/// Opcode of the Config Heartbeat Publication Status message.
#[verifier::allow_in_spec]
pub fn config_heartbeat_publication_status() -> Opcode
    returns
        Opcode::OneOctet(0x06),
{
    Opcode::OneOctet(0x06)
}

/// Opcode of the Config Heartbeat Subscription Get message.
#[verifier::allow_in_spec]
pub fn config_heartbeat_subscription_get() -> Opcode
    returns
        Opcode::TwoOctet(0x80, 0x3A),
{
    Opcode::TwoOctet(0x80, 0x3A)
}

/// Opcode of the Config Heartbeat Subscription Set message.
#[verifier::allow_in_spec]
pub fn config_heartbeat_subscription_set() -> Opcode
    returns
        Opcode::TwoOctet(0x80, 0x3B),
{
    Opcode::TwoOctet(0x80, 0x3B)
}

/// Opcode of the Config Heartbeat Subscription Status message.
#[verifier::allow_in_spec]
pub fn config_heartbeat_subscription_status() -> Opcode
    returns
        Opcode::TwoOctet(0x80, 0x3C),
{
    Opcode::TwoOctet(0x80, 0x3C)
}

/// Opcode of the Config Key Refresh Phase Get message.
#[verifier::allow_in_spec]
pub fn config_key_refresh_phase_get() -> Opcode
    returns
        Opcode::TwoOctet(0x80, 0x15),
{
    Opcode::TwoOctet(0x80, 0x15)
}

/// Opcode of the Config Key Refresh Phase Set message.
#[verifier::allow_in_spec]
pub fn config_key_refresh_phase_set() -> Opcode
    returns
        Opcode::TwoOctet(0x80, 0x16),
{
    Opcode::TwoOctet(0x80, 0x16)
}

/// Opcode of the Config Key Refresh Phase Status message.
#[verifier::allow_in_spec]
pub fn config_key_refresh_phase_status() -> Opcode
    returns
        Opcode::TwoOctet(0x80, 0x17),
{
    Opcode::TwoOctet(0x80, 0x17)
}

/// Opcode of the Config Low Power Node Polltimeout Get message.
#[verifier::allow_in_spec]
pub fn config_low_power_node_polltimeout_get() -> Opcode
    returns
        Opcode::TwoOctet(0x80, 0x2D),
{
    Opcode::TwoOctet(0x80, 0x2D)
}

/// Opcode of the Config Low Power Node Polltimeout Status message.
#[verifier::allow_in_spec]
pub fn config_low_power_node_polltimeout_status() -> Opcode
    returns
        Opcode::TwoOctet(0x80, 0x2E),
{
    Opcode::TwoOctet(0x80, 0x2E)
}

/// Opcode of the Config Model App Bind message.
#[verifier::allow_in_spec]
pub fn config_model_app_bind() -> Opcode
    returns
        Opcode::TwoOctet(0x80, 0x3D),
{
    Opcode::TwoOctet(0x80, 0x3D)
}

/// Opcode of the Config Model App Status message.
#[verifier::allow_in_spec]
pub fn config_model_app_status() -> Opcode
    returns
        Opcode::TwoOctet(0x80, 0x3E),
{
    Opcode::TwoOctet(0x80, 0x3E)
}

/// Opcode of the Config Model App Unbind message.
#[verifier::allow_in_spec]
pub fn config_model_app_unbind() -> Opcode
    returns
        Opcode::TwoOctet(0x80, 0x3F),
{
    Opcode::TwoOctet(0x80, 0x3F)
}

/// Opcode of the Config Model Publication Get message.
#[verifier::allow_in_spec]
pub fn config_model_publication_get() -> Opcode
    returns
        Opcode::TwoOctet(0x80, 0x18),
{
    Opcode::TwoOctet(0x80, 0x18)
}

/// Opcode of the Config Model Publication Status message.
#[verifier::allow_in_spec]
pub fn config_model_publication_status() -> Opcode
    returns
        Opcode::TwoOctet(0x80, 0x19),
{
    Opcode::TwoOctet(0x80, 0x19)
}

/// Opcode of the Config Model Publication Virtual Address Set message.
#[verifier::allow_in_spec]
pub fn config_model_publication_virtual_address_set() -> Opcode
    returns
        Opcode::TwoOctet(0x80, 0x1A),
{
    Opcode::TwoOctet(0x80, 0x1A)
}

/// Opcode of the Config Model Subscription Add message.
#[verifier::allow_in_spec]
pub fn config_model_subscription_add() -> Opcode
    returns
        Opcode::TwoOctet(0x80, 0x1B),
{
    Opcode::TwoOctet(0x80, 0x1B)
}

/// Opcode of the Config Model Subscription Delete message.
#[verifier::allow_in_spec]
pub fn config_model_subscription_delete() -> Opcode
    returns
        Opcode::TwoOctet(0x80, 0x1C),
{
    Opcode::TwoOctet(0x80, 0x1C)
}

/// Opcode of the Config Model Subscription Delete All message.
#[verifier::allow_in_spec]
pub fn config_model_subscription_delete_all() -> Opcode
    returns
        Opcode::TwoOctet(0x80, 0x1D),
{
    Opcode::TwoOctet(0x80, 0x1D)
}

/// Opcode of the Config Model Subscription Overwrite message.
#[verifier::allow_in_spec]
pub fn config_model_subscription_overwrite() -> Opcode
    returns
        Opcode::TwoOctet(0x80, 0x1E),
{
    Opcode::TwoOctet(0x80, 0x1E)
}

/// Opcode of the Config Model Subscription Status message.
#[verifier::allow_in_spec]
pub fn config_model_subscription_status() -> Opcode
    returns
        Opcode::TwoOctet(0x80, 0x1F),
{
    Opcode::TwoOctet(0x80, 0x1F)
}

/// Opcode of the Config Model Subscription Virtual Address Add message.
#[verifier::allow_in_spec]
pub fn config_model_subscription_virtual_address_add() -> Opcode
    returns
        Opcode::TwoOctet(0x80, 0x20),
{
    Opcode::TwoOctet(0x80, 0x20)
}

/// Opcode of the Config Model Subscription Virtual Address Delete message.
#[verifier::allow_in_spec]
pub fn config_model_subscription_virtual_address_delete() -> Opcode
    returns
        Opcode::TwoOctet(0x80, 0x21),
{
    Opcode::TwoOctet(0x80, 0x21)
}

/// Opcode of the Config Model Subscription Virtual Address Overwrite message.
#[verifier::allow_in_spec]
pub fn config_model_subscription_virtual_address_overwrite() -> Opcode
    returns
        Opcode::TwoOctet(0x80, 0x22),
{
    Opcode::TwoOctet(0x80, 0x22)
}

/// Opcode of the Config Netkey Add message.
#[verifier::allow_in_spec]
pub fn config_netkey_add() -> Opcode
    returns
        Opcode::TwoOctet(0x80, 0x40),
{
    Opcode::TwoOctet(0x80, 0x40)
}

/// Opcode of the Config Netkey Delete message.
#[verifier::allow_in_spec]
pub fn config_netkey_delete() -> Opcode
    returns
        Opcode::TwoOctet(0x80, 0x41),
{
    Opcode::TwoOctet(0x80, 0x41)
}

/// Opcode of the Config Netkey Get message.
#[verifier::allow_in_spec]
pub fn config_netkey_get() -> Opcode
    returns
        Opcode::TwoOctet(0x80, 0x42),
{
    Opcode::TwoOctet(0x80, 0x42)
}

/// Opcode of the Config Netkey List message.
#[verifier::allow_in_spec]
pub fn config_netkey_list() -> Opcode
    returns
        Opcode::TwoOctet(0x80, 0x43),
{
    Opcode::TwoOctet(0x80, 0x43)
}

/// Opcode of the Config Netkey Status message.
#[verifier::allow_in_spec]
pub fn config_netkey_status() -> Opcode
    returns
        Opcode::TwoOctet(0x80, 0x44),
{
    Opcode::TwoOctet(0x80, 0x44)
}

/// Opcode of the Config Netkey Update message.
#[verifier::allow_in_spec]
pub fn config_netkey_update() -> Opcode
    returns
        Opcode::TwoOctet(0x80, 0x45),
{
    Opcode::TwoOctet(0x80, 0x45)
}

/// Opcode of the Config Network Transmit Get message.
#[verifier::allow_in_spec]
pub fn config_network_transmit_get() -> Opcode
    returns
        Opcode::TwoOctet(0x80, 0x23),
{
    Opcode::TwoOctet(0x80, 0x23)
}

/// Opcode of the Config Network Transmit Set message.
#[verifier::allow_in_spec]
pub fn config_network_transmit_set() -> Opcode
    returns
        Opcode::TwoOctet(0x80, 0x24),
{
    Opcode::TwoOctet(0x80, 0x24)
}

/// Opcode of the Config Network Transmit Status message.
#[verifier::allow_in_spec]
pub fn config_network_transmit_status() -> Opcode
    returns
        Opcode::TwoOctet(0x80, 0x25),
{
    Opcode::TwoOctet(0x80, 0x25)
}

/// Opcode of the Config Node Identity Get message.
#[verifier::allow_in_spec]
pub fn config_node_identity_get() -> Opcode
    returns
        Opcode::TwoOctet(0x80, 0x46),
{
    Opcode::TwoOctet(0x80, 0x46)
}

/// Opcode of the Config Node Identity Set message.
#[verifier::allow_in_spec]
pub fn config_node_identity_set() -> Opcode
    returns
        Opcode::TwoOctet(0x80, 0x47),
{
    Opcode::TwoOctet(0x80, 0x47)
}

/// Opcode of the Config Node Identity Status message.
#[verifier::allow_in_spec]
pub fn config_node_identity_status() -> Opcode
    returns
        Opcode::TwoOctet(0x80, 0x48),
{
    Opcode::TwoOctet(0x80, 0x48)
}

/// Opcode of the Config Relay Get message.
#[verifier::allow_in_spec]
pub fn config_relay_get() -> Opcode
    returns
        Opcode::TwoOctet(0x80, 0x26),
{
    Opcode::TwoOctet(0x80, 0x26)
}

/// Opcode of the Config Relay Set message.
#[verifier::allow_in_spec]
pub fn config_relay_set() -> Opcode
    returns
        Opcode::TwoOctet(0x80, 0x27),
{
    Opcode::TwoOctet(0x80, 0x27)
}

/// Opcode of the Config Relay Status message.
#[verifier::allow_in_spec]
pub fn config_relay_status() -> Opcode
    returns
        Opcode::TwoOctet(0x80, 0x28),
{
    Opcode::TwoOctet(0x80, 0x28)
}

/// Opcode of the Config SIG Model App Get message.
#[verifier::allow_in_spec]
pub fn config_sig_model_app_get() -> Opcode
    returns
        Opcode::TwoOctet(0x80, 0x4B),
{
    Opcode::TwoOctet(0x80, 0x4B)
}

/// Opcode of the Config SIG Model App List message.
#[verifier::allow_in_spec]
pub fn config_sig_model_app_list() -> Opcode
    returns
        Opcode::TwoOctet(0x80, 0x4C),
{
    Opcode::TwoOctet(0x80, 0x4C)
}

/// Opcode of the Config SIG Model Subscription Get message.
#[verifier::allow_in_spec]
pub fn config_sig_model_subscription_get() -> Opcode
    returns
        Opcode::TwoOctet(0x80, 0x29),
{
    Opcode::TwoOctet(0x80, 0x29)
}

/// Opcode of the Config SIG Model Subscription List message.
#[verifier::allow_in_spec]
pub fn config_sig_model_subscription_list() -> Opcode
    returns
        Opcode::TwoOctet(0x80, 0x2A),
{
    Opcode::TwoOctet(0x80, 0x2A)
}

/// Opcode of the Config Vendor Model App Get message.
#[verifier::allow_in_spec]
pub fn config_vendor_model_app_get() -> Opcode
    returns
        Opcode::TwoOctet(0x80, 0x4D),
{
    Opcode::TwoOctet(0x80, 0x4D)
}

/// Opcode of the Config Vendor Model App List message.
#[verifier::allow_in_spec]
pub fn config_vendor_model_app_list() -> Opcode
    returns
        Opcode::TwoOctet(0x80, 0x4E),
{
    Opcode::TwoOctet(0x80, 0x4E)
}

/// Opcode of the Config Vendor Model Subscription Get message.
#[verifier::allow_in_spec]
pub fn config_vendor_model_subscription_get() -> Opcode
    returns
        Opcode::TwoOctet(0x80, 0x2B),
{
    Opcode::TwoOctet(0x80, 0x2B)
}

/// Opcode of the Config Vendor Model Subscription List message.
#[verifier::allow_in_spec]
pub fn config_vendor_model_subscription_list() -> Opcode
    returns
        Opcode::TwoOctet(0x80, 0x2C),
{
    Opcode::TwoOctet(0x80, 0x2C)
}

/// Opcode of the Health Attention Get message.
#[verifier::allow_in_spec]
pub fn health_attention_get() -> Opcode
    returns
        Opcode::TwoOctet(0x80, 0x04),
{
    Opcode::TwoOctet(0x80, 0x04)
}

/// Opcode of the Health Attention Set message.
#[verifier::allow_in_spec]
pub fn health_attention_set() -> Opcode
    returns
        Opcode::TwoOctet(0x80, 0x05),
{
    Opcode::TwoOctet(0x80, 0x05)
}

/// Opcode of the Health Attention Set Unacknowledged message.
#[verifier::allow_in_spec]
pub fn health_attention_set_unacknowledged() -> Opcode
    returns
        Opcode::TwoOctet(0x80, 0x06),
{
    Opcode::TwoOctet(0x80, 0x06)
}

/// Opcode of the Health Attention Status message.
#[verifier::allow_in_spec]
pub fn health_attention_status() -> Opcode
    returns
        Opcode::TwoOctet(0x80, 0x07),
{
    Opcode::TwoOctet(0x80, 0x07)
}

/// Opcode of the Health Current Status message.
#[verifier::allow_in_spec]
pub fn health_current_status() -> Opcode
    returns
        Opcode::OneOctet(0x04),
{
    Opcode::OneOctet(0x04)
}

/// Opcode of the Health Fault Clear message.
#[verifier::allow_in_spec]
pub fn health_fault_clear() -> Opcode
    returns
        Opcode::TwoOctet(0x80, 0x2F),
{
    Opcode::TwoOctet(0x80, 0x2F)
}

/// Opcode of the Health Fault Clear Unacknowledged message.
#[verifier::allow_in_spec]
pub fn health_fault_clear_unacknowledged() -> Opcode
    returns
        Opcode::TwoOctet(0x80, 0x30),
{
    Opcode::TwoOctet(0x80, 0x30)
}

/// Opcode of the Health Fault Get message.
#[verifier::allow_in_spec]
pub fn health_fault_get() -> Opcode
    returns
        Opcode::TwoOctet(0x80, 0x31),
{
    Opcode::TwoOctet(0x80, 0x31)
}

/// Opcode of the Health Fault Status message.
#[verifier::allow_in_spec]
pub fn health_fault_status() -> Opcode
    returns
        Opcode::OneOctet(0x05),
{
    Opcode::OneOctet(0x05)
}

/// Opcode of the Health Fault Test message.
#[verifier::allow_in_spec]
pub fn health_fault_test() -> Opcode
    returns
        Opcode::TwoOctet(0x80, 0x32),
{
    Opcode::TwoOctet(0x80, 0x32)
}

/// Opcode of the Health Fault Test Unacknowledged message.
#[verifier::allow_in_spec]
pub fn health_fault_test_unacknowledged() -> Opcode
    returns
        Opcode::TwoOctet(0x80, 0x33),
{
    Opcode::TwoOctet(0x80, 0x33)
}

/// Opcode of the Health Period Get message.
#[verifier::allow_in_spec]
pub fn health_period_get() -> Opcode
    returns
        Opcode::TwoOctet(0x80, 0x34),
{
    Opcode::TwoOctet(0x80, 0x34)
}

/// Opcode of the Health Period Set message.
#[verifier::allow_in_spec]
pub fn health_period_set() -> Opcode
    returns
        Opcode::TwoOctet(0x80, 0x35),
{
    Opcode::TwoOctet(0x80, 0x35)
}

/// Opcode of the Health Period Set Unacknowledged message.
#[verifier::allow_in_spec]
pub fn health_period_set_unacknowledged() -> Opcode
    returns
        Opcode::TwoOctet(0x80, 0x36),
{
    Opcode::TwoOctet(0x80, 0x36)
}

/// Opcode of the Health Period Status message.
#[verifier::allow_in_spec]
pub fn health_period_status() -> Opcode
    returns
        Opcode::TwoOctet(0x80, 0x37),
{
    Opcode::TwoOctet(0x80, 0x37)
}

#[derive(PartialEq, Eq, Structural, Clone, Copy, Debug)]
pub enum Config {
    Friend(Friend),
    GATTProxy(GATTProxy),
    HeartbeatPublication(HeartbeatPublication),
    HeartbeatSubscription(HeartbeatSubscription),
    KeyRefreshPhase(KeyRefreshPhase),
    LowPowerNodePollTimeout(LowPowerNodePollTimeout),
    Model(Model),
    NetKey(NetKey),
    NetworkTransmit(NetworkTransmit),
    NodeIdentity(NodeIdentity),
    Relay(Relay),
    SIGModel(SIGModel),
    VendorModel(VendorModel),
}

impl Config {
    /// The opcode of this message.
    pub open spec fn spec_opcode(self) -> Opcode {
        match self {
            Config::Friend(inner) => inner.spec_opcode(),
            Config::GATTProxy(inner) => inner.spec_opcode(),
            Config::HeartbeatPublication(inner) => inner.spec_opcode(),
            Config::HeartbeatSubscription(inner) => inner.spec_opcode(),
            Config::KeyRefreshPhase(inner) => inner.spec_opcode(),
            Config::LowPowerNodePollTimeout(inner) => inner.spec_opcode(),
            Config::Model(inner) => inner.spec_opcode(),
            Config::NetKey(inner) => inner.spec_opcode(),
            Config::NetworkTransmit(inner) => inner.spec_opcode(),
            Config::NodeIdentity(inner) => inner.spec_opcode(),
            Config::Relay(inner) => inner.spec_opcode(),
            Config::SIGModel(inner) => inner.spec_opcode(),
            Config::VendorModel(inner) => inner.spec_opcode(),
        }
    }

    /// The opcode of this message.
    pub fn opcode(&self) -> (o: Opcode)
        ensures
            o == self.spec_opcode(),
    {
        match self {
            Config::Friend(inner) => inner.opcode(),
            Config::GATTProxy(inner) => inner.opcode(),
            Config::HeartbeatPublication(inner) => inner.opcode(),
            Config::HeartbeatSubscription(inner) => inner.opcode(),
            Config::KeyRefreshPhase(inner) => inner.opcode(),
            Config::LowPowerNodePollTimeout(inner) => inner.opcode(),
            Config::Model(inner) => inner.opcode(),
            Config::NetKey(inner) => inner.opcode(),
            Config::NetworkTransmit(inner) => inner.opcode(),
            Config::NodeIdentity(inner) => inner.opcode(),
            Config::Relay(inner) => inner.opcode(),
            Config::SIGModel(inner) => inner.opcode(),
            Config::VendorModel(inner) => inner.opcode(),
        }
    }
}

#[derive(PartialEq, Eq, Structural, Clone, Copy, Debug)]
pub enum Friend {
    Get,
    SetRequest,
    Status,
}

impl Friend {
    /// The opcode of this message.
    pub open spec fn spec_opcode(self) -> Opcode {
        match self {
            Friend::Get => config_friend_get(),
            Friend::SetRequest => config_friend_set(),
            Friend::Status => config_friend_status(),
        }
    }

    /// The opcode of this message.
    pub fn opcode(&self) -> (o: Opcode)
        ensures
            o == self.spec_opcode(),
    {
        match self {
            Friend::Get => config_friend_get(),
            Friend::SetRequest => config_friend_set(),
            Friend::Status => config_friend_status(),
        }
    }
}

#[derive(PartialEq, Eq, Structural, Clone, Copy, Debug)]
pub enum GATTProxy {
    Get,
    SetRequest,
    Status,
}

impl GATTProxy {
    /// The opcode of this message.
    pub open spec fn spec_opcode(self) -> Opcode {
        match self {
            GATTProxy::Get => config_gatt_proxy_get(),
            GATTProxy::SetRequest => config_gatt_proxy_set(),
            GATTProxy::Status => config_gatt_proxy_status(),
        }
    }

    /// The opcode of this message.
    pub fn opcode(&self) -> (o: Opcode)
        ensures
            o == self.spec_opcode(),
    {
        match self {
            GATTProxy::Get => config_gatt_proxy_get(),
            GATTProxy::SetRequest => config_gatt_proxy_set(),
            GATTProxy::Status => config_gatt_proxy_status(),
        }
    }
}

#[derive(PartialEq, Eq, Structural, Clone, Copy, Debug)]
pub enum HeartbeatPublication {
    Get,
    SetRequest,
    Status,
}

impl HeartbeatPublication {
    /// The opcode of this message.
    pub open spec fn spec_opcode(self) -> Opcode {
        match self {
            HeartbeatPublication::Get => config_heartbeat_publication_get(),
            HeartbeatPublication::SetRequest => config_heartbeat_publication_set(),
            HeartbeatPublication::Status => config_heartbeat_publication_status(),
        }
    }

    /// The opcode of this message.
    pub fn opcode(&self) -> (o: Opcode)
        ensures
            o == self.spec_opcode(),
    {
        match self {
            HeartbeatPublication::Get => config_heartbeat_publication_get(),
            HeartbeatPublication::SetRequest => config_heartbeat_publication_set(),
            HeartbeatPublication::Status => config_heartbeat_publication_status(),
        }
    }
}

#[derive(PartialEq, Eq, Structural, Clone, Copy, Debug)]
pub enum HeartbeatSubscription {
    Get,
    SetRequest,
    Status,
}

impl HeartbeatSubscription {
    /// The opcode of this message.
    pub open spec fn spec_opcode(self) -> Opcode {
        match self {
            HeartbeatSubscription::Get => config_heartbeat_subscription_get(),
            HeartbeatSubscription::SetRequest => config_heartbeat_subscription_set(),
            HeartbeatSubscription::Status => config_heartbeat_subscription_status(),
        }
    }

    /// The opcode of this message.
    pub fn opcode(&self) -> (o: Opcode)
        ensures
            o == self.spec_opcode(),
    {
        match self {
            HeartbeatSubscription::Get => config_heartbeat_subscription_get(),
            HeartbeatSubscription::SetRequest => config_heartbeat_subscription_set(),
            HeartbeatSubscription::Status => config_heartbeat_subscription_status(),
        }
    }
}

#[derive(PartialEq, Eq, Structural, Clone, Copy, Debug)]
pub enum KeyRefreshPhase {
    Get,
    SetRequest,
    Status,
}

impl KeyRefreshPhase {
    /// The opcode of this message.
    pub open spec fn spec_opcode(self) -> Opcode {
        match self {
            KeyRefreshPhase::Get => config_key_refresh_phase_get(),
            KeyRefreshPhase::SetRequest => config_key_refresh_phase_set(),
            KeyRefreshPhase::Status => config_key_refresh_phase_status(),
        }
    }

    /// The opcode of this message.
    pub fn opcode(&self) -> (o: Opcode)
        ensures
            o == self.spec_opcode(),
    {
        match self {
            KeyRefreshPhase::Get => config_key_refresh_phase_get(),
            KeyRefreshPhase::SetRequest => config_key_refresh_phase_set(),
            KeyRefreshPhase::Status => config_key_refresh_phase_status(),
        }
    }
}

#[derive(PartialEq, Eq, Structural, Clone, Copy, Debug)]
pub enum LowPowerNodePollTimeout {
    Get,
    Status,
}

impl LowPowerNodePollTimeout {
    /// The opcode of this message.
    pub open spec fn spec_opcode(self) -> Opcode {
        match self {
            LowPowerNodePollTimeout::Get => config_low_power_node_polltimeout_get(),
            LowPowerNodePollTimeout::Status => config_low_power_node_polltimeout_status(),
        }
    }

    /// The opcode of this message.
    pub fn opcode(&self) -> (o: Opcode)
        ensures
            o == self.spec_opcode(),
    {
        match self {
            LowPowerNodePollTimeout::Get => config_low_power_node_polltimeout_get(),
            LowPowerNodePollTimeout::Status => config_low_power_node_polltimeout_status(),
        }
    }
}

#[derive(PartialEq, Eq, Structural, Clone, Copy, Debug)]
pub enum Model {
    App(ModelApp),
    Publication(ModelPublication),
    Subscription(ModelSubscription),
}

impl Model {
    /// The opcode of this message.
    pub open spec fn spec_opcode(self) -> Opcode {
        match self {
            Model::App(inner) => inner.spec_opcode(),
            Model::Publication(inner) => inner.spec_opcode(),
            Model::Subscription(inner) => inner.spec_opcode(),
        }
    }

    /// The opcode of this message.
    pub fn opcode(&self) -> (o: Opcode)
        ensures
            o == self.spec_opcode(),
    {
        match self {
            Model::App(inner) => inner.opcode(),
            Model::Publication(inner) => inner.opcode(),
            Model::Subscription(inner) => inner.opcode(),
        }
    }
}

#[derive(PartialEq, Eq, Structural, Clone, Copy, Debug)]
pub enum ModelApp {
    Bind,
    Status,
    Unbind,
}

impl ModelApp {
    /// The opcode of this message.
    pub open spec fn spec_opcode(self) -> Opcode {
        match self {
            ModelApp::Bind => config_model_app_bind(),
            ModelApp::Status => config_model_app_status(),
            ModelApp::Unbind => config_model_app_unbind(),
        }
    }

    /// The opcode of this message.
    pub fn opcode(&self) -> (o: Opcode)
        ensures
            o == self.spec_opcode(),
    {
        match self {
            ModelApp::Bind => config_model_app_bind(),
            ModelApp::Status => config_model_app_status(),
            ModelApp::Unbind => config_model_app_unbind(),
        }
    }
}

#[derive(PartialEq, Eq, Structural, Clone, Copy, Debug)]
pub enum ModelPublication {
    Get,
    Status,
    VirtualAddressSet,
}

impl ModelPublication {
    /// The opcode of this message.
    pub open spec fn spec_opcode(self) -> Opcode {
        match self {
            ModelPublication::Get => config_model_publication_get(),
            ModelPublication::Status => config_model_publication_status(),
            ModelPublication::VirtualAddressSet => config_model_publication_virtual_address_set(),
        }
    }

    /// The opcode of this message.
    pub fn opcode(&self) -> (o: Opcode)
        ensures
            o == self.spec_opcode(),
    {
        match self {
            ModelPublication::Get => config_model_publication_get(),
            ModelPublication::Status => config_model_publication_status(),
            ModelPublication::VirtualAddressSet => config_model_publication_virtual_address_set(),
        }
    }
}

#[derive(PartialEq, Eq, Structural, Clone, Copy, Debug)]
pub enum ModelSubscription {
    Add,
    Delete,
    DeleteAll,
    Overwrite,
    Status,
    VirtualAddressAdd,
    VirtualAddressDelete,
    VirtualAddressOverwrite,
}

impl ModelSubscription {
    /// The opcode of this message.
    pub open spec fn spec_opcode(self) -> Opcode {
        match self {
            ModelSubscription::Add => config_model_subscription_add(),
            ModelSubscription::Delete => config_model_subscription_delete(),
            ModelSubscription::DeleteAll => config_model_subscription_delete_all(),
            ModelSubscription::Overwrite => config_model_subscription_overwrite(),
            ModelSubscription::Status => config_model_subscription_status(),
            ModelSubscription::VirtualAddressAdd => config_model_subscription_virtual_address_add(),
            ModelSubscription::VirtualAddressDelete => config_model_subscription_virtual_address_delete(),
            ModelSubscription::VirtualAddressOverwrite => config_model_subscription_virtual_address_overwrite(),
        }
    }

    /// The opcode of this message.
    pub fn opcode(&self) -> (o: Opcode)
        ensures
            o == self.spec_opcode(),
    {
        match self {
            ModelSubscription::Add => config_model_subscription_add(),
            ModelSubscription::Delete => config_model_subscription_delete(),
            ModelSubscription::DeleteAll => config_model_subscription_delete_all(),
            ModelSubscription::Overwrite => config_model_subscription_overwrite(),
            ModelSubscription::Status => config_model_subscription_status(),
            ModelSubscription::VirtualAddressAdd => config_model_subscription_virtual_address_add(),
            ModelSubscription::VirtualAddressDelete => config_model_subscription_virtual_address_delete(),
            ModelSubscription::VirtualAddressOverwrite => config_model_subscription_virtual_address_overwrite(),
        }
    }
}

#[derive(PartialEq, Eq, Structural, Clone, Copy, Debug)]
pub enum NetKey {
    Add,
    Delete,
    Get,
    List,
    Status,
    Update,
}

impl NetKey {
    /// The opcode of this message.
    pub open spec fn spec_opcode(self) -> Opcode {
        match self {
            NetKey::Add => config_netkey_add(),
            NetKey::Delete => config_netkey_delete(),
            NetKey::Get => config_netkey_get(),
            NetKey::List => config_netkey_list(),
            NetKey::Status => config_netkey_status(),
            NetKey::Update => config_netkey_update(),
        }
    }

    /// The opcode of this message.
    pub fn opcode(&self) -> (o: Opcode)
        ensures
            o == self.spec_opcode(),
    {
        match self {
            NetKey::Add => config_netkey_add(),
            NetKey::Delete => config_netkey_delete(),
            NetKey::Get => config_netkey_get(),
            NetKey::List => config_netkey_list(),
            NetKey::Status => config_netkey_status(),
            NetKey::Update => config_netkey_update(),
        }
    }
}

#[derive(PartialEq, Eq, Structural, Clone, Copy, Debug)]
pub enum NetworkTransmit {
    Get,
    SetRequest,
    Status,
}

impl NetworkTransmit {
    /// The opcode of this message.
    pub open spec fn spec_opcode(self) -> Opcode {
        match self {
            NetworkTransmit::Get => config_network_transmit_get(),
            NetworkTransmit::SetRequest => config_network_transmit_set(),
            NetworkTransmit::Status => config_network_transmit_status(),
        }
    }

    /// The opcode of this message.
    pub fn opcode(&self) -> (o: Opcode)
        ensures
            o == self.spec_opcode(),
    {
        match self {
            NetworkTransmit::Get => config_network_transmit_get(),
            NetworkTransmit::SetRequest => config_network_transmit_set(),
            NetworkTransmit::Status => config_network_transmit_status(),
        }
    }
}

#[derive(PartialEq, Eq, Structural, Clone, Copy, Debug)]
pub enum NodeIdentity {
    Get,
    SetRequest,
    Status,
}

impl NodeIdentity {
    /// The opcode of this message.
    pub open spec fn spec_opcode(self) -> Opcode {
        match self {
            NodeIdentity::Get => config_node_identity_get(),
            NodeIdentity::SetRequest => config_node_identity_set(),
            NodeIdentity::Status => config_node_identity_status(),
        }
    }

    /// The opcode of this message.
    pub fn opcode(&self) -> (o: Opcode)
        ensures
            o == self.spec_opcode(),
    {
        match self {
            NodeIdentity::Get => config_node_identity_get(),
            NodeIdentity::SetRequest => config_node_identity_set(),
            NodeIdentity::Status => config_node_identity_status(),
        }
    }
}

#[derive(PartialEq, Eq, Structural, Clone, Copy, Debug)]
pub enum Relay {
    Get,
    SetRequest,
    Status,
}

impl Relay {
    /// The opcode of this message.
    pub open spec fn spec_opcode(self) -> Opcode {
        match self {
            Relay::Get => config_relay_get(),
            Relay::SetRequest => config_relay_set(),
            Relay::Status => config_relay_status(),
        }
    }

    /// The opcode of this message.
    pub fn opcode(&self) -> (o: Opcode)
        ensures
            o == self.spec_opcode(),
    {
        match self {
            Relay::Get => config_relay_get(),
            Relay::SetRequest => config_relay_set(),
            Relay::Status => config_relay_status(),
        }
    }

    /// Reads a Config Relay Get, which carries no parameters.
    pub fn parse_get(parameters: &[u8]) -> (r: Result<Self, ParseError>)
        ensures
            r == (if parameters@.len() == 0 { Ok(Relay::Get) } else { Err(ParseError::InvalidLength) }),
    {
        if parameters.len() == 0 {
            Ok(Self::Get)
        } else {
            Err(ParseError::InvalidLength)
        }
    }
}

#[derive(PartialEq, Eq, Structural, Clone, Copy, Debug)]
pub enum SIGModel {
    App(SIGModelApp),
    Subscription(SIGModelSubscription),
}

impl SIGModel {
    /// The opcode of this message.
    pub open spec fn spec_opcode(self) -> Opcode {
        match self {
            SIGModel::App(inner) => inner.spec_opcode(),
            SIGModel::Subscription(inner) => inner.spec_opcode(),
        }
    }

    /// The opcode of this message.
    pub fn opcode(&self) -> (o: Opcode)
        ensures
            o == self.spec_opcode(),
    {
        match self {
            SIGModel::App(inner) => inner.opcode(),
            SIGModel::Subscription(inner) => inner.opcode(),
        }
    }
}

#[derive(PartialEq, Eq, Structural, Clone, Copy, Debug)]
pub enum SIGModelApp {
    Get,
    List,
}

impl SIGModelApp {
    /// The opcode of this message.
    pub open spec fn spec_opcode(self) -> Opcode {
        match self {
            SIGModelApp::Get => config_sig_model_app_get(),
            SIGModelApp::List => config_sig_model_app_list(),
        }
    }

    /// The opcode of this message.
    pub fn opcode(&self) -> (o: Opcode)
        ensures
            o == self.spec_opcode(),
    {
        match self {
            SIGModelApp::Get => config_sig_model_app_get(),
            SIGModelApp::List => config_sig_model_app_list(),
        }
    }
}

#[derive(PartialEq, Eq, Structural, Clone, Copy, Debug)]
pub enum SIGModelSubscription {
    Get,
    List,
}

impl SIGModelSubscription {
    /// The opcode of this message.
    pub open spec fn spec_opcode(self) -> Opcode {
        match self {
            SIGModelSubscription::Get => config_sig_model_subscription_get(),
            SIGModelSubscription::List => config_sig_model_subscription_list(),
        }
    }

    /// The opcode of this message.
    pub fn opcode(&self) -> (o: Opcode)
        ensures
            o == self.spec_opcode(),
    {
        match self {
            SIGModelSubscription::Get => config_sig_model_subscription_get(),
            SIGModelSubscription::List => config_sig_model_subscription_list(),
        }
    }
}

#[derive(PartialEq, Eq, Structural, Clone, Copy, Debug)]
pub enum VendorModel {
    App(VendorModelApp),
    Susbcription(VendorModelSubscription),
}

impl VendorModel {
    /// The opcode of this message.
    pub open spec fn spec_opcode(self) -> Opcode {
        match self {
            VendorModel::App(inner) => inner.spec_opcode(),
            VendorModel::Susbcription(inner) => inner.spec_opcode(),
        }
    }

    /// The opcode of this message.
    pub fn opcode(&self) -> (o: Opcode)
        ensures
            o == self.spec_opcode(),
    {
        match self {
            VendorModel::App(inner) => inner.opcode(),
            VendorModel::Susbcription(inner) => inner.opcode(),
        }
    }
}

#[derive(PartialEq, Eq, Structural, Clone, Copy, Debug)]
pub enum VendorModelApp {
    Get,
    List,
}

impl VendorModelApp {
    /// The opcode of this message.
    pub open spec fn spec_opcode(self) -> Opcode {
        match self {
            VendorModelApp::Get => config_vendor_model_app_get(),
            VendorModelApp::List => config_vendor_model_app_list(),
        }
    }

    /// The opcode of this message.
    pub fn opcode(&self) -> (o: Opcode)
        ensures
            o == self.spec_opcode(),
    {
        match self {
            VendorModelApp::Get => config_vendor_model_app_get(),
            VendorModelApp::List => config_vendor_model_app_list(),
        }
    }
}

#[derive(PartialEq, Eq, Structural, Clone, Copy, Debug)]
pub enum VendorModelSubscription {
    Get,
    List,
}

impl VendorModelSubscription {
    /// The opcode of this message.
    pub open spec fn spec_opcode(self) -> Opcode {
        match self {
            VendorModelSubscription::Get => config_vendor_model_subscription_get(),
            VendorModelSubscription::List => config_vendor_model_subscription_list(),
        }
    }

    /// The opcode of this message.
    pub fn opcode(&self) -> (o: Opcode)
        ensures
            o == self.spec_opcode(),
    {
        match self {
            VendorModelSubscription::Get => config_vendor_model_subscription_get(),
            VendorModelSubscription::List => config_vendor_model_subscription_list(),
        }
    }
}

#[derive(PartialEq, Eq, Structural, Clone, Copy, Debug)]
pub enum Health {
    Attention(Attention),
    CurrentStatus,
    Fault(Fault),
    Period(Period),
}

impl Health {
    /// The opcode of this message.
    pub open spec fn spec_opcode(self) -> Opcode {
        match self {
            Health::CurrentStatus => health_current_status(),
            Health::Attention(inner) => inner.spec_opcode(),
            Health::Fault(inner) => inner.spec_opcode(),
            Health::Period(inner) => inner.spec_opcode(),
        }
    }

    /// The opcode of this message.
    pub fn opcode(&self) -> (o: Opcode)
        ensures
            o == self.spec_opcode(),
    {
        match self {
            Health::CurrentStatus => health_current_status(),
            Health::Attention(inner) => inner.opcode(),
            Health::Fault(inner) => inner.opcode(),
            Health::Period(inner) => inner.opcode(),
        }
    }
}

#[derive(PartialEq, Eq, Structural, Clone, Copy, Debug)]
pub enum Attention {
    Get,
    SetRequest,
    SetUnacknowledged,
}

impl Attention {
    /// The opcode of this message.
    pub open spec fn spec_opcode(self) -> Opcode {
        match self {
            Attention::Get => health_attention_get(),
            Attention::SetRequest => health_attention_set(),
            Attention::SetUnacknowledged => health_attention_set_unacknowledged(),
        }
    }

    /// The opcode of this message.
    pub fn opcode(&self) -> (o: Opcode)
        ensures
            o == self.spec_opcode(),
    {
        match self {
            Attention::Get => health_attention_get(),
            Attention::SetRequest => health_attention_set(),
            Attention::SetUnacknowledged => health_attention_set_unacknowledged(),
        }
    }
}

#[derive(PartialEq, Eq, Structural, Clone, Copy, Debug)]
pub enum Fault {
    Clear,
    ClearUnacknowledged,
    Get,
    Status,
    Test,
    TestUnacknowledged,
}

impl Fault {
    /// The opcode of this message.
    pub open spec fn spec_opcode(self) -> Opcode {
        match self {
            Fault::Clear => health_fault_clear(),
            Fault::ClearUnacknowledged => health_fault_clear_unacknowledged(),
            Fault::Get => health_fault_get(),
            Fault::Status => health_fault_status(),
            Fault::Test => health_fault_test(),
            Fault::TestUnacknowledged => health_fault_test_unacknowledged(),
        }
    }

    /// The opcode of this message.
    pub fn opcode(&self) -> (o: Opcode)
        ensures
            o == self.spec_opcode(),
    {
        match self {
            Fault::Clear => health_fault_clear(),
            Fault::ClearUnacknowledged => health_fault_clear_unacknowledged(),
            Fault::Get => health_fault_get(),
            Fault::Status => health_fault_status(),
            Fault::Test => health_fault_test(),
            Fault::TestUnacknowledged => health_fault_test_unacknowledged(),
        }
    }
}

#[derive(PartialEq, Eq, Structural, Clone, Copy, Debug)]
pub enum Period {
    Get,
    SetRequest,
    SetUnacknowledged,
    Status,
}

impl Period {
    /// The opcode of this message.
    pub open spec fn spec_opcode(self) -> Opcode {
        match self {
            Period::Get => health_period_get(),
            Period::SetRequest => health_period_set(),
            Period::SetUnacknowledged => health_period_set_unacknowledged(),
            Period::Status => health_period_status(),
        }
    }

    /// The opcode of this message.
    pub fn opcode(&self) -> (o: Opcode)
        ensures
            o == self.spec_opcode(),
    {
        match self {
            Period::Get => health_period_get(),
            Period::SetRequest => health_period_set(),
            Period::SetUnacknowledged => health_period_set_unacknowledged(),
            Period::Status => health_period_status(),
        }
    }
}

/// The largest access payload parameters that a PDU holds.
pub const ACCESS_PARAMETERS_MAX: usize = 384;

/// The opcode and parameters of an access message.
pub struct AccessPayload {
    pub opcode: Opcode,
    /// The parameters (at most 384 bytes when read from a PDU).
    pub parameters: Vec<u8>,
}

impl AccessPayload {
    /// A copy of this payload.
    pub fn duplicate(&self) -> (p: Self)
        ensures
            p.opcode == self.opcode,
            p.parameters@ == self.parameters@,
    {
        AccessPayload { opcode: self.opcode, parameters: self.parameters.clone() }
    }

    /// The bytes of this payload: the opcode octets, then the parameters.
    pub open spec fn spec_bytes(&self) -> Seq<u8> {
        self.opcode.spec_bytes() + self.parameters@
    }

    /// Whether reading `data` as an access payload succeeds: it starts with
    /// an opcode and no more than 384 bytes of parameters follow it.
    pub open spec fn spec_parse_ok(data: Seq<u8>) -> bool {
        &&& Opcode::spec_split(data) is Some
        &&& data.len() - Opcode::spec_split(data).unwrap().spec_bytes().len() <= ACCESS_PARAMETERS_MAX
    }

    /// Reads an access payload from the decrypted upper transport payload.
    pub fn parse(data: &[u8]) -> (r: Result<Self, ParseError>)
        ensures
            r is Ok <==> Self::spec_parse_ok(data@),
            r matches Ok(p) ==> p.opcode == Opcode::spec_split(data@).unwrap()
                && p.parameters@ == data@.skip(p.opcode.spec_bytes().len() as int),
            r matches Err(e) ==> e == (if Opcode::spec_split(data@) is None {
                ParseError::InvalidPDUFormat
            } else {
                ParseError::InsufficientBuffer
            }),
    {
        let (opcode, parameters) = match Opcode::split(data) {
            Some(split) => split,
            None => return Err(ParseError::InvalidPDUFormat),
        };
        if parameters.len() > ACCESS_PARAMETERS_MAX {
            return Err(ParseError::InsufficientBuffer);
        }
        let p = AccessPayload { opcode, parameters: vstd::slice::slice_to_vec(parameters) };
        Ok(p)
    }

    /// Appends the opcode octets and then the parameters.
    pub fn emit(&self, xmit: &mut ByteBuf) -> (r: Result<(), InsufficientBuffer>)
        ensures
            final(xmit).cap() == old(xmit).cap(),
            appended(old(xmit)@, final(xmit)@, old(xmit).cap(), self.spec_bytes(), r is Ok),
    {
        let mut bytes = self.opcode.encode();
        let mut params = self.parameters.clone();
        bytes.append(&mut params);
        xmit.extend_from_slice(bytes.as_slice())
    }
}

/// An access payload whose opcode announces its own length and whose
/// parameters fit is read back, the same opcode and parameters, from the
/// bytes it is emitted as.
pub proof fn lemma_access_payload_roundtrip(p: AccessPayload)
    requires
        first_octet_fits(p.opcode),
        p.parameters@.len() <= ACCESS_PARAMETERS_MAX,
    ensures
        AccessPayload::spec_parse_ok(p.spec_bytes()),
        Opcode::spec_split(p.spec_bytes()) == Some(p.opcode),
        p.spec_bytes().skip(p.opcode.spec_bytes().len() as int) == p.parameters@,
{
    lemma_opcode_roundtrip(p.opcode, p.parameters@);
    assert(p.spec_bytes().skip(p.opcode.spec_bytes().len() as int) =~= p.parameters@);
}

/// An access message: its payload together with the network fields it
/// arrived with, or leaves with.
pub struct AccessMessage {
    pub ttl: Option<u8>,
    pub network_key: NetworkKeyHandle,
    pub ivi: u8,
    pub nid: u8,
    pub akf: bool,
    pub aid: ApplicationKeyIdentifier,
    pub src: UnicastAddress,
    pub dst: Address,
    pub payload: AccessPayload,
}

impl AccessMessage {
    /// Sets the TTL this message leaves with.
    pub fn with_ttl(self, ttl: u8) -> (m: Self)
        ensures
            m.ttl == Some(ttl),
            m.network_key == self.network_key,
            m.ivi == self.ivi,
            m.nid == self.nid,
            m.akf == self.akf,
            m.aid == self.aid,
            m.src == self.src,
            m.dst == self.dst,
            m.payload == self.payload,
    {
        let mut m = self;
        m.ttl = Some(ttl);
        m
    }

    /// The opcode of this message.
    pub fn opcode(&self) -> (o: Opcode)
        ensures
            o == self.payload.opcode,
    {
        self.payload.opcode
    }

    /// The parameters of this message.
    pub fn parameters(&self) -> (p: &[u8])
        ensures
            p@ == self.payload.parameters@,
    {
        self.payload.parameters.as_slice()
    }

    /// Whether `r` is what reading the access message carried by `access`
    /// gives: its opcode and parameters with the network fields it came
    /// with, or the error that refuses its payload.
    pub open spec fn read_from(access: &UpperAccess, r: Result<Self, ParseError>) -> bool {
        &&& r is Ok <==> AccessPayload::spec_parse_ok(access.payload@)
        &&& r matches Ok(m) ==> {
            &&& m.ttl is None
            &&& m.network_key == access.network_key
            &&& m.ivi == access.ivi
            &&& m.nid == access.nid
            &&& m.akf == access.akf
            &&& m.aid == access.aid
            &&& m.src == access.src
            &&& m.dst == access.dst
            &&& m.payload.opcode == Opcode::spec_split(access.payload@).unwrap()
            &&& m.payload.parameters@ == access.payload@.skip(m.payload.opcode.spec_bytes().len() as int)
        }
        &&& r matches Err(e) ==> e == (if Opcode::spec_split(access.payload@) is None {
            ParseError::InvalidPDUFormat
        } else {
            ParseError::InsufficientBuffer
        })
    }

    /// Reads the access message carried by an upper transport access PDU.
    pub fn parse(access: &UpperAccess) -> (r: Result<Self, ParseError>)
        ensures
            r is Ok <==> AccessPayload::spec_parse_ok(access.payload@),
            r matches Ok(m) ==> {
                &&& m.ttl is None
                &&& m.network_key == access.network_key
                &&& m.ivi == access.ivi
                &&& m.nid == access.nid
                &&& m.akf == access.akf
                &&& m.aid == access.aid
                &&& m.src == access.src
                &&& m.dst == access.dst
                &&& m.payload.opcode == Opcode::spec_split(access.payload@).unwrap()
                &&& m.payload.parameters@ == access.payload@.skip(m.payload.opcode.spec_bytes().len() as int)
            },
            r matches Err(e) ==> e == (if Opcode::spec_split(access.payload@) is None {
                ParseError::InvalidPDUFormat
            } else {
                ParseError::InsufficientBuffer
            }),
    {
        let payload = AccessPayload::parse(access.payload.as_slice())?;
        Ok(AccessMessage {
            ttl: None,
            network_key: access.network_key,
            ivi: access.ivi,
            nid: access.nid,
            akf: access.akf,
            aid: access.aid,
            src: access.src,
            dst: access.dst,
            payload,
        })
    }

    /// Appends the payload of this message.
    pub fn emit(&self, xmit: &mut ByteBuf) -> (r: Result<(), InsufficientBuffer>)
        ensures
            final(xmit).cap() == old(xmit).cap(),
            appended(old(xmit)@, final(xmit)@, old(xmit).cap(), self.payload.spec_bytes(), r is Ok),
    {
        self.payload.emit(xmit)
    }

    /// A response to this message, sent back to its source from the local
    /// element address `local`: the response's parameters must fit an
    /// access payload, and the node must have an address.
    pub fn create_response<M: Message>(&self, local: Option<UnicastAddress>, response: M) -> (r: Result<AccessMessage, DeviceError>)
        requires
            response.emittable(),
        ensures
            r is Ok <==> response.spec_parameters().len() <= ACCESS_PARAMETERS_MAX && local is Some,
            r matches Ok(m) ==> {
                &&& m.ttl is None
                &&& m.network_key == self.network_key
                &&& m.ivi == self.ivi
                &&& m.nid == self.nid
                &&& m.akf == self.akf
                &&& m.aid == self.aid
                &&& m.src == local.unwrap()
                &&& m.dst == Address::Unicast(self.src)
                &&& m.payload.opcode == response.spec_opcode()
                &&& m.payload.parameters@ == response.spec_parameters()
            },
            r matches Err(e) ==> e == (if response.spec_parameters().len() > ACCESS_PARAMETERS_MAX {
                DeviceError::InsufficientBuffer
            } else {
                DeviceError::NotProvisioned
            }),
    {
        let mut parameters = ByteBuf::new(ACCESS_PARAMETERS_MAX);
        match response.emit_parameters(&mut parameters) {
            Ok(()) => {}
            Err(_) => return Err(DeviceError::InsufficientBuffer),
        }
        assert(parameters@ =~= response.spec_parameters());
        let src = match local {
            Some(a) => a,
            None => return Err(DeviceError::NotProvisioned),
        };
        Ok(AccessMessage {
            ttl: None,
            network_key: self.network_key,
            ivi: self.ivi,
            nid: self.nid,
            akf: self.akf,
            aid: self.aid,
            src,
            dst: Address::Unicast(self.src),
            payload: AccessPayload { opcode: response.opcode(), parameters: vstd::slice::slice_to_vec(parameters.as_slice()) },
        })
    }
}

} // verus!
