//! The PDUs that network interfaces carry, the beacons they send, and the
//! errors of the interfaces and of the bearers beneath them.
use vstd::prelude::*;
use crate::pdu::network::ObfuscatedAndEncryptedNetworkPDU;
use crate::pdu::ParseError;
use crate::provisioning::ProvisioningPDU;
use crate::InsufficientBuffer;

pub mod gatt;

verus! {

/// A PDU that a network interface receives or transmits.
pub enum PDU {
    Provisioning(ProvisioningPDU),
    Network(ObfuscatedAndEncryptedNetworkPDU),
}

/// The 8-byte identifier of a network, which a provisioned node beacons.
#[derive(Clone, Copy, Debug)]
pub struct NetworkId(pub [u8; 8]);

/// A beacon that a node sends: as a device waiting to be provisioned, as a
/// node of a network, or a secure network beacon.
#[derive(Clone, Copy, Debug)]
pub enum Beacon {
    Unprovisioned,
    Provisioned(NetworkId),
    Secure,
}

/// The most bytes of a PB-ADV PDU.
pub const PB_ADV_MTU: usize = 64;

/// Why a bearer could not receive or transmit.
#[derive(PartialEq, Eq, Structural, Clone, Copy, Debug)]
pub enum BearerError {
    InvalidLink,
    InvalidTransaction,
    TransmissionFailure,
    InsufficientResources,
    ParseError(ParseError),
    Unspecified,
}

/// Why a network interface failed.
#[derive(PartialEq, Eq, Structural, Clone, Copy, Debug)]
pub enum NetworkError {
    InvalidLink,
    InvalidTransaction,
    Unspecified,
    Bearer(BearerError),
}

impl From<BearerError> for NetworkError {
    fn from(err: BearerError) -> (r: NetworkError) {
        NetworkError::Bearer(err)
    }
}

impl vstd::std_specs::convert::FromSpecImpl<BearerError> for NetworkError {
    open spec fn obeys_from_spec() -> bool {
        true
    }

    open spec fn from_spec(err: BearerError) -> NetworkError {
        NetworkError::Bearer(err)
    }
}

impl From<ParseError> for BearerError {
    fn from(e: ParseError) -> (r: BearerError) {
        BearerError::ParseError(e)
    }
}

impl vstd::std_specs::convert::FromSpecImpl<ParseError> for BearerError {
    open spec fn obeys_from_spec() -> bool {
        true
    }

    open spec fn from_spec(e: ParseError) -> BearerError {
        BearerError::ParseError(e)
    }
}

impl From<InsufficientBuffer> for BearerError {
    fn from(e: InsufficientBuffer) -> (r: BearerError) {
        BearerError::InsufficientResources
    }
}

impl vstd::std_specs::convert::FromSpecImpl<InsufficientBuffer> for BearerError {
    open spec fn obeys_from_spec() -> bool {
        true
    }

    open spec fn from_spec(e: InsufficientBuffer) -> BearerError {
        BearerError::InsufficientResources
    }
}

} // verus!
