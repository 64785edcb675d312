//! The network interface over a GATT bearer: network and provisioning PDUs
//! travel in proxy PDUs, and beacons are advertised with the mesh proxy or
//! provisioning service.
use vstd::prelude::*;
use crate::buffer::ByteBuf;
use crate::device::Uuid;
use crate::interface::{Beacon, BearerError, NetworkId, PDU};
use crate::pdu::network::{lemma_network_roundtrip, ObfuscatedAndEncryptedNetworkPDU, ENCRYPTED_AND_MIC_MAX};
use crate::pdu::proxy::{lemma_proxy_pdu_roundtrip, MessageType, ProxyPDU, PROXY_DATA_MAX, SAR};
use crate::pdu::ParseError;
use crate::provisioning::{lemma_provisioning_pdu_roundtrip, ProvisioningPDU};

verus! {

/// The most bytes of a PDU put in a proxy PDU.
pub const PROXY_PAYLOAD_MAX: usize = 384;

/// The error that refusing to read `data` as a proxy PDU gives.
pub open spec fn proxy_parse_error(data: Seq<u8>) -> ParseError {
    if data.len() < 1 {
        ParseError::InvalidLength
    } else if MessageType::spec_parse(data[0] % 64) is Err {
        ParseError::InvalidValue
    } else {
        ParseError::InsufficientBuffer
    }
}

/// Whether the PDU that `data` carries, if it is one that is read, stays
/// within its bytes: a network PDU of at least seven bytes, a provisioning
/// PDU long enough for its fields.
pub open spec fn receive_defined(data: Seq<u8>) -> bool {
    ProxyPDU::spec_parse_ok(data) && SAR::spec_parse(data[0] / 64).unwrap() == SAR::Complete ==> {
        &&& MessageType::spec_parse(data[0] % 64).unwrap() == MessageType::NetworkPDU ==> data.len() >= 8
        &&& MessageType::spec_parse(data[0] % 64).unwrap() == MessageType::ProvisioningPDU
            ==> ProvisioningPDU::parse_defined(data.skip(1))
    }
}

/// Whether `r` is what receiving the proxy PDU `data` gives: a complete
/// proxy PDU carrying a network or provisioning PDU gives that PDU, read
/// from its data; any other proxy PDU is skipped (`Ok(None)`).
pub open spec fn proxy_received(data: Seq<u8>, r: Result<Option<PDU>, BearerError>) -> bool {
    if !ProxyPDU::spec_parse_ok(data) {
        r matches Err(e) && e == BearerError::ParseError(proxy_parse_error(data))
    } else {
        let sar = SAR::spec_parse(data[0] / 64).unwrap();
        let t = MessageType::spec_parse(data[0] % 64).unwrap();
        let body = data.skip(1);
        if sar != SAR::Complete || t == MessageType::MeshBeacon || t == MessageType::ProxyConfiguration {
            r matches Ok(None)
        } else if t == MessageType::NetworkPDU {
            match ObfuscatedAndEncryptedNetworkPDU::spec_parse(body) {
                Ok(v) => r matches Ok(Some(PDU::Network(p))) && p.fields() == v,
                Err(e) => r matches Err(f) && f == BearerError::ParseError(e),
            }
        } else {
            match ProvisioningPDU::spec_parse(body) {
                Ok(v) => r matches Ok(Some(PDU::Provisioning(p))) && p@ == v,
                Err(e) => r matches Err(f) && f == BearerError::ParseError(e),
            }
        }
    }
}

/// Reads one proxy PDU received on the GATT bearer: the network or
/// provisioning PDU it carries, or nothing when it is to be skipped and the
/// next one read.
pub fn receive_proxy_pdu(data: &[u8]) -> (r: Result<Option<PDU>, BearerError>)
    requires
        receive_defined(data@),
    ensures
        proxy_received(data@, r),
{
    let proxy_pdu = match ProxyPDU::parse(data) {
        Ok(p) => p,
        Err(e) => return Err(BearerError::ParseError(e)),
    };
    if let SAR::Complete = proxy_pdu.sar {
        match proxy_pdu.message_type {
            MessageType::NetworkPDU => match ObfuscatedAndEncryptedNetworkPDU::parse(proxy_pdu.data.as_slice()) {
                Ok(pdu) => Ok(Some(PDU::Network(pdu))),
                Err(e) => Err(BearerError::ParseError(e)),
            },
            MessageType::MeshBeacon => Ok(None),
            MessageType::ProxyConfiguration => Ok(None),
            MessageType::ProvisioningPDU => match ProvisioningPDU::parse(proxy_pdu.data.as_slice()) {
                Ok(pdu) => Ok(Some(PDU::Provisioning(pdu))),
                Err(e) => Err(BearerError::ParseError(e)),
            },
        }
    } else {
        Ok(None)
    }
}

/// The bytes of the PDU that a proxy PDU carries.
pub open spec fn payload_bytes(pdu: &PDU) -> Seq<u8> {
    match pdu {
        PDU::Provisioning(p) => p.spec_bytes(),
        PDU::Network(p) => ObfuscatedAndEncryptedNetworkPDU::spec_bytes(p.fields()),
    }
}

/// The message type of the proxy PDU that carries `pdu`.
pub open spec fn payload_type(pdu: &PDU) -> MessageType {
    match pdu {
        PDU::Provisioning(_) => MessageType::ProvisioningPDU,
        PDU::Network(_) => MessageType::NetworkPDU,
    }
}

/// The bytes to transmit on a GATT bearer of `mtu` bytes for `pdu`: one
/// complete proxy PDU carrying it. A PDU over 384 bytes is refused as too
/// large for the node; one over the 66 bytes a proxy PDU holds as a parse
/// error; a proxy PDU over the MTU as too large for the bearer.
pub fn proxy_pdu_bytes(pdu: &PDU, mtu: usize) -> (r: Result<Vec<u8>, BearerError>)
    requires
        pdu matches PDU::Provisioning(p) ==> p.emittable(),
    ensures
        payload_bytes(pdu).len() > PROXY_PAYLOAD_MAX ==> r == Err::<Vec<u8>, BearerError>(
            BearerError::InsufficientResources,
        ),
        payload_bytes(pdu).len() <= PROXY_PAYLOAD_MAX && payload_bytes(pdu).len() > PROXY_DATA_MAX ==> r == Err::<
            Vec<u8>,
            BearerError,
        >(BearerError::ParseError(ParseError::InsufficientBuffer)),
        payload_bytes(pdu).len() <= PROXY_DATA_MAX && 1 + payload_bytes(pdu).len() > mtu ==> r == Err::<
            Vec<u8>,
            BearerError,
        >(BearerError::InsufficientResources),
        payload_bytes(pdu).len() <= PROXY_DATA_MAX && 1 + payload_bytes(pdu).len() <= mtu ==> (r matches Ok(v) && v@
            == ProxyPDU::spec_bytes(SAR::Complete, payload_type(pdu), payload_bytes(pdu))),
{
    let mut all_proxy_data = ByteBuf::new(PROXY_PAYLOAD_MAX);
    let emitted = match pdu {
        PDU::Provisioning(p) => p.emit(&mut all_proxy_data),
        PDU::Network(p) => p.emit(&mut all_proxy_data),
    };
    if emitted.is_err() {
        return Err(BearerError::InsufficientResources);
    }
    if all_proxy_data.len() > PROXY_DATA_MAX {
        return Err(BearerError::ParseError(ParseError::InsufficientBuffer));
    }
    let message_type = match pdu {
        PDU::Provisioning(_) => MessageType::ProvisioningPDU,
        PDU::Network(_) => MessageType::NetworkPDU,
    };
    let proxy_pdu = ProxyPDU {
        sar: SAR::Complete,
        message_type,
        data: vstd::slice::slice_to_vec(all_proxy_data.as_slice()),
    };
    let mut bytes = ByteBuf::new(mtu);
    if proxy_pdu.emit(&mut bytes).is_err() {
        return Err(BearerError::InsufficientResources);
    }
    Ok(vstd::slice::slice_to_vec(bytes.as_slice()))
}

/// The advertising data of an unprovisioned device beacon: flags, the mesh
/// provisioning service, and its service data of the device UUID and OOB
/// information.
pub open spec fn unprovisioned_beacon_bytes(uuid: Seq<u8>) -> Seq<u8> {
    seq![0x02u8, 0x01, 0x06, 0x03, 0x03, 0x27, 0x18, 0x15, 0x16, 0x27, 0x18] + uuid + seq![0x00u8, 0x00]
}

/// The advertising data of a provisioned node: flags, the mesh proxy
/// service, and its service data of the network identifier.
pub open spec fn provisioned_beacon_bytes(network_id: Seq<u8>) -> Seq<u8> {
    seq![0x02u8, 0x01, 0x06, 0x03, 0x03, 0x28, 0x18, 0x0C, 0x16, 0x28, 0x18, 0x00] + network_id
}

/// The advertising data to beacon on the GATT bearer, if any: nothing for
/// an unprovisioned device whose UUID is not known yet, nor for a secure
/// network beacon.
pub fn beacon_data(beacon: &Beacon, uuid: Option<Uuid>) -> (r: Option<Vec<u8>>)
    ensures
        match beacon {
            Beacon::Unprovisioned => match uuid {
                Some(u) => r matches Some(v) && v@ == unprovisioned_beacon_bytes(u.0@),
                None => r is None,
            },
            Beacon::Provisioned(id) => r matches Some(v) && v@ == provisioned_beacon_bytes(id.0@),
            Beacon::Secure => r is None,
        },
{
    match beacon {
        Beacon::Unprovisioned => match uuid {
            Some(u) => {
                let mut adv_data: Vec<u8> = vec![0x02, 0x01, 0x06, 0x03, 0x03, 0x27, 0x18, 0x15, 0x16, 0x27, 0x18];
                let mut id = vstd::slice::slice_to_vec(&u.0);
                adv_data.append(&mut id);
                adv_data.push(0x00);
                adv_data.push(0x00);
                assert(adv_data@ =~= unprovisioned_beacon_bytes(u.0@));
                Some(adv_data)
            },
            None => None,
        },
        Beacon::Provisioned(network_id) => {
            let mut adv_data: Vec<u8> = vec![0x02, 0x01, 0x06, 0x03, 0x03, 0x28, 0x18, 0x0C, 0x16, 0x28, 0x18, 0x00];
            let mut id = vstd::slice::slice_to_vec(&network_id.0);
            adv_data.append(&mut id);
            assert(adv_data@ =~= provisioned_beacon_bytes(network_id.0@));
            Some(adv_data)
        },
        Beacon::Secure => None,
    }
}


/// A PDU sent over the GATT bearer in one complete proxy PDU is received
/// back as that PDU: a network PDU with the same fields, when they fit their
/// widths and its IV index bit is the lowest bit of its NID (the reader takes
/// it from there); a provisioning PDU that a device sends, with capabilities
/// that the reader recognises.
pub proof fn lemma_gatt_roundtrip(pdu: PDU, r: Result<Option<PDU>, BearerError>)
    requires
        payload_bytes(&pdu).len() <= PROXY_DATA_MAX,
        pdu matches PDU::Network(p) ==> {
            &&& p.fields().ivi == p.fields().nid % 2
            &&& p.fields().nid < 128
            &&& p.fields().encrypted_and_mic.len() <= ENCRYPTED_AND_MIC_MAX
        },
        pdu matches PDU::Provisioning(p) ==> {
            &&& p.emittable()
            &&& (p matches ProvisioningPDU::Capabilities(c) ==> c@.recognised())
        },
        proxy_received(ProxyPDU::spec_bytes(SAR::Complete, payload_type(&pdu), payload_bytes(&pdu)), r),
    ensures
        receive_defined(ProxyPDU::spec_bytes(SAR::Complete, payload_type(&pdu), payload_bytes(&pdu))),
        pdu matches PDU::Network(p) ==> (r matches Ok(Some(PDU::Network(q))) && q.fields() == p.fields()),
        pdu matches PDU::Provisioning(p) ==> (r matches Ok(Some(PDU::Provisioning(q))) && q@ == p@),
{
    let data = payload_bytes(&pdu);
    let bytes = ProxyPDU::spec_bytes(SAR::Complete, payload_type(&pdu), data);
    lemma_proxy_pdu_roundtrip(SAR::Complete, payload_type(&pdu), data);
    match pdu {
        PDU::Network(p) => {
            lemma_network_roundtrip(p.fields());
            assert(bytes.len() >= 8);
        },
        PDU::Provisioning(p) => {
            lemma_provisioning_pdu_roundtrip(p);
        },
    }
}

} // verus!
