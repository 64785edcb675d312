//! The advertising bearer: generic provisioning PDUs on a link.
use vstd::prelude::*;
use crate::generic_provisioning::{GenericProvisioningPDU, GenericProvisioningPDUView};

verus! {

/// A generic provisioning PDU on the advertising bearer, with its link and
/// transaction.
pub struct AdvertisingPDU {
    pub link_id: u32,
    pub transaction_number: u8,
    pub pdu: GenericProvisioningPDU,
}

/// What an advertising PDU holds.
pub struct AdvertisingPDUView {
    pub link_id: u32,
    pub transaction_number: u8,
    pub pdu: GenericProvisioningPDUView,
}

impl View for AdvertisingPDU {
    type V = AdvertisingPDUView;

    open spec fn view(&self) -> AdvertisingPDUView {
        AdvertisingPDUView { link_id: self.link_id, transaction_number: self.transaction_number, pdu: self.pdu@ }
    }
}

} // verus!
