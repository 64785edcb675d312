//! The provisioning bearer of an unprovisioned device: the link a
//! provisioner opens over the advertising bearer, the acknowledgement of
//! inbound transactions and the retransmission of outbound ones. Each step
//! hands back the advertising PDUs to transmit.
use vstd::prelude::*;
use crate::device::Uuid;
use crate::driver::DeviceError;
use crate::driver::pipeline::segmentation::{num_chunks_of, segment_pdu_of, OutboundSegments, Segmentation};
use crate::generic_provisioning::{
    GenericProvisioningPDU, GenericProvisioningPDUView, ProvisioningBearerControl, ProvisioningBearerControlView, Reason,
};
use crate::pdu::bearer::{AdvertisingPDU, AdvertisingPDUView};
use crate::provisioning::ProvisioningPDU;

verus! {

/// What the bearer hands up: a provisioning PDU, or the close of the link.
pub enum BearerMessage {
    ProvisioningPDU(ProvisioningPDU),
    Close(Reason),
}

/// An outbound provisioning PDU being sent on a link, kept until it is
/// acknowledged.
pub struct OutboundPDU {
    link_id: u32,
    transaction_number: u8,
    segments: OutboundSegments,
}

/// What an outbound PDU holds.
pub struct OutboundView {
    pub link_id: u32,
    pub transaction_number: u8,
    pub bytes: Seq<u8>,
    pub fcs: u8,
}

/// The advertising PDUs that send an outbound PDU.
pub open spec fn outbound_pdus(o: OutboundView) -> Seq<AdvertisingPDUView> {
    Seq::new(
        num_chunks_of(o.bytes.len()),
        |i: int| AdvertisingPDUView { link_id: o.link_id, transaction_number: o.transaction_number, pdu: segment_pdu_of(o.bytes, o.fcs, i) },
    )
}

impl OutboundPDU {
    /// What this outbound PDU holds.
    pub closed spec fn spec_view(&self) -> OutboundView {
        OutboundView {
            link_id: self.link_id,
            transaction_number: self.transaction_number,
            bytes: self.segments.bytes(),
            fcs: self.segments.spec_fcs(),
        }
    }

    /// The advertising PDUs that send this PDU.
    pub fn iter(&self) -> (v: Vec<AdvertisingPDU>)
        ensures
            v@.map_values(|p: AdvertisingPDU| p@) == outbound_pdus(self.spec_view()),
    {
        let mut inner = self.segments.iter();
        let n = inner.len();
        let mut out: Vec<AdvertisingPDU> = Vec::new();
        let ghost all = inner@;
        while inner.len() > 0
            invariant
                n == all.len(),
                all.len() == num_chunks_of(self.segments.bytes().len()),
                forall|i: int| 0 <= i < all.len() ==> (#[trigger] all[i])@ == segment_pdu_of(self.segments.bytes(), self.segments.spec_fcs(), i),
                inner@ == all.skip(out@.len() as int),
                out@.len() <= n,
                forall|i: int| 0 <= i < out@.len() ==> (#[trigger] out@[i])@ == outbound_pdus(self.spec_view())[i],
            decreases inner@.len(),
        {
            let pdu = inner.remove(0);
            assert(pdu@ == all[out@.len() as int]@);
            out.push(AdvertisingPDU { link_id: self.link_id, transaction_number: self.transaction_number, pdu });
        }
        assert(out@.map_values(|p: AdvertisingPDU| p@) =~= outbound_pdus(self.spec_view()));
        out
    }
}

/// The state of the bearer.
pub struct BearerView {
    pub segmentation: Option<Seq<Option<Seq<u8>>>>,
    pub link_id: Option<u32>,
    pub inbound_transaction_number: Option<u8>,
    pub acked_inbound_transaction_number: Option<u8>,
    pub outbound: Option<OutboundView>,
    pub outbound_transaction_number: u8,
}

/// The provisioning bearer.
pub struct ProvisioningBearer {
    segmentation: Segmentation,
    link_id: Option<u32>,
    inbound_transaction_number: Option<u8>,
    acked_inbound_transaction_number: Option<u8>,
    outbound_pdu: Option<OutboundPDU>,
    outbound_transaction_number: u8,
}

/// The acknowledgement of opening link `link_id`.
pub open spec fn link_ack(link_id: u32) -> AdvertisingPDUView {
    AdvertisingPDUView {
        link_id,
        transaction_number: 0,
        pdu: GenericProvisioningPDUView::ProvisioningBearerControl(ProvisioningBearerControlView::LinkAck),
    }
}

/// The acknowledgement of transaction `tn` on link `link_id`.
pub open spec fn transaction_ack(link_id: u32, tn: u8) -> AdvertisingPDUView {
    AdvertisingPDUView { link_id, transaction_number: tn, pdu: GenericProvisioningPDUView::TransactionAck }
}

/// The advertising PDUs that retransmit the outbound PDU, if any.
pub open spec fn retransmission(o: Option<OutboundView>) -> Seq<AdvertisingPDUView> {
    match o {
        Some(o) => outbound_pdus(o),
        None => Seq::empty(),
    }
}

impl ProvisioningBearer {
    /// The state of this bearer.
    pub closed spec fn spec_view(&self) -> BearerView {
        BearerView {
            segmentation: self.segmentation@,
            link_id: self.link_id,
            inbound_transaction_number: self.inbound_transaction_number,
            acked_inbound_transaction_number: self.acked_inbound_transaction_number,
            outbound: match &self.outbound_pdu {
                Some(o) => Some(o.spec_view()),
                None => None,
            },
            outbound_transaction_number: self.outbound_transaction_number,
        }
    }

    /// Whether a transaction `tn` is taken in: the one being collected, or,
    /// when none is, one after the last acknowledged.
    pub open spec fn takes(s: BearerView, tn: u8) -> bool {
        match (s.inbound_transaction_number, s.acked_inbound_transaction_number) {
            (Some(inbound), _) => inbound == tn,
            (None, Some(acked)) => acked < tn,
            _ => false,
        }
    }

    /// Whether the transaction collected in `s` may be acknowledged: it is
    /// after the last one acknowledged.
    pub open spec fn ackable(s: BearerView) -> bool {
        match (s.inbound_transaction_number, s.acked_inbound_transaction_number) {
            (Some(current), Some(last)) => current > last,
            (Some(_), None) => true,
            _ => false,
        }
    }

    /// The state of a new bearer.
    pub open spec fn initial_view() -> BearerView {
        BearerView {
            segmentation: None,
            link_id: None,
            inbound_transaction_number: None,
            acked_inbound_transaction_number: None,
            outbound: None,
            outbound_transaction_number: 0x80,
        }
    }

    /// `s` with the link and both transactions forgotten.
    pub open spec fn reset_view(s: BearerView) -> BearerView {
        BearerView {
            link_id: None,
            inbound_transaction_number: None,
            acked_inbound_transaction_number: None,
            outbound: None,
            outbound_transaction_number: 0x80,
            ..s
        }
    }

    /// `s` collecting transaction `tn`.
    pub open spec fn collecting(s: BearerView, tn: u8) -> BearerView {
        BearerView { inbound_transaction_number: Some(tn), ..s }
    }

    /// Whether acknowledging the collected transaction of `s` leaves `t` and
    /// gives `r`.
    pub open spec fn acked(s: BearerView, t: BearerView, r: Result<AdvertisingPDU, DeviceError>) -> bool {
        if !Self::ackable(s) {
            r == Err::<AdvertisingPDU, DeviceError>(DeviceError::InvalidTransactionNumber) && t == s
        } else if s.link_id is None {
            r == Err::<AdvertisingPDU, DeviceError>(DeviceError::InvalidLink) && t == s
        } else {
            &&& r matches Ok(p)
            &&& p@ == transaction_ack(s.link_id->0, s.inbound_transaction_number->0)
            &&& t == BearerView {
                acked_inbound_transaction_number: s.inbound_transaction_number,
                inbound_transaction_number: None,
                ..s
            }
        }
    }

    /// Whether sending a provisioning PDU of `bytes` in state `s` leaves
    /// `t` and gives `r`: the PDU must fit 128 bytes; the transaction number
    /// is used up even when no link is open.
    pub open spec fn outbound_step(s: BearerView, bytes: Seq<u8>, t: BearerView, r: Result<Vec<AdvertisingPDU>, DeviceError>) -> bool {
        if bytes.len() > crate::driver::pipeline::segmentation::OUTBOUND_PDU_MAX {
            r == Err::<Vec<AdvertisingPDU>, DeviceError>(DeviceError::InsufficientBuffer) && t == s
        } else if s.link_id is None {
            &&& r == Err::<Vec<AdvertisingPDU>, DeviceError>(DeviceError::InvalidLink)
            &&& t == BearerView { outbound_transaction_number: (s.outbound_transaction_number + 1) as u8, ..s }
        } else {
            let o = OutboundView {
                link_id: s.link_id->0,
                transaction_number: s.outbound_transaction_number,
                bytes,
                fcs: crate::driver::pipeline::segmentation::fcs_of(bytes),
            };
            &&& r matches Ok(v)
            &&& v@.map_values(|p: AdvertisingPDU| p@) == outbound_pdus(o)
            &&& t == BearerView {
                outbound: Some(o),
                outbound_transaction_number: (s.outbound_transaction_number + 1) as u8,
                ..s
            }
        }
    }

    /// Whether receiving `pdu` in state `s` leaves `t`, gives `r` and
    /// transmits `sent`.
    pub open spec fn inbound_step(
        s: BearerView,
        uuid: Seq<u8>,
        pdu: AdvertisingPDUView,
        t: BearerView,
        r: Result<Option<BearerMessage>, DeviceError>,
        sent: Seq<AdvertisingPDUView>,
    ) -> bool {
        match pdu.pdu {
            GenericProvisioningPDUView::ProvisioningBearerControl(ProvisioningBearerControlView::LinkOpen(u)) => if u
                != uuid {
                t == s && (r matches Ok(None)) && sent == Seq::<AdvertisingPDUView>::empty()
            } else if s.link_id is None {
                &&& t == BearerView {
                    inbound_transaction_number: Some(pdu.transaction_number),
                    link_id: Some(pdu.link_id),
                    ..s
                }
                &&& r matches Ok(None)
                &&& sent == seq![link_ack(pdu.link_id)]
            } else if s.link_id == Some(pdu.link_id) {
                t == s && (r matches Ok(None)) && sent == seq![link_ack(pdu.link_id)]
            } else {
                t == s && r == Err::<Option<BearerMessage>, DeviceError>(DeviceError::InvalidLink) && sent
                    == Seq::<AdvertisingPDUView>::empty()
            },
            GenericProvisioningPDUView::ProvisioningBearerControl(ProvisioningBearerControlView::LinkAck) => t == s
                && (r matches Ok(None)) && sent == Seq::<AdvertisingPDUView>::empty(),
            GenericProvisioningPDUView::ProvisioningBearerControl(ProvisioningBearerControlView::LinkClose(reason)) => {
                &&& t == BearerView { link_id: None, inbound_transaction_number: None, ..s }
                &&& r matches Ok(Some(BearerMessage::Close(x))) && x == reason
                &&& sent == Seq::<AdvertisingPDUView>::empty()
            },
            GenericProvisioningPDUView::TransactionAck => {
                &&& t == (if s.outbound matches Some(o) && o.transaction_number == pdu.transaction_number {
                    BearerView { outbound: None, ..s }
                } else {
                    s
                })
                &&& r matches Ok(None)
                &&& sent == Seq::<AdvertisingPDUView>::empty()
            },
            _ => if Self::takes(s, pdu.transaction_number) {
                let mid = BearerView { inbound_transaction_number: Some(pdu.transaction_number), ..s };
                exists|seg: Result<Option<ProvisioningPDU>, DeviceError>| {
                    &&& #[trigger] Segmentation::inbound_step(s.segmentation, pdu.pdu, t.segmentation, seg)
                    &&& match seg {
                        Ok(Some(p)) => if !Self::ackable(mid) {
                            t == BearerView { segmentation: t.segmentation, ..mid } && r
                                == Err::<Option<BearerMessage>, DeviceError>(DeviceError::InvalidTransactionNumber)
                                && sent == Seq::<AdvertisingPDUView>::empty()
                        } else if s.link_id is None {
                            t == BearerView { segmentation: t.segmentation, ..mid } && r
                                == Err::<Option<BearerMessage>, DeviceError>(DeviceError::InvalidLink) && sent
                                == Seq::<AdvertisingPDUView>::empty()
                        } else {
                            &&& t == BearerView {
                                segmentation: t.segmentation,
                                acked_inbound_transaction_number: Some(pdu.transaction_number),
                                inbound_transaction_number: None,
                                ..s
                            }
                            &&& r matches Ok(Some(BearerMessage::ProvisioningPDU(q))) && q@ == p@
                            &&& sent == seq![transaction_ack(s.link_id->0, pdu.transaction_number)]
                        },
                        _ => t == BearerView { segmentation: t.segmentation, ..mid } && (r matches Ok(None)) && sent
                            == Seq::<AdvertisingPDUView>::empty(),
                    }
                }
            } else {
                let acks_again = s.acked_inbound_transaction_number matches Some(acked) && acked
                    >= pdu.transaction_number;
                if acks_again && s.link_id is None {
                    t == s && r == Err::<Option<BearerMessage>, DeviceError>(DeviceError::InvalidLink) && sent
                        == Seq::<AdvertisingPDUView>::empty()
                } else {
                    &&& t == s
                    &&& r matches Ok(None)
                    &&& sent == (if acks_again {
                        seq![transaction_ack(s.link_id->0, pdu.transaction_number)]
                    } else {
                        Seq::empty()
                    }) + retransmission(s.outbound)
                }
            },
        }
    }

    /// The advertising PDUs that retransmit the unacknowledged outbound PDU.
    pub fn try_retransmit(&self) -> (v: Vec<AdvertisingPDU>)
        ensures
            v@.map_values(|p: AdvertisingPDU| p@) == retransmission(self.spec_view().outbound),
    {
        match &self.outbound_pdu {
            Some(o) => o.iter(),
            None => {
                let v: Vec<AdvertisingPDU> = Vec::new();
                assert(v@.map_values(|p: AdvertisingPDU| p@) =~= Seq::<AdvertisingPDUView>::empty());
                v
            },
        }
    }

    /// The number that the next outbound transaction takes.
    pub fn outbound_transaction_number(&self) -> (n: u8)
        ensures
            n == self.spec_view().outbound_transaction_number,
    {
        self.outbound_transaction_number
    }

    /// Forgets the link and both transactions.
    pub fn reset(&mut self)
        ensures
            final(self).spec_view() == Self::reset_view(old(self).spec_view()),
    {
        self.link_id = None;
        self.inbound_transaction_number = None;
        self.acked_inbound_transaction_number = None;
        self.outbound_pdu = None;
        self.outbound_transaction_number = 0x80;
    }

    /// Receives an advertising PDU addressed to the device with `uuid`:
    /// what it gives, and the PDUs to transmit in answer.
    pub fn process_inbound(&mut self, uuid: &Uuid, pdu: AdvertisingPDU) -> (out: (
        Result<Option<BearerMessage>, DeviceError>,
        Vec<AdvertisingPDU>,
    ))
        ensures
            Self::inbound_step(
                old(self).spec_view(),
                uuid.0@,
                pdu@,
                final(self).spec_view(),
                out.0,
                out.1@.map_values(|p: AdvertisingPDU| p@),
            ),
    {
        let mut transmit: Vec<AdvertisingPDU> = Vec::new();
        let ghost before = Seq::<AdvertisingPDUView>::empty();
        let ghost pdu_view = pdu@;
        let AdvertisingPDU { link_id, transaction_number, pdu: inner } = pdu;
        match inner {
            GenericProvisioningPDU::ProvisioningBearerControl(pbc) => match pbc {
                ProvisioningBearerControl::LinkOpen(u) => {
                    if !uuid.same(&u) {
                        assert(transmit@.map_values(|p: AdvertisingPDU| p@) =~= before + Seq::<AdvertisingPDUView>::empty());
                        return (Ok(None), transmit);
                    }
                    let ack = AdvertisingPDU {
                        link_id,
                        transaction_number: 0,
                        pdu: GenericProvisioningPDU::ProvisioningBearerControl(ProvisioningBearerControl::LinkAck),
                    };
                    match self.link_id {
                        None => {
                            self.inbound_transaction_number = Some(transaction_number);
                            self.link_id = Some(link_id);
                            transmit.push(ack);
                            assert(transmit@.map_values(|p: AdvertisingPDU| p@) =~= before + seq![link_ack(link_id)]);
                            (Ok(None), transmit)
                        },
                        Some(current) => {
                            if current == link_id {
                                transmit.push(ack);
                                assert(transmit@.map_values(|p: AdvertisingPDU| p@) =~= before + seq![link_ack(link_id)]);
                                (Ok(None), transmit)
                            } else {
                                assert(transmit@.map_values(|p: AdvertisingPDU| p@) =~= before + Seq::<AdvertisingPDUView>::empty());
                                (Err(DeviceError::InvalidLink), transmit)
                            }
                        },
                    }
                },
                ProvisioningBearerControl::LinkAck => {
                    assert(transmit@.map_values(|p: AdvertisingPDU| p@) =~= before + Seq::<AdvertisingPDUView>::empty());
                    (Ok(None), transmit)
                },
                ProvisioningBearerControl::LinkClose(reason) => {
                    self.link_id = None;
                    self.inbound_transaction_number = None;
                    assert(transmit@.map_values(|p: AdvertisingPDU| p@) =~= before + Seq::<AdvertisingPDUView>::empty());
                    (Ok(Some(BearerMessage::Close(reason))), transmit)
                },
            },
            GenericProvisioningPDU::TransactionAck => {
                let matches_outbound = match &self.outbound_pdu {
                    Some(o) => o.transaction_number == transaction_number,
                    None => false,
                };
                if matches_outbound {
                    self.outbound_pdu = None;
                }
                assert(transmit@.map_values(|p: AdvertisingPDU| p@) =~= before + Seq::<AdvertisingPDUView>::empty());
                (Ok(None), transmit)
            },
            _ => {
                let ghost s0 = self.spec_view();
                if self.should_process_transaction(transaction_number) {
                    let result = self.segmentation.process_inbound(inner);
                    let ghost seg = result;
                    match result {
                        Ok(Some(p)) => {
                            let ack = self.ack_transaction();
                            match ack {
                                Ok(ack_pdu) => {
                                    transmit.push(ack_pdu);
                                    assert(transmit@.map_values(|p: AdvertisingPDU| p@) =~= before + seq![
                                        transaction_ack(s0.link_id->0, transaction_number),
                                    ]);
                                    assert(Segmentation::inbound_step(s0.segmentation, pdu_view.pdu, self.spec_view().segmentation, seg));
                                    (Ok(Some(BearerMessage::ProvisioningPDU(p))), transmit)
                                },
                                Err(e) => {
                                    assert(transmit@.map_values(|p: AdvertisingPDU| p@) =~= before + Seq::<AdvertisingPDUView>::empty());
                                    assert(Segmentation::inbound_step(s0.segmentation, pdu_view.pdu, self.spec_view().segmentation, seg));
                                    (Err(e), transmit)
                                },
                            }
                        },
                        _ => {
                            assert(transmit@.map_values(|p: AdvertisingPDU| p@) =~= before + Seq::<AdvertisingPDUView>::empty());
                            assert(Segmentation::inbound_step(s0.segmentation, pdu_view.pdu, self.spec_view().segmentation, seg));
                            (Ok(None), transmit)
                        },
                    }
                } else {
                    let acks_again = match self.acked_inbound_transaction_number {
                        Some(acked) => acked >= transaction_number,
                        None => false,
                    };
                    let mut sent: Vec<AdvertisingPDU> = Vec::new();
                    if acks_again {
                        let link = match self.link_id {
                            Some(l) => l,
                            None => {
                                assert(transmit@.map_values(|p: AdvertisingPDU| p@) =~= before + Seq::<AdvertisingPDUView>::empty());
                                return (Err(DeviceError::InvalidLink), transmit);
                            },
                        };
                        sent.push(AdvertisingPDU { link_id: link, transaction_number, pdu: GenericProvisioningPDU::TransactionAck });
                    }
                    let ghost first = sent@.map_values(|p: AdvertisingPDU| p@);
                    assert(first =~= (if acks_again {
                        seq![transaction_ack(s0.link_id->0, transaction_number)]
                    } else {
                        Seq::<AdvertisingPDUView>::empty()
                    }));
                    let mut again = self.try_retransmit();
                    let ghost second = again@.map_values(|p: AdvertisingPDU| p@);
                    sent.append(&mut again);
                    assert(sent@.map_values(|p: AdvertisingPDU| p@) =~= first + second);
                    let ghost all = sent@.map_values(|p: AdvertisingPDU| p@);
                    transmit.append(&mut sent);
                    assert(transmit@.map_values(|p: AdvertisingPDU| p@) =~= before + all);
                    (Ok(None), transmit)
                }
            },
        }
    }

    /// Takes transaction `tn` in when it is the one being collected or,
    /// when none is, one after the last acknowledged.
    fn should_process_transaction(&mut self, transaction_number: u8) -> (b: bool)
        ensures
            b == Self::takes(old(self).spec_view(), transaction_number),
            b ==> final(self).spec_view() == Self::collecting(old(self).spec_view(), transaction_number),
            !b ==> final(self).spec_view() == old(self).spec_view(),
    {
        match (self.inbound_transaction_number, self.acked_inbound_transaction_number) {
            (Some(inbound), _) => inbound == transaction_number,
            (None, Some(acked)) => {
                if acked < transaction_number {
                    self.inbound_transaction_number = Some(transaction_number);
                    true
                } else {
                    false
                }
            },
            _ => false,
        }
    }

    /// Acknowledges the transaction being collected: the acknowledgement to
    /// transmit; the transaction becomes the last acknowledged.
    fn ack_transaction(&mut self) -> (r: Result<AdvertisingPDU, DeviceError>)
        ensures
            Self::acked(old(self).spec_view(), final(self).spec_view(), r),
    {
        let current = match (self.inbound_transaction_number, self.acked_inbound_transaction_number) {
            (Some(current), Some(last)) => {
                if current > last {
                    current
                } else {
                    return Err(DeviceError::InvalidTransactionNumber);
                }
            },
            (Some(current), None) => current,
            _ => return Err(DeviceError::InvalidTransactionNumber),
        };
        let link_id = match self.link_id {
            Some(l) => l,
            None => return Err(DeviceError::InvalidLink),
        };
        self.acked_inbound_transaction_number = Some(current);
        self.inbound_transaction_number = None;
        Ok(AdvertisingPDU { link_id, transaction_number: current, pdu: GenericProvisioningPDU::TransactionAck })
    }

    /// Sends a provisioning PDU on the open link as the next outbound
    /// transaction, kept for retransmission until acknowledged: the
    /// advertising PDUs to transmit.
    pub fn process_outbound(&mut self, pdu: ProvisioningPDU) -> (r: Result<Vec<AdvertisingPDU>, DeviceError>)
        requires
            pdu.emittable(),
            old(self).spec_view().outbound_transaction_number < 255,
        ensures
            Self::outbound_step(old(self).spec_view(), pdu.spec_bytes(), final(self).spec_view(), r),
    {
        let segments = self.segmentation.process_outbound(pdu)?;
        let transaction_number = self.outbound_transaction_number;
        self.outbound_transaction_number = self.outbound_transaction_number + 1;
        let link_id = match self.link_id {
            Some(l) => l,
            None => return Err(DeviceError::InvalidLink),
        };
        let outbound = OutboundPDU { link_id, transaction_number, segments };
        let v = outbound.iter();
        self.outbound_pdu = Some(outbound);
        Ok(v)
    }
}

impl Default for ProvisioningBearer {
    fn default() -> (b: Self)
        ensures
            b.spec_view() == ProvisioningBearer::initial_view(),
    {
        ProvisioningBearer {
            segmentation: Segmentation::default(),
            link_id: None,
            inbound_transaction_number: None,
            acked_inbound_transaction_number: None,
            outbound_pdu: None,
            outbound_transaction_number: 0x80,
        }
    }
}

/// A PDU sent on an open link is what the bearer retransmits, until the
/// provisioner acknowledges its transaction; once it has, nothing is
/// retransmitted.
pub proof fn lemma_ack_stops_retransmission(
    s: BearerView,
    bytes: Seq<u8>,
    t: BearerView,
    r: Result<Vec<AdvertisingPDU>, DeviceError>,
    uuid: Seq<u8>,
    ack: AdvertisingPDUView,
    u: BearerView,
    r2: Result<Option<BearerMessage>, DeviceError>,
    sent: Seq<AdvertisingPDUView>,
)
    requires
        ProvisioningBearer::outbound_step(s, bytes, t, r),
        r is Ok,
        ack.pdu == GenericProvisioningPDUView::TransactionAck,
        ack.transaction_number == s.outbound_transaction_number,
        ProvisioningBearer::inbound_step(t, uuid, ack, u, r2, sent),
    ensures
        r matches Ok(v) && retransmission(t.outbound) == v@.map_values(|p: AdvertisingPDU| p@),
        retransmission(u.outbound) == Seq::<AdvertisingPDUView>::empty(),
        sent == Seq::<AdvertisingPDUView>::empty(),
{
}


/// A Link Open for this device, on a link it has not opened yet or on the
/// link it has open, is answered by exactly one Link Ack on that link, with
/// transaction number zero, and leaves that link open; a provisioner whose
/// Link Ack was lost is acknowledged again.
pub proof fn lemma_link_open_is_acknowledged(
    s: BearerView,
    uuid: Seq<u8>,
    pdu: AdvertisingPDUView,
    t: BearerView,
    r: Result<Option<BearerMessage>, DeviceError>,
    sent: Seq<AdvertisingPDUView>,
)
    requires
        ProvisioningBearer::inbound_step(s, uuid, pdu, t, r, sent),
        pdu.pdu == GenericProvisioningPDUView::ProvisioningBearerControl(ProvisioningBearerControlView::LinkOpen(uuid)),
        s.link_id is None || s.link_id == Some(pdu.link_id),
    ensures
        r matches Ok(None),
        t.link_id == Some(pdu.link_id),
        sent.len() == 1,
        sent[0].link_id == pdu.link_id,
        sent[0].transaction_number == 0,
        sent[0].pdu == GenericProvisioningPDUView::ProvisioningBearerControl(ProvisioningBearerControlView::LinkAck),
{
}


/// A transaction read to its end on the open link is answered by exactly
/// one Transaction Ack on that link with the transaction's number, which is
/// then the last acknowledged.
pub proof fn lemma_transaction_is_acknowledged(
    s: BearerView,
    uuid: Seq<u8>,
    pdu: AdvertisingPDUView,
    t: BearerView,
    r: Result<Option<BearerMessage>, DeviceError>,
    sent: Seq<AdvertisingPDUView>,
)
    requires
        ProvisioningBearer::inbound_step(s, uuid, pdu, t, r, sent),
        r matches Ok(Some(BearerMessage::ProvisioningPDU(_))),
    ensures
        s.link_id is Some,
        sent.len() == 1,
        sent[0].link_id == s.link_id->0,
        sent[0].transaction_number == pdu.transaction_number,
        sent[0].pdu == GenericProvisioningPDUView::TransactionAck,
        t.acked_inbound_transaction_number == Some(pdu.transaction_number),
        t.link_id == s.link_id,
{
}

/// Every PDU that sending a provisioning PDU transmits goes on the open link
/// with the device's next transaction number, and the number after it is
/// used next; nothing is sent with no link open.
pub proof fn lemma_outbound_transaction_numbers(
    s: BearerView,
    bytes: Seq<u8>,
    t: BearerView,
    r: Result<Vec<AdvertisingPDU>, DeviceError>,
)
    requires
        ProvisioningBearer::outbound_step(s, bytes, t, r),
        bytes.len() <= crate::driver::pipeline::segmentation::OUTBOUND_PDU_MAX,
        s.outbound_transaction_number < 255,
    ensures
        t.outbound_transaction_number == s.outbound_transaction_number + 1,
        s.link_id is None ==> r is Err,
        r matches Ok(v) ==> v@.len() >= 1 && forall|i: int|
            0 <= i < v@.len() ==> (#[trigger] v@[i])@.link_id == s.link_id->0 && v@[i]@.transaction_number
                == s.outbound_transaction_number,
{
    if let Ok(v) = r {
        let o = OutboundView {
            link_id: s.link_id->0,
            transaction_number: s.outbound_transaction_number,
            bytes,
            fcs: crate::driver::pipeline::segmentation::fcs_of(bytes),
        };
        let m = v@.map_values(|p: AdvertisingPDU| p@);
        assert(m == outbound_pdus(o));
        assert forall|i: int| 0 <= i < v@.len() implies (#[trigger] v@[i])@.link_id == s.link_id->0 && v@[i]@.transaction_number
            == s.outbound_transaction_number by {
            assert(m[i] == v@[i]@);
            assert(m[i] == outbound_pdus(o)[i]);
        }
        assert(m.len() == v@.len());
    }
}

} // verus!
