//! Relaying: which authenticated network PDUs a node sends on, with one
//! hop less to live.
use vstd::prelude::*;
use crate::driver::DeviceError;
use crate::driver::pipeline::caches::{iv16, NetworkMessageCache};
use crate::pdu::network::CleartextNetworkPDU;

verus! {

/// The relay stage.
pub struct Relay {
    cache: NetworkMessageCache,
}

impl Default for Relay {
    fn default() -> (r: Self)
        ensures
            r.wf(),
    {
        Relay { cache: NetworkMessageCache::default() }
    }
}

/// Whether `copy` is `pdu` with one hop less to live.
pub open spec fn relayed_copy(pdu: &CleartextNetworkPDU, copy: &CleartextNetworkPDU) -> bool {
    &&& copy.network_key == pdu.network_key
    &&& copy.ivi == pdu.ivi
    &&& copy.nid == pdu.nid
    &&& copy.ttl == pdu.ttl - 1
    &&& copy.seq == pdu.seq
    &&& copy.src == pdu.src
    &&& copy.dst == pdu.dst
    &&& copy.transport_pdu@ == pdu.transport_pdu@
}

impl Relay {
    /// Whether the cache of relayed PDUs holds no more than its size.
    pub closed spec fn wf(&self) -> bool {
        self.cache.wf()
    }

    /// The PDUs already relayed.
    pub closed spec fn seen(&self) -> Seq<crate::driver::pipeline::caches::CacheEntry> {
        self.cache.entries()
    }

    /// Decides whether to relay `pdu`, given whether its source and its
    /// destination are this node's own unicast addresses: a PDU from this
    /// node, or to it, is not relayed; one with at least two hops to live
    /// is relayed, with one hop less, unless it was relayed before.
    pub fn process_inbound(&mut self, src_is_local: bool, dst_is_local: bool, iv_index: Option<u32>, pdu: &CleartextNetworkPDU) -> (r:
        Result<Option<CleartextNetworkPDU>, DeviceError>)
        requires
            old(self).wf(),
        ensures
            final(self).wf(),
            src_is_local || dst_is_local || pdu.ttl < 2 ==> (r matches Ok(None)) && final(self).seen() == old(self).seen(),
            !src_is_local && !dst_is_local && pdu.ttl >= 2 && iv_index is None ==> r == Err::<
                Option<CleartextNetworkPDU>,
                DeviceError,
            >(DeviceError::NotProvisioned) && final(self).seen() == old(self).seen(),
            !src_is_local && !dst_is_local && pdu.ttl >= 2 && iv_index is Some ==> exists|seen: bool|
                {
                    &&& #[trigger] NetworkMessageCache::seen_step(
                        old(self).seen(),
                        (pdu.seq, pdu.src.value(), iv16(iv_index->0)),
                        final(self).seen(),
                        seen,
                    )
                    &&& seen ==> (r matches Ok(None))
                    &&& !seen ==> (r matches Ok(Some(c)) && relayed_copy(pdu, &c))
                },
            r matches Ok(Some(c)) ==> c.ttl + 1 == pdu.ttl && c.seq == pdu.seq && c.src == pdu.src && c.dst == pdu.dst
                && c.network_key == pdu.network_key && c.transport_pdu@ == pdu.transport_pdu@,
            r matches Ok(Some(_)) ==> !src_is_local && !dst_is_local && pdu.ttl >= 2,
    {
        if src_is_local {
            return Ok(None);
        }
        if dst_is_local {
            return Ok(None);
        }
        if pdu.ttl >= 2 {
            let iv = match iv_index {
                Some(iv) => iv,
                None => return Err(DeviceError::NotProvisioned),
            };
            let ghost before = self.cache.entries();
            let seen = self.cache.has_seen(iv, pdu);
            assert(NetworkMessageCache::seen_step(before, (pdu.seq, pdu.src.value(), iv16(iv)), self.cache.entries(), seen));
            assert(NetworkMessageCache::seen_step(old(self).seen(), (pdu.seq, pdu.src.value(), iv16(iv_index->0)), self.seen(), seen));
            if !seen {
                Ok(
                    Some(
                        CleartextNetworkPDU {
                            network_key: pdu.network_key,
                            ivi: pdu.ivi,
                            nid: pdu.nid,
                            ttl: pdu.ttl - 1,
                            seq: pdu.seq,
                            src: pdu.src,
                            dst: pdu.dst,
                            transport_pdu: pdu.transport_pdu.duplicate(),
                        },
                    ),
                )
            } else {
                Ok(None)
            }
        } else {
            Ok(None)
        }
    }
}

} // verus!
