//! The network transmit queue: network PDUs are sent at once and then
//! repeated, unmodified, as configured. Times are milliseconds on the
//! node's clock, handed in by the caller.
use vstd::prelude::*;
use crate::address::UnicastAddress;
use crate::driver::pipeline::mesh::NetworkRetransmitDetails;
use crate::model::ModelIdentifier;
use crate::pdu::network::{ObfuscatedAndEncryptedNetworkPDU, ObfuscatedView};

verus! {

/// A model of an element: where a publication comes from.
#[derive(PartialEq, Eq, Structural, Clone, Copy, Debug)]
pub struct ModelKey(pub UnicastAddress, pub ModelIdentifier);

impl ModelKey {
    /// The key of model `model_id` on the element at `addr`.
    pub fn new(addr: UnicastAddress, model_id: ModelIdentifier) -> (k: Self)
        ensures
            k == ModelKey(addr, model_id),
    {
        ModelKey(addr, model_id)
    }

    /// The address of the element.
    pub fn unicast_address(&self) -> (a: UnicastAddress)
        ensures
            a == self.0,
    {
        self.0
    }

    /// The identifier of the model.
    pub fn model_identifier(&self) -> (m: ModelIdentifier)
        ensures
            m == self.1,
    {
        self.1
    }
}

/// The latest time the clock is taken to reach, so that adding an interval
/// never overflows.
pub const CLOCK_MAX: u64 = 0x7FFF_FFFF_FFFF_FFFF;
/// The longest interval between repeats.
pub const INTERVAL_MAX: u64 = 0xFFFF_FFFF;

/// A PDU waiting to be repeated.
pub struct Item {
    pdu: ObfuscatedAndEncryptedNetworkPDU,
    count: u8,
    interval: u64,
    last: Option<u64>,
}

/// What an item holds.
pub struct ItemView {
    pub pdu: ObfuscatedView,
    pub count: u8,
    pub interval: u64,
    pub last: Option<u64>,
}

/// Whether an item is due at `now`: never sent, or sent longer than its
/// interval ago.
pub open spec fn ready(i: ItemView, now: u64) -> bool {
    match i.last {
        Some(last) => now - last > i.interval,
        None => true,
    }
}

/// When an item is next due: its last send and its interval, or `now` when
/// never sent.
pub open spec fn item_deadline(i: ItemView, now: u64) -> int {
    match i.last {
        Some(last) => last + i.interval,
        None => now as int,
    }
}

/// Whether an item's times fit the clock at `now`.
pub open spec fn item_fits(i: ItemView, now: u64) -> bool {
    &&& i.interval <= INTERVAL_MAX
    &&& i.last matches Some(l) ==> l <= now
}

impl Item {
    /// What this item holds.
    pub closed spec fn spec_view(&self) -> ItemView {
        ItemView { pdu: self.pdu.fields(), count: self.count, interval: self.interval, last: self.last }
    }

    /// Whether this item is due at `now`.
    pub fn is_ready(&self, now: u64) -> (b: bool)
        requires
            item_fits(self.spec_view(), now),
        ensures
            b == ready(self.spec_view(), now),
    {
        match self.last {
            Some(last) => now - last > self.interval,
            None => true,
        }
    }

    /// When this item is next due.
    pub fn next_deadline(&self, now: u64) -> (d: u64)
        requires
            item_fits(self.spec_view(), now),
            now <= CLOCK_MAX,
        ensures
            d == item_deadline(self.spec_view(), now),
    {
        match self.last {
            Some(last) => last + self.interval,
            None => now,
        }
    }
}

/// The earliest deadline of the items at `now`, if any item is held.
pub open spec fn earliest(items: Seq<Option<ItemView>>, now: u64) -> Option<int>
    decreases items.len(),
{
    if items.len() == 0 {
        None
    } else {
        let rest = earliest(items.drop_last(), now);
        match items.last() {
            None => rest,
            Some(i) => match rest {
                Some(d) => if item_deadline(i, now) < d { Some(item_deadline(i, now)) } else { Some(d) },
                None => Some(item_deadline(i, now)),
            },
        }
    }
}

/// The item after it is sent at `now`: counted down and stamped, or
/// dropped when it was its last send.
pub open spec fn after_send(i: ItemView, now: u64) -> Option<ItemView> {
    if i.count > 1 {
        Some(ItemView { count: (i.count - 1) as u8, last: Some(now), ..i })
    } else {
        None
    }
}

/// The items after the never-sent ones are sent at `now`: they are counted
/// down and stamped, but one sent for the last time stays unstamped.
pub open spec fn after_first_sends(items: Seq<Option<ItemView>>, now: u64) -> Seq<Option<ItemView>> {
    items.map_values(|o: Option<ItemView>| match o {
        Some(i) => if i.last is None && i.count > 1 {
            Some(ItemView { count: (i.count - 1) as u8, last: Some(now), ..i })
        } else {
            Some(i)
        },
        None => None,
    })
}

/// The PDUs of the never-sent items, in order.
pub open spec fn first_sends(items: Seq<Option<ItemView>>) -> Seq<ObfuscatedView>
    decreases items.len(),
{
    if items.len() == 0 {
        Seq::empty()
    } else {
        first_sends(items.drop_last()) + match items.last() {
            Some(i) => if i.last is None { seq![i.pdu] } else { Seq::empty() },
            None => Seq::empty(),
        }
    }
}

/// The index of the first item due at `now`, or the number of items.
pub open spec fn first_ready(items: Seq<Option<ItemView>>, now: u64) -> int
    decreases items.len(),
{
    if items.len() == 0 {
        0
    } else if items[0] matches Some(i) && ready(i, now) {
        0
    } else {
        1 + first_ready(items.skip(1), now)
    }
}

/// The index of the first free slot, or the number of slots.
pub open spec fn first_free(items: Seq<Option<ItemView>>) -> int
    decreases items.len(),
{
    if items.len() == 0 {
        0
    } else if items[0] is None {
        0
    } else {
        1 + first_free(items.skip(1))
    }
}

/// What the slots hold.
pub open spec fn items_view(v: Seq<Option<Item>>) -> Seq<Option<ItemView>> {
    v.map_values(|o: Option<Item>| match o {
        Some(i) => Some(i.spec_view()),
        None => None,
    })
}

/// What a list of network PDUs holds.
pub open spec fn pdus_view(v: Seq<ObfuscatedAndEncryptedNetworkPDU>) -> Seq<ObfuscatedView> {
    v.map_values(|p: ObfuscatedAndEncryptedNetworkPDU| p.fields())
}

/// The network transmit queue, with three slots.
pub struct Transmit {
    items: Vec<Option<Item>>,
}

/// What a transmit step hands back: the PDUs to send now, in order, and
/// the next time the queue is due.
pub struct TransmitStep {
    pub transmit: Vec<ObfuscatedAndEncryptedNetworkPDU>,
    pub deadline: Option<u64>,
}

impl Transmit {
    /// The slots of the queue.
    pub closed spec fn spec_items(&self) -> Seq<Option<ItemView>> {
        items_view(self.items@)
    }

    /// Whether the times of every item fit the clock at `now`.
    pub open spec fn fits(&self, now: u64) -> bool {
        &&& now <= CLOCK_MAX
        &&& forall|k: int| 0 <= k < self.spec_items().len() ==> (#[trigger] self.spec_items()[k] matches Some(i) ==> item_fits(
            i,
            now,
        ))
    }

    /// An empty queue of three slots.
    pub fn new() -> (t: Self)
        ensures
            t.spec_items() == seq![None::<ItemView>, None::<ItemView>, None::<ItemView>],
    {
        let items: Vec<Option<Item>> = vec![None, None, None];
        let t = Transmit { items };
        assert(t.spec_items() =~= seq![None::<ItemView>, None::<ItemView>, None::<ItemView>]);
        t
    }

    /// The slots after sending `pdu` with `details`: it takes the first
    /// free slot, if there is one, to be repeated.
    pub open spec fn stored(items: Seq<Option<ItemView>>, pdu: ObfuscatedView, details: NetworkRetransmitDetails) -> Seq<
        Option<ItemView>,
    > {
        let f = first_free(items);
        if f < items.len() {
            items.update(f, Some(ItemView { pdu, count: details.count, interval: details.interval_ms, last: None }))
        } else {
            items
        }
    }

    /// Sends a network PDU: it goes out at once and is kept, in the first
    /// free slot, for repeats.
    pub fn process_outbound(&mut self, pdu: ObfuscatedAndEncryptedNetworkPDU, details: &NetworkRetransmitDetails, now: u64) -> (step:
        TransmitStep)
        requires
            old(self).fits(now),
            details.interval_ms <= INTERVAL_MAX,
        ensures
            pdus_view(step.transmit@) == seq![pdu.fields()],
            final(self).spec_items() == Self::stored(old(self).spec_items(), pdu.fields(), *details),
            final(self).fits(now),
            step.deadline matches Some(x) ==> earliest(final(self).spec_items(), now) == Some(x as int),
            step.deadline is None ==> earliest(final(self).spec_items(), now) is None,
    {
        let ghost s = self.spec_items();
        let first = pdu.duplicate();
        let mut k: usize = 0;
        assert(s.skip(0) =~= s);
        while k < self.items.len()
            invariant
                k <= self.items@.len(),
                s == self.spec_items(),
                forall|j: int| 0 <= j < k ==> (#[trigger] s[j]) is Some,
                first_free(s) == k + first_free(s.skip(k as int)),
            ensures
                k <= self.items@.len(),
                s == self.spec_items(),
                first_free(s) == k + first_free(s.skip(k as int)),
                k < self.items@.len() ==> s[k as int] is None,
            decreases self.items@.len() - k,
        {
            if self.items[k].is_none() {
                break;
            }
            assert(s.skip(k as int).skip(1) =~= s.skip(k as int + 1));
            assert(s.skip(k as int)[0] == s[k as int]);
            k = k + 1;
        }
        proof {
            if k < s.len() {
                assert(s.skip(k as int)[0] == s[k as int]);
            } else {
                assert(s.skip(k as int).len() == 0);
            }
        }
        if k < self.items.len() {
            let item = Item { pdu, count: details.count, interval: details.interval_ms, last: None };
            let ghost iv = item.spec_view();
            assert(iv == ItemView { pdu: first.fields(), count: details.count, interval: details.interval_ms, last: None });
            self.items.set(k, Some(item));
            assert(first_free(s) == k);
            assert(self.spec_items() =~= s.update(k as int, Some(iv)));
            assert(self.spec_items() =~= Self::stored(s, first.fields(), *details));
        }
        let mut transmit: Vec<ObfuscatedAndEncryptedNetworkPDU> = Vec::new();
        transmit.push(first);
        assert(pdus_view(transmit@) =~= seq![first.fields()]);
        assert(forall|j: int| 0 <= j < self.spec_items().len() ==> (#[trigger] self.spec_items()[j] matches Some(i) ==> item_fits(i, now))) by {
            assert forall|j: int| 0 <= j < self.spec_items().len() implies (#[trigger] self.spec_items()[j] matches Some(i) ==> item_fits(i, now)) by {
                if j != k {
                    assert(self.spec_items()[j] == s[j]);
                }
            }
        }
        let deadline = self.next_deadline(now);
        TransmitStep { transmit, deadline }
    }

    /// The slots after a repeat at `now`: the never-sent items are sent, then
    /// the first item due, if any, is sent again.
    pub open spec fn repeated(items: Seq<Option<ItemView>>, now: u64) -> Seq<Option<ItemView>> {
        let mid = after_first_sends(items, now);
        let i = first_ready(mid, now);
        if i < mid.len() {
            mid.update(i, after_send(mid[i]->0, now))
        } else {
            mid
        }
    }

    /// The PDUs a repeat at `now` sends, in order.
    pub open spec fn repeat_sends(items: Seq<Option<ItemView>>, now: u64) -> Seq<ObfuscatedView> {
        let mid = after_first_sends(items, now);
        let i = first_ready(mid, now);
        first_sends(items) + if i < mid.len() { seq![mid[i]->0.pdu] } else { Seq::empty() }
    }

    /// Sends the items never sent: the PDUs to send.
    fn transmit_untransmitted(&mut self, now: u64) -> (sent: Vec<ObfuscatedAndEncryptedNetworkPDU>)
        requires
            old(self).fits(now),
        ensures
            final(self).spec_items() == after_first_sends(old(self).spec_items(), now),
            pdus_view(sent@) == first_sends(old(self).spec_items()),
            final(self).fits(now),
    {
        let ghost s = self.spec_items();
        let mut rest: Vec<Option<Item>> = Vec::new();
        std::mem::swap(&mut rest, &mut self.items);
        assert(items_view(rest@) == s);
        let mut out: Vec<Option<Item>> = Vec::new();
        let mut sent: Vec<ObfuscatedAndEncryptedNetworkPDU> = Vec::new();
        let ghost n = s.len();
        while rest.len() > 0
            invariant
                n == s.len(),
                out@.len() + rest@.len() == n,
                now <= CLOCK_MAX,
                forall|k: int| 0 <= k < n ==> (#[trigger] s[k] matches Some(i) ==> item_fits(i, now)),
                items_view(out@)
                    == after_first_sends(s.take(out@.len() as int), now),
                items_view(rest@)
                    == s.skip(out@.len() as int),
                pdus_view(sent@) == first_sends(s.take(out@.len() as int)),
            decreases rest@.len(),
        {
            let ghost k = out@.len() as int;
            assert(s.take(k + 1).drop_last() =~= s.take(k));
            assert(s.skip(k)[0] == s[k]);
            let ghost rest_before = rest@;
            let ghost out_before = items_view(out@);
            assert(items_view(rest_before)[0] == s[k]);
            let o = rest.remove(0);
            assert forall|j: int| 0 <= j < rest@.len() implies #[trigger] items_view(rest@)[j] == s.skip(k + 1)[j] by {
                assert(rest@[j] == rest_before[j + 1]);
                assert(items_view(rest_before)[j + 1] == s.skip(k)[j + 1]);
            }
            assert(items_view(rest@) =~= s.skip(k + 1));
            let ghost sent_before = pdus_view(sent@);
            let ghost pushed: Option<ItemView>;
            match o {
                Some(mut item) => {
                    assert(s[k] == Some(item.spec_view()));
                    if item.last.is_none() {
                        sent.push(item.pdu.duplicate());
                        assert(pdus_view(sent@) =~= sent_before + seq![s[k]->0.pdu]);
                        if item.count > 1 {
                            item.last = Some(now);
                            item.count = item.count - 1;
                        }
                    } else {
                        assert(pdus_view(sent@) =~= sent_before + Seq::<ObfuscatedView>::empty());
                    }
                    proof { pushed = Some(item.spec_view()); }
                    out.push(Some(item));
                },
                None => {
                    assert(pdus_view(sent@) =~= sent_before + Seq::<ObfuscatedView>::empty());
                    proof { pushed = None; }
                    out.push(None);
                },
            }
            assert(items_view(out@) =~= out_before.push(pushed));
            assert(after_first_sends(s.take(k + 1), now) =~= after_first_sends(s.take(k), now).push(
                after_first_sends(s.take(k + 1), now)[k],
            ));
            assert(items_view(out@) =~= after_first_sends(s.take(k + 1), now));
        }
        assert(s.take(n as int) =~= s);
        self.items = out;
        assert(self.spec_items() == after_first_sends(s, now));
        assert forall|k: int| 0 <= k < self.spec_items().len() implies (#[trigger] self.spec_items()[k] matches Some(i) ==> item_fits(i, now)) by {
            assert(s[k] matches Some(i) ==> item_fits(i, now));
        }
        sent
    }

    /// Sends the first item due at `now`, if any: the PDU to send.
    fn transmit_ready(&mut self, now: u64) -> (sent: Option<ObfuscatedAndEncryptedNetworkPDU>)
        requires
            old(self).fits(now),
        ensures
            ({
                let s = old(self).spec_items();
                let i = first_ready(s, now);
                &&& i < s.len() ==> (sent matches Some(p) && p.fields() == s[i]->0.pdu) && final(self).spec_items()
                    == s.update(i, after_send(s[i]->0, now))
                &&& i >= s.len() ==> sent is None && final(self).spec_items() == s
            }),
            final(self).fits(now),
    {
        let ghost s = self.spec_items();
        let mut k: usize = 0;
        assert(s.skip(0) =~= s);
        while k < self.items.len()
            invariant
                k <= self.items@.len(),
                s == self.spec_items(),
                self.fits(now),
                first_ready(s, now) == k + first_ready(s.skip(k as int), now),
            ensures
                k <= self.items@.len(),
                s == self.spec_items(),
                first_ready(s, now) == k + first_ready(s.skip(k as int), now),
                k < self.items@.len() ==> (s[k as int] matches Some(i) && ready(i, now)),
            decreases self.items@.len() - k,
        {
            assert(s[k as int] matches Some(i) ==> item_fits(i, now));
            let due = match &self.items[k] {
                Some(item) => item.is_ready(now),
                None => false,
            };
            if due {
                break;
            }
            assert(s.skip(k as int).skip(1) =~= s.skip(k as int + 1));
            assert(s.skip(k as int)[0] == s[k as int]);
            k = k + 1;
        }
        if k < self.items.len() {
            assert(s.skip(k as int)[0] == s[k as int]);
            assert(first_ready(s, now) == k);
            let (pdu, next) = match &self.items[k] {
                Some(item) => {
                    let pdu = item.pdu.duplicate();
                    let next = if item.count > 1 {
                        Some(Item { pdu: item.pdu.duplicate(), count: item.count - 1, interval: item.interval, last: Some(now) })
                    } else {
                        None
                    };
                    (pdu, next)
                },
                None => {
                    assert(false);
                    return None;
                },
            };
            let ghost nv = match &next { Some(i) => Some(i.spec_view()), None => None::<ItemView> };
            assert(nv == after_send(s[k as int]->0, now));
            self.items.set(k, next);
            assert(self.spec_items() =~= s.update(k as int, nv));
            assert forall|j: int| 0 <= j < self.spec_items().len() implies (#[trigger] self.spec_items()[j] matches Some(i) ==> item_fits(i, now)) by {
                assert(s[j] matches Some(i) ==> item_fits(i, now));
            }
            Some(pdu)
        } else {
            assert(s.skip(k as int).len() == 0);
            None
        }
    }

    /// Repeats at `now`: the never-sent items are sent, then the first item
    /// due; the PDUs to send, and the next time the queue is due.
    pub fn retransmit(&mut self, now: u64) -> (step: TransmitStep)
        requires
            old(self).fits(now),
        ensures
            pdus_view(step.transmit@) == Self::repeat_sends(old(self).spec_items(), now),
            final(self).spec_items() == Self::repeated(old(self).spec_items(), now),
            final(self).fits(now),
            step.deadline matches Some(x) ==> earliest(final(self).spec_items(), now) == Some(x as int),
            step.deadline is None ==> earliest(final(self).spec_items(), now) is None,
    {
        let ghost s = self.spec_items();
        let mut transmit = self.transmit_untransmitted(now);
        let ghost first = pdus_view(transmit@);
        match self.transmit_ready(now) {
            Some(pdu) => {
                transmit.push(pdu);
                assert(pdus_view(transmit@) =~= Self::repeat_sends(s, now));
            },
            None => {
                assert(pdus_view(transmit@) =~= Self::repeat_sends(s, now));
            },
        }
        let deadline = self.next_deadline(now);
        TransmitStep { transmit, deadline }
    }

    /// The earliest time an item is due, if any is held.
    pub fn next_deadline(&self, now: u64) -> (d: Option<u64>)
        requires
            self.fits(now),
        ensures
            d matches Some(x) ==> earliest(self.spec_items(), now) == Some(x as int),
            d is None ==> earliest(self.spec_items(), now) is None,
    {
        let mut next: Option<u64> = None;
        let mut k: usize = 0;
        while k < self.items.len()
            invariant
                self.fits(now),
                k <= self.items@.len(),
                next matches Some(x) ==> earliest(self.spec_items().take(k as int), now) == Some(x as int),
                next is None ==> earliest(self.spec_items().take(k as int), now) is None,
            decreases self.items@.len() - k,
        {
            assert(self.spec_items().take(k as int + 1).drop_last() =~= self.spec_items().take(k as int));
            assert(self.spec_items()[k as int] matches Some(i) ==> item_fits(i, now));
            match &self.items[k] {
                Some(item) => {
                    let d = item.next_deadline(now);
                    match next {
                        Some(n) => {
                            if d < n {
                                next = Some(d);
                            }
                        },
                        None => {
                            next = Some(d);
                        },
                    }
                },
                None => {},
            }
            k = k + 1;
        }
        assert(self.spec_items().take(self.items@.len() as int) =~= self.spec_items());
        next
    }
}


/// Whether every PDU the slots hold is one of `handed`.
pub open spec fn holds_only(items: Seq<Option<ItemView>>, handed: Set<ObfuscatedView>) -> bool {
    forall|k: int| 0 <= k < items.len() ==> (#[trigger] items[k] matches Some(i) ==> handed.contains(i.pdu))
}

/// The first free slot and the first slot due lie within the slots, or
/// just past them.
proof fn lemma_firsts_in_range(items: Seq<Option<ItemView>>, now: u64)
    ensures
        0 <= first_free(items) <= items.len(),
        0 <= first_ready(items, now) <= items.len(),
        first_ready(items, now) < items.len() ==> items[first_ready(items, now)] is Some,
    decreases items.len(),
{
    if items.len() > 0 {
        lemma_firsts_in_range(items.skip(1), now);
        let r = first_ready(items.skip(1), now);
        if r < items.len() - 1 {
            assert(items.skip(1)[r] == items[r + 1]);
        }
    }
}

/// The never-sent PDUs of slots that hold only PDUs of `handed` are PDUs of
/// `handed`.
proof fn lemma_first_sends_held(items: Seq<Option<ItemView>>, handed: Set<ObfuscatedView>)
    requires
        holds_only(items, handed),
    ensures
        forall|j: int| 0 <= j < first_sends(items).len() ==> handed.contains(#[trigger] first_sends(items)[j]),
    decreases items.len(),
{
    if items.len() > 0 {
        let rest = items.drop_last();
        assert(holds_only(rest, handed)) by {
            assert forall|k: int| 0 <= k < rest.len() implies (#[trigger] rest[k] matches Some(i) ==> handed.contains(
                i.pdu,
            )) by {
                assert(rest[k] == items[k]);
            }
        }
        lemma_first_sends_held(rest, handed);
        assert(items[items.len() - 1] matches Some(i) ==> handed.contains(i.pdu));
        let fr = first_sends(rest);
        let tail = match items.last() {
            Some(i) => if i.last is None { seq![i.pdu] } else { Seq::<ObfuscatedView>::empty() },
            None => Seq::<ObfuscatedView>::empty(),
        };
        assert(first_sends(items) == fr + tail);
        assert forall|j: int| 0 <= j < first_sends(items).len() implies handed.contains(#[trigger] first_sends(items)[j]) by {
            if j < fr.len() {
                assert(first_sends(items)[j] == fr[j]);
            } else {
                assert(first_sends(items)[j] == tail[j - fr.len()]);
            }
        }
    }
}

/// The transmit queue sends only PDUs handed to it, unchanged: when its
/// slots hold only PDUs of `handed`, storing a sent PDU keeps them within
/// `handed` and that PDU, and a repeat sends PDUs of `handed` alone and
/// leaves the slots holding only PDUs of `handed`.
pub proof fn lemma_repeats_were_handed_in(
    items: Seq<Option<ItemView>>,
    handed: Set<ObfuscatedView>,
    pdu: ObfuscatedView,
    details: NetworkRetransmitDetails,
    now: u64,
)
    requires
        holds_only(items, handed),
    ensures
        holds_only(Transmit::stored(items, pdu, details), handed.insert(pdu)),
        holds_only(Transmit::repeated(items, now), handed),
        forall|j: int|
            0 <= j < Transmit::repeat_sends(items, now).len() ==> handed.contains(
                #[trigger] Transmit::repeat_sends(items, now)[j],
            ),
{
    let st = Transmit::stored(items, pdu, details);
    lemma_firsts_in_range(items, now);
    assert(st.len() == items.len());
    assert forall|k: int| 0 <= k < st.len() implies (#[trigger] st[k] matches Some(i) ==> handed.insert(pdu).contains(
        i.pdu,
    )) by {
        assert(items[k] matches Some(i) ==> handed.contains(i.pdu));
    }
    let mid = after_first_sends(items, now);
    assert(mid.len() == items.len());
    assert(holds_only(mid, handed)) by {
        assert forall|k: int| 0 <= k < mid.len() implies (#[trigger] mid[k] matches Some(i) ==> handed.contains(i.pdu)) by {
            assert(items[k] matches Some(i) ==> handed.contains(i.pdu));
        }
    }
    let i = first_ready(mid, now);
    lemma_firsts_in_range(mid, now);
    let rep = Transmit::repeated(items, now);
    assert(rep.len() == mid.len());
    assert forall|k: int| 0 <= k < rep.len() implies (#[trigger] rep[k] matches Some(x) ==> handed.contains(x.pdu)) by {
        assert(mid[k] matches Some(x) ==> handed.contains(x.pdu));
        if i < mid.len() && k == i {
            assert(mid[i] matches Some(x) ==> handed.contains(x.pdu));
            assert(rep[k] == after_send(mid[i]->0, now));
        }
    }
    lemma_first_sends_held(items, handed);
    let sends = Transmit::repeat_sends(items, now);
    let fs = first_sends(items);
    assert forall|j: int| 0 <= j < sends.len() implies handed.contains(#[trigger] sends[j]) by {
        if j < fs.len() {
            assert(sends[j] == fs[j]);
        } else {
            assert(i < mid.len());
            assert(mid[i] matches Some(x) ==> handed.contains(x.pdu));
            assert(sends[j] == mid[i]->0.pdu);
        }
    }
}

} // verus!
