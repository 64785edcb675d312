//! The publication cache: the last message each model published, repeated
//! as its publication asks. Times are milliseconds on the node's clock,
//! handed in by the caller.
use vstd::prelude::*;
use crate::address::UnicastAddress;
use crate::driver::pipeline::mesh::PublishRetransmitDetails;
use crate::driver::pipeline::transmit::{ModelKey, CLOCK_MAX, INTERVAL_MAX};
use crate::model::ModelIdentifier;
use crate::pdu::access::{AccessMessage, AccessPayload, Opcode};

verus! {

/// A message to publish again: the model that publishes it and its payload.
pub struct OutboundPublishMessage {
    pub element_address: UnicastAddress,
    pub model_identifier: ModelIdentifier,
    pub payload: AccessPayload,
}

/// What a published message holds.
pub struct PublishView {
    pub element_address: UnicastAddress,
    pub model_identifier: ModelIdentifier,
    pub opcode: Opcode,
    pub parameters: Seq<u8>,
}

impl OutboundPublishMessage {
    /// What this message holds.
    pub open spec fn spec_view(&self) -> PublishView {
        PublishView {
            element_address: self.element_address,
            model_identifier: self.model_identifier,
            opcode: self.payload.opcode,
            parameters: self.payload.parameters@,
        }
    }

    /// A copy of this message.
    pub fn duplicate(&self) -> (m: Self)
        ensures
            m.spec_view() == self.spec_view(),
    {
        OutboundPublishMessage {
            element_address: self.element_address,
            model_identifier: self.model_identifier,
            payload: self.payload.duplicate(),
        }
    }
}

/// A cached publication.
pub struct Entry {
    message: OutboundPublishMessage,
    retransmit: PublishRetransmitDetails,
    last: u64,
}

/// What a cached publication holds.
pub struct EntryView {
    pub message: PublishView,
    pub retransmit: PublishRetransmitDetails,
    pub last: u64,
}

impl Entry {
    /// What this entry holds.
    pub closed spec fn spec_view(&self) -> EntryView {
        EntryView { message: self.message.spec_view(), retransmit: self.retransmit, last: self.last }
    }
}

/// The entries held.
pub open spec fn entries_view(v: Seq<Option<Entry>>) -> Seq<Option<EntryView>> {
    v.map_values(|o: Option<Entry>| match o {
        Some(e) => Some(e.spec_view()),
        None => None,
    })
}

/// The messages to publish.
pub open spec fn messages_view(v: Seq<OutboundPublishMessage>) -> Seq<PublishView> {
    v.map_values(|m: OutboundPublishMessage| m.spec_view())
}

/// When an entry is next due: its last publication and its interval.
pub open spec fn entry_deadline(e: EntryView) -> int {
    e.last + e.retransmit.interval_ms
}

/// The earliest deadline of the entries, if any is held.
pub open spec fn earliest_entry(s: Seq<Option<EntryView>>) -> Option<int>
    decreases s.len(),
{
    if s.len() == 0 {
        None
    } else {
        let rest = earliest_entry(s.drop_last());
        match s.last() {
            None => rest,
            Some(e) => match rest {
                Some(d) => if entry_deadline(e) < d { Some(entry_deadline(e)) } else { Some(d) },
                None => Some(entry_deadline(e)),
            },
        }
    }
}

/// The index of the first entry of the model `key`, or the length.
pub open spec fn first_of(s: Seq<Option<EntryView>>, key: ModelKey) -> int
    decreases s.len(),
{
    if s.len() == 0 {
        0
    } else if s[0] matches Some(e) && e.message.model_identifier == key.1 && e.message.element_address == key.0 {
        0
    } else {
        1 + first_of(s.skip(1), key)
    }
}

/// The index of the first free slot, or the length.
pub open spec fn first_empty(s: Seq<Option<EntryView>>) -> int
    decreases s.len(),
{
    if s.len() == 0 {
        0
    } else if s[0] is None {
        0
    } else {
        1 + first_empty(s.skip(1))
    }
}

/// Whether an entry is republished at `now`: when its deadline is not
/// before `now`.
pub open spec fn due(e: EntryView, now: u64) -> bool {
    e.last + e.retransmit.interval_ms >= now
}

/// An entry after it is republished at `now`: counted down and stamped, or
/// dropped at its last repeat.
pub open spec fn after_repeat(e: EntryView, now: u64) -> Option<EntryView> {
    if e.retransmit.count - 1 == 0 {
        None
    } else {
        Some(EntryView { retransmit: PublishRetransmitDetails { count: (e.retransmit.count - 1) as u8, ..e.retransmit }, last: now, ..e })
    }
}

/// The publication cache, with three slots.
pub struct Publish {
    cache: Vec<Option<Entry>>,
}

impl Publish {
    /// The slots of the cache.
    pub closed spec fn spec_entries(&self) -> Seq<Option<EntryView>> {
        entries_view(self.cache@)
    }

    /// Whether every entry's times fit the clock.
    pub open spec fn fits(&self) -> bool {
        forall|k: int|
            0 <= k < self.spec_entries().len() ==> (#[trigger] self.spec_entries()[k] matches Some(e) ==> e.last
                <= CLOCK_MAX && e.retransmit.interval_ms <= INTERVAL_MAX)
    }

    /// An empty cache of three slots.
    pub fn new() -> (p: Self)
        ensures
            p.spec_entries() == seq![None::<EntryView>, None::<EntryView>, None::<EntryView>],
    {
        let cache: Vec<Option<Entry>> = vec![None, None, None];
        let p = Publish { cache };
        assert(p.spec_entries() =~= seq![None::<EntryView>, None::<EntryView>, None::<EntryView>]);
        p
    }

    /// The earliest time an entry is due, if any is held.
    pub fn next_deadline(&self) -> (d: Option<u64>)
        requires
            self.fits(),
        ensures
            d matches Some(x) ==> earliest_entry(self.spec_entries()) == Some(x as int),
            d is None ==> earliest_entry(self.spec_entries()) is None,
    {
        let mut deadline: Option<u64> = None;
        let mut k: usize = 0;
        while k < self.cache.len()
            invariant
                self.fits(),
                k <= self.cache@.len(),
                deadline matches Some(x) ==> earliest_entry(self.spec_entries().take(k as int)) == Some(x as int),
                deadline is None ==> earliest_entry(self.spec_entries().take(k as int)) is None,
            decreases self.cache@.len() - k,
        {
            assert(self.spec_entries().take(k as int + 1).drop_last() =~= self.spec_entries().take(k as int));
            assert(self.spec_entries()[k as int] matches Some(e) ==> e.last <= CLOCK_MAX && e.retransmit.interval_ms <= INTERVAL_MAX);
            match &self.cache[k] {
                Some(inner) => {
                    let candidate = inner.last + inner.retransmit.interval_ms;
                    match deadline {
                        Some(d) => {
                            if d > candidate {
                                deadline = Some(candidate);
                            }
                        },
                        None => {
                            deadline = Some(candidate);
                        },
                    }
                },
                None => {},
            }
            k = k + 1;
        }
        assert(self.spec_entries().take(self.cache@.len() as int) =~= self.spec_entries());
        deadline
    }

    /// The cache after `message` is published by the model `key` at `now`:
    /// it replaces that model's entry, or takes the first free slot.
    pub open spec fn published(s: Seq<Option<EntryView>>, message: PublishView, key: ModelKey, details: PublishRetransmitDetails, now: u64) -> Seq<Option<EntryView>> {
        let e = EntryView { message, retransmit: details, last: now };
        let i = first_of(s, key);
        if i < s.len() {
            s.update(i, Some(e))
        } else {
            let f = first_empty(s);
            if f < s.len() { s.update(f, Some(e)) } else { s }
        }
    }

    /// Remembers a published message for repeats, when `publish` says which
    /// model published it and how.
    pub fn process_outbound(&mut self, message: &AccessMessage, publish: Option<(ModelKey, PublishRetransmitDetails)>, now: u64)
        requires
            old(self).fits(),
            now <= CLOCK_MAX,
            publish matches Some(p) ==> p.1.interval_ms <= INTERVAL_MAX,
        ensures
            final(self).fits(),
            publish is None ==> final(self).spec_entries() == old(self).spec_entries(),
            publish matches Some(p) ==> final(self).spec_entries() == Self::published(
                old(self).spec_entries(),
                PublishView {
                    element_address: p.0.0,
                    model_identifier: p.0.1,
                    opcode: message.payload.opcode,
                    parameters: message.payload.parameters@,
                },
                p.0,
                p.1,
                now,
            ),
    {
        let (key, details) = match publish {
            Some(p) => p,
            None => return,
        };
        let ghost s = self.spec_entries();
        let entry = Entry {
            message: OutboundPublishMessage {
                element_address: key.unicast_address(),
                model_identifier: key.model_identifier(),
                payload: message.payload.duplicate(),
            },
            retransmit: details,
            last: now,
        };
        let ghost ev = entry.spec_view();
        let mut k: usize = 0;
        assert(s.skip(0) =~= s);
        while k < self.cache.len()
            invariant
                k <= self.cache@.len(),
                s == self.spec_entries(),
                first_of(s, key) == k + first_of(s.skip(k as int), key),
            ensures
                k <= self.cache@.len(),
                s == self.spec_entries(),
                first_of(s, key) == k + first_of(s.skip(k as int), key),
                k < self.cache@.len() ==> (s[k as int] matches Some(e) && e.message.model_identifier == key.1
                    && e.message.element_address == key.0),
            decreases self.cache@.len() - k,
        {
            let hit = match &self.cache[k] {
                Some(inner) => inner.message.model_identifier == key.model_identifier()
                    && inner.message.element_address == key.unicast_address(),
                None => false,
            };
            if hit {
                break;
            }
            assert(s.skip(k as int).skip(1) =~= s.skip(k as int + 1));
            assert(s.skip(k as int)[0] == s[k as int]);
            k = k + 1;
        }
        if k < self.cache.len() {
            assert(s.skip(k as int)[0] == s[k as int]);
            self.cache.set(k, Some(entry));
            assert(self.spec_entries() =~= s.update(k as int, Some(ev)));
        } else {
            assert(s.skip(k as int).len() == 0);
            let mut f: usize = 0;
            assert(s.skip(0) =~= s);
            while f < self.cache.len()
                invariant
                    f <= self.cache@.len(),
                    s == self.spec_entries(),
                    first_empty(s) == f + first_empty(s.skip(f as int)),
                ensures
                    f <= self.cache@.len(),
                    s == self.spec_entries(),
                    first_empty(s) == f + first_empty(s.skip(f as int)),
                    f < self.cache@.len() ==> s[f as int] is None,
                decreases self.cache@.len() - f,
            {
                if self.cache[f].is_none() {
                    break;
                }
                assert(s.skip(f as int).skip(1) =~= s.skip(f as int + 1));
                assert(s.skip(f as int)[0] == s[f as int]);
                f = f + 1;
            }
            if f < self.cache.len() {
                assert(s.skip(f as int)[0] == s[f as int]);
                self.cache.set(f, Some(entry));
                assert(self.spec_entries() =~= s.update(f as int, Some(ev)));
            } else {
                assert(s.skip(f as int).len() == 0);
            }
        }
        assert forall|j: int| 0 <= j < self.spec_entries().len() implies (#[trigger] self.spec_entries()[j] matches Some(e) ==> e.last
            <= CLOCK_MAX && e.retransmit.interval_ms <= INTERVAL_MAX) by {
            assert(s[j] matches Some(e) ==> e.last <= CLOCK_MAX && e.retransmit.interval_ms <= INTERVAL_MAX);
        }
    }

    /// The cache after a repeat at `now`.
    pub open spec fn repeated(s: Seq<Option<EntryView>>, now: u64) -> Seq<Option<EntryView>> {
        s.map_values(|o: Option<EntryView>| match o {
            Some(e) => if due(e, now) { after_repeat(e, now) } else { Some(e) },
            None => None,
        })
    }

    /// The messages a repeat at `now` publishes again, in order.
    pub open spec fn republished(s: Seq<Option<EntryView>>, now: u64) -> Seq<PublishView>
        decreases s.len(),
    {
        if s.len() == 0 {
            Seq::empty()
        } else {
            Self::republished(s.drop_last(), now) + match s.last() {
                Some(e) => if due(e, now) { seq![e.message] } else { Seq::empty() },
                None => Seq::empty(),
            }
        }
    }

    /// Whether every entry due at `now` has a repeat left.
    pub open spec fn counts_left(s: Seq<Option<EntryView>>, now: u64) -> bool {
        forall|k: int| 0 <= k < s.len() ==> (#[trigger] s[k] matches Some(e) ==> (due(e, now) ==> e.retransmit.count >= 1))
    }

    /// Repeats at `now` every entry whose deadline is not before `now`: the
    /// messages to publish again, and the next time the cache is due.
    pub fn retransmit(&mut self, now: u64) -> (out: (Vec<OutboundPublishMessage>, Option<u64>))
        requires
            old(self).fits(),
            now <= CLOCK_MAX,
            Self::counts_left(old(self).spec_entries(), now),
        ensures
            final(self).fits(),
            messages_view(out.0@) == Self::republished(old(self).spec_entries(), now),
            final(self).spec_entries() == Self::repeated(old(self).spec_entries(), now),
            out.1 matches Some(x) ==> earliest_entry(final(self).spec_entries()) == Some(x as int),
            out.1 is None ==> earliest_entry(final(self).spec_entries()) is None,
    {
        let ghost s = self.spec_entries();
        let mut rest: Vec<Option<Entry>> = Vec::new();
        std::mem::swap(&mut rest, &mut self.cache);
        let mut out: Vec<Option<Entry>> = Vec::new();
        let mut sent: Vec<OutboundPublishMessage> = Vec::new();
        let ghost n = s.len();
        while rest.len() > 0
            invariant
                n == s.len(),
                out@.len() + rest@.len() == n,
                now <= CLOCK_MAX,
                Self::counts_left(s, now),
                forall|k: int|
                    0 <= k < n ==> (#[trigger] s[k] matches Some(e) ==> e.last <= CLOCK_MAX && e.retransmit.interval_ms
                        <= INTERVAL_MAX),
                entries_view(out@) == Self::repeated(s.take(out@.len() as int), now),
                entries_view(rest@) == s.skip(out@.len() as int),
                messages_view(sent@) == Self::republished(s.take(out@.len() as int), now),
            decreases rest@.len(),
        {
            let ghost k = out@.len() as int;
            assert(s.take(k + 1).drop_last() =~= s.take(k));
            assert(s.skip(k)[0] == s[k]);
            let ghost rest_before = rest@;
            let ghost out_before = entries_view(out@);
            let ghost sent_before = messages_view(sent@);
            assert(entries_view(rest_before)[0] == s[k]);
            let o = rest.remove(0);
            assert forall|j: int| 0 <= j < rest@.len() implies #[trigger] entries_view(rest@)[j] == s.skip(k + 1)[j] by {
                assert(rest@[j] == rest_before[j + 1]);
                assert(entries_view(rest_before)[j + 1] == s.skip(k)[j + 1]);
            }
            assert(entries_view(rest@) =~= s.skip(k + 1));
            let ghost pushed: Option<EntryView>;
            match o {
                Some(mut inner) => {
                    assert(s[k] == Some(inner.spec_view()));
                    if inner.last + inner.retransmit.interval_ms >= now {
                        sent.push(inner.message.duplicate());
                        assert(messages_view(sent@) =~= sent_before + seq![s[k]->0.message]);
                        inner.retransmit.count = inner.retransmit.count - 1;
                        if inner.retransmit.count == 0 {
                            proof { pushed = None; }
                            out.push(None);
                        } else {
                            inner.last = now;
                            proof { pushed = Some(inner.spec_view()); }
                            out.push(Some(inner));
                        }
                    } else {
                        assert(messages_view(sent@) =~= sent_before + Seq::<PublishView>::empty());
                        proof { pushed = Some(inner.spec_view()); }
                        out.push(Some(inner));
                    }
                },
                None => {
                    assert(messages_view(sent@) =~= sent_before + Seq::<PublishView>::empty());
                    proof { pushed = None; }
                    out.push(None);
                },
            }
            assert(entries_view(out@) =~= out_before.push(pushed));
            assert(Self::repeated(s.take(k + 1), now) =~= Self::repeated(s.take(k), now).push(
                Self::repeated(s.take(k + 1), now)[k],
            ));
            assert(entries_view(out@) =~= Self::repeated(s.take(k + 1), now));
        }
        assert(s.take(n as int) =~= s);
        self.cache = out;
        assert forall|j: int| 0 <= j < self.spec_entries().len() implies (#[trigger] self.spec_entries()[j] matches Some(e) ==> e.last
            <= CLOCK_MAX && e.retransmit.interval_ms <= INTERVAL_MAX) by {
            assert(s[j] matches Some(e) ==> e.last <= CLOCK_MAX && e.retransmit.interval_ms <= INTERVAL_MAX);
        }
        let deadline = self.next_deadline();
        (sent, deadline)
    }
}

} // verus!
