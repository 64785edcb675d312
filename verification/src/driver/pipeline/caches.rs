//! The caches of recently seen network PDUs: the replay cache, which keeps
//! the last sequence number of each source, and the network message cache,
//! which keeps the PDUs already relayed. Both are `uluru` least-recently-used
//! caches of 32 entries, most recently used first.
use vstd::prelude::*;
use crate::address::UnicastAddress;
use crate::pdu::network::CleartextNetworkPDU;
use uluru::LRUCache;

verus! {

/// The number of entries each cache keeps.
pub const CACHE_SIZE: usize = 32;

/// A cache entry: a sequence number, a source address and the low 16 bits
/// of an IV index.
pub type CacheEntry = (u32, u16, u16);

#[verifier::external_type_specification]
#[verifier::external_body]
#[verifier::reject_recursive_types(T)]
pub struct ExLRUCache<T, const N: usize>(LRUCache<T, N>);

/// The entries of a cache, most recently used first, as the `uluru` cache
/// keeps them.
pub uninterp spec fn cache_entries(c: LRUCache<CacheEntry, 32>) -> Seq<CacheEntry>;

/// Whether entry `e` matches `probe`: all of it when `whole`, else its
/// source.
pub open spec fn spec_entry_matches(e: CacheEntry, probe: CacheEntry, whole: bool) -> bool {
    if whole { e == probe } else { e.1 == probe.1 }
}

/// Whether entry `e` matches `probe`.
pub fn entry_matches(e: &CacheEntry, probe: &CacheEntry, whole: bool) -> (b: bool)
    ensures
        b == spec_entry_matches(*e, *probe, whole),
{
    if whole {
        e.0 == probe.0 && e.1 == probe.1 && e.2 == probe.2
    } else {
        e.1 == probe.1
    }
}

/// The index of the first entry of `s` that matches `probe`, or the length
/// of `s` when none does.
pub open spec fn first_match(s: Seq<CacheEntry>, probe: CacheEntry, whole: bool) -> int
    decreases s.len(),
{
    if s.len() == 0 {
        0
    } else if spec_entry_matches(s[0], probe, whole) {
        0
    } else {
        1 + first_match(s.skip(1), probe, whole)
    }
}

/// An empty cache (`LRUCache::default`).
#[verifier::external_body]
fn cache_new() -> (c: LRUCache<CacheEntry, 32>)
    ensures
        cache_entries(c) == Seq::<CacheEntry>::empty(),
{
    LRUCache::default()
}

/// `LRUCache::insert`: the entry goes in front; when the cache is full the
/// least recently used entry is evicted and returned.
#[verifier::external_body]
fn cache_insert(c: &mut LRUCache<CacheEntry, 32>, val: CacheEntry) -> (evicted: Option<CacheEntry>)
    requires
        cache_entries(*old(c)).len() <= CACHE_SIZE,
    ensures
        cache_entries(*old(c)).len() == CACHE_SIZE ==> cache_entries(*final(c)) == seq![val] + cache_entries(*old(c)).drop_last()
            && evicted == Some(cache_entries(*old(c)).last()),
        cache_entries(*old(c)).len() < CACHE_SIZE ==> cache_entries(*final(c)) == seq![val] + cache_entries(*old(c))
            && evicted is None,
{
    c.insert(val)
}

/// `LRUCache::touch` with a predicate that matches `probe`: the first
/// matching entry, if any, is moved to the front.
#[verifier::external_body]
fn cache_touch(c: &mut LRUCache<CacheEntry, 32>, probe: CacheEntry, whole: bool) -> (hit: bool)
    ensures
        hit == (first_match(cache_entries(*old(c)), probe, whole) < cache_entries(*old(c)).len()),
        hit ==> cache_entries(*final(c)) == seq![
            cache_entries(*old(c))[first_match(cache_entries(*old(c)), probe, whole)],
        ] + cache_entries(*old(c)).remove(first_match(cache_entries(*old(c)), probe, whole)),
        !hit ==> cache_entries(*final(c)) == cache_entries(*old(c)),
{
    c.touch(|e: &CacheEntry| entry_matches(e, &probe, whole))
}

/// `LRUCache::front`: the most recently used entry.
#[verifier::external_body]
fn cache_front(c: &LRUCache<CacheEntry, 32>) -> (f: Option<CacheEntry>)
    ensures
        f == (if cache_entries(*c).len() > 0 { Some(cache_entries(*c)[0]) } else { None }),
{
    c.front().copied()
}

/// `LRUCache::front_mut`, written through: the most recently used entry
/// becomes `val`.
#[verifier::external_body]
fn cache_set_front(c: &mut LRUCache<CacheEntry, 32>, val: CacheEntry)
    ensures
        cache_entries(*final(c)) == (if cache_entries(*old(c)).len() > 0 {
            cache_entries(*old(c)).update(0, val)
        } else {
            cache_entries(*old(c))
        }),
{
    if let Some(front) = c.front_mut() {
        *front = val;
    }
}

/// Moving the first match of a probe to the front keeps the length.
proof fn lemma_first_match(s: Seq<CacheEntry>, probe: CacheEntry, whole: bool)
    ensures
        0 <= first_match(s, probe, whole) <= s.len(),
        first_match(s, probe, whole) < s.len() ==> spec_entry_matches(s[first_match(s, probe, whole)], probe, whole),
        forall|j: int| 0 <= j < first_match(s, probe, whole) ==> !spec_entry_matches(#[trigger] s[j], probe, whole),
    decreases s.len(),
{
    if s.len() > 0 && !spec_entry_matches(s[0], probe, whole) {
        lemma_first_match(s.skip(1), probe, whole);
        assert forall|j: int| 0 <= j < first_match(s, probe, whole) implies !spec_entry_matches(#[trigger] s[j], probe, whole) by {
            if j > 0 {
                assert(s[j] == s.skip(1)[j - 1]);
            }
        }
    }
}

/// The low 16 bits of an IV index.
pub open spec fn iv16(iv_index: u32) -> u16 {
    (iv_index % 0x10000) as u16
}

/// The replay cache: for each source recently heard, the IV index and the
/// sequence number of its last accepted PDU.
pub struct ReplayCache {
    lru: LRUCache<CacheEntry, 32>,
}

impl ReplayCache {
    /// The entries, most recently used first.
    pub closed spec fn entries(&self) -> Seq<CacheEntry> {
        cache_entries(self.lru)
    }

    /// Whether the cache holds no more than its size.
    pub open spec fn wf(&self) -> bool {
        self.entries().len() <= CACHE_SIZE
    }

    /// An empty cache.
    pub fn new() -> (c: Self)
        ensures
            c.entries() == Seq::<CacheEntry>::empty(),
    {
        ReplayCache { lru: cache_new() }
    }

    /// Whether a PDU from `src` with sequence number `seq` under `iv_index`
    /// is a replay: an older IV index than the source's last, or, under the
    /// same one, a sequence number no greater than its last. A PDU that is
    /// not a replay is remembered as the source's last; a source not heard
    /// of is added in front.
    pub open spec fn seen_step(s: Seq<CacheEntry>, iv_index: u32, seq: u32, src: UnicastAddress, t: Seq<CacheEntry>, seen: bool) -> bool {
        let iv = iv16(iv_index);
        let probe = (seq, src.value(), iv);
        let i = first_match(s, probe, false);
        if i < s.len() {
            let e = s[i];
            let front = seq![e] + s.remove(i);
            if iv < e.2 {
                seen && t == front
            } else if iv == e.2 {
                if seq <= e.0 {
                    seen && t == front
                } else {
                    !seen && t == front.update(0, (seq, e.1, e.2))
                }
            } else {
                !seen && t == front.update(0, (seq, e.1, iv))
            }
        } else {
            &&& !seen
            &&& t == if s.len() == CACHE_SIZE { seq![probe] + s.drop_last() } else { seq![probe] + s }
        }
    }

    /// Whether a PDU is a replay, remembering it when it is not.
    pub fn has_seen(&mut self, iv_index: u32, seq: u32, src: UnicastAddress) -> (seen: bool)
        requires
            old(self).wf(),
        ensures
            final(self).wf(),
            Self::seen_step(old(self).entries(), iv_index, seq, src, final(self).entries(), seen),
    {
        let iv: u16 = (iv_index & 0xFFFF) as u16;
        assert(iv == iv16(iv_index)) by (bit_vector)
            requires
                iv == (iv_index & 0xFFFF) as u16,
        ;
        let probe: CacheEntry = (seq, src.get(), iv);
        let ghost s = self.entries();
        proof { lemma_first_match(s, probe, false); }
        if cache_touch(&mut self.lru, probe, false) {
            let entry = match cache_front(&self.lru) {
                Some(e) => e,
                None => {
                    assert(false);
                    return true;
                },
            };
            if iv < entry.2 {
                true
            } else if iv == entry.2 {
                if seq <= entry.0 {
                    true
                } else {
                    cache_set_front(&mut self.lru, (seq, entry.1, entry.2));
                    false
                }
            } else {
                cache_set_front(&mut self.lru, (seq, entry.1, iv));
                false
            }
        } else {
            let _ = cache_insert(&mut self.lru, probe);
            false
        }
    }
}

/// The network message cache: the network PDUs recently relayed, by
/// sequence number, source and IV index.
pub struct NetworkMessageCache {
    lru: LRUCache<CacheEntry, 32>,
}

impl Default for NetworkMessageCache {
    fn default() -> (c: Self)
        ensures
            c.entries() == Seq::<CacheEntry>::empty(),
    {
        NetworkMessageCache { lru: cache_new() }
    }
}

impl NetworkMessageCache {
    /// The entries, most recently used first.
    pub closed spec fn entries(&self) -> Seq<CacheEntry> {
        cache_entries(self.lru)
    }

    /// Whether the cache holds no more than its size.
    pub open spec fn wf(&self) -> bool {
        self.entries().len() <= CACHE_SIZE
    }

    /// An empty cache.
    pub fn new() -> (c: Self)
        ensures
            c.entries() == Seq::<CacheEntry>::empty(),
    {
        NetworkMessageCache { lru: cache_new() }
    }

    /// Whether a PDU has been seen: its entry is moved to the front when it
    /// has; otherwise it is added in front.
    pub open spec fn seen_step(s: Seq<CacheEntry>, entry: CacheEntry, t: Seq<CacheEntry>, seen: bool) -> bool {
        let i = first_match(s, entry, true);
        if i < s.len() {
            seen && t == seq![s[i]] + s.remove(i)
        } else {
            !seen && t == if s.len() == CACHE_SIZE { seq![entry] + s.drop_last() } else { seq![entry] + s }
        }
    }

    /// Whether `pdu` has been seen under `iv_index`, remembering it.
    pub fn has_seen(&mut self, iv_index: u32, pdu: &CleartextNetworkPDU) -> (seen: bool)
        requires
            old(self).wf(),
        ensures
            final(self).wf(),
            Self::seen_step(old(self).entries(), (pdu.seq, pdu.src.value(), iv16(iv_index)), final(self).entries(), seen),
    {
        let iv: u16 = (iv_index & 0xFFFF) as u16;
        assert(iv == iv16(iv_index)) by (bit_vector)
            requires
                iv == (iv_index & 0xFFFF) as u16,
        ;
        let entry: CacheEntry = (pdu.seq, pdu.src.get(), iv);
        let ghost s = self.entries();
        proof { lemma_first_match(s, entry, true); }
        if cache_touch(&mut self.lru, entry, true) {
            true
        } else {
            let _ = cache_insert(&mut self.lru, entry);
            false
        }
    }
}

/// Once a PDU from a source has been checked, whatever the answer, a PDU
/// from the same source under the same IV index whose sequence number is
/// no greater is a replay.
pub proof fn lemma_replay_detected(
    s: Seq<CacheEntry>,
    t: Seq<CacheEntry>,
    u: Seq<CacheEntry>,
    iv_index: u32,
    seq: u32,
    src: UnicastAddress,
    first: bool,
    later_seq: u32,
    second: bool,
)
    requires
        s.len() <= CACHE_SIZE,
        ReplayCache::seen_step(s, iv_index, seq, src, t, first),
        later_seq <= seq,
        ReplayCache::seen_step(t, iv_index, later_seq, src, u, second),
    ensures
        second,
{
    let iv = iv16(iv_index);
    let probe = (seq, src.value(), iv);
    lemma_first_match(s, probe, false);
    let later = (later_seq, src.value(), iv);
    assert(t.len() > 0);
    assert(t[0].1 == src.value());
    assert(first_match(t, later, false) == 0);
}

/// A network PDU checked twice in a row is seen the second time.
pub proof fn lemma_message_seen_again(
    s: Seq<CacheEntry>,
    t: Seq<CacheEntry>,
    u: Seq<CacheEntry>,
    entry: CacheEntry,
    first: bool,
    second: bool,
)
    requires
        s.len() <= CACHE_SIZE,
        NetworkMessageCache::seen_step(s, entry, t, first),
        NetworkMessageCache::seen_step(t, entry, u, second),
    ensures
        second,
{
    lemma_first_match(s, entry, true);
    assert(t[0] == entry);
    assert(first_match(t, entry, true) == 0);
}

} // verus!
