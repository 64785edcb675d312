//! A byte buffer with a fixed capacity that PDUs are emitted into.
use vstd::prelude::*;
use crate::InsufficientBuffer;

verus! {

/// A growable sequence of bytes that never holds more than its capacity.
/// Appending beyond the capacity is refused and leaves the buffer as it was.
pub struct ByteBuf {
    data: Vec<u8>,
    capacity: usize,
}

impl View for ByteBuf {
    type V = Seq<u8>;

    closed spec fn view(&self) -> Seq<u8> {
        self.data@
    }
}

/// What an emitter that appends `bytes` to a buffer leaves behind: it
/// succeeds exactly when all of `bytes` fit, and then the buffer holds what it
/// held followed by `bytes`; when it fails, the buffer holds what it held
/// followed by some prefix of `bytes`, and never more than its capacity.
pub open spec fn appended(old: Seq<u8>, new: Seq<u8>, cap: nat, bytes: Seq<u8>, ok: bool) -> bool {
    &&& ok <==> old.len() + bytes.len() <= cap
    &&& ok ==> new == old + bytes
    &&& !ok ==> {
        &&& old.len() <= new.len() <= cap
        &&& new.len() - old.len() <= bytes.len()
        &&& new == old + bytes.take(new.len() - old.len())
    }
}

impl ByteBuf {
    #[verifier::type_invariant]
    spec fn inv(self) -> bool {
        self.data@.len() <= self.capacity
    }

    /// The most bytes this buffer can hold.
    pub closed spec fn cap(&self) -> nat {
        self.capacity as nat
    }

    /// An empty buffer that holds at most `capacity` bytes.
    pub fn new(capacity: usize) -> (b: Self)
        ensures
            b@ == Seq::<u8>::empty(),
            b.cap() == capacity,
    {
        ByteBuf { data: Vec::new(), capacity }
    }

    /// Holds that a buffer never holds more than its capacity.
    pub fn within_capacity(&self)
        ensures
            self@.len() <= self.cap(),
    {
        proof { use_type_invariant(self); }
    }

    /// The number of bytes held.
    pub fn len(&self) -> (n: usize)
        ensures
            n == self@.len(),
    {
        self.data.len()
    }

    /// The most bytes this buffer can hold.
    pub fn capacity(&self) -> (n: usize)
        ensures
            n == self.cap(),
    {
        self.capacity
    }

    /// The bytes held.
    pub fn as_slice(&self) -> (s: &[u8])
        ensures
            s@ == self@,
    {
        self.data.as_slice()
    }

    /// Appends one byte, or refuses when the buffer is full.
    pub fn push(&mut self, b: u8) -> (r: Result<(), InsufficientBuffer>)
        ensures
            final(self).cap() == old(self).cap(),
            appended(old(self)@, final(self)@, old(self).cap(), seq![b], r is Ok),
    {
        proof { use_type_invariant(&*self); }
        if self.data.len() < self.capacity {
            let mut data = Vec::new();
            std::mem::swap(&mut data, &mut self.data);
            data.push(b);
            assert(data@ == old(self)@ + seq![b]);
            self.data = data;
            Ok(())
        } else {
            assert(seq![b].take(0) == Seq::<u8>::empty());
            assert(self@ == self@ + seq![b].take(0));
            Err(InsufficientBuffer)
        }
    }

    /// Appends all of `s`, or nothing when `s` does not fit.
    pub fn extend_from_slice(&mut self, s: &[u8]) -> (r: Result<(), InsufficientBuffer>)
        ensures
            final(self).cap() == old(self).cap(),
            appended(old(self)@, final(self)@, old(self).cap(), s@, r is Ok),
    {
        proof { use_type_invariant(&*self); }
        if s.len() <= self.capacity - self.data.len() {
            let mut data = Vec::new();
            std::mem::swap(&mut data, &mut self.data);
            let ghost old_data = data@;
            let mut i: usize = 0;
            while i < s.len()
                invariant
                    0 <= i <= s.len(),
                    data@ == old_data + s@.take(i as int),
                decreases s.len() - i,
            {
                data.push(s[i]);
                i = i + 1;
                assert(data@ == old_data + s@.take(i as int));
            }
            assert(s@.take(s@.len() as int) == s@);
            self.data = data;
            Ok(())
        } else {
            assert(s@.take(0) == Seq::<u8>::empty());
            assert(self@ == self@ + s@.take(0));
            Err(InsufficientBuffer)
        }
    }

    /// Sets the bits of `mask` in the last byte held.
    pub fn or_last(&mut self, mask: u8) -> (r: Result<(), InsufficientBuffer>)
        ensures
            final(self).cap() == old(self).cap(),
            r is Ok <==> old(self)@.len() > 0,
            r is Ok ==> final(self)@ == old(self)@.update(
                old(self)@.len() - 1,
                old(self)@.last() | mask,
            ),
            r is Err ==> final(self)@ == old(self)@,
    {
        proof { use_type_invariant(&*self); }
        let n = self.data.len();
        if n > 0 {
            let mut data = Vec::new();
            std::mem::swap(&mut data, &mut self.data);
            let last = data[n - 1];
            data.set(n - 1, last | mask);
            self.data = data;
            Ok(())
        } else {
            Err(InsufficientBuffer)
        }
    }
}

/// Appending `b1` and then `b2` is appending `b1 + b2`.
pub proof fn lemma_appended_seq(
    s0: Seq<u8>,
    s1: Seq<u8>,
    s2: Seq<u8>,
    cap: nat,
    b1: Seq<u8>,
    b2: Seq<u8>,
    ok2: bool,
)
    requires
        appended(s0, s1, cap, b1, true),
        appended(s1, s2, cap, b2, ok2),
    ensures
        appended(s0, s2, cap, b1 + b2, ok2),
{
    assert(s1 == s0 + b1);
    if ok2 {
        assert(s2 == s0 + (b1 + b2));
    } else {
        let k = s2.len() - s1.len();
        assert((b1 + b2).take(b1.len() + k) == b1 + b2.take(k));
        assert(s2 == s0 + (b1 + b2).take(s2.len() - s0.len()));
    }
}

/// A failed append stays failed whatever would have been appended after it.
pub proof fn lemma_appended_err(s0: Seq<u8>, s1: Seq<u8>, cap: nat, b1: Seq<u8>, b2: Seq<u8>)
    requires
        appended(s0, s1, cap, b1, false),
    ensures
        appended(s0, s1, cap, b1 + b2, false),
{
    let k = s1.len() - s0.len();
    assert((b1 + b2).take(k) == b1.take(k));
}

/// The parts of a message joined in order.
pub open spec fn concat_parts(parts: Seq<Seq<u8>>) -> Seq<u8>
    decreases parts.len(),
{
    if parts.len() == 0 {
        Seq::empty()
    } else {
        concat_parts(parts.drop_last()) + parts.last()
    }
}

/// The parts joined are the first `k` joined, then the rest joined.
pub proof fn lemma_concat_parts_split(parts: Seq<Seq<u8>>, k: int)
    requires
        0 <= k <= parts.len(),
    ensures
        concat_parts(parts) == concat_parts(parts.take(k)) + concat_parts(parts.skip(k)),
    decreases parts.len(),
{
    if k == parts.len() {
        assert(parts.take(k) =~= parts);
        assert(parts.skip(k) =~= Seq::<Seq<u8>>::empty());
        assert(concat_parts(parts) + Seq::<u8>::empty() =~= concat_parts(parts));
    } else {
        lemma_concat_parts_split(parts.drop_last(), k);
        assert(parts.drop_last().take(k) =~= parts.take(k));
        assert(parts.skip(k).drop_last() =~= parts.drop_last().skip(k));
        assert(parts.skip(k).last() == parts.last());
        assert(concat_parts(parts) =~= concat_parts(parts.take(k)) + concat_parts(parts.skip(k)));
    }
}

/// Appending part `i` after the first `i` parts is appending the first
/// `i + 1`.
pub proof fn lemma_parts_step(s0: Seq<u8>, s1: Seq<u8>, s2: Seq<u8>, cap: nat, parts: Seq<Seq<u8>>, i: int)
    requires
        0 <= i < parts.len(),
        appended(s0, s1, cap, concat_parts(parts.take(i)), true),
        appended(s1, s2, cap, parts[i], true),
    ensures
        appended(s0, s2, cap, concat_parts(parts.take(i + 1)), true),
{
    lemma_appended_seq(s0, s1, s2, cap, concat_parts(parts.take(i)), parts[i], true);
    assert(parts.take(i + 1).drop_last() =~= parts.take(i));
}

/// Failing to append part `i` after the first `i` parts is failing to
/// append all of them.
pub proof fn lemma_parts_fail(s0: Seq<u8>, s1: Seq<u8>, s2: Seq<u8>, cap: nat, parts: Seq<Seq<u8>>, i: int)
    requires
        0 <= i < parts.len(),
        appended(s0, s1, cap, concat_parts(parts.take(i)), true),
        appended(s1, s2, cap, parts[i], false),
    ensures
        appended(s0, s2, cap, concat_parts(parts), false),
{
    lemma_appended_seq(s0, s1, s2, cap, concat_parts(parts.take(i)), parts[i], false);
    assert(parts.take(i + 1).drop_last() =~= parts.take(i));
    lemma_appended_err(s0, s2, cap, concat_parts(parts.take(i + 1)), concat_parts(parts.skip(i + 1)));
    lemma_concat_parts_split(parts, i + 1);
}

} // verus!
