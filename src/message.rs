//! Messages and their XOR checksum.
use vstd::prelude::*;

verus! {

/// XOR of all bytes of `s`, folded from the left; 0 for the empty sequence.
pub open spec fn xor_fold(s: Seq<u8>) -> u8
    decreases s.len(),
{
    if s.len() == 0 {
        0
    } else {
        xor_fold(s.drop_last()) ^ s.last()
    }
}

/// Grouping: the checksum of a concatenation is the XOR of the checksums of its parts.
pub proof fn lemma_xor_fold_append(s: Seq<u8>, t: Seq<u8>)
    ensures
        xor_fold(s + t) == xor_fold(s) ^ xor_fold(t),
    decreases t.len(),
{
    if t.len() == 0 {
        assert(s + t =~= s);
        let a = xor_fold(s);
        assert(a ^ 0u8 == a) by (bit_vector);
    } else {
        lemma_xor_fold_append(s, t.drop_last());
        assert((s + t).drop_last() =~= s + t.drop_last());
        let (a, b, c) = (xor_fold(s), xor_fold(t.drop_last()), t.last());
        assert((a ^ b) ^ c == a ^ (b ^ c)) by (bit_vector);
    }
}

/// Taking out the byte at `i` takes it out of the checksum.
proof fn lemma_xor_fold_remove(s: Seq<u8>, i: int)
    requires
        0 <= i < s.len(),
    ensures
        xor_fold(s) == xor_fold(s.remove(i)) ^ s[i],
{
    let pre = s.subrange(0, i);
    let post = s.subrange(i + 1, s.len() as int);
    assert(s =~= pre + seq![s[i]] + post);
    assert(s.remove(i) =~= pre + post);
    lemma_xor_fold_append(pre + seq![s[i]], post);
    lemma_xor_fold_append(pre, seq![s[i]]);
    lemma_xor_fold_append(pre, post);
    assert(seq![s[i]].drop_last() =~= Seq::<u8>::empty());
    assert(xor_fold(Seq::<u8>::empty()) == 0);
    assert(xor_fold(seq![s[i]]) == 0u8 ^ s[i]);
    let (a, b, c) = (xor_fold(pre), s[i], xor_fold(post));
    assert((a ^ (0u8 ^ b)) ^ c == (a ^ c) ^ b) by (bit_vector);
}

/// Order independence: two payloads holding the same bytes, in any order, have the
/// same checksum.
pub proof fn lemma_xor_fold_permutation(s: Seq<u8>, t: Seq<u8>)
    requires
        s.to_multiset() =~= t.to_multiset(),
    ensures
        xor_fold(s) == xor_fold(t),
    decreases s.len(),
{
    vstd::seq_lib::to_multiset_len(s);
    vstd::seq_lib::to_multiset_len(t);
    if s.len() > 0 {
        let i = s.len() - 1;
        let x = s[i];
        vstd::seq_lib::to_multiset_contains(s, x);
        vstd::seq_lib::to_multiset_contains(t, x);
        assert(s.contains(x));
        assert(t.contains(x));
        let j = choose|j: int| 0 <= j < t.len() && t[j] == x;
        vstd::seq_lib::to_multiset_remove(s, i);
        vstd::seq_lib::to_multiset_remove(t, j);
        lemma_xor_fold_remove(s, i);
        lemma_xor_fold_remove(t, j);
        lemma_xor_fold_permutation(s.remove(i), t.remove(j));
    }
}

/// Changing one byte of a payload always changes its checksum.
pub proof fn lemma_single_byte_change_detected(s: Seq<u8>, i: int, b: u8)
    requires
        0 <= i < s.len(),
        b != s[i],
    ensures
        xor_fold(s.update(i, b)) != xor_fold(s),
{
    lemma_xor_fold_remove(s, i);
    lemma_xor_fold_remove(s.update(i, b), i);
    assert(s.update(i, b).remove(i) =~= s.remove(i));
    let (a, c) = (xor_fold(s.remove(i)), s[i]);
    assert(c != b ==> (a ^ b) != (a ^ c)) by (bit_vector);
}

/// A message received with one payload byte changed since its checksum was taken
/// fails verification.
pub proof fn lemma_corrupted_message_fails(m: Message, corrupted: Message, i: int)
    requires
        m.is_intact(),
        0 <= i < m.payload@.len(),
        corrupted.checksum == m.checksum,
        corrupted.payload@ == m.payload@.update(i, corrupted.payload@[i]),
        corrupted.payload@[i] != m.payload@[i],
    ensures
        !corrupted.is_intact(),
{
    lemma_single_byte_change_detected(m.payload@, i, corrupted.payload@[i]);
}

/// A message built by `Message::new` from any id and payload passes verification.
pub proof fn lemma_round_trip(id: u16, payload: Vec<u8>)
    ensures
        (Message { id, payload, checksum: xor_fold(payload@) }).is_intact(),
{
}

/// A message: an identifier, a payload and the checksum taken over the payload.
pub struct Message {
    pub id: u16,
    pub payload: Vec<u8>,
    pub checksum: u8,
}

impl Message {
    /// The stored checksum agrees with the payload.
    pub open spec fn is_intact(&self) -> bool {
        self.checksum == xor_fold(self.payload@)
    }

    /// Builds a message, computing its checksum over `payload`.
    pub fn new(id: u16, payload: Vec<u8>) -> (r: Message)
        ensures
            r.id == id,
            r.payload == payload,
            r.checksum == xor_fold(payload@),
            r.is_intact(),
    {
        let checksum = Self::calculate_checksum(payload.as_slice());
        Message { id, payload, checksum }
    }

    /// XOR of all bytes of `payload`.
    pub fn calculate_checksum(payload: &[u8]) -> (r: u8)
        ensures
            r == xor_fold(payload@),
    {
        let mut acc: u8 = 0;
        let mut i: usize = 0;
        while i < payload.len()
            invariant
                i <= payload@.len(),
                acc == xor_fold(payload@.subrange(0, i as int)),
            decreases payload@.len() - i,
        {
            assert(payload@.subrange(0, i + 1).drop_last() =~= payload@.subrange(0, i as int));
            acc = acc ^ payload[i];
            i = i + 1;
        }
        assert(payload@.subrange(0, i as int) =~= payload@);
        acc
    }

    /// Recomputes the checksum over the payload and compares it with the stored one.
    pub fn verify_checksum(&self) -> (r: bool)
        ensures
            r == self.is_intact(),
    {
        self.checksum == Self::calculate_checksum(self.payload.as_slice())
    }
}

} // verus!
