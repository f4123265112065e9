use vstd::prelude::*;
use vstd::bytes::lemma_auto_spec_u32_to_from_le_bytes;
use vstd::bytes::spec_u32_from_le_bytes;
use vstd::bytes::spec_u32_to_le_bytes;
use vstd::bytes::u32_from_le_bytes;
use vstd::bytes::u32_to_le_bytes;
use vstd::slice::slice_subrange;

use crate::error::DobotError;

verus! {

/// Densely packed little-endian encoding of a sequence of 32-bit words.
pub open spec fn le_words(w: Seq<u32>) -> Seq<u8>
    decreases w.len(),
{
    if w.len() == 0 {
        Seq::empty()
    } else {
        le_words(w.drop_last()) + spec_u32_to_le_bytes(w.last())
    }
}

/// The 32-bit little-endian words of `s`, four bytes each; a trailing remainder is ignored.
pub open spec fn words_of(s: Seq<u8>) -> Seq<u32>
    decreases s.len(),
{
    if s.len() < 4 {
        Seq::empty()
    } else {
        let k = (s.len() / 4) as int * 4;
        words_of(s.subrange(0, k - 4)).push(spec_u32_from_le_bytes(s.subrange(k - 4, k)))
    }
}

/// A record of `n` words read from a reply: exactly `4 * n` bytes are required.
pub open spec fn record_words(s: Seq<u8>, n: nat) -> Result<Seq<u32>, DobotError> {
    if s.len() == 4 * n {
        Ok(words_of(s))
    } else {
        Err(DobotError::Decode)
    }
}

pub proof fn lemma_le_words_len(w: Seq<u32>)
    ensures
        le_words(w).len() == 4 * w.len(),
    decreases w.len(),
{
    lemma_auto_spec_u32_to_from_le_bytes();
    if w.len() > 0 {
        lemma_le_words_len(w.drop_last());
    }
}

pub proof fn lemma_words_of_len(s: Seq<u8>)
    ensures
        words_of(s).len() == s.len() / 4,
    decreases s.len(),
{
    if s.len() >= 4 {
        let k = (s.len() / 4) as int * 4;
        lemma_words_of_len(s.subrange(0, k - 4));
    }
}

/// Fixed-layout round trip: decoding the packed bytes of any sequence of words gives the
/// same words back, bit for bit. Every parameter record is packed this way.
pub proof fn lemma_words_round_trip(w: Seq<u32>)
    ensures
        le_words(w).len() == 4 * w.len(),
        words_of(le_words(w)) == w,
    decreases w.len(),
{
    lemma_auto_spec_u32_to_from_le_bytes();
    lemma_le_words_len(w);
    if w.len() > 0 {
        let v = w.drop_last();
        lemma_words_round_trip(v);
        let s = le_words(w);
        let k = 4 * w.len() as int;
        assert((s.len() / 4) * 4 == k);
        assert(s.subrange(0, k - 4) =~= le_words(v));
        assert(s.subrange(k - 4, k) =~= spec_u32_to_le_bytes(w.last()));
        assert(words_of(s) =~= w);
    }
}

/// Fixed-layout round trip at the level of a record: the packed bytes of a record of `n`
/// words have exactly the record's width, and reading a record of `n` words from them gives
/// every field back.
pub proof fn lemma_record_round_trip(w: Seq<u32>)
    ensures
        record_words(le_words(w), w.len()) == Ok::<Seq<u32>, DobotError>(w),
{
    lemma_words_round_trip(w);
}

/// Packs words in order, four little-endian bytes each.
pub fn encode_words(w: &[u32]) -> (r: Vec<u8>)
    ensures
        r@ == le_words(w@),
{
    let mut out: Vec<u8> = Vec::new();
    let mut i: usize = 0;
    while i < w.len()
        invariant
            i <= w@.len(),
            out@ == le_words(w@.subrange(0, i as int)),
        decreases w@.len() - i,
    {
        let mut b = u32_to_le_bytes(w[i]);
        proof {
            assert(w@.subrange(0, i + 1).drop_last() =~= w@.subrange(0, i as int));
        }
        out.append(&mut b);
        i += 1;
    }
    proof {
        assert(w@.subrange(0, w@.len() as int) =~= w@);
    }
    out
}

/// Unpacks the little-endian words of a buffer; a trailing remainder of fewer than four
/// bytes is ignored.
pub fn decode_words(b: &[u8]) -> (r: Vec<u32>)
    ensures
        r@ == words_of(b@),
        r@.len() == b@.len() / 4,
{
    let len = b.len();
    let n = len / 4;
    let mut out: Vec<u32> = Vec::new();
    let mut i: usize = 0;
    while i < n
        invariant
            n == b@.len() / 4,
            len == b@.len(),
            i <= n,
            out@ == words_of(b@.subrange(0, 4 * i)),
        decreases n - i,
    {
        let x = u32_from_le_bytes(slice_subrange(b, 4 * i, 4 * i + 4));
        proof {
            let s = b@.subrange(0, 4 * i + 4);
            assert((s.len() / 4) * 4 == 4 * i + 4);
            assert(s.subrange(0, 4 * i) =~= b@.subrange(0, 4 * i));
            assert(s.subrange(4 * i, 4 * i + 4) =~= b@.subrange(4 * i, 4 * i + 4));
        }
        out.push(x);
        i += 1;
    }
    proof {
        if n > 0 {
            let s = b@.subrange(0, 4 * n);
            assert((s.len() / 4) * 4 == 4 * n);
            assert(s.subrange(0, 4 * n - 4) =~= b@.subrange(0, 4 * n - 4));
            assert(s.subrange(4 * n - 4, 4 * n) =~= b@.subrange(4 * n - 4, 4 * n));
        }
        lemma_words_of_len(b@);
    }
    out
}

} // verus!
