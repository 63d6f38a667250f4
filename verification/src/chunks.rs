//! The byte-sequence model of an echo session.
//!
//! A peer sends a finite byte sequence, which the transport hands to the
//! handler as a sequence of non-overlapping reads ("chunks"). The total
//! sequence the peer sent is the concatenation of those chunks, and the
//! lemmas here show that the concatenation does not depend on where the
//! chunk boundaries fall.

use vstd::prelude::*;

verus! {

/// The bytes a sequence of reads delivers, in arrival order: the
/// concatenation of all chunks.
pub open spec fn concat_chunks(chunks: Seq<Seq<u8>>) -> Seq<u8>
    decreases chunks.len(),
{
    if chunks.len() == 0 {
        Seq::empty()
    } else {
        chunks.first() + concat_chunks(chunks.drop_first())
    }
}

/// Concatenation distributes over appending two chunk lists.
pub proof fn lemma_concat_append(a: Seq<Seq<u8>>, b: Seq<Seq<u8>>)
    ensures
        concat_chunks(a + b) == concat_chunks(a) + concat_chunks(b),
    decreases a.len(),
{
    if a.len() == 0 {
        assert(a + b =~= b);
        assert(concat_chunks(a) + concat_chunks(b) =~= concat_chunks(b));
    } else {
        lemma_concat_append(a.drop_first(), b);
        assert((a + b).drop_first() =~= a.drop_first() + b);
        assert(concat_chunks(a + b) =~= concat_chunks(a) + concat_chunks(b));
    }
}

/// A single read delivers exactly its own bytes.
pub proof fn lemma_concat_singleton(x: Seq<u8>)
    ensures
        concat_chunks(seq![x]) == x,
{
    let s = seq![x];
    assert(s.drop_first() =~= Seq::<Seq<u8>>::empty());
    assert(concat_chunks(Seq::<Seq<u8>>::empty()) =~= Seq::<u8>::empty());
    assert(concat_chunks(s) =~= x);
}

/// Extending a chunk list by one read appends that read's bytes.
pub proof fn lemma_concat_take_succ(chunks: Seq<Seq<u8>>, i: int)
    requires
        0 <= i < chunks.len(),
    ensures
        concat_chunks(chunks.take(i + 1)) == concat_chunks(chunks.take(i)) + chunks[i],
{
    assert(chunks.take(i + 1) =~= chunks.take(i) + seq![chunks[i]]);
    lemma_concat_append(chunks.take(i), seq![chunks[i]]);
    lemma_concat_singleton(chunks[i]);
}

/// Chunk boundaries are irrelevant: splitting any one read into two
/// consecutive reads delivers the same total byte sequence, so sending a
/// payload in a single call or split across two calls echoes identically.
pub proof fn lemma_split_read(chunks: Seq<Seq<u8>>, i: int, k: int)
    requires
        0 <= i < chunks.len(),
        0 <= k <= chunks[i].len(),
    ensures
        concat_chunks(
            chunks.take(i) + seq![chunks[i].take(k), chunks[i].skip(k)] + chunks.skip(i + 1),
        ) == concat_chunks(chunks),
{
    let halves = seq![chunks[i].take(k), chunks[i].skip(k)];
    let whole = seq![chunks[i]];
    lemma_concat_append(chunks.take(i) + halves, chunks.skip(i + 1));
    lemma_concat_append(chunks.take(i), halves);
    lemma_concat_append(chunks.take(i) + whole, chunks.skip(i + 1));
    lemma_concat_append(chunks.take(i), whole);
    assert(halves =~= seq![chunks[i].take(k)] + seq![chunks[i].skip(k)]);
    lemma_concat_append(seq![chunks[i].take(k)], seq![chunks[i].skip(k)]);
    lemma_concat_singleton(chunks[i].take(k));
    lemma_concat_singleton(chunks[i].skip(k));
    assert(chunks[i].take(k) + chunks[i].skip(k) =~= chunks[i]);
    lemma_concat_singleton(chunks[i]);
    assert(chunks.take(i) + whole + chunks.skip(i + 1) =~= chunks);
    assert(concat_chunks(chunks.take(i) + halves + chunks.skip(i + 1)) =~= concat_chunks(chunks));
}

} // verus!
