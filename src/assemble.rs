//! Joining per-chunk transcripts into one document, in the order given.

use vstd::prelude::*;

verus! {

/// The bytes of `parts`, one after the other, in order.
pub open spec fn concatenation(parts: Seq<Seq<u8>>) -> Seq<u8>
    decreases parts.len(),
{
    if parts.len() == 0 {
        Seq::empty()
    } else {
        concatenation(parts.drop_last()) + parts.last()
    }
}

pub open spec fn contents(parts: Seq<Vec<u8>>) -> Seq<Seq<u8>> {
    parts.map_values(|v: Vec<u8>| v@)
}

/// The assembled document: the contents of every transcript, in the order
/// given, with nothing added, dropped or reordered.
pub fn assemble_transcript(parts: &Vec<Vec<u8>>) -> (r: Vec<u8>)
    ensures
        r@ == concatenation(contents(parts@)),
{
    let mut out: Vec<u8> = Vec::new();
    for i in 0..parts.len()
        invariant
            out@ == concatenation(contents(parts@).take(i as int)),
    {
        let ghost before = contents(parts@).take(i as int);
        assert(contents(parts@).take(i + 1).drop_last() =~= before);
        out.extend_from_slice(parts[i].as_slice());
    }
    assert(contents(parts@).take(parts.len() as int) =~= contents(parts@));
    out
}

/// Assembling a list followed by one more transcript appends that
/// transcript's bytes to the assembly of the list.
pub proof fn lemma_assemble_push(parts: Seq<Seq<u8>>, last: Seq<u8>)
    ensures
        concatenation(parts.push(last)) == concatenation(parts) + last,
{
    assert(parts.push(last).drop_last() =~= parts);
}

/// Three transcripts assemble to exactly their bytes, in the order given.
pub proof fn lemma_assemble_three(a: Seq<u8>, b: Seq<u8>, c: Seq<u8>)
    ensures
        concatenation(seq![a, b, c]) == a + b + c,
{
    let e = Seq::<Seq<u8>>::empty();
    lemma_assemble_push(e, a);
    lemma_assemble_push(e.push(a), b);
    lemma_assemble_push(e.push(a).push(b), c);
    assert(e.push(a).push(b).push(c) =~= seq![a, b, c]);
    assert(concatenation(e) + a =~= a);
}

} // verus!
