//! Small operations on byte strings that the other modules share.

use vstd::prelude::*;

verus! {

/// Appends `source` to the end of `out`.
pub fn append_bytes(out: &mut Vec<u8>, source: &[u8])
    ensures
        final(out)@ == old(out)@ + source@,
{
    let mut i: usize = 0;
    while i < source.len()
        invariant
            i <= source.len(),
            out@ == old(out)@ + source@.subrange(0, i as int),
        decreases source.len() - i,
    {
        out.push(source[i]);
        i += 1;
        assert(out@ == old(out)@ + source@.subrange(0, i as int));
    }
    assert(source@.subrange(0, i as int) == source@);
}

/// A fresh vector with the bytes of `source`.
pub fn copy_bytes(source: &[u8]) -> (copy: Vec<u8>)
    ensures
        copy@ == source@,
{
    let mut copy: Vec<u8> = Vec::new();
    append_bytes(&mut copy, source);
    copy
}

/// Tells whether two byte strings hold the same bytes.
pub fn bytes_equal(left: &[u8], right: &[u8]) -> (same: bool)
    ensures
        same == (left@ == right@),
{
    if left.len() != right.len() {
        return false;
    }
    let mut i: usize = 0;
    while i < left.len()
        invariant
            i <= left.len(),
            left.len() == right.len(),
            left@.subrange(0, i as int) == right@.subrange(0, i as int),
        decreases left.len() - i,
    {
        if left[i] != right[i] {
            return false;
        }
        i += 1;
        assert(left@.subrange(0, i as int) == left@.subrange(0, i - 1).push(left@[i - 1]));
        assert(right@.subrange(0, i as int) == right@.subrange(0, i - 1).push(right@[i - 1]));
    }
    assert(left@.subrange(0, i as int) == left@);
    assert(right@.subrange(0, i as int) == right@);
    true
}

/// A sequence that stands between a fixed opening and a fixed ending can be read back:
/// two framed sequences are equal only if what they frame is equal.
pub proof fn lemma_framed_injective<T>(opening: Seq<T>, left: Seq<T>, right: Seq<T>, ending: Seq<T>)
    requires
        opening + left + ending == opening + right + ending,
    ensures
        left == right,
{
    let framed_left = opening + left + ending;
    let framed_right = opening + right + ending;
    assert(framed_left.len() == framed_right.len());
    assert(left == framed_left.subrange(opening.len() as int, (opening.len() + left.len()) as int));
    assert(right == framed_right.subrange(opening.len() as int, (opening.len() + right.len()) as int));
}

} // verus!
