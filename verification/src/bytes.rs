//! Small verified helpers on byte vectors.

use vstd::prelude::*;

verus! {

/// Appends every byte of `src` to `dst`, in order.
pub(crate) fn append_bytes(dst: &mut Vec<u8>, src: &Vec<u8>)
    ensures
        final(dst)@ == old(dst)@ + src@,
{
    let mut i: usize = 0;
    while i < src.len()
        invariant
            i <= src@.len(),
            dst@ == old(dst)@ + src@.take(i as int),
        decreases src@.len() - i,
    {
        dst.push(src[i]);
        i += 1;
        assert(dst@ =~= old(dst)@ + src@.take(i as int));
    }
    assert(dst@ =~= old(dst)@ + src@);
}

/// Returns a fresh vector holding the same bytes as `src`.
pub(crate) fn copy_bytes(src: &Vec<u8>) -> (r: Vec<u8>)
    ensures
        r@ == src@,
{
    let mut r: Vec<u8> = Vec::new();
    append_bytes(&mut r, src);
    assert(r@ =~= src@);
    r
}

/// Returns the first `len` bytes of `src`.
pub(crate) fn take_prefix(src: &Vec<u8>, len: usize) -> (r: Vec<u8>)
    requires
        len <= src@.len(),
    ensures
        r@ == src@.take(len as int),
{
    let mut r: Vec<u8> = Vec::new();
    let mut i: usize = 0;
    while i < len
        invariant
            i <= len,
            len <= src@.len(),
            r@ == src@.take(i as int),
        decreases len - i,
    {
        r.push(src[i]);
        i += 1;
        assert(r@ =~= src@.take(i as int));
    }
    r
}

} // verus!
