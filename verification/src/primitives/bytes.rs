//! Helpers on fixed-size byte arrays.

use vstd::prelude::*;

verus! {

/// Whether two byte arrays hold the same bytes.
pub fn array_eq<const N: usize>(a: &[u8; N], b: &[u8; N]) -> (same: bool)
    ensures
        same == (*a == *b),
{
    let mut i: usize = 0;
    while i < N
        invariant
            i <= N,
            forall|j: int| 0 <= j < i ==> a@[j] == b@[j],
        decreases N - i,
    {
        if a[i] != b[i] {
            assert(a@[i as int] != b@[i as int]);
            return false;
        }
        i += 1;
    }
    assert(*a =~= *b);
    true
}

/// Copies the `N` bytes of `source` that start at `start` into an array.
pub fn array_from_slice<const N: usize>(source: &[u8], start: usize) -> (copy: [u8; N])
    requires
        start + N <= source@.len(),
    ensures
        copy@ == source@.subrange(start as int, start + N),
{
    let _len: usize = source.len();
    let mut copy: [u8; N] = [0u8; N];
    let mut i: usize = 0;
    while i < N
        invariant
            i <= N,
            start + N <= source@.len() <= usize::MAX,
            forall|j: int| 0 <= j < i ==> copy@[j] == source@[start + j],
        decreases N - i,
    {
        copy[i] = source[start + i];
        i += 1;
    }
    assert(copy@ =~= source@.subrange(start as int, start + N));
    copy
}

/// Appends the bytes of `tail` to `buffer`.
pub fn append_bytes(buffer: &mut Vec<u8>, tail: &[u8])
    ensures
        final(buffer)@ == old(buffer)@ + tail@,
{
    let mut i: usize = 0;
    while i < tail.len()
        invariant
            i <= tail@.len(),
            buffer@ == old(buffer)@ + tail@.take(i as int),
        decreases tail@.len() - i,
    {
        buffer.push(tail[i]);
        i += 1;
        assert(tail@.take(i as int) =~= tail@.take(i - 1).push(tail@[i - 1]));
        assert(buffer@ =~= old(buffer)@ + tail@.take(i as int));
    }
    assert(tail@.take(tail@.len() as int) =~= tail@);
}

} // verus!
