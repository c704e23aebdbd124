use vstd::prelude::*;
use vstd::slice::{slice_index_get, slice_subrange};

verus! {

/// Drop the first `length` bytes of `buffer`, or report that the buffer is
/// too short.
pub fn advance_buffer(length: usize, buffer: &[u8]) -> (r: Option<&[u8]>)
    ensures
        match r {
            Some(rest) => length <= buffer@.len() && rest@ == buffer@.skip(length as int),
            None => length > buffer@.len(),
        },
{
    if length <= buffer.len() {
        Some(slice_subrange(buffer, length, buffer.len()))
    } else {
        None
    }
}

/// Whether two byte slices hold the same bytes.
pub fn bytes_eq(a: &[u8], b: &[u8]) -> (r: bool)
    ensures
        r == (a@ == b@),
{
    if a.len() != b.len() {
        assert(a@ != b@) by {
            assert(a@.len() != b@.len());
        }
        return false;
    }
    let mut i: usize = 0;
    while i < a.len()
        invariant
            i <= a@.len(),
            a@.len() == b@.len(),
            forall|j: int| 0 <= j < i ==> a@[j] == b@[j],
        decreases a@.len() - i,
    {
        if *slice_index_get(a, i) != *slice_index_get(b, i) {
            return false;
        }
        i += 1;
    }
    proof {
        assert(a@ =~= b@);
    }
    true
}

/// Append every byte of `src` to `dst`.
pub fn push_bytes(dst: &mut Vec<u8>, src: &[u8])
    ensures
        final(dst)@ == old(dst)@ + src@,
{
    let mut i: usize = 0;
    while i < src.len()
        invariant
            i <= src@.len(),
            dst@ == old(dst)@ + src@.take(i as int),
        decreases src@.len() - i,
    {
        dst.push(*slice_index_get(src, i));
        proof {
            assert(dst@ =~= old(dst)@ + src@.take(i + 1));
        }
        i += 1;
    }
    proof {
        assert(src@.take(src@.len() as int) =~= src@);
    }
}

/// Relies on `std::str::from_utf8`: it succeeds exactly on the byte
/// sequences that are valid UTF-8.
#[verifier::external_body]
pub fn is_utf8(buffer: &[u8]) -> (r: bool)
    ensures
        r == vstd::utf8::valid_utf8(buffer@),
{
    std::str::from_utf8(buffer).is_ok()
}

} // verus!
