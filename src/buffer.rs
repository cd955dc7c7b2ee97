//! The growable byte buffers of a stream, kept in `netbuf::Buf`.
use vstd::prelude::*;

verus! {

#[verifier::external_type_specification]
#[verifier::external_body]
pub struct ExBuf(netbuf::Buf);

/// The bytes that a buffer holds, front first.
pub uninterp spec fn buf_contents(b: netbuf::Buf) -> Seq<u8>;

/// Relies on `netbuf::Buf::new`: a new buffer holds no bytes.
#[verifier::external_body]
pub(crate) fn buf_new() -> (r: netbuf::Buf)
    ensures
        buf_contents(r) == Seq::<u8>::empty(),
{
    netbuf::Buf::new()
}

/// Relies on `netbuf::Buf::len`: the number of bytes held.
#[verifier::external_body]
pub(crate) fn buf_len(b: &netbuf::Buf) -> (r: usize)
    ensures
        r == buf_contents(*b).len(),
{
    b.len()
}

/// Relies on indexing a `netbuf::Buf` by `..`: the bytes held, as a slice.
#[verifier::external_body]
pub(crate) fn buf_bytes(b: &netbuf::Buf) -> (r: &[u8])
    ensures
        r@ == buf_contents(*b),
{
    &b[..]
}

/// Relies on `netbuf::Buf::remove_range(..)`: drops every byte held.
#[verifier::external_body]
pub(crate) fn buf_clear(b: &mut netbuf::Buf)
    ensures
        buf_contents(*final(b)) == Seq::<u8>::empty(),
{
    b.remove_range(..)
}

} // verus!
