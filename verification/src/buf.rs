//! Trusted surface over `bytes::BytesMut`, the reply buffer type the
//! protocol handler writes into.
//!
//! The buffer is opaque to the verifier; `bm_bytes` names its
//! contents, and each wrapper states over that name what the method
//! it calls does to them.
use vstd::prelude::*;

use bytes::BufMut;

verus! {

#[verifier::external_type_specification]
#[verifier::external_body]
pub struct ExBytesMut(bytes::BytesMut);

/// The bytes a `BytesMut` currently holds, front to back.
pub uninterp spec fn bm_bytes(b: bytes::BytesMut) -> Seq<u8>;

/// Relies on `BytesMut::new`: a newly created buffer is empty.
#[verifier::external_body]
pub(crate) fn bm_new() -> (r: bytes::BytesMut)
    ensures
        bm_bytes(r) == Seq::<u8>::empty(),
{
    bytes::BytesMut::new()
}

/// Relies on `BufMut::put_u8` on `BytesMut`: appends one byte.
#[verifier::external_body]
pub(crate) fn bm_put_u8(b: &mut bytes::BytesMut, v: u8)
    ensures
        bm_bytes(*final(b)) == bm_bytes(*old(b)).push(v),
{
    b.put_u8(v);
}

/// Relies on `BytesMut::extend_from_slice`: appends the slice's bytes.
#[verifier::external_body]
pub(crate) fn bm_extend_from_slice(b: &mut bytes::BytesMut, s: &[u8])
    ensures
        bm_bytes(*final(b)) == bm_bytes(*old(b)) + s@,
{
    b.extend_from_slice(s);
}

} // verus!
