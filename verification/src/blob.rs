//! Byte buffers shared with the backing store.

use vstd::prelude::*;

verus! {

/// `bytes::Bytes`, a buffer of bytes that is cheap to clone. Nothing is
/// known of a buffer but what the items below say.
#[verifier::external_type_specification]
#[verifier::external_body]
pub struct ExBytes(bytes::Bytes);

/// The bytes that a buffer holds, in order.
pub uninterp spec fn bytes_contents(b: bytes::Bytes) -> Seq<u8>;

/// The bytes of a buffer that may be absent.
pub open spec fn optional_contents(b: Option<bytes::Bytes>) -> Option<Seq<u8>> {
    match b {
        Some(b) => Some(bytes_contents(b)),
        None => None,
    }
}

/// `bytes::Bytes::new`: a buffer that holds no bytes.
#[verifier::external_body]
pub(crate) fn empty_bytes() -> (b: bytes::Bytes)
    ensures
        bytes_contents(b) == Seq::<u8>::empty(),
{
    bytes::Bytes::new()
}

/// `bytes::Bytes::from` on a vector: a buffer that holds the vector's bytes
/// in the vector's order.
#[verifier::external_body]
pub(crate) fn bytes_from_vec(v: Vec<u8>) -> (b: bytes::Bytes)
    ensures
        bytes_contents(b) == v@,
{
    bytes::Bytes::from(v)
}

/// `Clone::clone` of `bytes::Bytes`: a second handle on the same bytes.
pub assume_specification[ <bytes::Bytes as Clone>::clone ](b: &bytes::Bytes) -> (c: bytes::Bytes)
    ensures
        bytes_contents(c) == bytes_contents(*b),
;

} // verus!
