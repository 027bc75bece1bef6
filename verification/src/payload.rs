//! Message payloads: immutable byte buffers of the `bytes` crate.

use vstd::prelude::*;

verus! {

/// `bytes::Bytes`, an immutable, cheaply cloneable byte buffer.
#[verifier::external_type_specification]
#[verifier::external_body]
pub struct ExBytes(bytes::Bytes);

/// The bytes that a buffer holds, in order.
pub uninterp spec fn payload_bytes(buffer: bytes::Bytes) -> Seq<u8>;

/// `bytes::Bytes::copy_from_slice`: a new buffer, independent of `data`, that
/// holds a copy of exactly the bytes of `data`.
#[verifier::external_body]
pub(crate) fn copy_from_slice(data: &[u8]) -> (buffer: bytes::Bytes)
    ensures
        payload_bytes(buffer) == data@,
{
    bytes::Bytes::copy_from_slice(data)
}

/// `Clone::clone` of `bytes::Bytes`: another handle on the same bytes.
pub assume_specification[ <bytes::Bytes as Clone>::clone ](buffer: &bytes::Bytes) -> (copy: bytes::Bytes)
    ensures
        payload_bytes(copy) == payload_bytes(*buffer),
;

/// `to_vec` on the slice that `bytes::Bytes` dereferences to: the bytes of
/// the buffer, copied into a vector.
#[verifier::external_body]
pub(crate) fn to_vec(buffer: &bytes::Bytes) -> (data: Vec<u8>)
    ensures
        data@ == payload_bytes(*buffer),
{
    buffer.to_vec()
}

} // verus!
