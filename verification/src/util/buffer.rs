use bytes::Bytes;
use vstd::prelude::*;

verus! {

/// `bytes::Bytes`, the immutable byte buffer in which MQTT payloads travel.
#[verifier::external_type_specification]
#[verifier::external_body]
pub struct ExBytes(Bytes);

/// The bytes a `Bytes` buffer holds, in order. A `Bytes` value is immutable,
/// so its contents are a function of the value.
pub uninterp spec fn bytes_content(b: Bytes) -> Seq<u8>;

/// `Bytes::from(Vec<u8>)`.
///
/// Trusted: the buffer takes over the vector and holds exactly its bytes
/// (bytes' `From<Vec<u8>>` reuses the vector's allocation).
#[verifier::external_body]
pub(crate) fn bytes_from_vec(v: Vec<u8>) -> (b: Bytes)
    ensures
        bytes_content(b) == v@,
{
    Bytes::from(v)
}

/// Copies the bytes out of a buffer (`Bytes` dereferences to `[u8]`, then
/// `<[u8]>::to_vec`).
///
/// Trusted: the returned vector holds exactly the buffer's bytes.
#[verifier::external_body]
pub(crate) fn bytes_to_vec(b: &Bytes) -> (v: Vec<u8>)
    ensures
        v@ == bytes_content(*b),
{
    b.to_vec()
}

} // verus!
