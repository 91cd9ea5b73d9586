use vstd::prelude::*;

verus! {

/// Declares `bytes::Bytes`, the reference-counted byte buffer used as the
/// payload type of the byte-publishing helpers, so that it can appear in
/// signatures. The value is opaque here; what it holds is spoken of only
/// through [`bytes_view`].
#[verifier::external_type_specification]
#[verifier::external_body]
pub struct ExBytes(bytes::Bytes);

/// The bytes a `bytes::Bytes` buffer holds.
pub uninterp spec fn bytes_view(b: bytes::Bytes) -> Seq<u8>;

/// Relies on `bytes::Bytes::copy_from_slice`: the returned buffer holds a
/// copy of exactly the slice's bytes.
#[verifier::external_body]
pub(crate) fn bytes_copy_from_slice(data: &[u8]) -> (b: bytes::Bytes)
    ensures
        bytes_view(b) == data@,
{
    bytes::Bytes::copy_from_slice(data)
}

/// Relies on `<bytes::Bytes as From<Vec<u8>>>::from`: the conversion takes
/// the vector's bytes over unchanged, without copying.
#[verifier::external_body]
pub(crate) fn bytes_from_vec(data: Vec<u8>) -> (b: bytes::Bytes)
    ensures
        bytes_view(b) == data@,
{
    bytes::Bytes::from(data)
}

} // verus!
