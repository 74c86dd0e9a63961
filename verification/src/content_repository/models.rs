//! What connection handlers hand to the writer.

use bytes::Bytes;
use vstd::prelude::*;

verus! {

/// The payload buffer of the `bytes` crate, carried through as it is.
#[verifier::external_type_specification]
#[verifier::external_body]
pub struct ExBytes(bytes::Bytes);

/// The bytes that a payload buffer holds, in order.
pub uninterp spec fn bytes_of(content: Bytes) -> Seq<u8>;

/// Calls `Bytes::copy_from_slice`, which makes a buffer with a copy of the
/// slice. Trusted: the buffer holds the bytes of the slice.
#[verifier::external_body]
pub(crate) fn copy_from_slice(data: &[u8]) -> (r: Bytes)
    ensures
        bytes_of(r) == data@,
{
    Bytes::copy_from_slice(data)
}

/// Calls `as_ref` of `Bytes`, which lends the buffer as a slice. Trusted:
/// the slice holds the bytes of the buffer.
#[verifier::external_body]
pub(crate) fn as_slice(content: &Bytes) -> (r: &[u8])
    ensures
        r@ == bytes_of(*content),
{
    content.as_ref()
}

/// A request to the writer. `R` is the single-shot handle on which the
/// writer answers with the offset of the record.
#[derive(Debug)]
pub enum Command<R> {
    Data { content: Bytes, tx: R },
}

/// What the writer owes after it has taken one request: append `record` to
/// the file, flush, then send `offset` on `tx`.
#[derive(Debug)]
pub struct Written<R> {
    pub record: Vec<u8>,
    pub offset: u64,
    pub tx: R,
}

} // verus!
