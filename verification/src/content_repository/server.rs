//! The connection handler's side of the repository: which request a
//! completed read makes, and the bytes that answer the client.

use crate::content_repository::models::{bytes_of, copy_from_slice};
use bytes::Bytes;
use vstd::prelude::*;

verus! {

/// The most that one read takes from a connection.
pub const READ_CHUNK_SIZE: usize = 1024;

/// The offset that a client gets when it closed before sending anything.
pub const CLOSED_RESPONSE: u64 = 0;

/// The number that `bytes` spell in big-endian order.
pub open spec fn be_value(bytes: Seq<u8>) -> nat
    decreases bytes.len(),
{
    if bytes.len() == 0 {
        0
    } else {
        be_value(bytes.drop_last()) * 256 + bytes.last() as nat
    }
}

/// Turns one completed read into the payload of a write request. A read of
/// no bytes means that the client has closed: it makes no request.
pub fn handle_client_request(chunk: &[u8]) -> (r: Option<Bytes>)
    ensures
        r is Some <==> chunk@.len() > 0,
        r matches Some(content) ==> bytes_of(content) == chunk@,
{
    if chunk.len() == 0 {
        None
    } else {
        Some(copy_from_slice(chunk))
    }
}

/// The eight bytes that spell `offset` in big-endian order.
pub fn encode_offset(offset: u64) -> (r: Vec<u8>)
    ensures
        r@.len() == 8,
        be_value(r@) == offset,
{
    let b7: u8 = (offset % 256) as u8;
    let rest6: u64 = offset / 256;
    let b6: u8 = (rest6 % 256) as u8;
    let rest5: u64 = rest6 / 256;
    let b5: u8 = (rest5 % 256) as u8;
    let rest4: u64 = rest5 / 256;
    let b4: u8 = (rest4 % 256) as u8;
    let rest3: u64 = rest4 / 256;
    let b3: u8 = (rest3 % 256) as u8;
    let rest2: u64 = rest3 / 256;
    let b2: u8 = (rest2 % 256) as u8;
    let rest1: u64 = rest2 / 256;
    let b1: u8 = (rest1 % 256) as u8;
    let rest0: u64 = rest1 / 256;
    let b0: u8 = (rest0 % 256) as u8;
    let mut r: Vec<u8> = Vec::new();
    r.push(b0);
    assert(r@.drop_last() =~= Seq::<u8>::empty());
    assert(be_value(Seq::<u8>::empty()) == 0);
    assert(rest0 < 256);
    assert(be_value(r@) == rest0);
    let ghost s1 = r@;
    r.push(b1);
    assert(r@.drop_last() =~= s1);
    assert(be_value(r@) == rest1);
    let ghost s2 = r@;
    r.push(b2);
    assert(r@.drop_last() =~= s2);
    assert(be_value(r@) == rest2);
    let ghost s3 = r@;
    r.push(b3);
    assert(r@.drop_last() =~= s3);
    assert(be_value(r@) == rest3);
    let ghost s4 = r@;
    r.push(b4);
    assert(r@.drop_last() =~= s4);
    assert(be_value(r@) == rest4);
    let ghost s5 = r@;
    r.push(b5);
    assert(r@.drop_last() =~= s5);
    assert(be_value(r@) == rest5);
    let ghost s6 = r@;
    r.push(b6);
    assert(r@.drop_last() =~= s6);
    assert(be_value(r@) == rest6);
    let ghost s7 = r@;
    r.push(b7);
    assert(r@.drop_last() =~= s7);
    assert(be_value(r@) == offset);
    r
}

/// The bytes that answer a client: the offset of its record, or zero where
/// the client closed without sending one.
pub fn client_response(offset: Option<u64>) -> (r: Vec<u8>)
    ensures
        r@.len() == 8,
        be_value(r@) == match offset {
            Some(record_start) => record_start,
            None => CLOSED_RESPONSE,
        },
{
    match offset {
        Some(record_start) => encode_offset(record_start),
        None => encode_offset(CLOSED_RESPONSE),
    }
}

} // verus!
