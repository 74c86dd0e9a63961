//! The payload functions of the two built-in processors.

use crate::ids::{fresh_uuid, is_random_uuid};
use crate::processors::models::InMemoryPacket;
use rand::Rng;
use vstd::prelude::*;

verus! {

/// Calls `gen_range(low..high)` on `rand::thread_rng()`, which draws a value
/// from the half-open range and panics where the range is empty. Trusted:
/// the value lies in the range; which one it is depends on chance.
#[verifier::external_body]
fn random_byte(low: u8, high: u8) -> (r: u8)
    requires
        low < high,
    ensures
        low <= r < high,
{
    rand::thread_rng().gen_range(low..high)
}

/// Whether `packet` is one that the adder makes: three bytes, each from 1
/// to 99, under a random identity.
pub open spec fn is_adder_packet(packet: InMemoryPacket) -> bool {
    &&& is_random_uuid(packet.id)
    &&& packet.data@.len() == 3
    &&& forall|i: int| 0 <= i < 3 ==> 1 <= #[trigger] packet.data@[i] < 100
}

/// Makes the packet of one tick of the adder. It always makes one.
pub fn adder_func() -> (r: Option<InMemoryPacket>)
    ensures
        r matches Some(packet) && is_adder_packet(packet),
{
    let mut data: Vec<u8> = Vec::new();
    let mut i: usize = 0;
    while i < 3
        invariant
            i <= 3,
            data@.len() == i,
            forall|j: int| 0 <= j < i ==> 1 <= #[trigger] data@[j] < 100,
        decreases 3 - i,
    {
        data.push(random_byte(1, 100));
        i = i + 1;
    }
    Some(InMemoryPacket { id: fresh_uuid(), data })
}

/// Whether every byte of `data` can be doubled within a byte.
pub open spec fn doubles_in_range(data: Seq<u8>) -> bool {
    forall|i: int| 0 <= i < data.len() ==> #[trigger] data[i] <= 127
}

/// Whether `doubled` holds each byte of `data` times two, in order.
pub open spec fn is_doubled(data: Seq<u8>, doubled: Seq<u8>) -> bool {
    &&& doubled.len() == data.len()
    &&& forall|i: int| 0 <= i < data.len() ==> #[trigger] doubled[i] == 2 * data[i]
}

/// Derives the doubler's packet: the same identity, every byte doubled.
/// A packet with a byte above 127, whose double is no byte, yields nothing.
pub fn doubler_func(packet: InMemoryPacket) -> (r: Option<InMemoryPacket>)
    ensures
        r is Some <==> doubles_in_range(packet.data@),
        r matches Some(derived) ==> derived.id == packet.id && is_doubled(
            packet.data@,
            derived.data@,
        ),
{
    let mut new_data: Vec<u8> = Vec::new();
    let mut i: usize = 0;
    while i < packet.data.len()
        invariant
            i <= packet.data@.len(),
            new_data@.len() == i,
            forall|j: int| 0 <= j < i ==> #[trigger] packet.data@[j] <= 127,
            forall|j: int| 0 <= j < i ==> #[trigger] new_data@[j] == 2 * packet.data@[j],
        decreases packet.data@.len() - i,
    {
        let x: u8 = packet.data[i];
        if x > 127 {
            return None;
        }
        new_data.push(x * 2);
        i = i + 1;
    }
    Some(InMemoryPacket { id: packet.id, data: new_data })
}

} // verus!
