//! The audio hand-off queue: a fixed-capacity single-producer single-consumer
//! ring of sample bytes. The engine owns the producer end; this library owns
//! the consumer end and empties it once per frame.
//!
//! The two ends share the ring, so what the ring holds is not a fact of
//! either end alone. The contracts here speak only of what the reading end
//! has found for itself; what a push does is never stated.

use vstd::prelude::*;

verus! {

/// Number of sample bytes the hand-off queue can hold.
pub const AUDIO_QUEUE_CAPACITY: usize = 4096;

/// `rtrb::Producer`, the writing end of a ring. The library only carries it
/// from where the ring is made to the engine; nothing is claimed of it.
#[verifier::external_type_specification]
#[verifier::external_body]
#[verifier::reject_recursive_types(T)]
pub struct ExProducer<T>(rtrb::Producer<T>);

/// `rtrb::Consumer`, the reading end of a ring.
#[verifier::external_type_specification]
#[verifier::external_body]
#[verifier::reject_recursive_types(T)]
pub struct ExConsumer<T>(rtrb::Consumer<T>);

/// `rtrb::PopError`, what a pop from an empty ring reports.
#[verifier::external_type_specification]
#[verifier::external_body]
pub struct ExPopError(rtrb::PopError);

/// What the reading end `consumer` has found in its ring and not popped yet,
/// oldest first: the items between the two positions that the reading end
/// itself keeps. A push through the writing end does not change it; the
/// reading end finds what was pushed the next time it looks at the writing
/// position.
pub uninterp spec fn seen(consumer: rtrb::Consumer<u8>) -> Seq<u8>;

/// The number of slots the ring behind `consumer` was created with.
pub uninterp spec fn ring_capacity(consumer: rtrb::Consumer<u8>) -> nat;

/// `rtrb::RingBuffer::new`: allocates a ring with `capacity` slots and hands
/// back its two ends. Not proved: the reading end has found nothing yet, and
/// the ring has the capacity asked for.
#[verifier::external_body]
fn ring_buffer(capacity: usize) -> (ends: (rtrb::Producer<u8>, rtrb::Consumer<u8>))
    requires
        capacity <= isize::MAX,
    ensures
        seen(ends.1) == Seq::<u8>::empty(),
        ring_capacity(ends.1) == capacity,
{
    rtrb::RingBuffer::new(capacity)
}

/// `rtrb::Consumer::slots`: looks at the writing position and counts the
/// items that can be read. Not proved: what the reading end had found before
/// is still there, in front of whatever the look added; the count is that of
/// all it has found now, and is no more than the capacity. How much the look
/// adds is left open: it depends on what the writing end has done.
#[verifier::external_body]
fn ring_slots(consumer: &mut rtrb::Consumer<u8>) -> (slots: usize)
    ensures
        ring_capacity(*final(consumer)) == ring_capacity(*old(consumer)),
        seen(*old(consumer)).is_prefix_of(seen(*final(consumer))),
        slots == seen(*final(consumer)).len(),
        slots <= ring_capacity(*final(consumer)),
{
    consumer.slots()
}

/// `rtrb::Consumer::pop`. Not proved: where the reading end has found
/// something, the pop returns the oldest item found and removes it, without
/// another look at the writing position. Where it has found nothing, the pop
/// looks again and may go either way; of that case nothing is said but that
/// an error leaves nothing found. The capacity stays what it was.
#[verifier::external_body]
fn ring_pop(consumer: &mut rtrb::Consumer<u8>) -> (popped: Result<u8, rtrb::PopError>)
    ensures
        ring_capacity(*final(consumer)) == ring_capacity(*old(consumer)),
        seen(*old(consumer)).len() > 0 ==> popped == Ok::<u8, rtrb::PopError>(
            seen(*old(consumer))[0],
        ) && seen(*final(consumer)) == seen(*old(consumer)).skip(1),
        popped is Err ==> seen(*final(consumer)).len() == 0,
{
    consumer.pop()
}

/// Creates the hand-off queue and returns its two ends: the producer for the
/// engine, the consumer for the frame driver.
pub fn audio_channel() -> (ends: (rtrb::Producer<u8>, rtrb::Consumer<u8>))
    ensures
        seen(ends.1) == Seq::<u8>::empty(),
        ring_capacity(ends.1) == AUDIO_QUEUE_CAPACITY,
{
    ring_buffer(AUDIO_QUEUE_CAPACITY)
}

/// Looks once at what the ring holds and pops all of it, oldest first. What
/// the reading end had found before the call comes out first; what the look
/// adds follows. At most one ring's worth comes out, and afterwards the
/// reading end has nothing left that it has found. Samples pushed after the
/// look stay in the ring for the next drain.
pub fn drain_audio(consumer: &mut rtrb::Consumer<u8>) -> (stale: Vec<u8>)
    ensures
        ring_capacity(*final(consumer)) == ring_capacity(*old(consumer)),
        seen(*old(consumer)).is_prefix_of(stale@),
        stale@.len() <= ring_capacity(*old(consumer)),
        seen(*final(consumer)).len() == 0,
{
    let found = ring_slots(consumer);
    let ghost items = seen(*consumer);
    let mut stale: Vec<u8> = Vec::new();
    while stale.len() < found
        invariant
            found == items.len(),
            stale@.len() <= found,
            stale@ == items.take(stale@.len() as int),
            seen(*consumer) == items.skip(stale@.len() as int),
            ring_capacity(*consumer) == ring_capacity(*old(consumer)),
        decreases found - stale@.len(),
    {
        match ring_pop(consumer) {
            Ok(sample) => {
                stale.push(sample);
                assert(stale@ =~= items.take(stale@.len() as int));
                assert(seen(*consumer) =~= items.skip(stale@.len() as int));
            },
            Err(_) => {},
        }
    }
    assert(stale@ =~= items);
    stale
}

} // verus!
