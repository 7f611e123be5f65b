//! The ingress ring.
//!
//! Samples leave the device callback through a bounded queue. A push never
//! waits and never allocates: what does not fit is dropped. A pop hands out
//! the oldest sample.
//!
//! While the ring is in one piece its owner is the only one to touch it, and
//! everything about its content is known. For use across threads the ring is
//! split into a producer half for the callback and a consumer half for the
//! capture worker; then neither half can know how full the queue is at any
//! moment, and what is stated of a half holds whatever the other does
//! meanwhile. Two things do hold of a half by itself. The producer is sure of
//! the room that the ring had when it was split, less what it has pushed
//! since: the consumer can only make more. The consumer is sure of the samples
//! that the ring held when it was split: they come out first and in order,
//! the producer can only add behind them.

use ringbuf::traits::Consumer;
use ringbuf::traits::Observer;
use ringbuf::traits::Producer;
use ringbuf::traits::Split;
use ringbuf::HeapCons;
use ringbuf::HeapProd;
use ringbuf::HeapRb;
use vstd::prelude::*;

verus! {

/// Seconds of device audio that the ring holds.
pub const RING_SECONDS: u64 = 600;

/// A ring of the `ringbuf` crate in one piece.
#[verifier::external_body]
pub struct IngressRing {
    inner: HeapRb<u32>,
}

/// The producing half of a ring of the `ringbuf` crate.
#[verifier::external_body]
pub struct RingProducer {
    inner: HeapProd<u32>,
}

/// The consuming half of a ring of the `ringbuf` crate.
#[verifier::external_body]
pub struct RingConsumer {
    inner: HeapCons<u32>,
}

/// What a ring in one piece holds, oldest first.
pub uninterp spec fn queued(ring: IngressRing) -> Seq<u32>;

/// The number of samples a ring in one piece was made to hold.
pub uninterp spec fn queue_capacity(ring: IngressRing) -> nat;

/// The room that a producer half is sure of: the free places that the ring
/// had when it was split, less the samples pushed through the half since, and
/// none once those are used up. It changes with the producer's own pushes
/// only.
pub uninterp spec fn producer_room(producer: RingProducer) -> nat;

/// The samples that a consumer half is sure of: those that the ring held
/// when it was split and that have not been taken out yet, oldest first. It
/// changes with the consumer's own pops only.
pub uninterp spec fn consumer_backlog(consumer: RingConsumer) -> Seq<u32>;

/// The free places of a ring that holds `held` samples of at most `capacity`.
pub open spec fn spec_room(held: nat, capacity: nat) -> nat {
    if held >= capacity {
        0
    } else {
        (capacity - held) as nat
    }
}

/// The room that is left of `room` once `accepted` samples have gone in.
pub open spec fn spec_room_after(room: nat, accepted: nat) -> nat {
    if accepted >= room {
        0
    } else {
        (room - accepted) as nat
    }
}

/// How many of `offered` samples a ring takes that holds `held` of at most
/// `capacity`.
pub open spec fn spec_accepted(held: nat, capacity: nat, offered: nat) -> nat {
    if held >= capacity {
        0
    } else if offered <= capacity - held {
        offered
    } else {
        (capacity - held) as nat
    }
}

/// Makes an empty ring for `capacity` samples.
///
/// Calls `HeapRb::new`, which panics on a capacity of zero and on one whose
/// allocation exceeds the address space; both are excluded here.
#[verifier::external_body]
fn ring_new(capacity: usize) -> (ring: IngressRing)
    requires
        0 < capacity <= isize::MAX / 4,
    ensures
        queued(ring) == Seq::<u32>::empty(),
        queue_capacity(ring) == capacity,
{
    IngressRing { inner: HeapRb::<u32>::new(capacity) }
}

/// Appends as many of `samples` as there is room for and returns their
/// number.
///
/// Calls `Producer::push_slice` on the ring itself, which copies the leading
/// part of the slice that fits the vacant places and returns its length.
#[verifier::external_body]
fn ring_push_slice(ring: &mut IngressRing, samples: &[u32]) -> (accepted: usize)
    ensures
        accepted == spec_accepted(
            queued(*old(ring)).len(),
            queue_capacity(*old(ring)),
            samples@.len(),
        ),
        queued(*final(ring)) == queued(*old(ring)) + samples@.take(accepted as int),
        queue_capacity(*final(ring)) == queue_capacity(*old(ring)),
{
    ring.inner.push_slice(samples)
}

/// Takes the oldest sample out, if there is one.
///
/// Calls `Consumer::try_pop` on the ring itself.
#[verifier::external_body]
fn ring_try_pop(ring: &mut IngressRing) -> (sample: Option<u32>)
    ensures
        queue_capacity(*final(ring)) == queue_capacity(*old(ring)),
        queued(*old(ring)).len() == 0 ==> sample is None && queued(*final(ring)) == queued(*old(ring)),
        queued(*old(ring)).len() > 0 ==> sample == Some(queued(*old(ring))[0]) && queued(*final(ring)) == queued(*old(ring)).skip(1),
{
    ring.inner.try_pop()
}

/// The number of samples in the ring.
///
/// Calls `Observer::occupied_len` on the ring itself.
#[verifier::external_body]
fn ring_occupied_len(ring: &IngressRing) -> (n: usize)
    ensures
        n == queued(*ring).len(),
{
    ring.inner.occupied_len()
}

/// Splits the ring into its two halves.
///
/// Calls `Split::split`, which puts the ring behind a shared pointer and
/// makes one half of each kind over it; each half starts from the ring's
/// indices as they are. So the producer begins with the ring's free places
/// and the consumer with the ring's content.
#[verifier::external_body]
fn ring_split(ring: IngressRing) -> (halves: (RingProducer, RingConsumer))
    ensures
        producer_room(halves.0) == spec_room(queued(ring).len(), queue_capacity(ring)),
        consumer_backlog(halves.1) == queued(ring),
{
    let (producer, consumer) = ring.inner.split();
    (RingProducer { inner: producer }, RingConsumer { inner: consumer })
}

/// Appends as many of `samples` as there is room for and returns their
/// number.
///
/// Calls `Producer::push_slice` on the producer half, which reads the
/// consumer's index afresh, copies the leading part of the slice that fits the
/// free places and returns its length. The free places are never fewer than
/// the room the producer is sure of, since the consumer only ever frees more;
/// how many more there are depends on what the consumer has taken meanwhile.
#[verifier::external_body]
fn producer_push_slice(producer: &mut RingProducer, samples: &[u32]) -> (accepted: usize)
    ensures
        accepted <= samples@.len(),
        samples@.len() <= producer_room(*old(producer)) ==> accepted == samples@.len(),
        samples@.len() > producer_room(*old(producer)) ==> accepted >= producer_room(
            *old(producer),
        ),
        producer_room(*final(producer)) == spec_room_after(
            producer_room(*old(producer)),
            accepted as nat,
        ),
{
    producer.inner.push_slice(samples)
}

/// The number of samples waiting, as far as the consumer can tell.
///
/// Calls `Observer::occupied_len` on the consumer half, which reads the
/// producer's index afresh. The samples that the consumer is sure of are among
/// those counted; the producer may have added any number behind them.
#[verifier::external_body]
fn consumer_occupied_len(consumer: &RingConsumer) -> (waiting: usize)
    ensures
        waiting >= consumer_backlog(*consumer).len(),
{
    consumer.inner.occupied_len()
}

/// Takes the oldest sample out, if there is one.
///
/// Calls `Consumer::try_pop` on the consumer half. While samples are left of
/// those that the ring held when it was split, the oldest of them is what
/// comes out; after them comes whatever the producer has added, if anything.
#[verifier::external_body]
fn consumer_try_pop(consumer: &mut RingConsumer) -> (sample: Option<u32>)
    ensures
        consumer_backlog(*old(consumer)).len() > 0 ==> sample == Some(
            consumer_backlog(*old(consumer))[0],
        ) && consumer_backlog(*final(consumer)) == consumer_backlog(*old(consumer)).skip(1),
        consumer_backlog(*old(consumer)).len() == 0 ==> consumer_backlog(*final(consumer))
            == consumer_backlog(*old(consumer)),
{
    consumer.inner.try_pop()
}

/// The capacity of the ring for a device that delivers `device_rate` samples
/// per second: `RING_SECONDS` of audio. `None` for a rate of zero and for a
/// ring that could not be allocated.
pub open spec fn spec_ring_capacity(device_rate: u32) -> Option<usize> {
    if device_rate == 0 || device_rate * RING_SECONDS > isize::MAX / 4 {
        None
    } else {
        Some((device_rate * RING_SECONDS) as usize)
    }
}

/// The capacity of the ring for a device rate.
pub fn ring_capacity(device_rate: u32) -> (capacity: Option<usize>)
    ensures
        capacity == spec_ring_capacity(device_rate),
{
    let wide: u64 = (device_rate as u64) * RING_SECONDS;
    if device_rate == 0 || wide > (isize::MAX / 4) as u64 {
        None
    } else {
        Some(wide as usize)
    }
}

/// Makes the ring for a device rate and hands out its two halves: a producer
/// with all the ring's room and a consumer with nothing waiting.
pub fn create(device_rate: u32) -> (halves: Option<(RingProducer, RingConsumer)>)
    ensures
        halves is Some <==> spec_ring_capacity(device_rate) is Some,
        halves is Some ==> halves->Some_0.0.room() == spec_ring_capacity(device_rate)->Some_0
            && halves->Some_0.1.backlog() == Seq::<u32>::empty(),
{
    match ring_capacity(device_rate) {
        Some(capacity) => Some(ring_split(ring_new(capacity))),
        None => None,
    }
}

impl View for IngressRing {
    type V = Seq<u32>;

    /// What the ring holds, oldest first.
    open spec fn view(&self) -> Seq<u32> {
        queued(*self)
    }
}

impl IngressRing {
    /// The number of samples the ring was made to hold.
    pub open spec fn spec_capacity(&self) -> nat {
        queue_capacity(*self)
    }

    /// The ring never holds more than its capacity.
    pub open spec fn wf(&self) -> bool {
        self@.len() <= self.spec_capacity()
    }

    /// An empty ring for `capacity` samples; `None` for a capacity of zero
    /// and for one that could not be allocated.
    pub fn new(capacity: usize) -> (r: Option<Self>)
        ensures
            r is Some <==> 0 < capacity <= isize::MAX / 4,
            r is Some ==> r->Some_0.wf() && r->Some_0@ == Seq::<u32>::empty()
                && r->Some_0.spec_capacity() == capacity,
    {
        if capacity == 0 || capacity > (isize::MAX / 4) as usize {
            None
        } else {
            Some(ring_new(capacity))
        }
    }

    /// The number of samples in the ring.
    pub fn len(&self) -> (n: usize)
        ensures
            n == self@.len(),
    {
        ring_occupied_len(self)
    }

    /// Appends as many of `samples` as there is room for, without waiting,
    /// and returns their number; the rest is dropped.
    pub fn push_slice(&mut self, samples: &[u32]) -> (accepted: usize)
        requires
            old(self).wf(),
        ensures
            final(self).wf(),
            accepted == spec_accepted(
                old(self)@.len(),
                old(self).spec_capacity(),
                samples@.len(),
            ),
            final(self)@ == old(self)@ + samples@.take(accepted as int),
            final(self).spec_capacity() == old(self).spec_capacity(),
    {
        ring_push_slice(self, samples)
    }

    /// Takes the oldest sample out, if there is one.
    pub fn try_pop_one(&mut self) -> (sample: Option<u32>)
        ensures
            final(self).spec_capacity() == old(self).spec_capacity(),
            old(self)@.len() == 0 ==> sample is None && final(self)@ == old(self)@,
            old(self)@.len() > 0 ==> sample == Some(old(self)@[0]) && final(self)@ == old(self)@.skip(1),
            old(self).wf() ==> final(self).wf(),
    {
        ring_try_pop(self)
    }

    /// Moves everything the ring holds to the end of `out`, oldest first, and
    /// returns how much that was.
    pub fn drain_into(&mut self, out: &mut Vec<u32>) -> (moved: usize)
        requires
            old(self).wf(),
        ensures
            final(self).wf(),
            final(out)@ == old(out)@ + old(self)@,
            final(self)@ == Seq::<u32>::empty(),
            final(self).spec_capacity() == old(self).spec_capacity(),
            moved == old(self)@.len(),
    {
        let ghost start = out@;
        let ghost all = self@;
        let total: usize = ring_occupied_len(self);
        let mut moved: usize = 0;
        proof {
            assert(all.take(0) =~= Seq::<u32>::empty());
            assert(start + all.take(0) =~= start);
            assert(all.skip(0) =~= all);
        }
        while moved < total
            invariant
                moved <= total,
                total == all.len(),
                out@ == start + all.take(moved as int),
                self@ == all.skip(moved as int),
                self.spec_capacity() == old(self).spec_capacity(),
            decreases total - moved,
        {
            let sample: Option<u32> = ring_try_pop(self);
            match sample {
                Some(value) => {
                    out.push(value);
                    proof {
                        assert(all.skip(moved as int)[0] == all[moved as int]);
                        assert(all.take(moved + 1) =~= all.take(moved as int).push(
                            all[moved as int],
                        ));
                        assert(all.skip(moved as int).skip(1) =~= all.skip(moved + 1));
                    }
                    moved = moved + 1;
                },
                None => {
                    proof {
                        assert(all.skip(moved as int).len() == all.len() - moved);
                    }
                },
            }
        }
        proof {
            assert(all.take(total as int) =~= all);
            assert(all.skip(total as int) =~= Seq::<u32>::empty());
        }
        moved
    }

    /// Splits the ring into a producer half and a consumer half, each to be
    /// used from one thread. The producer starts with the ring's free places
    /// and the consumer with the ring's content.
    pub fn split(self) -> (halves: (RingProducer, RingConsumer))
        ensures
            halves.0.room() == spec_room(self@.len(), self.spec_capacity()),
            halves.1.backlog() == self@,
    {
        ring_split(self)
    }
}

impl RingProducer {
    /// The room that the producer is sure of: the free places that the ring
    /// had when it was split, less the samples pushed since. The consumer may
    /// have made more.
    pub open spec fn room(&self) -> nat {
        producer_room(*self)
    }

    /// Appends as many of `samples` as there is room for, without waiting,
    /// and returns their number; the rest is dropped. Whatever the consumer
    /// does meanwhile, the samples that fit the room the producer is sure of
    /// are accepted.
    pub fn push_slice(&mut self, samples: &[u32]) -> (accepted: usize)
        ensures
            accepted <= samples@.len(),
            samples@.len() <= old(self).room() ==> accepted == samples@.len(),
            samples@.len() > old(self).room() ==> accepted >= old(self).room(),
            final(self).room() == spec_room_after(old(self).room(), accepted as nat),
    {
        producer_push_slice(self, samples)
    }
}

impl RingConsumer {
    /// The samples that the consumer is sure of: those that the ring held
    /// when it was split and that have not been taken out yet, oldest first.
    /// The producer may have added more behind them.
    pub open spec fn backlog(&self) -> Seq<u32> {
        consumer_backlog(*self)
    }

    /// Moves the samples that are waiting to the end of `out`, oldest first,
    /// and returns their number. The samples that the consumer is sure of
    /// come first, all of them and in order; samples that the producer has
    /// added follow, and those that arrive during the call may or may not be
    /// among them.
    pub fn drain_into(&mut self, out: &mut Vec<u32>) -> (moved: usize)
        ensures
            final(out)@.len() == old(out)@.len() + moved,
            final(out)@.take(old(out)@.len() as int) == old(out)@,
            moved >= old(self).backlog().len(),
            final(out)@.take((old(out)@.len() + old(self).backlog().len()) as int) == old(out)@
                + old(self).backlog(),
            final(self).backlog() == Seq::<u32>::empty(),
    {
        let ghost start = out@;
        let ghost sure = self.backlog();
        let waiting: usize = consumer_occupied_len(self);
        let mut moved: usize = 0;
        proof {
            assert(sure.take(0) =~= Seq::<u32>::empty());
            assert(start + sure.take(0) =~= start);
            assert(sure.skip(0) =~= sure);
        }
        while moved < waiting
            invariant
                moved <= waiting,
                waiting >= sure.len(),
                start == old(out)@,
                sure == old(self).backlog(),
                out@.len() == start.len() + moved,
                moved <= sure.len() ==> out@ == start + sure.take(moved as int)
                    && self.backlog() == sure.skip(moved as int),
                moved > sure.len() ==> out@.take((start.len() + sure.len()) as int) == start + sure
                    && self.backlog() == Seq::<u32>::empty(),
            decreases waiting - moved,
        {
            let ghost before = out@;
            let sample: Option<u32> = consumer_try_pop(self);
            match sample {
                Some(value) => {
                    out.push(value);
                    proof {
                        if moved < sure.len() {
                            assert(sure.skip(moved as int)[0] == sure[moved as int]);
                            assert(sure.take(moved + 1) =~= sure.take(moved as int).push(
                                sure[moved as int],
                            ));
                            assert(sure.skip(moved as int).skip(1) =~= sure.skip(moved + 1));
                            assert(out@ =~= start + sure.take(moved + 1));
                        } else {
                            if moved == sure.len() {
                                assert(sure.take(moved as int) =~= sure);
                                assert(sure.skip(moved as int) =~= Seq::<u32>::empty());
                            }
                            assert(before.take((start.len() + sure.len()) as int) =~= start + sure);
                            assert(out@.take((start.len() + sure.len()) as int) =~= before.take(
                                (start.len() + sure.len()) as int,
                            ));
                        }
                    }
                    moved = moved + 1;
                },
                None => {
                    proof {
                        assert(moved >= sure.len()) by {
                            if moved < sure.len() {
                                assert(sure.skip(moved as int).len() > 0);
                            }
                        }
                        if moved == sure.len() {
                            assert(sure.take(moved as int) =~= sure);
                            assert(sure.skip(moved as int) =~= Seq::<u32>::empty());
                            assert(out@.take((start.len() + sure.len()) as int) =~= start + sure);
                        }
                        assert(out@.take(start.len() as int) =~= start);
                    }
                    return moved;
                },
            }
        }
        proof {
            if moved == sure.len() {
                assert(sure.take(moved as int) =~= sure);
                assert(sure.skip(moved as int) =~= Seq::<u32>::empty());
                assert(out@.take((start.len() + sure.len()) as int) =~= start + sure);
            }
            assert(out@.take(start.len() as int) =~= out@.take((start.len() + sure.len()) as int).take(
                start.len() as int,
            ));
            assert((start + sure).take(start.len() as int) =~= start);
        }
        moved
    }
}

/// However the consumer behaves, pushes through a producer half lose no more
/// than does not fit: when the producer is sure of room for `room` samples
/// and offers `first` and then `second`, at least as many are accepted in all
/// as fit that room, so that of `n` samples offered to a new ring of capacity
/// `c` at most `n - c` are dropped.
pub proof fn lemma_producer_drops_bounded(
    room: nat,
    first: nat,
    first_accepted: nat,
    second: nat,
    second_accepted: nat,
)
    requires
        first_accepted <= first,
        first <= room ==> first_accepted == first,
        first > room ==> first_accepted >= room,
        second_accepted <= second,
        second <= spec_room_after(room, first_accepted) ==> second_accepted == second,
        second > spec_room_after(room, first_accepted) ==> second_accepted >= spec_room_after(
            room,
            first_accepted,
        ),
    ensures
        first + second <= room ==> first_accepted + second_accepted == first + second,
        first + second > room ==> first_accepted + second_accepted >= room,
        (first + second) - (first_accepted + second_accepted) <= if first + second > room {
            first + second - room
        } else {
            0
        },
        spec_room_after(spec_room_after(room, first_accepted), second_accepted)
            == spec_room_after(room, first_accepted + second_accepted),
{
}

/// The queue after `samples` have been offered to one that holds `held` of at
/// most `capacity`.
pub open spec fn spec_after_push(held: Seq<u32>, capacity: nat, samples: Seq<u32>) -> Seq<u32> {
    held + samples.take(spec_accepted(held.len(), capacity, samples.len()) as int)
}

/// Nothing is duplicated, reordered or invented, and no more is dropped than
/// does not fit: of `n` samples offered to an empty ring of capacity `c` the
/// first `min(n, c)` are delivered, in order, so that at most `n - c` are
/// lost.
pub proof fn lemma_ring_delivers_in_order(capacity: nat, samples: Seq<u32>)
    ensures
        ({
            let held = spec_after_push(Seq::<u32>::empty(), capacity, samples);
            &&& held.len() <= capacity
            &&& held.len() <= samples.len()
            &&& held == samples.take(held.len() as int)
            &&& samples.len() <= capacity ==> held == samples
            &&& samples.len() - held.len() == if samples.len() > capacity {
                samples.len() - capacity
            } else {
                0
            }
        }),
{
    let held = spec_after_push(Seq::<u32>::empty(), capacity, samples);
    let n = spec_accepted(0, capacity, samples.len());
    assert(held =~= samples.take(n as int));
    if samples.len() <= capacity {
        assert(samples.take(samples.len() as int) =~= samples);
    }
}

/// Pushes in pieces deliver what one push of the whole would: the queue is
/// always a leading part of everything that was offered after what it held,
/// and once a sample has been dropped for want of room, no later one gets in
/// before a pop makes room.
pub proof fn lemma_ring_pushes_compose(
    held: Seq<u32>,
    capacity: nat,
    first: Seq<u32>,
    second: Seq<u32>,
)
    requires
        held.len() <= capacity,
    ensures
        spec_after_push(spec_after_push(held, capacity, first), capacity, second)
            == spec_after_push(held, capacity, first + second),
        spec_after_push(held, capacity, first).len() <= capacity,
{
    let one = spec_after_push(held, capacity, first);
    let two = spec_after_push(one, capacity, second);
    let both = spec_after_push(held, capacity, first + second);
    let n1 = spec_accepted(held.len(), capacity, first.len());
    let n2 = spec_accepted(one.len(), capacity, second.len());
    let n = spec_accepted(held.len(), capacity, (first + second).len());
    assert(n == n1 + n2);
    assert(two =~= both);
}

} // verus!
