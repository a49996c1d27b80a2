//! What this library relies on of the `ringbuf` crate's lock-free
//! single-producer single-consumer queue.
//!
//! The two ends of a queue live on different threads, so whatever one end
//! observes may be changed by the other at any moment. The contracts below
//! therefore state only what holds of every outcome of a call. Of the
//! sample queue they say what each end can count on whatever the other
//! does: the writing end on room, which the reading end cannot take away,
//! and the reading end on samples, which the writing end cannot take back.
use ringbuf::{Consumer, Producer, RingBuffer};
use vstd::prelude::*;

verus! {

/// `ringbuf::RingBuffer`, the queue before it is split into its two ends.
#[verifier::external_type_specification]
#[verifier::external_body]
#[verifier::reject_recursive_types(T)]
pub struct ExRingBuffer<T>(RingBuffer<T>);

/// `ringbuf::Producer`, the writing end of a queue.
#[verifier::external_type_specification]
#[verifier::external_body]
#[verifier::reject_recursive_types(T)]
pub struct ExProducer<T>(Producer<T>);

/// `ringbuf::Consumer`, the reading end of a queue.
#[verifier::external_type_specification]
#[verifier::external_body]
#[verifier::reject_recursive_types(T)]
pub struct ExConsumer<T>(Consumer<T>);

/// `RingBuffer::new` allocates `capacity + 1` slots. The precondition leaves
/// out the capacities for which that sum overflows or the allocation is larger
/// than a `Vec` may be; nothing is claimed about the queue that comes back.
pub assume_specification<T>[ RingBuffer::<T>::new ](capacity: usize) -> (ring: RingBuffer<T>)
    requires
        capacity < usize::MAX,
        (capacity + 1) * vstd::layout::size_of::<T>() <= isize::MAX,
;

/// `RingBuffer::split` hands out the two ends of the queue.
pub assume_specification<T>[ RingBuffer::<T>::split ](ring: RingBuffer<T>) -> (ends: (
    Producer<T>,
    Consumer<T>,
))
;

/// `Producer::push` appends one item or, when the queue is full, gives that
/// same item back inside `Err`.
pub assume_specification<T>[ Producer::<T>::push ](producer: &mut Producer<T>, elem: T) -> (r:
    Result<(), T>)
    ensures
        r is Err ==> r->Err_0 == elem,
;

/// `Consumer::pop` removes the oldest item, or returns `None` when it finds
/// the queue empty. Which of the two happens depends on the other end.
pub assume_specification<T>[ Consumer::<T>::pop ](consumer: &mut Consumer<T>) -> (r: Option<T>)
;

/// The number of samples that the sample queue `ring` was made to hold.
pub uninterp spec fn slots(ring: RingBuffer<u32>) -> nat;

/// The number of samples that the sample queue behind the writing end
/// `producer` holds at most.
pub uninterp spec fn size(producer: Producer<u32>) -> nat;

/// The number of samples that the writing end `producer` of a sample queue
/// is sure to find room for. The reading end can only make more room, so
/// the room that the writing end has once seen stays until it uses it.
pub uninterp spec fn room(producer: Producer<u32>) -> nat;

/// The samples that the reading end `consumer` of a sample queue is sure to
/// find, oldest first. The writing end can only queue more behind them, so
/// what the reading end has once been sure of stays until it takes it.
pub uninterp spec fn waiting(consumer: Consumer<u32>) -> Seq<u32>;

/// Whether the two are the ends of one sample queue.
pub uninterp spec fn same_queue(producer: Producer<u32>, consumer: Consumer<u32>) -> bool;

/// Whether the two ends of one queue know all of it: the room that the one
/// is sure of and the samples that the other is sure of fill the queue.
pub open spec fn in_step(producer: Producer<u32>, consumer: Consumer<u32>) -> bool {
    same_queue(producer, consumer) && room(producer) + waiting(consumer).len() == size(producer)
}

/// `RingBuffer::new` for a queue of samples: the queue that comes back holds
/// up to `capacity` samples. The precondition is that of the declaration
/// above.
#[verifier::external_body]
pub(crate) fn sample_ring(capacity: usize) -> (ring: RingBuffer<u32>)
    requires
        capacity < usize::MAX,
        (capacity + 1) * vstd::layout::size_of::<u32>() <= isize::MAX,
    ensures
        slots(ring) == capacity,
{
    RingBuffer::new(capacity)
}

/// `RingBuffer::split` for a queue of samples. Nothing can be put into a
/// queue before it is split, so the two ends start in step: the writing end
/// with room for as many samples as the queue holds, the reading end with
/// nothing to find.
#[verifier::external_body]
pub(crate) fn split_ring(ring: RingBuffer<u32>) -> (ends: (Producer<u32>, Consumer<u32>))
    ensures
        same_queue(ends.0, ends.1),
        size(ends.0) == slots(ring),
        room(ends.0) == slots(ring),
        waiting(ends.1) == Seq::<u32>::empty(),
{
    ring.split()
}

/// `Producer::push` on a sample queue while the caller holds the reading end
/// too, so that nothing is taken from the queue meanwhile. With the two ends
/// in step the push fails exactly on a full queue, and then gives the sample
/// back; else the sample is the newest that the reading end will find, and
/// the ends are in step again.
#[verifier::external_body]
pub(crate) fn push_sample(
    producer: &mut Producer<u32>,
    consumer: &mut Consumer<u32>,
    sample: u32,
) -> (r: Result<(), u32>)
    requires
        in_step(*old(producer), *old(consumer)),
    ensures
        same_queue(*final(producer), *final(consumer)),
        size(*final(producer)) == size(*old(producer)),
        r is Ok <==> room(*old(producer)) > 0,
        r is Ok ==> room(*final(producer)) + 1 == room(*old(producer)) && waiting(*final(consumer))
            == waiting(*old(consumer)).push(sample),
        r is Err ==> r->Err_0 == sample && room(*final(producer)) == room(*old(producer))
            && waiting(*final(consumer)) == waiting(*old(consumer)),
{
    producer.push(sample)
}

/// `Producer::push_slice` on a sample queue: it copies a leading part of
/// `elems` into the queue and returns how many samples it took. It takes
/// them all, or else at least as many as it was sure to find room for, and
/// each takes up one place and no more.
#[verifier::external_body]
pub(crate) fn push_samples(producer: &mut Producer<u32>, elems: &[u32]) -> (n: usize)
    ensures
        n <= elems@.len(),
        n == elems@.len() || n >= room(*old(producer)),
        room(*final(producer)) + n >= room(*old(producer)),
        size(*final(producer)) == size(*old(producer)),
{
    producer.push_slice(elems)
}

/// What is left of `known` once the `n` oldest samples are taken.
pub open spec fn left_of(known: Seq<u32>, n: nat) -> Seq<u32> {
    if n <= known.len() {
        known.skip(n as int)
    } else {
        Seq::empty()
    }
}

/// `Consumer::pop_slice` on a sample queue: it moves the oldest samples into
/// the front of `elems`, in their order, and returns their number. It fills
/// the slice, or else takes at least the samples it was sure to find. The
/// slice keeps its length, and the part behind the returned count is left as
/// it was.
#[verifier::external_body]
pub(crate) fn pop_samples(consumer: &mut Consumer<u32>, elems: &mut [u32]) -> (n: usize)
    ensures
        n <= old(elems)@.len(),
        final(elems)@.len() == old(elems)@.len(),
        forall|i: int| n <= i < old(elems)@.len() ==> final(elems)@[i] == old(elems)@[i],
        n == old(elems)@.len() || n >= waiting(*old(consumer)).len(),
        forall|i: int|
            0 <= i < n && i < waiting(*old(consumer)).len() ==> final(elems)@[i] == waiting(
                *old(consumer),
            )[i],
        waiting(*final(consumer)) == left_of(waiting(*old(consumer)), n as nat),
{
    consumer.pop_slice(elems)
}

} // verus!
