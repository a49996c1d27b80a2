//! The small queues through which the control thread sends edits to the
//! audio thread.
use ringbuf::{Consumer, Producer, RingBuffer};
use vstd::layout::size_of;
use vstd::prelude::*;

verus! {

/// How many messages an inbox holds before the sender is turned away: room
/// for a burst of edits between two blocks.
pub const INBOX_CAPACITY: usize = 1024;

/// Whether a queue of `capacity` items of type `T` can be allocated at all:
/// it takes one slot more than it can hold, and no allocation is larger than
/// `isize::MAX` bytes.
pub open spec fn allocatable<T>(capacity: usize) -> bool {
    capacity < usize::MAX && (capacity + 1) * size_of::<T>() <= isize::MAX
}

/// Whether a queue of `capacity` items of type `T` can be allocated.
pub fn can_allocate<T>(capacity: usize) -> (fits: bool)
    ensures
        fits == allocatable::<T>(capacity),
{
    if capacity == usize::MAX {
        return false;
    }
    let slots: usize = capacity + 1;
    let limit: usize = isize::MAX as usize;
    match slots.checked_mul(core::mem::size_of::<T>()) {
        Some(bytes) => bytes <= limit,
        None => false,
    }
}

/// Makes a queue of `capacity` items and returns its two ends, or `None`
/// where a queue of that size cannot be allocated.
pub fn channel<T>(capacity: usize) -> (ends: Option<(Producer<T>, Consumer<T>)>)
    ensures
        ends is Some <==> allocatable::<T>(capacity),
{
    if can_allocate::<T>(capacity) {
        Some(RingBuffer::new(capacity).split())
    } else {
        None
    }
}

/// Takes the oldest waiting item from an inbox, if the inbox exists and
/// holds one.
pub fn poll<T>(inbox: &mut Option<Consumer<T>>) -> (item: Option<T>)
    ensures
        ((*final(inbox)) is Some) == ((*old(inbox)) is Some),
        (*old(inbox)) is None ==> item is None,
{
    match inbox {
        Some(consumer) => consumer.pop(),
        None => None,
    }
}

} // verus!
