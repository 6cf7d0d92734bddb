//! Bounded lock-free single-producer single-consumer queues.
//!
//! The engine's three control paths (manager to mixer, music handle to music
//! renderer, sfx handle to sfx renderer) each run over one of these queues.
//! The queue is `ringbuf`'s heap ring buffer; its two ends share state with
//! the other thread, so nothing can be promised about what `pop` returns or
//! whether `push` finds space — the contracts state only what holds of every
//! outcome, and the verified renderers handle each received command exactly.

use vstd::prelude::*;

use ringbuf::{HeapConsumer, HeapProducer, HeapRb};

verus! {

/// The producing end of a bounded single-producer single-consumer queue.
#[verifier::external_body]
#[verifier::reject_recursive_types(T)]
pub struct SpscProducer<T> {
    inner: HeapProducer<T>,
}

/// The consuming end of a bounded single-producer single-consumer queue.
#[verifier::external_body]
#[verifier::reject_recursive_types(T)]
pub struct SpscConsumer<T> {
    inner: HeapConsumer<T>,
}

/// Relies on ringbuf's `HeapRb::new` and `SharedRb::split`: a bounded
/// single-producer single-consumer queue of the given capacity (`new` panics
/// on capacity zero).
#[verifier::external_body]
pub fn spsc_channel<T>(capacity: usize) -> (r: (SpscProducer<T>, SpscConsumer<T>))
    requires
        capacity >= 1,
{
    let (p, c) = HeapRb::new(capacity).split();
    (SpscProducer { inner: p }, SpscConsumer { inner: c })
}

impl<T> SpscProducer<T> {
    /// Relies on ringbuf's `Producer::push`: the element is appended to the
    /// queue when there is free space, and handed back unchanged when the
    /// queue is full.
    #[verifier::external_body]
    pub fn push(&mut self, value: T) -> (r: Result<(), T>)
        ensures
            r matches Err(v) ==> v == value,
    {
        self.inner.push(value)
    }
}

impl<T> SpscConsumer<T> {
    /// Relies on ringbuf's `Consumer::pop`: the oldest queued element, or
    /// nothing when the queue is observed empty.
    #[verifier::external_body]
    pub(crate) fn pop(&mut self) -> (r: Option<T>) {
        self.inner.pop()
    }

    /// Relies on ringbuf's `Consumer::len`: how many elements are queued at
    /// the moment of the call.
    #[verifier::external_body]
    pub(crate) fn len(&self) -> (r: usize) {
        self.inner.len()
    }

    /// Relies on ringbuf's `Consumer::is_empty`: whether the queue is
    /// observed empty at the moment of the call.
    #[verifier::external_body]
    pub(crate) fn is_empty(&self) -> (r: bool) {
        self.inner.is_empty()
    }
}

} // verus!
