use super::Source;
use super::State;
use crate::signal::pointer::share;
use crate::signal::pointer::take_one;
use crate::signal::Signal;
use std::sync::atomic::AtomicU32;
use std::sync::atomic::AtomicU64;
use std::sync::atomic::Ordering;
use std::sync::Arc;
use vstd::prelude::*;

verus! {

/// A reader of a handshake pair. Its first read of each published value
/// counts as the acknowledgment that the Source waits for.
#[verifier::reject_recursive_types(T)]
pub struct Sink<T: Clone + Default + Send + Sync> {
    signal: Arc<Signal<T>>,
    acks: Arc<AtomicU32>,
    /// The id of the value that this Sink acknowledged last; zero before
    /// the first.
    last_id: AtomicU64,
}

impl<T: Clone + Default + Send + Sync> Sink<T> {
    /// The published pointer that this Sink reads.
    pub closed spec fn channel(&self) -> Signal<T> {
        *self.signal
    }

    /// The counter through which this Sink acknowledges what it has read.
    pub closed spec fn counter(&self) -> AtomicU32 {
        *self.acks
    }

    /// A Sink that reads what `source` publishes. There is no other way to
    /// make the first one, so a Sink and its Source always agree on the
    /// handshake.
    pub fn from(source: &Source<T>) -> (sink: Self)
        ensures
            sink.channel() == source.channel(),
            sink.counter() == source.counter(),
    {
        Sink { signal: source.signal(), acks: source.acks(), last_id: AtomicU64::new(0) }
    }

    /// A copy of the published value. The read is acknowledged.
    pub fn receive(&self) -> T {
        let (value, id) = self.signal.value();
        self.acknowledge(id);
        value
    }

    /// Runs `closure` once, on the published value in place, and
    /// acknowledges the read when the closure has returned.
    pub fn process<F: FnMut(&T)>(&self, closure: &mut F)
        requires
            forall|published: &T| call_requires(*old(closure), (published,)),
        ensures
            exists|published: &T| call_ensures(*old(closure), (published,), ()),
    {
        let id = self.signal.process(closure);
        self.acknowledge(id)
    }

    /// Whether the published value is one that this Sink has not
    /// acknowledged yet.
    pub fn changed(&self) -> bool {
        State::must_acknowledge(self.last_id.load(Ordering::Acquire), self.signal.box_id())
    }

    /// Whether the Source still exists.
    pub fn is_connected(&self) -> bool {
        self.signal.is_attached()
    }

    /// Tells the Source that this Sink has seen the value with id `id`,
    /// unless it has told so before.
    fn acknowledge(&self, id: u64) {
        if State::must_acknowledge(self.last_id.load(Ordering::Acquire), id) {
            take_one(&self.acks);
        }
        self.last_id.store(id, Ordering::Release)
    }
}

impl<T: Clone + Default + Send + Sync> Clone for Sink<T> {
    /// Another reader of the same Source, which has acknowledged nothing
    /// yet.
    fn clone(&self) -> (other: Self)
        ensures
            other.channel() == self.channel(),
            other.counter() == self.counter(),
    {
        Sink { signal: share(&self.signal), acks: share(&self.acks), last_id: AtomicU64::new(0) }
    }
}

} // verus!
