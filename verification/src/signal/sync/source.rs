use super::Sink;
use super::State;
use crate::signal::pointer::share;
use crate::signal::Signal;
use std::sync::atomic::AtomicU32;
use std::sync::atomic::Ordering;
use std::sync::Arc;
use vstd::prelude::*;
use vstd::std_specs::cmp::PartialEqSpec;

verus! {

/// The writer of a handshake pair.
#[verifier::reject_recursive_types(T)]
pub struct Source<T: Clone + Default + Send + Sync> {
    pub(super) inner: crate::signal::Source<T>,
    /// How many Sinks still owe their acknowledgment of the value published
    /// last.
    pub(super) acks: Arc<AtomicU32>,
}

impl<T: Clone + Default + Send + Sync> Source<T> {
    /// The value published last.
    pub closed spec fn last(&self) -> T {
        self.inner.last()
    }

    /// The value in the slot that the next publication writes to.
    pub closed spec fn spare(&self) -> T {
        self.inner.spare()
    }

    /// The published pointer that this Source writes.
    pub closed spec fn channel(&self) -> Signal<T> {
        self.inner.channel()
    }

    /// The counter of the acknowledgments that this Source waits for.
    pub closed spec fn counter(&self) -> AtomicU32 {
        *self.acks
    }

    /// A Source that has `value` published and nothing to acknowledge.
    pub fn from(value: T) -> (source: Self)
        ensures
            source.last() == value,
            call_ensures(T::default, (), source.spare()),
    {
        Source { inner: crate::signal::Source::from(value), acks: Arc::new(AtomicU32::new(0)) }
    }

    /// A new Sink that reads what this Source publishes and takes part in
    /// its handshake.
    pub fn sink(&self) -> (sink: Sink<T>)
        ensures
            sink.channel() == self.channel(),
            sink.counter() == self.counter(),
    {
        Sink::from(self)
    }

    /// Evaluates the handshake and does with the counter what `State::plan`
    /// says: where publishing is allowed, every Sink counted owes an
    /// acknowledgment from now on.
    fn try_sync(&self) -> State {
        let (state, reset) = State::plan(self.sink_count(), self.acks_count());
        match reset {
            Some(acks) => self.reset_acks(acks),
            None => {},
        }
        state
    }

    /// The number of Sinks at some moment during the call.
    pub fn sink_count(&self) -> u32 {
        self.inner.sink_count()
    }

    /// Publishes a clone of `signal` if the handshake allows it, and leaves
    /// everything as it is otherwise.
    pub fn send(&mut self, signal: &T) -> (state: State)
        ensures
            state == State::Ready ==> cloned(*signal, final(self).last()) && final(self).spare()
                == old(self).last(),
            state != State::Ready ==> final(self).last() == old(self).last() && final(self).spare()
                == old(self).spare(),
            final(self).channel() == old(self).channel(),
            final(self).counter() == old(self).counter(),
    {
        let state = self.try_sync();
        if state == State::Ready {
            self.inner.send(signal);
        }
        state
    }

    /// Lets `closure` change the writer's slot in place and publishes the
    /// outcome if the handshake allows it. Otherwise the closure is not
    /// called and everything stays as it is.
    pub fn modify<F: FnMut(&mut T)>(&mut self, closure: &mut F) -> (state: State)
        requires
            forall|target: &mut T|
                cloned(old(self).spare(), *target) ==> #[trigger] call_requires(
                    *old(closure),
                    (target,),
                ),
        ensures
            state == State::Ready ==> final(self).spare() == old(self).last() && exists|
                target: &mut T,
            |
                {
                    &&& cloned(old(self).spare(), *target)
                    &&& #[trigger] call_ensures(*old(closure), (target,), ())
                    &&& *final(target) == final(self).last()
                },
            state != State::Ready ==> final(self).last() == old(self).last() && final(self).spare()
                == old(self).spare() && *final(closure) == *old(closure),
            final(self).channel() == old(self).channel(),
            final(self).counter() == old(self).counter(),
    {
        let state = self.try_sync();
        if state == State::Ready {
            self.inner.modify(closure);
        }
        state
    }

    fn reset_acks(&self, acks: u32) {
        self.acks.store(acks, Ordering::Release)
    }

    fn acks_count(&self) -> u32 {
        self.acks.load(Ordering::Acquire)
    }

    /// Whether `data` equals the value published last. While
    /// acknowledgments are outstanding the answer is no.
    pub fn equals_last(&self, data: &T) -> (same: bool) where T: PartialEq
        ensures
            T::obeys_eq_spec() ==> (same ==> self.last().eq_spec(data)),
    {
        let state = State::evaluate(self.sink_count(), self.acks_count());
        state.confirm(self.inner.equals_last(data))
    }

    pub(super) fn signal(&self) -> (signal: Arc<Signal<T>>)
        ensures
            *signal == self.channel(),
    {
        self.inner.signal()
    }

    /// Another handle to the counter of outstanding acknowledgments.
    pub(super) fn acks(&self) -> (acks: Arc<AtomicU32>)
        ensures
            *acks == self.counter(),
    {
        share(&self.acks)
    }
}

} // verus!
