use super::memory::Memory;
use super::pointer::holders;
use super::pointer::share;
use super::sync::State;
use super::Signal;
use super::Sink;
use std::sync::Arc;
use vstd::prelude::*;
use vstd::std_specs::cmp::PartialEqSpec;

verus! {

/// The writer. It owns the two slots and is the only one to replace the
/// published pointer.
#[verifier::reject_recursive_types(T)]
pub struct Source<T: Clone + Default + Send + Sync> {
    pub(super) signal: Arc<Signal<T>>,
    pub(super) memory: Memory<T>,
}

impl<T: Clone + Default + Send + Sync> Source<T> {
    /// The value published last.
    pub closed spec fn last(&self) -> T {
        self.memory.current()
    }

    /// The value in the slot that the next publication writes to.
    pub closed spec fn spare(&self) -> T {
        self.memory.spare()
    }

    /// The published pointer that this Source writes.
    pub closed spec fn channel(&self) -> Signal<T> {
        *self.signal
    }

    /// A Source that has `value` published.
    pub fn from(value: T) -> (source: Self)
        ensures
            source.last() == value,
            call_ensures(T::default, (), source.spare()),
    {
        let mut memory = Memory::new(value);
        let pointer = memory.new_read_ptr();
        Source { signal: Arc::new(Signal::new(pointer)), memory }
    }

    /// Publishes a clone of `data`, whether or not anybody reads it.
    pub fn send(&mut self, data: &T) -> (state: State)
        ensures
            cloned(*data, final(self).last()),
            final(self).spare() == old(self).last(),
            final(self).channel() == old(self).channel(),
            state != State::Receiving,
    {
        self.memory.write(data);
        self.signal.swap(&mut self.memory);
        State::of_presence(self.sink_count())
    }

    /// Lets `closure` change the writer's slot in place and publishes the
    /// outcome, whether or not anybody reads it. The slot holds what was
    /// published before the value that is published now.
    pub fn modify<F: FnMut(&mut T)>(&mut self, closure: &mut F) -> (state: State)
        requires
            forall|target: &mut T|
                cloned(old(self).spare(), *target) ==> #[trigger] call_requires(
                    *old(closure),
                    (target,),
                ),
        ensures
            exists|target: &mut T|
                {
                    &&& cloned(old(self).spare(), *target)
                    &&& #[trigger] call_ensures(*old(closure), (target,), ())
                    &&& *final(target) == final(self).last()
                },
            final(self).spare() == old(self).last(),
            final(self).channel() == old(self).channel(),
            state != State::Receiving,
    {
        self.memory.write_in_place(closure);
        self.signal.swap(&mut self.memory);
        State::of_presence(self.sink_count())
    }

    /// Lets `closure` change the writer's slot in place without publishing
    /// it.
    pub fn access<F: FnMut(&mut T)>(&mut self, closure: &mut F)
        requires
            forall|target: &mut T|
                cloned(old(self).spare(), *target) ==> #[trigger] call_requires(
                    *old(closure),
                    (target,),
                ),
        ensures
            exists|target: &mut T|
                {
                    &&& cloned(old(self).spare(), *target)
                    &&& #[trigger] call_ensures(*old(closure), (target,), ())
                    &&& *final(target) == final(self).spare()
                },
            final(self).last() == old(self).last(),
            final(self).channel() == old(self).channel(),
    {
        self.memory.write_in_place(closure)
    }

    pub(crate) fn signal(&self) -> (signal: Arc<Signal<T>>)
        ensures
            *signal == self.channel(),
    {
        share(&self.signal)
    }

    /// The number of Sinks at some moment during the call.
    pub fn sink_count(&self) -> u32 {
        State::count_sinks(holders(&self.signal))
    }

    /// A new Sink that reads what this Source publishes.
    pub fn sink(&self) -> (sink: Sink<T>)
        ensures
            sink.channel() == self.channel(),
    {
        Sink::from(self)
    }

    /// Whether `data` equals the value published last.
    pub fn equals_last(&self, data: &T) -> (same: bool) where T: PartialEq
        ensures
            T::obeys_eq_spec() ==> same == self.last().eq_spec(data),
    {
        self.memory.equals_current(data)
    }
}

impl<T: Clone + Default + Send + Sync + PartialEq> Source<T> {
    /// Once `sent` was sent, `equals_last` says yes to `sent` and to what
    /// is equal to it, and no to everything else. This holds for types
    /// whose clones equal what they were cloned from and whose `==` is
    /// equality.
    pub proof fn lemma_equals_last_after_send(self, sent: T, asked: T)
        requires
            cloned(sent, self.last()),
            forall|a: T, b: T| cloned(a, b) ==> a == b,
            T::obeys_eq_spec(),
            forall|a: T, b: T| a.eq_spec(&b) <==> a == b,
        ensures
            self.last().eq_spec(&sent),
            self.last().eq_spec(&asked) <==> asked == sent,
    {
    }
}

impl<T: Clone + Default + Send + Sync> Drop for Source<T> {
    /// Tells the Sinks that nothing more will be published.
    fn drop(&mut self)
        opens_invariants none
        no_unwind
    {
        self.signal.detach();
    }
}

} // verus!
