use super::pointer::share;
use super::Signal;
use super::Source;
use std::sync::Arc;
use vstd::prelude::*;

verus! {

/// A reader. Any number of them may read at the same time, each on a thread
/// of its own.
#[verifier::reject_recursive_types(T)]
pub struct Sink<T: Clone + Default + Send + Sync> {
    signal: Arc<Signal<T>>,
}

impl<T: Clone + Default + Send + Sync> Sink<T> {
    /// The published pointer that this Sink reads.
    pub closed spec fn channel(&self) -> Signal<T> {
        *self.signal
    }

    /// A Sink that reads what `source` publishes. There is no other way to
    /// make the first one.
    pub fn from(source: &Source<T>) -> (sink: Self)
        ensures
            sink.channel() == source.channel(),
    {
        Sink { signal: source.signal() }
    }

    /// A copy of the published value.
    pub fn receive(&self) -> T {
        self.signal.value().0
    }

    /// Runs `closure` once, on the published value in place. The value
    /// stays as it is until the closure returns, whatever is published
    /// meanwhile.
    pub fn process<F: FnMut(&T)>(&self, closure: &mut F)
        requires
            forall|published: &T| call_requires(*old(closure), (published,)),
        ensures
            exists|published: &T| call_ensures(*old(closure), (published,), ()),
    {
        self.signal.process(closure);
    }

    /// Whether the Source still exists.
    pub fn is_connected(&self) -> bool {
        self.signal.is_attached()
    }

    /// Whether there is something to read that this Sink has not read yet.
    /// Without handshake no Sink keeps track of what it has read, and every
    /// read counts as new.
    pub fn changed(&self) -> (changed: bool)
        ensures
            changed,
    {
        true
    }
}

impl<T: Clone + Default + Send + Sync> Clone for Sink<T> {
    /// Another reader of the same Source.
    fn clone(&self) -> (other: Self)
        ensures
            other.channel() == self.channel(),
    {
        Sink { signal: share(&self.signal) }
    }
}

} // verus!
