pub mod atomic;
pub mod memory;
pub mod pointer;
pub mod sink;
pub mod source;
pub mod sync;

pub use atomic::BooleanSignal;
pub use atomic::RawSignalU32;
pub use atomic::SignalAccess;
pub use atomic::SignalU32;
pub use sink::Sink;
pub use source::Source;

use memory::Memory;
use pointer::address;
use pointer::load;
use pointer::AtomicArc;
use std::sync::atomic::AtomicBool;
use std::sync::atomic::Ordering;
use vstd::prelude::*;

verus! {

/// A Source and a first Sink that reads what it publishes. The Source
/// starts out with the default value published.
pub fn create<T>() -> (pair: (Source<T>, Sink<T>)) where T: Send + Sync + Clone + Default
    ensures
        call_ensures(T::default, (), pair.0.last()),
        pair.1.channel() == pair.0.channel(),
{
    let source = Source::from(T::default());
    let sink = Sink::from(&source);
    (source, sink)
}

/// A Source and a first Sink that perform a handshake: see `sync::create`.
pub fn create_synced<T>() -> (pair: (sync::Source<T>, sync::Sink<T>)) where
    T: Send + Sync + Clone + Default,

    ensures
        call_ensures(T::default, (), pair.0.last()),
        pair.1.channel() == pair.0.channel(),
        pair.1.counter() == pair.0.counter(),
{
    sync::create()
}

/// The published pointer: what one Source and all its Sinks share.
///
/// It always points to a complete value. The Source replaces the pointer;
/// a Sink loads it and reads the value behind it for as long as it holds on
/// to what it loaded, whatever the Source publishes meanwhile.
#[verifier::reject_recursive_types(T)]
pub struct Signal<T> {
    ptr: AtomicArc<T>,
    /// Lowered when the Source goes away.
    attached: AtomicBool,
}

impl<T> Signal<T> {
    /// The pointer that this signal publishes through.
    pub closed spec fn pointer(&self) -> AtomicArc<T> {
        self.ptr
    }
}

impl<T: Clone + Default + Send + Sync> Signal<T> {
    /// A signal that publishes through `pointer`, with its Source
    /// attached.
    pub fn new(pointer: AtomicArc<T>) -> (signal: Self)
        ensures
            signal.pointer() == pointer,
    {
        Signal { ptr: pointer, attached: AtomicBool::new(true) }
    }

    /// Publishes the writer's slot of `memory`.
    pub fn swap(&self, memory: &mut Memory<T>)
        ensures
            final(memory).read_slot() == 1 - old(memory).read_slot(),
            final(memory).current() == old(memory).spare(),
            final(memory).spare() == old(memory).current(),
    {
        memory.swap(&self.ptr)
    }

    /// A copy of the published value, and its id. No id is zero.
    pub fn value(&self) -> (pair: (T, u64))
        ensures
            pair.1 != 0,
    {
        let guard = load(&self.ptr);
        let value = (*guard).clone();
        (value, address(&guard))
    }

    /// Runs `closure` once, on the published value, and returns the id of
    /// the value that it ran on.
    pub fn process<F: FnMut(&T)>(&self, closure: &mut F) -> (id: u64)
        requires
            forall|published: &T| call_requires(*old(closure), (published,)),
        ensures
            exists|published: &T| call_ensures(*old(closure), (published,), ()),
            id != 0,
    {
        let guard = load(&self.ptr);
        closure(&*guard);
        address(&guard)
    }

    /// The id of the published value: where it lies in memory. Two values
    /// that are alive at the same time have different ids, and no id is
    /// zero.
    pub fn box_id(&self) -> (id: u64)
        ensures
            id != 0,
    {
        let guard = load(&self.ptr);
        address(&guard)
    }

    /// Whether the Source still exists.
    pub fn is_attached(&self) -> bool {
        self.attached.load(Ordering::Acquire)
    }

    /// Records that the Source is gone.
    pub(crate) fn detach(&self)
        opens_invariants none
        no_unwind
    {
        pointer::lower(&self.attached)
    }
}

} // verus!
