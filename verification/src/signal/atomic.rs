use super::pointer::share;
use std::ops::Deref;
use std::sync::atomic::AtomicBool;
use std::sync::atomic::AtomicU32;
use std::sync::atomic::Ordering;
use std::sync::Arc;
use vstd::prelude::*;

verus! {

/// A value that any holder may read or replace at any time.
///
/// What `probe` returns is whatever the most recent `emit` on any thread
/// left there, so neither method promises anything.
pub trait SignalAccess<T> {
    /// The value that the signal holds at some moment during the call.
    fn probe(&self) -> T;

    /// Replaces the value that the signal holds.
    fn emit(&self, val: T);
}

/// A flag that any holder may read or set at any time.
#[derive(Debug, Default)]
pub struct BooleanSignal {
    state: AtomicBool,
}

impl BooleanSignal {
    /// A signal that starts out at `val`.
    pub fn new(val: bool) -> Self {
        BooleanSignal { state: AtomicBool::new(val) }
    }

    /// Whether the flag is set at some moment during the call.
    pub fn is_true(&self) -> bool {
        self.state.load(Ordering::SeqCst)
    }

    /// Whether the flag is clear at some moment during the call.
    pub fn is_false(&self) -> bool {
        !self.state.load(Ordering::SeqCst)
    }
}

impl SignalAccess<bool> for BooleanSignal {
    fn probe(&self) -> bool {
        self.state.load(Ordering::SeqCst)
    }

    fn emit(&self, val: bool) {
        self.state.store(val, Ordering::SeqCst);
    }
}

/// A number that any holder may read, replace or count up and down at any
/// time.
#[derive(Debug)]
pub struct RawSignalU32 {
    pub(crate) state: AtomicU32,
}

impl Default for RawSignalU32 {
    /// A signal that starts out at zero.
    fn default() -> Self {
        RawSignalU32 { state: AtomicU32::new(0) }
    }
}

impl RawSignalU32 {
    /// A signal that starts out at `val`.
    pub fn new(val: u32) -> Self {
        RawSignalU32 { state: AtomicU32::new(val) }
    }

    /// The value that follows `previous` when counting up; after the
    /// largest comes zero.
    pub open spec fn above(previous: u32) -> u32 {
        if previous == u32::MAX {
            0
        } else {
            (previous + 1) as u32
        }
    }

    /// The value that precedes `previous` when counting down; before zero
    /// comes the largest.
    pub open spec fn below(previous: u32) -> u32 {
        if previous == 0 {
            u32::MAX
        } else {
            (previous - 1) as u32
        }
    }

    /// Adds one and returns the value that the signal then holds.
    pub fn incr(&self) -> u32 {
        Self::counted_up(self.state.fetch_add(1, Ordering::SeqCst))
    }

    /// Takes one off and returns the value that the signal then holds.
    pub fn decr(&self) -> u32 {
        Self::counted_down(self.state.fetch_sub(1, Ordering::SeqCst))
    }

    /// What the signal holds after one was added to `previous`.
    pub fn counted_up(previous: u32) -> (now: u32)
        ensures
            now == Self::above(previous),
    {
        previous.wrapping_add(1)
    }

    /// What the signal holds after one was taken off `previous`.
    pub fn counted_down(previous: u32) -> (now: u32)
        ensures
            now == Self::below(previous),
    {
        previous.wrapping_sub(1)
    }
}

impl SignalAccess<u32> for RawSignalU32 {
    fn probe(&self) -> u32 {
        self.state.load(Ordering::SeqCst)
    }

    fn emit(&self, val: u32) {
        self.state.store(val, Ordering::SeqCst);
    }
}

/// A `RawSignalU32` that several holders share.
#[derive(Debug)]
pub struct SignalU32 {
    arc: Arc<RawSignalU32>,
}

impl SignalU32 {
    /// The signal that this handle leads to.
    pub closed spec fn raw(&self) -> RawSignalU32 {
        *self.arc
    }

    /// A signal that starts out at `value`, with one handle to it.
    pub fn new(value: u32) -> Self {
        SignalU32 { arc: Arc::new(RawSignalU32::new(value)) }
    }
}

impl Clone for SignalU32 {
    /// Another handle to the same signal.
    fn clone(&self) -> (other: Self)
        ensures
            other == *self,
    {
        SignalU32 { arc: share(&self.arc) }
    }
}

impl Default for SignalU32 {
    /// A signal that starts out at zero, with one handle to it.
    fn default() -> Self {
        SignalU32 { arc: Arc::new(RawSignalU32::default()) }
    }
}

impl Deref for SignalU32 {
    type Target = RawSignalU32;

    /// The signal that this handle leads to.
    fn deref(&self) -> (raw: &RawSignalU32)
        ensures
            *raw == self.raw(),
    {
        &*self.arc
    }
}

} // verus!
