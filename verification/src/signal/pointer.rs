//! The primitives that everything shared between a writer and its readers
//! rests on: reference-counted handles and one atomically replaceable
//! pointer. None of these is verified; each contract says what is taken on
//! trust.
use super::sync::State;
use std::sync::atomic::AtomicBool;
use std::sync::atomic::AtomicU32;
use std::sync::atomic::Ordering;
use std::sync::Arc;
use vstd::prelude::*;

verus! {

/// An atomically replaceable pointer to a published value.
///
/// It holds an `arc_swap::ArcSwap<T>`, which guards every load against
/// concurrent replacement and frees a replaced value once its last reader
/// has let go of it. The pointer is shared between threads and changes under
/// a shared reference, so no contract speaks of what it points to.
#[verifier::external_body]
#[verifier::reject_recursive_types(T)]
pub struct AtomicArc<T> {
    inner: arc_swap::ArcSwap<T>,
}

/// `arc_swap::ArcSwap::new`: a pointer that starts out at `value`.
#[verifier::external_body]
pub(crate) fn pointer_to<T>(value: Arc<T>) -> AtomicArc<T> {
    AtomicArc { inner: arc_swap::ArcSwap::new(value) }
}

/// `arc_swap::ArcSwapAny::load_full`: a handle to the value the pointer holds
/// at some moment during the call. Another thread may have stored since, so
/// nothing is claimed of the handle.
#[verifier::external_body]
pub(crate) fn load<T>(pointer: &AtomicArc<T>) -> Arc<T> {
    pointer.inner.load_full()
}

/// `arc_swap::ArcSwapAny::store`: replaces the pointer; later loads yield
/// `value` until the next store.
#[verifier::external_body]
pub(crate) fn store<T>(pointer: &AtomicArc<T>, value: Arc<T>) {
    pointer.inner.store(value)
}

/// `Arc::clone`: a second handle to the same allocation, hence to the same
/// value.
#[verifier::external_body]
pub(crate) fn share<T>(handle: &Arc<T>) -> (other: Arc<T>)
    ensures
        other == *handle,
{
    Arc::clone(handle)
}

/// `Arc::strong_count`: how many handles to the allocation exist at some
/// moment during the call. The handle passed in is one of them.
#[verifier::external_body]
pub(crate) fn holders<T>(handle: &Arc<T>) -> (count: usize)
    ensures
        count >= 1,
{
    Arc::strong_count(handle)
}

/// `Arc::as_ptr`: the address of the value behind the handle, as an
/// integer. The pointer is valid, since the handle keeps the value alive,
/// so it is not null. It is the same for all handles to one allocation,
/// which is not stated: an address is not a function of the value.
#[verifier::external_body]
pub(crate) fn address<T>(handle: &Arc<T>) -> (id: u64)
    ensures
        id != 0,
{
    Arc::as_ptr(handle) as usize as u64
}

/// `Arc::make_mut`: exclusive access to the value behind `handle`. Where
/// other handles to the allocation exist, the value is first cloned into an
/// allocation of its own, which `handle` then points to; those other handles
/// keep the old one.
#[verifier::external_body]
pub(crate) fn exclusive<T: Clone>(handle: &mut Arc<T>) -> (target: &mut T)
    ensures
        cloned(**old(handle), *target),
        **final(handle) == *final(target),
{
    Arc::make_mut(handle)
}

/// `AtomicBool::store` of `false`, with release ordering. The store panics
/// for the two acquiring orderings only, so this call always returns.
#[verifier::external_body]
pub(crate) fn lower(flag: &AtomicBool)
    opens_invariants none
    no_unwind
{
    flag.store(false, Ordering::Release)
}

/// `AtomicU32::fetch_update` with `State::one_less`: replaces the counter
/// by what `one_less` makes of it, in one step as seen from other threads,
/// and leaves it alone where `one_less` yields nothing.
#[verifier::external_body]
pub(crate) fn take_one(counter: &AtomicU32) {
    let _ = counter.fetch_update(Ordering::AcqRel, Ordering::Acquire, |acks| State::one_less(acks));
}

} // verus!
