use super::pointer::exclusive;
use super::pointer::pointer_to;
use super::pointer::share;
use super::pointer::store;
use super::pointer::AtomicArc;
use std::sync::Arc;
use vstd::prelude::*;
use vstd::std_specs::cmp::PartialEqSpec;

verus! {

/// Two slots for a value. One of them is published: readers may hold it, and
/// the writer leaves it alone. The other one is the writer's.
pub struct Memory<T> {
    slot: [Arc<T>; 2],
    /// Whether slot 1 is the published one; slot 0 is otherwise.
    upper: bool,
}

impl<T> Memory<T> {
    /// Index of the published slot: 0 or 1.
    pub closed spec fn read_slot(&self) -> int {
        if self.upper {
            1
        } else {
            0
        }
    }

    /// The value in slot `i`.
    pub closed spec fn at(&self, i: int) -> T {
        *self.slot[i]
    }

    /// The published value.
    pub open spec fn current(&self) -> T {
        self.at(self.read_slot())
    }

    /// The value in the writer's slot.
    pub open spec fn spare(&self) -> T {
        self.at(1 - self.read_slot())
    }
}

impl<T: Clone + Default> Memory<T> {
    /// Two slots of which the upper one is published and holds `value`.
    /// The lower one holds the default.
    pub fn new(value: T) -> (memory: Self)
        ensures
            memory.read_slot() == 1,
            memory.current() == value,
            call_ensures(T::default, (), memory.spare()),
    {
        Memory { slot: [Arc::new(T::default()), Arc::new(value)], upper: true }
    }

    /// Index of the published slot.
    pub fn read_id(&self) -> (id: usize)
        ensures
            id == self.read_slot(),
    {
        if self.upper {
            1
        } else {
            0
        }
    }

    /// Index of the writer's slot.
    pub fn write_id(&self) -> (id: usize)
        ensures
            id == 1 - self.read_slot(),
    {
        let r = self.read_id();
        assert(r < 2 ==> (r ^ 1) == 1 - r) by (bit_vector);
        r ^ 1
    }

    /// A fresh atomic pointer that starts out at the published slot.
    pub fn new_read_ptr(&mut self) -> (pointer: AtomicArc<T>)
        ensures
            *final(self) == *old(self),
    {
        pointer_to(share(&self.slot[self.read_id()]))
    }

    /// Clones `value` into the writer's slot. The published slot is not
    /// touched.
    pub fn write(&mut self, value: &T)
        ensures
            final(self).read_slot() == old(self).read_slot(),
            final(self).current() == old(self).current(),
            cloned(*value, final(self).spare()),
    {
        let id = self.write_id();
        self.slot[id] = Arc::new(value.clone());
    }

    /// Hands the writer's slot to `closure` for mutation in place. The
    /// published slot is not touched. Where a reader still holds the
    /// writer's slot from an earlier publication, the closure works on a
    /// clone of it and the reader keeps what it has.
    pub fn write_in_place<F: FnMut(&mut T)>(&mut self, closure: &mut F)
        requires
            forall|target: &mut T|
                cloned(old(self).spare(), *target) ==> #[trigger] call_requires(
                    *old(closure),
                    (target,),
                ),
        ensures
            final(self).read_slot() == old(self).read_slot(),
            final(self).current() == old(self).current(),
            exists|target: &mut T|
                {
                    &&& cloned(old(self).spare(), *target)
                    &&& #[trigger] call_ensures(*old(closure), (target,), ())
                    &&& *final(target) == final(self).spare()
                },
    {
        let id = self.write_id();
        let target = exclusive(&mut self.slot[id]);
        closure(target);
    }

    /// Publishes the writer's slot: the two slots trade places, and
    /// `read_ptr` is set to the slot that is now published.
    pub fn swap(&mut self, read_ptr: &AtomicArc<T>)
        ensures
            final(self).read_slot() == 1 - old(self).read_slot(),
            final(self).current() == old(self).spare(),
            final(self).spare() == old(self).current(),
    {
        self.swap_read_id();
        store(read_ptr, share(&self.slot[self.read_id()]));
    }

    /// Makes the writer's slot the published one and the other way round.
    /// What the slots hold stays as it is.
    pub fn swap_read_id(&mut self)
        ensures
            final(self).read_slot() == 1 - old(self).read_slot(),
            forall|i: int| final(self).at(i) == old(self).at(i),
    {
        self.upper = !self.upper;
    }

    /// Whether `data` equals the published value.
    pub fn equals_current(&self, data: &T) -> (same: bool) where T: PartialEq
        ensures
            T::obeys_eq_spec() ==> same == self.current().eq_spec(data),
    {
        *self.slot[self.read_id()] == *data
    }
}

} // verus!
