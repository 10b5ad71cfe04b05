//! A manually released heap handle for one value.
use std::mem::ManuallyDrop;
use vstd::prelude::*;
use vstd::std_specs::manually_drop::ManuallyDropAdditionalFns;

verus! {

/// One value of type `T` in heap storage of its own, which lives until its
/// holder calls [`Man::free`].
///
/// Nothing releases the storage by itself: a handle that goes out of scope
/// without `free` leaks the value and its storage. The handle is the only
/// owner of the storage and cannot be duplicated by copying; `clone` makes a
/// second, independent allocation. `free` takes the handle by value, so the
/// storage cannot be read or released through it again.
pub struct Man<T> {
    slot: ManuallyDrop<Box<T>>,
}

impl<T> View for Man<T> {
    type V = T;

    /// The value that the storage holds.
    closed spec fn view(&self) -> T {
        *self.slot@
    }
}

impl<T> Man<T> {
    /// Moves `val` into newly allocated storage. The caller's binding is
    /// moved from, so the value is not destroyed at its old place. The
    /// process aborts if the allocator has no memory left.
    pub fn new(val: T) -> (r: Man<T>)
        ensures
            r@ == val,
    {
        Man { slot: ManuallyDrop::new(Box::new(val)) }
    }

    /// A shared reference to the stored value.
    pub fn as_ref(&self) -> (r: &T)
        ensures
            *r == self@,
    {
        &**self.slot
    }

    /// An exclusive reference to the stored value; what the caller writes
    /// through it is what the handle holds afterwards.
    pub fn as_mut(&mut self) -> (r: &mut T)
        ensures
            *r == old(self)@,
            final(self)@ == *final(r),
    {
        &mut **self.slot
    }

    /// Destroys the stored value and returns its storage to the allocator.
    pub fn free(self) {
        let Man { slot } = self;
        let _storage: Box<T> = ManuallyDrop::into_inner(slot);
    }
}

impl<T> AsRef<T> for Man<T> {
    /// The same as [`Man::as_ref`], for callers that are generic over
    /// `AsRef`.
    fn as_ref(&self) -> (r: &T)
        ensures
            *r == self@,
    {
        Man::as_ref(self)
    }
}

impl<T> AsMut<T> for Man<T> {
    /// The same as [`Man::as_mut`], for callers that are generic over
    /// `AsMut`.
    fn as_mut(&mut self) -> (r: &mut T)
        ensures
            *r == old(self)@,
            final(self)@ == *final(r),
    {
        Man::as_mut(self)
    }
}

impl<T: Clone> Clone for Man<T> {
    /// A second allocation that holds a clone of the stored value.
    fn clone(&self) -> (r: Man<T>)
        ensures
            cloned::<T>(self@, r@),
    {
        Man::new(self.as_ref().clone())
    }
}

/// Reading a handle straight after making it gives back the value it was
/// made from: whatever `new` returns for `val`, `as_ref` reads `val` from it.
pub proof fn lemma_new_then_as_ref<T>(val: T, made: Man<T>, read: &T)
    requires
        Man::<T>::new.ensures((val,), made),
        Man::<T>::as_ref.ensures((&made,), read),
    ensures
        *read == val,
{
}

/// `ManuallyDrop::deref_mut` lends the wrapped value out for writing: the
/// reference starts at the wrapped value, and what is written through it is
/// what the wrapper holds afterwards.
pub assume_specification<T: ?Sized>[ <ManuallyDrop<T> as std::ops::DerefMut>::deref_mut ](
    m: &mut ManuallyDrop<T>,
) -> (r: &mut T)
    ensures
        &*r == old(m).view_ref(),
        &*final(r) == final(m).view_ref(),
;

} // verus!
