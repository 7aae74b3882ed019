//! Changing a copy of a value in place.

use vstd::prelude::*;
use std::sync::Arc;

verus! {

pub trait CloneExt<T> {
    /// Clones the value and hands the clone to `f` to change it.
    #[must_use]
    fn as_owned<F: FnOnce(&mut T)>(&self, f: F) -> (changed: T)
        requires
            forall|slot: &mut T| call_requires(f, (slot,)),
    ;
}

impl<T: Clone> CloneExt<T> for T {
    /// The result is what `f` made of a clone of the value.
    #[inline]
    fn as_owned<F: FnOnce(&mut T)>(&self, f: F) -> (changed: T)
        ensures
            exists|slot: &mut T|
                cloned::<T>(*self, *slot) && #[trigger] call_ensures(f, (slot,), ()) && *final(slot)
                    == changed,
    {
        let mut tmp = T::clone(self);
        f(&mut tmp);
        tmp
    }
}

pub trait ArcExt<T: 'static> {
    /// A new shared value, made of a clone of the shared value that `f`
    /// has changed.
    #[must_use]
    fn as_owned_arc<F: FnOnce(&mut T)>(&self, f: F) -> (changed: Arc<T>)
        requires
            forall|slot: &mut T| call_requires(f, (slot,)),
    ;

    /// Puts a changed clone in the place of the shared value, and returns
    /// the shared value that was there.
    fn modify<F: FnOnce(&mut T)>(&mut self, f: F) -> (previous: Arc<T>)
        requires
            forall|slot: &mut T| call_requires(f, (slot,)),
    ;
}

impl<T: Clone + 'static> ArcExt<T> for Arc<T> {
    #[inline]
    fn as_owned_arc<F: FnOnce(&mut T)>(&self, f: F) -> (changed: Arc<T>)
        ensures
            exists|slot: &mut T|
                cloned::<T>(**self, *slot) && #[trigger] call_ensures(f, (slot,), ())
                    && *final(slot) == *changed,
    {
        let mut tmp = T::clone(self);
        f(&mut tmp);
        Arc::new(tmp)
    }

    #[inline]
    fn modify<F: FnOnce(&mut T)>(&mut self, f: F) -> (previous: Arc<T>)
        ensures
            *previous == **old(self),
            exists|slot: &mut T|
                cloned::<T>(**old(self), *slot) && #[trigger] call_ensures(f, (slot,), ())
                    && *final(slot) == **final(self),
    {
        let previous = Arc::clone(self);
        *self = self.as_owned_arc(f);
        previous
    }
}

} // verus!
