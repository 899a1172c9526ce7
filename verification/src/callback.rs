//! A slot holding at most one callback.

use vstd::prelude::*;

verus! {

/// A slot that holds at most one callback of type `F`.
#[derive(Debug, Clone, Copy)]
pub struct Callback<F> {
    slot: Option<F>,
}

impl<F> View for Callback<F> {
    type V = Option<F>;

    closed spec fn view(&self) -> Option<F> {
        self.slot
    }
}

impl<F> Callback<F> {
    /// A slot holding `callback`.
    pub fn new(callback: Option<F>) -> (slot: Self)
        ensures
            slot@ == callback,
    {
        Callback { slot: callback }
    }

    /// A slot holding the given callback.
    pub fn from_fn(callback: F) -> (slot: Self)
        ensures
            slot@ == Some(callback),
    {
        Callback { slot: Some(callback) }
    }

    /// Whether a callback is held.
    pub fn is_set(&self) -> (set: bool)
        ensures
            set == self@ is Some,
    {
        self.slot.is_some()
    }

    /// Stores `callback`, returning the one it replaces.
    pub fn set(&mut self, callback: F) -> (previous: Option<F>)
        ensures
            final(self)@ == Some(callback),
            previous == old(self)@,
    {
        let previous = self.slot.take();
        self.slot = Some(callback);
        previous
    }

    /// Empties the slot, returning the callback it held.
    pub fn clear(&mut self) -> (previous: Option<F>)
        ensures
            final(self)@ == None::<F>,
            previous == old(self)@,
    {
        self.slot.take()
    }
}

impl<F: Copy> Callback<F> {
    /// The held callback, if any.
    pub fn get(&self) -> (callback: Option<F>)
        ensures
            callback == self@,
    {
        self.slot
    }
}

impl<F> Callback<F> {
    /// Calls the held callback with `arg`; returns whether one was held.
    pub fn invoke<A>(&self, arg: A) -> (called: bool) where F: Fn(A)
        requires
            self@ matches Some(f) ==> call_requires(f, (arg,)),
        ensures
            called == self@ is Some,
            self@ matches Some(f) ==> call_ensures(f, (arg,), ()),
    {
        match &self.slot {
            Some(f) => {
                f(arg);
                true
            },
            None => false,
        }
    }
}

impl<F> Default for Callback<F> {
    /// An empty slot.
    fn default() -> (slot: Self)
        ensures
            slot@ == None::<F>,
    {
        Callback { slot: None }
    }
}

} // verus!
