//! An observable value cell.
//!
//! A `Property` holds a value and a list of listeners; every write notifies
//! each listener with the new value, in subscription order.  Listeners are
//! values of a caller-chosen type implementing [`Listener`].

use vstd::prelude::*;

verus! {

/// A callback object a `Property` notifies on every write.  Implementors
/// promise nothing about what `notify` does; the property only guarantees
/// when and with what value it is called.
pub trait Listener<T> {
    /// Called with the property's new value after each write.
    fn notify(&self, value: &T);
}

/// A value cell with subscription-ordered change listeners.
pub struct Property<T, L: Listener<T>> {
    value: T,
    listeners: Vec<L>,
}

impl<T, L: Listener<T>> Property<T, L> {
    /// The current value.
    pub closed spec fn spec_value(self) -> T {
        self.value
    }

    /// The registered listeners, in subscription order.
    pub closed spec fn spec_listeners(self) -> Seq<L> {
        self.listeners@
    }

    /// A property holding the given value, with no listeners.
    pub fn new(val: T) -> (p: Self)
        ensures
            p.spec_value() == val,
            p.spec_listeners() == Seq::<L>::empty(),
    {
        Property { value: val, listeners: Vec::new() }
    }

    /// Register a listener; it will be notified of every later write, after
    /// all previously subscribed listeners.
    pub fn subscribe(&mut self, callback: L)
        ensures
            final(self).spec_value() == old(self).spec_value(),
            final(self).spec_listeners() == old(self).spec_listeners().push(callback),
    {
        self.listeners.push(callback);
    }

    /// Write a new value and notify every listener with it, in subscription
    /// order.
    pub fn set_value(&mut self, val: T)
        ensures
            final(self).spec_value() == val,
            final(self).spec_listeners() == old(self).spec_listeners(),
    {
        self.value = val;
        let mut i: usize = 0;
        while i < self.listeners.len()
            invariant
                0 <= i <= self.listeners@.len(),
                self.value == val,
                self.listeners == old(self).listeners,
            decreases self.listeners@.len() - i,
        {
            self.listeners[i].notify(&self.value);
            i = i + 1;
        }
    }

    /// Read the current value.
    pub fn get_value(&self) -> (v: &T)
        ensures
            v == self.spec_value(),
    {
        &self.value
    }
}

} // verus!
