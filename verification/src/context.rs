//! Contexts: the root scope that values are borrowed from.
//!
//! A context owns the snapshots of the values made in it. A value is only
//! ever handed out as a reference that borrows the context, so no reference
//! to a value outlives the context it came from.

use vstd::prelude::*;
use crate::ownership::CBox;
use crate::value::Value;

verus! {

/// A context.
#[derive(Debug)]
pub struct Context {
    handle: u64,
    values: Vec<Value>,
}

impl Context {
    /// The identity of the native context.
    pub closed spec fn handle(&self) -> u64 {
        self.handle
    }

    /// The values the context owns, in the order in which it adopted them.
    pub closed spec fn values(&self) -> Seq<Value> {
        self.values@
    }

    /// Makes the context of the identity `handle`, without values, in the
    /// container that owns it.
    pub fn new(handle: u64) -> (boxed: CBox<Context>)
        ensures
            boxed.resource().handle() == handle,
            boxed.resource().values().len() == 0,
    {
        CBox::new(Context { handle, values: Vec::new() })
    }

    /// The identity of the native context.
    pub fn get_handle(&self) -> (handle: u64)
        ensures
            handle == self.handle(),
    {
        self.handle
    }

    /// The number of values the context owns.
    pub fn count(&self) -> (count: usize)
        ensures
            count == self.values().len(),
    {
        self.values.len()
    }

    /// Takes ownership of `value` and says at which position it is kept.
    pub fn adopt(&mut self, value: Value) -> (position: usize)
        ensures
            position == old(self).values().len(),
            final(self).values() == old(self).values().push(value),
            final(self).handle() == old(self).handle(),
    {
        self.values.push(value);
        self.values.len() - 1
    }

    /// Borrows the value kept at `position`, for no longer than the context
    /// is borrowed; `None` past the last value.
    pub fn value(&self, position: usize) -> (value: Option<&Value>)
        ensures
            value.is_some() == (position < self.values().len()),
            value matches Some(found) ==> *found == self.values()[position as int],
    {
        if position < self.values.len() {
            Some(&self.values[position])
        } else {
            None
        }
    }
}

} // verus!
