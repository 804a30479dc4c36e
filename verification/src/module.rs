//! Modules, as far as execution engines and pass managers need them.

use vstd::prelude::*;

verus! {

/// A snapshot of a module: the identity of the native module and its name.
/// A module has one owner at a time; handing it to an execution engine moves
/// it there, and taking it back out moves it to the caller again.
#[derive(Debug)]
pub struct Module {
    pub handle: u64,
    pub name: String,
}

} // verus!
