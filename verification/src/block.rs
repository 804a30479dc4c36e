//! Basic blocks, as far as the value hierarchy needs them.

use vstd::prelude::*;

verus! {

/// A snapshot of a basic block: the identity of the native block and its
/// name, if it has one.
#[derive(Clone, Debug, PartialEq, Eq)]
pub struct BasicBlock {
    pub handle: u64,
    pub name: Option<String>,
}

} // verus!
