//! Conversions between native truth values and counts and their Rust
//! counterparts.

use vstd::prelude::*;

verus! {

/// The native truth value of `flag`: 1 for true, 0 for false.
pub fn llvm_bool(flag: bool) -> (raw: i32)
    ensures
        raw == (if flag { 1i32 } else { 0i32 }),
{
    if flag {
        1
    } else {
        0
    }
}

/// Reads a native truth value: everything but zero is true.
pub fn truth(raw: i32) -> (flag: bool)
    ensures
        flag == (raw != 0),
{
    raw != 0
}

/// Decides what a native call that reports failure came to: the message is
/// the error when the call failed, and is dropped when it did not.
pub fn checked(failed: bool, message: String) -> (outcome: Result<(), String>)
    ensures
        outcome.is_err() == failed,
        failed ==> outcome == Err::<(), String>(message),
{
    if failed {
        Err(message)
    } else {
        Ok(())
    }
}

} // verus!
