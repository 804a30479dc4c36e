//! Targets and target machines: what the layer decides when a target machine
//! is made for the host.

use vstd::prelude::*;
use vstd::string::*;

verus! {

/// A snapshot of a native target.
#[derive(Clone, Debug, PartialEq, Eq)]
pub struct Target {
    pub handle: u64,
    pub name: String,
    pub description: String,
    pub asm_backend: bool,
    pub jit: bool,
    pub target_machine: bool,
}

impl Target {
    /// The name of this target.
    pub fn get_name(&self) -> (name: &String)
        ensures
            *name == self.name,
    {
        &self.name
    }

    /// The description of this target.
    pub fn get_description(&self) -> (description: &String)
        ensures
            *description == self.description,
    {
        &self.description
    }

    /// Whether this target has an assembly generation backend.
    pub fn has_asm_backend(&self) -> (flag: bool)
        ensures
            flag == self.asm_backend,
    {
        self.asm_backend
    }

    /// Whether this target supports just-in-time compilation.
    pub fn has_jit(&self) -> (flag: bool)
        ensures
            flag == self.jit,
    {
        self.jit
    }

    /// Whether this target has a target machine.
    pub fn has_target_machine(&self) -> (flag: bool)
        ensures
            flag == self.target_machine,
    {
        self.target_machine
    }
}

/// The message for a host whose triple no target answers to.
pub open spec fn no_target_message(triple: Seq<char>, reason: Seq<char>) -> Seq<char> {
    "Unable to get an LLVM target reference for "@ + triple + ": "@ + reason
}

/// The message for a target that gave no machine.
pub open spec fn no_machine_message(triple: Seq<char>) -> Seq<char> {
    "Unable to get a LLVM target machine for "@ + triple
}

/// A target machine: the machine made for a target and the triple it was
/// made for.
#[derive(Debug)]
pub struct TargetMachine {
    handle: u64,
    triple: String,
    target: Target,
}

impl TargetMachine {
    /// The identity of the native machine; never zero.
    pub closed spec fn handle(&self) -> u64 {
        self.handle
    }

    /// The triple the machine was made for.
    pub closed spec fn triple(&self) -> Seq<char> {
        self.triple@
    }

    /// The target the machine was made for.
    pub closed spec fn target(&self) -> Target {
        self.target
    }

    /// Decides what looking up the target for the host's triple came to.
    /// `lookup` is what the native side gave: the target, or the reason why
    /// there is none. Without a target the error names the triple and the
    /// reason.
    pub fn find_target(triple: &str, lookup: Result<Target, String>) -> (found: Result<
        Target,
        String,
    >)
        ensures
            found.is_ok() == lookup.is_ok(),
            lookup matches Ok(target) ==> found == Ok::<Target, String>(target),
            lookup matches Err(reason) ==> (found matches Err(message) && message@
                == no_target_message(triple@, reason@)),
    {
        match lookup {
            Ok(target) => Ok(target),
            Err(reason) => {
                let mut message = String::from_str("Unable to get an LLVM target reference for ");
                message.append(triple);
                message.append(": ");
                message.append(reason.as_str());
                Err(message)
            },
        }
    }

    /// Decides what making a target machine came to. `triple` is the host's
    /// triple, `target` the target found for it, and `machine` the identity
    /// of the machine made for that target, zero when none was made. Without
    /// a machine the error names the triple.
    pub fn new(triple: &str, target: Target, machine: u64) -> (made: Result<TargetMachine, String>)
        ensures
            made.is_ok() == (machine != 0),
            made matches Ok(tm) ==> tm.handle() == machine && tm.triple() == triple@ && tm.target()
                == target,
            made matches Err(message) ==> message@ == no_machine_message(triple@),
    {
        if machine == 0 {
            let mut message = String::from_str("Unable to get a LLVM target machine for ");
            message.append(triple);
            Err(message)
        } else {
            Ok(TargetMachine { handle: machine, triple: String::from_str(triple), target })
        }
    }

    /// The identity of the native machine.
    pub fn get_handle(&self) -> (handle: u64)
        ensures
            handle == self.handle(),
    {
        self.handle
    }

    /// The triple the machine was made for.
    pub fn get_triple(&self) -> (triple: &String)
        ensures
            triple@ == self.triple(),
    {
        &self.triple
    }

    /// The target the machine was made for.
    pub fn get_target(&self) -> (target: &Target)
        ensures
            *target == self.target(),
    {
        &self.target
    }

    /// The description of `target`.
    #[allow(unused_variables)]
    pub fn get_description<'a>(&self, target: &'a Target) -> (description: &'a String)
        ensures
            *description == target.description,
    {
        &target.description
    }
}

} // verus!
