//! Execution engines: which modules an engine owns, and which functions may
//! be called through it.
//!
//! An engine is *created* without modules, *active* while it owns at least
//! one, and *disposed* at the end. Just-in-time compilation and the call
//! itself happen on the native side; the engine decides what is owned and
//! what may be called.

use vstd::prelude::*;
use crate::module::Module;
use crate::types::FunctionShape;
use crate::value::Function;

verus! {

/// The options an engine is made with.
#[derive(Clone, Copy, Debug)]
pub struct JitOptions {
    /// The optimisation level, handed on to the native compiler as it is.
    pub opt_level: usize,
}

/// The states of an execution engine.
#[derive(Clone, Copy, Debug, PartialEq, Eq, Structural)]
pub enum EngineState {
    /// No module has been added.
    Created,
    /// At least one module is owned.
    Active,
    /// The engine has been disposed of.
    Disposed,
}

/// Why an operation of an engine failed.
#[derive(Debug)]
pub enum EngineError {
    /// No native target backend could be resolved for the host.
    NoTarget { message: String },
    /// The module failed native verification; it is handed back.
    InvalidModule { module: Module, message: String },
}

/// The permission to call a compiled function: the identity of the function
/// and of the module that holds it.
#[derive(Clone, Copy, Debug, PartialEq, Eq, Structural)]
pub struct Trampoline {
    pub function: u64,
    pub module: u64,
}

/// Whether one of `modules` has the identity `handle`.
pub open spec fn holds(modules: Seq<Module>, handle: u64) -> bool {
    exists|i: int| 0 <= i < modules.len() && (#[trigger] modules[i]).handle == handle
}

/// The position of the first of `modules` with the identity `handle`, or the
/// length of `modules` when there is none.
pub open spec fn position(modules: Seq<Module>, handle: u64) -> int
    decreases modules.len(),
{
    if modules.len() == 0 {
        0
    } else if modules[0].handle == handle {
        0
    } else {
        1 + position(modules.subrange(1, modules.len() as int), handle)
    }
}

/// `modules` without the first module of the identity `handle`.
pub open spec fn without(modules: Seq<Module>, handle: u64) -> Seq<Module> {
    modules.remove(position(modules, handle))
}

/// The position of `handle` lies within `modules` exactly when a module of
/// that identity is there, it is then the first such position, and it never
/// lies past the end.
pub proof fn lemma_position(modules: Seq<Module>, handle: u64)
    ensures
        0 <= position(modules, handle) <= modules.len(),
        position(modules, handle) < modules.len() <==> holds(modules, handle),
        position(modules, handle) < modules.len() ==> modules[position(modules, handle)].handle
            == handle,
        forall|i: int|
            0 <= i < position(modules, handle) ==> (#[trigger] modules[i]).handle != handle,
    decreases modules.len(),
{
    if modules.len() == 0 {
    } else if modules[0].handle == handle {
    } else {
        let rest = modules.subrange(1, modules.len() as int);
        lemma_position(rest, handle);
        let p = position(rest, handle);
        assert forall|i: int| 0 <= i < 1 + p implies (#[trigger] modules[i]).handle != handle by {
            if i > 0 {
                assert(rest[i - 1] == modules[i]);
            }
        }
        if p < rest.len() {
            assert(rest[p] == modules[p + 1]);
        }
        if holds(modules, handle) {
            let i = choose|i: int| 0 <= i < modules.len() && (#[trigger] modules[i]).handle == handle;
            assert(rest[i - 1] == modules[i]);
        }
    }
}

/// An execution engine.
#[derive(Debug)]
pub struct ExecutionEngine {
    opt_level: usize,
    modules: Vec<Module>,
    disposed: bool,
}

impl ExecutionEngine {
    /// The modules the engine owns, in the order in which they were added.
    /// A disposed engine owns none.
    pub closed spec fn modules(&self) -> Seq<Module> {
        if self.disposed {
            Seq::empty()
        } else {
            self.modules@
        }
    }

    /// The optimisation level the engine was made with.
    pub closed spec fn opt_level(&self) -> usize {
        self.opt_level
    }

    /// Whether the engine has been disposed of.
    pub closed spec fn disposed(&self) -> bool {
        self.disposed
    }

    /// The state of the engine.
    pub open spec fn state(&self) -> EngineState {
        if self.disposed() {
            EngineState::Disposed
        } else if self.modules().len() == 0 {
            EngineState::Created
        } else {
            EngineState::Active
        }
    }

    /// Whether the engine owns a module of the identity `handle`.
    pub open spec fn owns(&self, handle: u64) -> bool {
        holds(self.modules(), handle)
    }

    /// Whether `function` may be called through this engine with the shape
    /// `witness`: the engine owns the module of the function, and the
    /// signature of the function is the function type of the witness, in
    /// arity and position by position.
    pub open spec fn callable(&self, function: Function, witness: FunctionShape) -> bool {
        &&& self.owns(function.module())
        &&& function.signature().describes(witness)
    }

    /// Makes an engine without modules. `backend` is what resolving a native
    /// target backend for the host gave; without a backend there is no
    /// engine, and the error carries the reason.
    pub fn new(options: JitOptions, backend: Result<(), String>) -> (made: Result<
        ExecutionEngine,
        EngineError,
    >)
        ensures
            backend.is_ok() == made.is_ok(),
            made matches Ok(engine) ==> engine.state() == EngineState::Created
                && engine.modules().len() == 0 && engine.opt_level() == options.opt_level,
            made matches Err(error) ==> error == (EngineError::NoTarget {
                message: backend->Err_0,
            }),
    {
        match backend {
            Ok(_) => Ok(
                ExecutionEngine { opt_level: options.opt_level, modules: Vec::new(), disposed: false },
            ),
            Err(message) => Err(EngineError::NoTarget { message }),
        }
    }

    /// The state of the engine.
    pub fn get_state(&self) -> (state: EngineState)
        ensures
            state == self.state(),
    {
        if self.disposed {
            EngineState::Disposed
        } else if self.modules.len() == 0 {
            EngineState::Created
        } else {
            EngineState::Active
        }
    }

    /// The optimisation level the engine was made with.
    pub fn get_opt_level(&self) -> (level: usize)
        ensures
            level == self.opt_level(),
    {
        self.opt_level
    }

    /// The number of modules the engine owns.
    pub fn count_modules(&self) -> (count: usize)
        ensures
            count == self.modules().len(),
    {
        if self.disposed {
            0
        } else {
            self.modules.len()
        }
    }

    /// Whether the engine owns a module of the identity `handle`.
    pub fn has_module(&self, handle: u64) -> (found: bool)
        ensures
            found == self.owns(handle),
    {
        self.find(handle) < self.count_modules()
    }

    fn find(&self, handle: u64) -> (at: usize)
        ensures
            at == position(self.modules(), handle),
            at <= self.modules().len(),
            at < self.modules().len() <==> self.owns(handle),
    {
        if self.disposed {
            return 0;
        }
        let mut i: usize = 0;
        while i < self.modules.len()
            invariant
                !self.disposed,
                i <= self.modules@.len(),
                forall|j: int| 0 <= j < i ==> (#[trigger] self.modules@[j]).handle != handle,
            decreases self.modules@.len() - i,
        {
            if self.modules[i].handle == handle {
                proof {
                    lemma_position(self.modules@, handle);
                }
                return i;
            }
            i = i + 1;
        }
        proof {
            lemma_position(self.modules@, handle);
        }
        i
    }

    /// Takes ownership of `module`. `verification` is what native
    /// verification of the module gave: a module that failed it is not
    /// added but handed back in the error, together with the reason, and
    /// the engine stays as it was. Nothing else makes this fail.
    pub fn add_module(&mut self, module: Module, verification: Result<(), String>) -> (added:
        Result<(), EngineError>)
        requires
            old(self).state() != EngineState::Disposed,
        ensures
            added.is_ok() == verification.is_ok(),
            final(self).opt_level() == old(self).opt_level(),
            added.is_ok() ==> final(self).modules() == old(self).modules().push(module)
                && final(self).state() == EngineState::Active,
            added matches Err(error) ==> error == (EngineError::InvalidModule {
                module,
                message: verification->Err_0,
            }) && final(self).modules() == old(self).modules() && final(self).state() == old(
                self,
            ).state(),
    {
        match verification {
            Ok(_) => {
                self.modules.push(module);
                Ok(())
            },
            Err(message) => Err(EngineError::InvalidModule { module, message }),
        }
    }

    /// Gives the module of the identity `handle` back to the caller: the
    /// first such module in the order of adding. Asking for a module that
    /// the engine does not own is a defect of the caller.
    pub fn remove_module(&mut self, handle: u64) -> (module: Module)
        requires
            old(self).owns(handle),
        ensures
            module.handle == handle,
            module == old(self).modules()[position(old(self).modules(), handle)],
            final(self).modules() == without(old(self).modules(), handle),
            final(self).opt_level() == old(self).opt_level(),
            final(self).state() != EngineState::Disposed,
    {
        proof {
            lemma_position(self.modules(), handle);
        }
        let at = self.find(handle);
        self.modules.remove(at)
    }

    /// Whether `function` may be called through this engine with the shape
    /// `witness`.
    pub fn can_call(&self, function: &Function, witness: &FunctionShape) -> (allowed: bool)
        ensures
            allowed == self.callable(*function, *witness),
    {
        self.has_module(function.get_module()) && function.get_signature().matches(witness)
    }

    /// Hands `callback` the permission to call `function` and returns what
    /// the callback returns. The function must belong to a module that the
    /// engine owns, and `witness` must be the shape of its signature: a
    /// mismatch is a defect of the caller.
    pub fn with_function<R, F: FnOnce(Trampoline) -> R>(
        &self,
        function: Function,
        witness: &FunctionShape,
        callback: F,
    ) -> (result: R)
        requires
            self.callable(function, *witness),
            callback.requires(
                (Trampoline {
                    function: function.widened().widened().handle(),
                    module: function.module(),
                },),
            ),
        ensures
            callback.ensures(
                (Trampoline {
                    function: function.widened().widened().handle(),
                    module: function.module(),
                },),
                result,
            ),
    {
        let trampoline = Trampoline {
            function: function.to_super().to_super().get_handle(),
            module: function.get_module(),
        };
        callback(trampoline)
    }

    /// Disposes of the engine. The modules it still owns go with it: they
    /// are returned for release, in the order in which they were added.
    pub fn dispose(&mut self) -> (released: Vec<Module>)
        requires
            old(self).state() != EngineState::Disposed,
        ensures
            released@ == old(self).modules(),
            final(self).state() == EngineState::Disposed,
            final(self).modules().len() == 0,
            final(self).opt_level() == old(self).opt_level(),
    {
        let mut released: Vec<Module> = Vec::new();
        released.append(&mut self.modules);
        self.disposed = true;
        released
    }
}

/// A module that was added can be taken out again and added to a fresh
/// engine: adding `module` to an engine that owns no module of its identity
/// and removing it by its identity gives back that module and leaves the
/// engine's modules as they were, and on an engine without modules the
/// module is then the one module owned.
pub proof fn law_module_round_trip(modules: Seq<Module>, module: Module)
    requires
        !holds(modules, module.handle),
    ensures
        holds(modules.push(module), module.handle),
        modules.push(module)[position(modules.push(module), module.handle)] == module,
        without(modules.push(module), module.handle) == modules,
        !holds(without(modules.push(module), module.handle), module.handle),
        Seq::<Module>::empty().push(module) == seq![module],
        holds(seq![module], module.handle),
{
    let after = modules.push(module);
    assert(after[modules.len() as int] == module);
    lemma_position(after, module.handle);
    let p = position(after, module.handle);
    assert(p == modules.len()) by {
        if p < modules.len() {
            assert(modules[p] == after[p]);
        }
    }
    assert(after.remove(p) =~= modules);
    assert(Seq::<Module>::empty().push(module) =~= seq![module]);
    assert(seq![module][0] == module);
}

/// Removing a module takes away one module and keeps the others in their
/// order; a module of an identity that the engine does not own cannot be
/// removed, because nothing is there to give back.
pub proof fn law_remove_takes_one(modules: Seq<Module>, handle: u64)
    ensures
        holds(modules, handle) ==> without(modules, handle).len() == modules.len() - 1,
        holds(modules, handle) ==> forall|i: int|
            0 <= i < position(modules, handle) ==> without(modules, handle)[i] == modules[i],
        holds(modules, handle) ==> forall|i: int|
            position(modules, handle) <= i < modules.len() - 1 ==> without(modules, handle)[i]
                == modules[i + 1],
        !holds(modules, handle) ==> position(modules, handle) == modules.len(),
{
    lemma_position(modules, handle);
}

} // verus!
