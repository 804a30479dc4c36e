//! A statically checked handle layer for a native compiler toolkit.
//!
//! The toolkit hands out untyped handles whose lifetime and ownership are a
//! matter of documentation. This library holds the rules that make their use
//! safe, as verified code over plain values:
//!
//! - [`ownership`]: containers that owe the release of a resource, release it
//!   once, and owe nothing after the resource was detached;
//! - [`context`]: the root scope that values are borrowed from;
//! - [`value`]: snapshots of values, and the checked narrowing and unchecked
//!   widening between the kinds of values;
//! - [`types`] and [`compile`]: the mapping from native shapes to type
//!   descriptors and from native scalar values to constants;
//! - [`engine`]: which modules an execution engine owns and which functions
//!   may be called through it;
//! - [`pass_manager`]: pass pipelines, their builder and the pass registry;
//! - [`target`], [`lto`], [`link_time_optimizer`]: what the calls for target
//!   machines and link-time optimisation came to.
//!
//! The calls into the toolkit themselves are not made here. Whoever makes
//! them hands the library what the native side answered and carries out what
//! the library decided.

pub mod block;
pub mod compile;
pub mod context;
pub mod engine;
pub mod link_time_optimizer;
pub mod lto;
pub mod module;
pub mod ownership;
pub mod pass_manager;
pub mod target;
pub mod types;
pub mod util;
pub mod value;

pub use block::BasicBlock;
pub use compile::{Constant, Native};
pub use context::Context;
pub use engine::{EngineError, EngineState, ExecutionEngine, JitOptions, Trampoline};
pub use module::Module;
pub use ownership::{CBox, CSemiBox};
pub use pass_manager::{PassManager, PassManagerBuilder, PassRegistry};
pub use target::{Target, TargetMachine};
pub use types::{FunctionShape, FunctionType, Scalar, Shape, Type};
pub use value::{Alias, Arg, Function, GlobalValue, GlobalVariable, Linkage, Predicate, Value};
