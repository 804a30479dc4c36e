//! Pass pipelines: the ordered list of transformations that a pass manager
//! is configured with, the settings of a pipeline builder and the registry of
//! initialised pass groups.
//!
//! The transformations themselves run on the native side. A pass manager
//! here is the configuration: which steps, in which order.

use vstd::prelude::*;
use crate::module::Module;
use crate::ownership::CSemiBox;
use crate::value::Value;

verus! {

/// A named transformation.
#[derive(Clone, Copy, Debug, PartialEq, Eq, Structural)]
pub enum Pass {
    AggressiveDCE,
    AlignmentFromAssumptions,
    BasicAliasAnalysis,
    BitTrackingDCE,
    CFGSimplification,
    ConstantPropagation,
    DeadStoreElimination,
    DemoteMemoryToRegister,
    EarlyCSE,
    CorrelatedValuePropagation,
    GVN,
    IndVarSimplify,
    InstructionCombining,
    LICM,
    LoopDeletion,
    LoopIdiom,
    LoopReroll,
    LoopRotate,
    LoopUnroll,
    LoopUnswitch,
    LowerExpectIntrinsic,
    LowerSwitch,
    MemCpyOpt,
    MergedLoadStoreMotion,
    PartiallyInlineLibCalls,
    PromoteMemoryToRegister,
    Reassociate,
    SCCP,
    ScalarReplAggregates,
    ScalarReplAggregatesSSA,
    Scalarizer,
    ScopedNoAliasAA,
    SimplifyLibCalls,
    TailCallElimination,
    TypeBasedAliasAnalysis,
    Verifier,
    BBVectorize,
    LoopVectorize,
    SLPVectorize,
    AlwaysInliner,
    ArgumentPromotion,
    ConstantMerge,
    DeadArgElimination,
    FunctionAttrs,
    FunctionInlining,
    GlobalDCE,
    GlobalOptimizer,
    IPConstantPropagation,
    IPSCCP,
    PruneEH,
    StripDeadPrototypes,
    StripSymbols,
}

/// What a pass manager works on.
#[derive(Clone, Copy, Debug, PartialEq, Eq, Structural)]
pub enum Scope {
    /// Whole modules.
    Modules,
    /// The functions of the module of the given identity, one at a time.
    Functions { module: u64 },
}

/// The settings of a pipeline builder. A setting that was never made is
/// `None`: the native builder then keeps its own default.
#[derive(Clone, Copy, Debug, PartialEq, Eq)]
pub struct Settings {
    pub opt_level: Option<u32>,
    pub disable_simplify_lib_calls: Option<bool>,
    pub disable_unit_at_a_time: Option<bool>,
    pub disable_unroll_loops: Option<bool>,
    pub inliner_threshold: Option<u32>,
}

/// One step of a pipeline.
#[derive(Clone, Copy, Debug, PartialEq, Eq)]
pub enum Step {
    /// A single named transformation.
    Pass(Pass),
    /// The passes that a builder with these settings picks for modules.
    ModulePipeline(Settings),
    /// The passes that a builder with these settings picks for functions.
    FunctionPipeline(Settings),
    /// The passes that a builder with these settings picks for link time.
    LtoPipeline { settings: Settings, internalize: bool, run_inliner: bool },
}

/// The object that sets up an optimisation sequence: an ordered list of
/// steps and what they are to work on.
#[derive(Debug)]
pub struct PassManager {
    scope: Scope,
    steps: Vec<Step>,
}

impl PassManager {
    /// The steps of the pipeline, in the order in which they run.
    pub closed spec fn steps(&self) -> Seq<Step> {
        self.steps@
    }

    /// What the pipeline works on.
    pub closed spec fn scope(&self) -> Scope {
        self.scope
    }

    /// Whether this pass manager is `before` with `step` added at the end of
    /// its pipeline, and otherwise unchanged.
    pub open spec fn extends(&self, before: PassManager, step: Step) -> bool {
        self.steps() == before.steps().push(step) && self.scope() == before.scope()
    }

    /// Creates a pass manager for whole modules, with an empty pipeline.
    pub fn new() -> (boxed: CSemiBox<PassManager>)
        ensures
            boxed.holds() matches Some(manager) && manager.scope() == Scope::Modules
                && manager.steps().len() == 0,
    {
        CSemiBox::new(PassManager { scope: Scope::Modules, steps: Vec::new() })
    }

    /// Creates a pass manager for the functions of `module`, with an empty
    /// pipeline. It runs on one function at a time.
    pub fn new_func_pass(module: &Module) -> (boxed: CSemiBox<PassManager>)
        ensures
            boxed.holds() matches Some(manager) && manager.scope() == (Scope::Functions {
                module: module.handle,
            }) && manager.steps().len() == 0,
    {
        CSemiBox::new(
            PassManager { scope: Scope::Functions { module: module.handle }, steps: Vec::new() },
        )
    }

    /// What the pipeline works on.
    pub fn get_scope(&self) -> (scope: Scope)
        ensures
            scope == self.scope(),
    {
        self.scope
    }

    /// The steps of the pipeline, in the order in which they run.
    pub fn get_steps(&self) -> (steps: &Vec<Step>)
        ensures
            steps@ == self.steps(),
    {
        &self.steps
    }

    /// Reports whether a run of the pipeline over `function` modified it.
    /// `signal` is what the native run returned: zero when nothing was
    /// changed, anything else when something was.
    #[allow(unused_variables)]
    pub fn run_func_pass(&self, function: &Value, signal: i32) -> (modified: bool)
        ensures
            modified == (signal != 0),
    {
        signal != 0
    }

    /// Appends `pass` at the end of the pipeline.
    pub fn add(&mut self, pass: Pass) -> (chain: &mut PassManager)
        ensures
            chain.extends(*old(self), Step::Pass(pass)),
            *final(self) == *final(chain),
    {
        self.steps.push(Step::Pass(pass));
        self
    }

    /// Appends the pass `AggressiveDCE` at the end of the pipeline.
    pub fn add_agressive_dce(&mut self) -> (chain: &mut PassManager)
        ensures
            chain.extends(*old(self), Step::Pass(Pass::AggressiveDCE)),
            *final(self) == *final(chain),
    {
        self.steps.push(Step::Pass(Pass::AggressiveDCE));
        self
    }

    /// Appends the pass `AlignmentFromAssumptions` at the end of the pipeline.
    pub fn add_alingmnet_from_assum(&mut self) -> (chain: &mut PassManager)
        ensures
            chain.extends(*old(self), Step::Pass(Pass::AlignmentFromAssumptions)),
            *final(self) == *final(chain),
    {
        self.steps.push(Step::Pass(Pass::AlignmentFromAssumptions));
        self
    }

    /// Appends the pass `BasicAliasAnalysis` at the end of the pipeline.
    pub fn add_basic_alias_analysis(&mut self) -> (chain: &mut PassManager)
        ensures
            chain.extends(*old(self), Step::Pass(Pass::BasicAliasAnalysis)),
            *final(self) == *final(chain),
    {
        self.steps.push(Step::Pass(Pass::BasicAliasAnalysis));
        self
    }

    /// Appends the pass `BitTrackingDCE` at the end of the pipeline.
    pub fn add_bit_tacking_dce(&mut self) -> (chain: &mut PassManager)
        ensures
            chain.extends(*old(self), Step::Pass(Pass::BitTrackingDCE)),
            *final(self) == *final(chain),
    {
        self.steps.push(Step::Pass(Pass::BitTrackingDCE));
        self
    }

    /// Appends the pass `CFGSimplification` at the end of the pipeline.
    pub fn add_cfg(&mut self) -> (chain: &mut PassManager)
        ensures
            chain.extends(*old(self), Step::Pass(Pass::CFGSimplification)),
            *final(self) == *final(chain),
    {
        self.steps.push(Step::Pass(Pass::CFGSimplification));
        self
    }

    /// Appends the pass `ConstantPropagation` at the end of the pipeline.
    pub fn add_constant_propagation(&mut self) -> (chain: &mut PassManager)
        ensures
            chain.extends(*old(self), Step::Pass(Pass::ConstantPropagation)),
            *final(self) == *final(chain),
    {
        self.steps.push(Step::Pass(Pass::ConstantPropagation));
        self
    }

    /// Appends the pass `DeadStoreElimination` at the end of the pipeline.
    pub fn add_dead_store_elimination(&mut self) -> (chain: &mut PassManager)
        ensures
            chain.extends(*old(self), Step::Pass(Pass::DeadStoreElimination)),
            *final(self) == *final(chain),
    {
        self.steps.push(Step::Pass(Pass::DeadStoreElimination));
        self
    }

    /// Appends the pass `DemoteMemoryToRegister` at the end of the pipeline.
    pub fn add_demote_memory_to_register(&mut self) -> (chain: &mut PassManager)
        ensures
            chain.extends(*old(self), Step::Pass(Pass::DemoteMemoryToRegister)),
            *final(self) == *final(chain),
    {
        self.steps.push(Step::Pass(Pass::DemoteMemoryToRegister));
        self
    }

    /// Appends the pass `EarlyCSE` at the end of the pipeline.
    pub fn add_early_cse(&mut self) -> (chain: &mut PassManager)
        ensures
            chain.extends(*old(self), Step::Pass(Pass::EarlyCSE)),
            *final(self) == *final(chain),
    {
        self.steps.push(Step::Pass(Pass::EarlyCSE));
        self
    }

    /// Appends the pass `CorrelatedValuePropagation` at the end of the pipeline.
    pub fn add_correlated_value_propagation(&mut self) -> (chain: &mut PassManager)
        ensures
            chain.extends(*old(self), Step::Pass(Pass::CorrelatedValuePropagation)),
            *final(self) == *final(chain),
    {
        self.steps.push(Step::Pass(Pass::CorrelatedValuePropagation));
        self
    }

    /// Appends the pass `GVN` at the end of the pipeline.
    pub fn add_gvn(&mut self) -> (chain: &mut PassManager)
        ensures
            chain.extends(*old(self), Step::Pass(Pass::GVN)),
            *final(self) == *final(chain),
    {
        self.steps.push(Step::Pass(Pass::GVN));
        self
    }

    /// Appends the pass `IndVarSimplify` at the end of the pipeline.
    pub fn add_ind_var_simplify(&mut self) -> (chain: &mut PassManager)
        ensures
            chain.extends(*old(self), Step::Pass(Pass::IndVarSimplify)),
            *final(self) == *final(chain),
    {
        self.steps.push(Step::Pass(Pass::IndVarSimplify));
        self
    }

    /// Appends the pass `InstructionCombining` at the end of the pipeline.
    pub fn add_instruction_combining(&mut self) -> (chain: &mut PassManager)
        ensures
            chain.extends(*old(self), Step::Pass(Pass::InstructionCombining)),
            *final(self) == *final(chain),
    {
        self.steps.push(Step::Pass(Pass::InstructionCombining));
        self
    }

    /// Appends the pass `LICM` at the end of the pipeline.
    pub fn add_licm(&mut self) -> (chain: &mut PassManager)
        ensures
            chain.extends(*old(self), Step::Pass(Pass::LICM)),
            *final(self) == *final(chain),
    {
        self.steps.push(Step::Pass(Pass::LICM));
        self
    }

    /// Appends the pass `LoopDeletion` at the end of the pipeline.
    pub fn add_loop_deletion(&mut self) -> (chain: &mut PassManager)
        ensures
            chain.extends(*old(self), Step::Pass(Pass::LoopDeletion)),
            *final(self) == *final(chain),
    {
        self.steps.push(Step::Pass(Pass::LoopDeletion));
        self
    }

    /// Appends the pass `LoopIdiom` at the end of the pipeline.
    pub fn add_loop_idiom(&mut self) -> (chain: &mut PassManager)
        ensures
            chain.extends(*old(self), Step::Pass(Pass::LoopIdiom)),
            *final(self) == *final(chain),
    {
        self.steps.push(Step::Pass(Pass::LoopIdiom));
        self
    }

    /// Appends the pass `LoopReroll` at the end of the pipeline.
    pub fn add_loop_reroll(&mut self) -> (chain: &mut PassManager)
        ensures
            chain.extends(*old(self), Step::Pass(Pass::LoopReroll)),
            *final(self) == *final(chain),
    {
        self.steps.push(Step::Pass(Pass::LoopReroll));
        self
    }

    /// Appends the pass `LoopRotate` at the end of the pipeline.
    pub fn add_loop_rotate(&mut self) -> (chain: &mut PassManager)
        ensures
            chain.extends(*old(self), Step::Pass(Pass::LoopRotate)),
            *final(self) == *final(chain),
    {
        self.steps.push(Step::Pass(Pass::LoopRotate));
        self
    }

    /// Appends the pass `LoopUnroll` at the end of the pipeline.
    pub fn add_loop_unroll(&mut self) -> (chain: &mut PassManager)
        ensures
            chain.extends(*old(self), Step::Pass(Pass::LoopUnroll)),
            *final(self) == *final(chain),
    {
        self.steps.push(Step::Pass(Pass::LoopUnroll));
        self
    }

    /// Appends the pass `LoopUnswitch` at the end of the pipeline.
    pub fn add_loop_nswitch(&mut self) -> (chain: &mut PassManager)
        ensures
            chain.extends(*old(self), Step::Pass(Pass::LoopUnswitch)),
            *final(self) == *final(chain),
    {
        self.steps.push(Step::Pass(Pass::LoopUnswitch));
        self
    }

    /// Appends the pass `LowerExpectIntrinsic` at the end of the pipeline.
    pub fn add_lower_expect_intrinsic(&mut self) -> (chain: &mut PassManager)
        ensures
            chain.extends(*old(self), Step::Pass(Pass::LowerExpectIntrinsic)),
            *final(self) == *final(chain),
    {
        self.steps.push(Step::Pass(Pass::LowerExpectIntrinsic));
        self
    }

    /// Appends the pass `LowerSwitch` at the end of the pipeline.
    pub fn add_lower_swithc(&mut self) -> (chain: &mut PassManager)
        ensures
            chain.extends(*old(self), Step::Pass(Pass::LowerSwitch)),
            *final(self) == *final(chain),
    {
        self.steps.push(Step::Pass(Pass::LowerSwitch));
        self
    }

    /// Appends the pass `MemCpyOpt` at the end of the pipeline.
    pub fn add_mem_cpy(&mut self) -> (chain: &mut PassManager)
        ensures
            chain.extends(*old(self), Step::Pass(Pass::MemCpyOpt)),
            *final(self) == *final(chain),
    {
        self.steps.push(Step::Pass(Pass::MemCpyOpt));
        self
    }

    /// Appends the pass `MergedLoadStoreMotion` at the end of the pipeline.
    pub fn add_merged_load_store_motion(&mut self) -> (chain: &mut PassManager)
        ensures
            chain.extends(*old(self), Step::Pass(Pass::MergedLoadStoreMotion)),
            *final(self) == *final(chain),
    {
        self.steps.push(Step::Pass(Pass::MergedLoadStoreMotion));
        self
    }

    /// Appends the pass `PartiallyInlineLibCalls` at the end of the pipeline.
    pub fn add_partially_inline_lib_calls(&mut self) -> (chain: &mut PassManager)
        ensures
            chain.extends(*old(self), Step::Pass(Pass::PartiallyInlineLibCalls)),
            *final(self) == *final(chain),
    {
        self.steps.push(Step::Pass(Pass::PartiallyInlineLibCalls));
        self
    }

    /// Appends the pass `PromoteMemoryToRegister` at the end of the pipeline.
    pub fn add_promote_memory_to_register(&mut self) -> (chain: &mut PassManager)
        ensures
            chain.extends(*old(self), Step::Pass(Pass::PromoteMemoryToRegister)),
            *final(self) == *final(chain),
    {
        self.steps.push(Step::Pass(Pass::PromoteMemoryToRegister));
        self
    }

    /// Appends the pass `Reassociate` at the end of the pipeline.
    pub fn add_reassociate(&mut self) -> (chain: &mut PassManager)
        ensures
            chain.extends(*old(self), Step::Pass(Pass::Reassociate)),
            *final(self) == *final(chain),
    {
        self.steps.push(Step::Pass(Pass::Reassociate));
        self
    }

    /// Appends the pass `SCCP` at the end of the pipeline.
    pub fn add_sccp(&mut self) -> (chain: &mut PassManager)
        ensures
            chain.extends(*old(self), Step::Pass(Pass::SCCP)),
            *final(self) == *final(chain),
    {
        self.steps.push(Step::Pass(Pass::SCCP));
        self
    }

    /// Appends the pass `ScalarReplAggregates` at the end of the pipeline.
    pub fn add_scalar_repl_aggregates(&mut self) -> (chain: &mut PassManager)
        ensures
            chain.extends(*old(self), Step::Pass(Pass::ScalarReplAggregates)),
            *final(self) == *final(chain),
    {
        self.steps.push(Step::Pass(Pass::ScalarReplAggregates));
        self
    }

    /// Appends the pass `ScalarReplAggregatesSSA` at the end of the pipeline.
    pub fn add_scalar_repl_aggregates_ssa(&mut self) -> (chain: &mut PassManager)
        ensures
            chain.extends(*old(self), Step::Pass(Pass::ScalarReplAggregatesSSA)),
            *final(self) == *final(chain),
    {
        self.steps.push(Step::Pass(Pass::ScalarReplAggregatesSSA));
        self
    }

    /// Appends the pass `Scalarizer` at the end of the pipeline.
    pub fn add_scalarizer(&mut self) -> (chain: &mut PassManager)
        ensures
            chain.extends(*old(self), Step::Pass(Pass::Scalarizer)),
            *final(self) == *final(chain),
    {
        self.steps.push(Step::Pass(Pass::Scalarizer));
        self
    }

    /// Appends the pass `ScopedNoAliasAA` at the end of the pipeline.
    pub fn add_scoped_no_alias_aa(&mut self) -> (chain: &mut PassManager)
        ensures
            chain.extends(*old(self), Step::Pass(Pass::ScopedNoAliasAA)),
            *final(self) == *final(chain),
    {
        self.steps.push(Step::Pass(Pass::ScopedNoAliasAA));
        self
    }

    /// Appends the pass `SimplifyLibCalls` at the end of the pipeline.
    pub fn add_simplify_lib_calls(&mut self) -> (chain: &mut PassManager)
        ensures
            chain.extends(*old(self), Step::Pass(Pass::SimplifyLibCalls)),
            *final(self) == *final(chain),
    {
        self.steps.push(Step::Pass(Pass::SimplifyLibCalls));
        self
    }

    /// Appends the pass `TailCallElimination` at the end of the pipeline.
    pub fn add_tail_call_elimination(&mut self) -> (chain: &mut PassManager)
        ensures
            chain.extends(*old(self), Step::Pass(Pass::TailCallElimination)),
            *final(self) == *final(chain),
    {
        self.steps.push(Step::Pass(Pass::TailCallElimination));
        self
    }

    /// Appends the pass `TypeBasedAliasAnalysis` at the end of the pipeline.
    pub fn add_type_based_alias_nalysis(&mut self) -> (chain: &mut PassManager)
        ensures
            chain.extends(*old(self), Step::Pass(Pass::TypeBasedAliasAnalysis)),
            *final(self) == *final(chain),
    {
        self.steps.push(Step::Pass(Pass::TypeBasedAliasAnalysis));
        self
    }

    /// Appends the pass `Verifier` at the end of the pipeline.
    pub fn add_verifier(&mut self) -> (chain: &mut PassManager)
        ensures
            chain.extends(*old(self), Step::Pass(Pass::Verifier)),
            *final(self) == *final(chain),
    {
        self.steps.push(Step::Pass(Pass::Verifier));
        self
    }

    /// Appends the pass `BBVectorize` at the end of the pipeline.
    pub fn add_bb_vectorize(&mut self) -> (chain: &mut PassManager)
        ensures
            chain.extends(*old(self), Step::Pass(Pass::BBVectorize)),
            *final(self) == *final(chain),
    {
        self.steps.push(Step::Pass(Pass::BBVectorize));
        self
    }

    /// Appends the pass `LoopVectorize` at the end of the pipeline.
    pub fn add_loop_vectorize(&mut self) -> (chain: &mut PassManager)
        ensures
            chain.extends(*old(self), Step::Pass(Pass::LoopVectorize)),
            *final(self) == *final(chain),
    {
        self.steps.push(Step::Pass(Pass::LoopVectorize));
        self
    }

    /// Appends the pass `SLPVectorize` at the end of the pipeline.
    pub fn add_slp_vectorize(&mut self) -> (chain: &mut PassManager)
        ensures
            chain.extends(*old(self), Step::Pass(Pass::SLPVectorize)),
            *final(self) == *final(chain),
    {
        self.steps.push(Step::Pass(Pass::SLPVectorize));
        self
    }

    /// Appends the pass `AlwaysInliner` at the end of the pipeline.
    pub fn add_always_inline(&mut self) -> (chain: &mut PassManager)
        ensures
            chain.extends(*old(self), Step::Pass(Pass::AlwaysInliner)),
            *final(self) == *final(chain),
    {
        self.steps.push(Step::Pass(Pass::AlwaysInliner));
        self
    }

    /// Appends the pass `ArgumentPromotion` at the end of the pipeline.
    pub fn add_argument_promotion(&mut self) -> (chain: &mut PassManager)
        ensures
            chain.extends(*old(self), Step::Pass(Pass::ArgumentPromotion)),
            *final(self) == *final(chain),
    {
        self.steps.push(Step::Pass(Pass::ArgumentPromotion));
        self
    }

    /// Appends the pass `ConstantMerge` at the end of the pipeline.
    pub fn add_constant_merge(&mut self) -> (chain: &mut PassManager)
        ensures
            chain.extends(*old(self), Step::Pass(Pass::ConstantMerge)),
            *final(self) == *final(chain),
    {
        self.steps.push(Step::Pass(Pass::ConstantMerge));
        self
    }

    /// Appends the pass `DeadArgElimination` at the end of the pipeline.
    pub fn add_dead_arg_elimination(&mut self) -> (chain: &mut PassManager)
        ensures
            chain.extends(*old(self), Step::Pass(Pass::DeadArgElimination)),
            *final(self) == *final(chain),
    {
        self.steps.push(Step::Pass(Pass::DeadArgElimination));
        self
    }

    /// Appends the pass `FunctionAttrs` at the end of the pipeline.
    pub fn add_function_attrs(&mut self) -> (chain: &mut PassManager)
        ensures
            chain.extends(*old(self), Step::Pass(Pass::FunctionAttrs)),
            *final(self) == *final(chain),
    {
        self.steps.push(Step::Pass(Pass::FunctionAttrs));
        self
    }

    /// Appends the pass `FunctionInlining` at the end of the pipeline.
    pub fn add_function_inlining(&mut self) -> (chain: &mut PassManager)
        ensures
            chain.extends(*old(self), Step::Pass(Pass::FunctionInlining)),
            *final(self) == *final(chain),
    {
        self.steps.push(Step::Pass(Pass::FunctionInlining));
        self
    }

    /// Appends the pass `GlobalDCE` at the end of the pipeline.
    pub fn add_global_dce(&mut self) -> (chain: &mut PassManager)
        ensures
            chain.extends(*old(self), Step::Pass(Pass::GlobalDCE)),
            *final(self) == *final(chain),
    {
        self.steps.push(Step::Pass(Pass::GlobalDCE));
        self
    }

    /// Appends the pass `GlobalOptimizer` at the end of the pipeline.
    pub fn add_global_pptimizer(&mut self) -> (chain: &mut PassManager)
        ensures
            chain.extends(*old(self), Step::Pass(Pass::GlobalOptimizer)),
            *final(self) == *final(chain),
    {
        self.steps.push(Step::Pass(Pass::GlobalOptimizer));
        self
    }

    /// Appends the pass `IPConstantPropagation` at the end of the pipeline.
    pub fn add_ip_constant_propagation(&mut self) -> (chain: &mut PassManager)
        ensures
            chain.extends(*old(self), Step::Pass(Pass::IPConstantPropagation)),
            *final(self) == *final(chain),
    {
        self.steps.push(Step::Pass(Pass::IPConstantPropagation));
        self
    }

    /// Appends the pass `IPSCCP` at the end of the pipeline.
    pub fn add_ipsccp(&mut self) -> (chain: &mut PassManager)
        ensures
            chain.extends(*old(self), Step::Pass(Pass::IPSCCP)),
            *final(self) == *final(chain),
    {
        self.steps.push(Step::Pass(Pass::IPSCCP));
        self
    }

    /// Appends the pass `PruneEH` at the end of the pipeline.
    pub fn add_prune_eh(&mut self) -> (chain: &mut PassManager)
        ensures
            chain.extends(*old(self), Step::Pass(Pass::PruneEH)),
            *final(self) == *final(chain),
    {
        self.steps.push(Step::Pass(Pass::PruneEH));
        self
    }

    /// Appends the pass `StripDeadPrototypes` at the end of the pipeline.
    pub fn add_strip_dead_prototypes(&mut self) -> (chain: &mut PassManager)
        ensures
            chain.extends(*old(self), Step::Pass(Pass::StripDeadPrototypes)),
            *final(self) == *final(chain),
    {
        self.steps.push(Step::Pass(Pass::StripDeadPrototypes));
        self
    }

    /// Appends the pass `StripSymbols` at the end of the pipeline.
    pub fn add_strip_symbols(&mut self) -> (chain: &mut PassManager)
        ensures
            chain.extends(*old(self), Step::Pass(Pass::StripSymbols)),
            *final(self) == *final(chain),
    {
        self.steps.push(Step::Pass(Pass::StripSymbols));
        self
    }
}

/// The object that customises a pass sequence: it collects settings and
/// populates pass managers with the passes that fit them.
#[derive(Debug)]
pub struct PassManagerBuilder {
    settings: Settings,
}

impl Settings {
    /// The settings of a builder on which nothing was set.
    pub open spec fn unset() -> Settings {
        Settings {
            opt_level: None,
            disable_simplify_lib_calls: None,
            disable_unit_at_a_time: None,
            disable_unroll_loops: None,
            inliner_threshold: None,
        }
    }
}

impl PassManagerBuilder {
    /// The settings made so far.
    pub closed spec fn settings(&self) -> Settings {
        self.settings
    }

    /// Creates a builder on which nothing is set.
    pub fn new() -> (boxed: CSemiBox<PassManagerBuilder>)
        ensures
            boxed.holds() matches Some(builder) && builder.settings() == Settings::unset(),
    {
        CSemiBox::new(
            PassManagerBuilder {
                settings: Settings {
                    opt_level: None,
                    disable_simplify_lib_calls: None,
                    disable_unit_at_a_time: None,
                    disable_unroll_loops: None,
                    inliner_threshold: None,
                },
            },
        )
    }

    /// The settings made so far.
    pub fn get_settings(&self) -> (settings: Settings)
        ensures
            settings == self.settings(),
    {
        self.settings
    }

    /// Sets the basic optimisation level.
    pub fn set_opt(&mut self, level: u32)
        ensures
            final(self).settings() == (Settings { opt_level: Some(level), ..old(self).settings() }),
    {
        self.settings.opt_level = Some(level);
    }

    /// Sets the level handed to the builder when optimising for size. The
    /// builder is driven through its optimisation level, so this sets the
    /// same level as `set_opt`.
    pub fn set_size(&mut self, level: u32)
        ensures
            final(self).settings() == (Settings { opt_level: Some(level), ..old(self).settings() }),
    {
        self.settings.opt_level = Some(level);
    }

    /// Sets whether library calls are left unsimplified.
    pub fn set_disable_simplify_lib_calls(&mut self, opt: bool)
        ensures
            final(self).settings() == (Settings {
                disable_simplify_lib_calls: Some(opt),
                ..old(self).settings()
            }),
    {
        self.settings.disable_simplify_lib_calls = Some(opt);
    }

    /// Sets whether a unit is no longer optimised as a whole.
    pub fn disable_unit_at_a_time(&mut self, opt: bool)
        ensures
            final(self).settings() == (Settings {
                disable_unit_at_a_time: Some(opt),
                ..old(self).settings()
            }),
    {
        self.settings.disable_unit_at_a_time = Some(opt);
    }

    /// Sets whether loops are left unrolled.
    pub fn disable_unroll_loop(&mut self, opt: bool)
        ensures
            final(self).settings() == (Settings {
                disable_unroll_loops: Some(opt),
                ..old(self).settings()
            }),
    {
        self.settings.disable_unroll_loops = Some(opt);
    }

    /// Asks for the inliner, with the given threshold.
    pub fn inline_with_threshold(&mut self, threshold: u32)
        ensures
            final(self).settings() == (Settings {
                inliner_threshold: Some(threshold),
                ..old(self).settings()
            }),
    {
        self.settings.inliner_threshold = Some(threshold);
    }

    /// Appends to `pass_manager` the passes that this builder picks for link
    /// time. The registry must have been initialised before.
    #[allow(unused_variables)]
    pub fn populate_lto_pass_manger(
        &self,
        registry: &PassRegistry,
        pass_manager: &mut PassManager,
        internalize: bool,
        run_inliner: bool,
    )
        requires
            registry.is_ready(),
        ensures
            final(pass_manager).extends(
                *old(pass_manager),
                Step::LtoPipeline { settings: self.settings(), internalize, run_inliner },
            ),
    {
        pass_manager.steps.push(
            Step::LtoPipeline { settings: self.settings, internalize, run_inliner },
        );
    }

    /// Appends to `pass_manager` the passes that this builder picks for
    /// modules. The registry must have been initialised before.
    #[allow(unused_variables)]
    pub fn populate_module_pass_manager(
        &self,
        registry: &PassRegistry,
        pass_manager: &mut PassManager,
    )
        requires
            registry.is_ready(),
        ensures
            final(pass_manager).extends(*old(pass_manager), Step::ModulePipeline(self.settings())),
    {
        pass_manager.steps.push(Step::ModulePipeline(self.settings));
    }

    /// Appends to `pass_manager` the passes that this builder picks for
    /// functions. The registry must have been initialised before.
    #[allow(unused_variables)]
    pub fn populate_function_pass_manager(
        &self,
        registry: &PassRegistry,
        pass_manager: &mut PassManager,
    )
        requires
            registry.is_ready(),
        ensures
            final(pass_manager).extends(
                *old(pass_manager),
                Step::FunctionPipeline(self.settings()),
            ),
    {
        pass_manager.steps.push(Step::FunctionPipeline(self.settings));
    }
}

/// A group of passes that the registry initialises as one.
#[derive(Clone, Copy, Debug, PartialEq, Eq, Structural)]
pub enum Component {
    Analysis,
    CodeGen,
    Core,
    Ipa,
    Ipo,
    InstCombine,
    Instrumentation,
    ScalarOpts,
    Target,
    TransformUtils,
    Vectorization,
}

/// The groups initialised so far, with `component` initialised too: nothing
/// changes when it was initialised before.
pub open spec fn after(done: Seq<Component>, component: Component) -> Seq<Component> {
    if done.contains(component) {
        done
    } else {
        done.push(component)
    }
}

/// The groups initialised so far, with every group initialised too, each in
/// its turn.
pub open spec fn after_all(done: Seq<Component>) -> Seq<Component> {
    let s0 = after(done, Component::Analysis);
    let s1 = after(s0, Component::CodeGen);
    let s2 = after(s1, Component::Core);
    let s3 = after(s2, Component::Ipa);
    let s4 = after(s3, Component::Ipo);
    let s5 = after(s4, Component::InstCombine);
    let s6 = after(s5, Component::Instrumentation);
    let s7 = after(s6, Component::ScalarOpts);
    let s8 = after(s7, Component::Target);
    let s9 = after(s8, Component::TransformUtils);
    let s10 = after(s9, Component::Vectorization);
    s10
}

/// What manages the registration and initialisation of the pass subsystem:
/// the pass groups initialised through it, in the order in which each was
/// first initialised.
#[derive(Debug)]
pub struct PassRegistry {
    done: Vec<Component>,
}

impl PassRegistry {
    /// The groups initialised so far, in the order of their first
    /// initialisation.
    pub closed spec fn done(&self) -> Seq<Component> {
        self.done@
    }

    /// Whether `component` has been initialised.
    pub open spec fn initialized(&self, component: Component) -> bool {
        self.done().contains(component)
    }

    /// Whether every group has been initialised, as populating a pipeline
    /// from a builder asks.
    pub open spec fn is_ready(&self) -> bool {
        forall|component: Component| self.initialized(component)
    }

    /// The registry before anything is initialised through it.
    pub fn new() -> (registry: PassRegistry)
        ensures
            registry.done().len() == 0,
    {
        PassRegistry { done: Vec::new() }
    }

    /// Whether `component` has been initialised.
    pub fn has(&self, component: Component) -> (found: bool)
        ensures
            found == self.initialized(component),
    {
        let mut i: usize = 0;
        while i < self.done.len()
            invariant
                i <= self.done@.len(),
                forall|j: int| 0 <= j < i ==> self.done@[j] != component,
            decreases self.done@.len() - i,
        {
            if self.done[i] == component {
                return true;
            }
            i = i + 1;
        }
        false
    }

    /// Whether every group has been initialised.
    pub fn ready(&self) -> (flag: bool)
        ensures
            flag == self.is_ready(),
    {
        let all = self.has(Component::Analysis)
            && self.has(Component::CodeGen)
            && self.has(Component::Core)
            && self.has(Component::Ipa)
            && self.has(Component::Ipo)
            && self.has(Component::InstCombine)
            && self.has(Component::Instrumentation)
            && self.has(Component::ScalarOpts)
            && self.has(Component::Target)
            && self.has(Component::TransformUtils)
            && self.has(Component::Vectorization);
        proof {
            if all {
                assert forall|component: Component| self.initialized(component) by {
                    match component {
                        Component::Analysis => {},
                        Component::CodeGen => {},
                        Component::Core => {},
                        Component::Ipa => {},
                        Component::Ipo => {},
                        Component::InstCombine => {},
                        Component::Instrumentation => {},
                        Component::ScalarOpts => {},
                        Component::Target => {},
                        Component::TransformUtils => {},
                        Component::Vectorization => {},
                    }
                }
            }
        }
        all
    }

    /// Initialises `component`; nothing changes when it was initialised
    /// before.
    pub fn init(&mut self, component: Component)
        ensures
            final(self).done() == after(old(self).done(), component),
    {
        if !self.has(component) {
            self.done.push(component);
        }
    }

    /// Initialises every group, each in its turn.
    pub fn init_all(&mut self)
        ensures
            final(self).done() == after_all(old(self).done()),
            final(self).is_ready(),
    {
        self.init_analyis()
            .init_codegen()
            .init_core()
            .init_ipa()
            .init_ipo()
            .init_inst_combine()
            .init_instrumentation()
            .init_scalar_opts()
            .init_target()
            .init_transfrom_utils()
            .init_vectorization();
        proof {
            law_init_all(old(self).done());
        }
    }

    /// Initialises the pass group `Analysis`; nothing changes when it was
    /// initialised before.
    pub fn init_analyis(&mut self) -> (chain: &mut PassRegistry)
        ensures
            chain.done() == after(old(self).done(), Component::Analysis),
            *final(self) == *final(chain),
    {
        self.init(Component::Analysis);
        self
    }

    /// Initialises the pass group `CodeGen`; nothing changes when it was
    /// initialised before.
    pub fn init_codegen(&mut self) -> (chain: &mut PassRegistry)
        ensures
            chain.done() == after(old(self).done(), Component::CodeGen),
            *final(self) == *final(chain),
    {
        self.init(Component::CodeGen);
        self
    }

    /// Initialises the pass group `Core`; nothing changes when it was
    /// initialised before.
    pub fn init_core(&mut self) -> (chain: &mut PassRegistry)
        ensures
            chain.done() == after(old(self).done(), Component::Core),
            *final(self) == *final(chain),
    {
        self.init(Component::Core);
        self
    }

    /// Initialises the pass group `Ipa`; nothing changes when it was
    /// initialised before.
    pub fn init_ipa(&mut self) -> (chain: &mut PassRegistry)
        ensures
            chain.done() == after(old(self).done(), Component::Ipa),
            *final(self) == *final(chain),
    {
        self.init(Component::Ipa);
        self
    }

    /// Initialises the pass group `Ipo`; nothing changes when it was
    /// initialised before.
    pub fn init_ipo(&mut self) -> (chain: &mut PassRegistry)
        ensures
            chain.done() == after(old(self).done(), Component::Ipo),
            *final(self) == *final(chain),
    {
        self.init(Component::Ipo);
        self
    }

    /// Initialises the pass group `InstCombine`; nothing changes when it was
    /// initialised before.
    pub fn init_inst_combine(&mut self) -> (chain: &mut PassRegistry)
        ensures
            chain.done() == after(old(self).done(), Component::InstCombine),
            *final(self) == *final(chain),
    {
        self.init(Component::InstCombine);
        self
    }

    /// Initialises the pass group `Instrumentation`; nothing changes when it was
    /// initialised before.
    pub fn init_instrumentation(&mut self) -> (chain: &mut PassRegistry)
        ensures
            chain.done() == after(old(self).done(), Component::Instrumentation),
            *final(self) == *final(chain),
    {
        self.init(Component::Instrumentation);
        self
    }

    /// Initialises the pass group `ScalarOpts`; nothing changes when it was
    /// initialised before.
    pub fn init_scalar_opts(&mut self) -> (chain: &mut PassRegistry)
        ensures
            chain.done() == after(old(self).done(), Component::ScalarOpts),
            *final(self) == *final(chain),
    {
        self.init(Component::ScalarOpts);
        self
    }

    /// Initialises the pass group `Target`; nothing changes when it was
    /// initialised before.
    pub fn init_target(&mut self) -> (chain: &mut PassRegistry)
        ensures
            chain.done() == after(old(self).done(), Component::Target),
            *final(self) == *final(chain),
    {
        self.init(Component::Target);
        self
    }

    /// Initialises the pass group `TransformUtils`; nothing changes when it was
    /// initialised before.
    pub fn init_transfrom_utils(&mut self) -> (chain: &mut PassRegistry)
        ensures
            chain.done() == after(old(self).done(), Component::TransformUtils),
            *final(self) == *final(chain),
    {
        self.init(Component::TransformUtils);
        self
    }

    /// Initialises the pass group `Vectorization`; nothing changes when it was
    /// initialised before.
    pub fn init_vectorization(&mut self) -> (chain: &mut PassRegistry)
        ensures
            chain.done() == after(old(self).done(), Component::Vectorization),
            *final(self) == *final(chain),
    {
        self.init(Component::Vectorization);
        self
    }
}

/// Initialising a group puts it among the initialised ones, keeps those that
/// were there in their order, and a second initialisation changes nothing.
pub proof fn law_init_idempotent(done: Seq<Component>, component: Component)
    ensures
        after(done, component).contains(component),
        forall|i: int| 0 <= i < done.len() ==> after(done, component)[i] == done[i],
        forall|other: Component| done.contains(other) ==> after(done, component).contains(other),
        after(after(done, component), component) == after(done, component),
        done.no_duplicates() ==> after(done, component).no_duplicates(),
{
    let next = after(done, component);
    if !done.contains(component) {
        assert(next[done.len() as int] == component);
        assert forall|other: Component| done.contains(other) implies next.contains(other) by {
            let i = choose|i: int| 0 <= i < done.len() && done[i] == other;
            assert(next[i] == other);
        }
    }
}

/// Initialising every group leaves every group initialised, whatever was
/// initialised before, and doing it a second time changes nothing. From
/// nothing it initialises the groups in their fixed order.
pub proof fn law_init_all(done: Seq<Component>)
    ensures
        forall|component: Component| after_all(done).contains(component),
        after_all(after_all(done)) == after_all(done),
        after_all(Seq::empty()) == seq![Component::Analysis, Component::CodeGen, Component::Core, Component::Ipa, Component::Ipo, Component::InstCombine, Component::Instrumentation, Component::ScalarOpts, Component::Target, Component::TransformUtils, Component::Vectorization],
{
    let s0 = after(done, Component::Analysis);
    law_init_idempotent(done, Component::Analysis);
    let s1 = after(s0, Component::CodeGen);
    law_init_idempotent(s0, Component::CodeGen);
    let s2 = after(s1, Component::Core);
    law_init_idempotent(s1, Component::Core);
    let s3 = after(s2, Component::Ipa);
    law_init_idempotent(s2, Component::Ipa);
    let s4 = after(s3, Component::Ipo);
    law_init_idempotent(s3, Component::Ipo);
    let s5 = after(s4, Component::InstCombine);
    law_init_idempotent(s4, Component::InstCombine);
    let s6 = after(s5, Component::Instrumentation);
    law_init_idempotent(s5, Component::Instrumentation);
    let s7 = after(s6, Component::ScalarOpts);
    law_init_idempotent(s6, Component::ScalarOpts);
    let s8 = after(s7, Component::Target);
    law_init_idempotent(s7, Component::Target);
    let s9 = after(s8, Component::TransformUtils);
    law_init_idempotent(s8, Component::TransformUtils);
    let s10 = after(s9, Component::Vectorization);
    law_init_idempotent(s9, Component::Vectorization);

    assert forall|component: Component| after_all(done).contains(component) by {
        match component {
            Component::Analysis => { assert(s0.contains(Component::Analysis)); },
            Component::CodeGen => { assert(s1.contains(Component::CodeGen)); },
            Component::Core => { assert(s2.contains(Component::Core)); },
            Component::Ipa => { assert(s3.contains(Component::Ipa)); },
            Component::Ipo => { assert(s4.contains(Component::Ipo)); },
            Component::InstCombine => { assert(s5.contains(Component::InstCombine)); },
            Component::Instrumentation => { assert(s6.contains(Component::Instrumentation)); },
            Component::ScalarOpts => { assert(s7.contains(Component::ScalarOpts)); },
            Component::Target => { assert(s8.contains(Component::Target)); },
            Component::TransformUtils => { assert(s9.contains(Component::TransformUtils)); },
            Component::Vectorization => { assert(s10.contains(Component::Vectorization)); },
        }
    }
    lemma_all_there(after_all(done));
    assert(after_all(Seq::empty()) =~= seq![Component::Analysis, Component::CodeGen, Component::Core, Component::Ipa, Component::Ipo, Component::InstCombine, Component::Instrumentation, Component::ScalarOpts, Component::Target, Component::TransformUtils, Component::Vectorization]) by {
        lemma_from_nothing();
    }
}

proof fn lemma_all_there(done: Seq<Component>)
    requires
        forall|component: Component| done.contains(component),
    ensures
        after_all(done) == done,
{
    assert(done.contains(Component::Analysis));
    assert(done.contains(Component::CodeGen));
    assert(done.contains(Component::Core));
    assert(done.contains(Component::Ipa));
    assert(done.contains(Component::Ipo));
    assert(done.contains(Component::InstCombine));
    assert(done.contains(Component::Instrumentation));
    assert(done.contains(Component::ScalarOpts));
    assert(done.contains(Component::Target));
    assert(done.contains(Component::TransformUtils));
    assert(done.contains(Component::Vectorization));
}

proof fn lemma_from_nothing()
    ensures
        after_all(Seq::empty()) =~= seq![Component::Analysis, Component::CodeGen, Component::Core, Component::Ipa, Component::Ipo, Component::InstCombine, Component::Instrumentation, Component::ScalarOpts, Component::Target, Component::TransformUtils, Component::Vectorization],
{
    let done = Seq::<Component>::empty();
    let s0 = after(done, Component::Analysis);
    assert(s0 =~= seq![Component::Analysis]) by {
        assert forall|j: int| 0 <= j < done.len() implies done[j] != Component::Analysis by {}
    }
    let s1 = after(s0, Component::CodeGen);
    assert(s1 =~= seq![Component::Analysis, Component::CodeGen]) by {
        assert forall|j: int| 0 <= j < s0.len() implies s0[j] != Component::CodeGen by {}
    }
    let s2 = after(s1, Component::Core);
    assert(s2 =~= seq![Component::Analysis, Component::CodeGen, Component::Core]) by {
        assert forall|j: int| 0 <= j < s1.len() implies s1[j] != Component::Core by {}
    }
    let s3 = after(s2, Component::Ipa);
    assert(s3 =~= seq![Component::Analysis, Component::CodeGen, Component::Core, Component::Ipa]) by {
        assert forall|j: int| 0 <= j < s2.len() implies s2[j] != Component::Ipa by {}
    }
    let s4 = after(s3, Component::Ipo);
    assert(s4 =~= seq![Component::Analysis, Component::CodeGen, Component::Core, Component::Ipa, Component::Ipo]) by {
        assert forall|j: int| 0 <= j < s3.len() implies s3[j] != Component::Ipo by {}
    }
    let s5 = after(s4, Component::InstCombine);
    assert(s5 =~= seq![Component::Analysis, Component::CodeGen, Component::Core, Component::Ipa, Component::Ipo, Component::InstCombine]) by {
        assert forall|j: int| 0 <= j < s4.len() implies s4[j] != Component::InstCombine by {}
    }
    let s6 = after(s5, Component::Instrumentation);
    assert(s6 =~= seq![Component::Analysis, Component::CodeGen, Component::Core, Component::Ipa, Component::Ipo, Component::InstCombine, Component::Instrumentation]) by {
        assert forall|j: int| 0 <= j < s5.len() implies s5[j] != Component::Instrumentation by {}
    }
    let s7 = after(s6, Component::ScalarOpts);
    assert(s7 =~= seq![Component::Analysis, Component::CodeGen, Component::Core, Component::Ipa, Component::Ipo, Component::InstCombine, Component::Instrumentation, Component::ScalarOpts]) by {
        assert forall|j: int| 0 <= j < s6.len() implies s6[j] != Component::ScalarOpts by {}
    }
    let s8 = after(s7, Component::Target);
    assert(s8 =~= seq![Component::Analysis, Component::CodeGen, Component::Core, Component::Ipa, Component::Ipo, Component::InstCombine, Component::Instrumentation, Component::ScalarOpts, Component::Target]) by {
        assert forall|j: int| 0 <= j < s7.len() implies s7[j] != Component::Target by {}
    }
    let s9 = after(s8, Component::TransformUtils);
    assert(s9 =~= seq![Component::Analysis, Component::CodeGen, Component::Core, Component::Ipa, Component::Ipo, Component::InstCombine, Component::Instrumentation, Component::ScalarOpts, Component::Target, Component::TransformUtils]) by {
        assert forall|j: int| 0 <= j < s8.len() implies s8[j] != Component::TransformUtils by {}
    }
    let s10 = after(s9, Component::Vectorization);
    assert(s10 =~= seq![Component::Analysis, Component::CodeGen, Component::Core, Component::Ipa, Component::Ipo, Component::InstCombine, Component::Instrumentation, Component::ScalarOpts, Component::Target, Component::TransformUtils, Component::Vectorization]) by {
        assert forall|j: int| 0 <= j < s9.len() implies s9[j] != Component::Vectorization by {}
    }

}

} // verus!
