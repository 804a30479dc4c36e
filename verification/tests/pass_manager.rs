use llvm_rs::module::Module;
use llvm_rs::pass_manager::{
    Component, Pass, PassManager, PassManagerBuilder, PassRegistry, Scope, Settings, Step,
};
use llvm_rs::types::Type;
use llvm_sys::LLVMValueKind;
use llvm_rs::value::{Kind, Value};

fn unset() -> Settings {
    Settings {
        opt_level: None,
        disable_simplify_lib_calls: None,
        disable_unit_at_a_time: None,
        disable_unroll_loops: None,
        inliner_threshold: None,
    }
}

fn ready_registry() -> PassRegistry {
    let mut registry = PassRegistry::new();
    registry.init_all();
    registry
}

#[test]
fn new_pass_managers_are_empty() {
    let modules = PassManager::new().dispose().unwrap();
    assert_eq!(modules.get_scope(), Scope::Modules);
    assert!(modules.get_steps().is_empty());
    let module = Module { handle: 42, name: "main".to_string() };
    let functions = PassManager::new_func_pass(&module).dispose().unwrap();
    assert_eq!(functions.get_scope(), Scope::Functions { module: 42 });
    assert!(functions.get_steps().is_empty());
}

#[test]
fn passes_run_in_the_order_in_which_they_were_added() {
    let module = Module { handle: 1, name: "main".to_string() };
    let mut boxed = PassManager::new_func_pass(&module);
    boxed
        .as_mut()
        .unwrap()
        .add_instruction_combining()
        .add_reassociate()
        .add_gvn()
        .add_cfg()
        .add_tail_call_elimination();
    let manager = boxed.dispose().unwrap();
    assert_eq!(
        manager.get_steps(),
        &vec![
            Step::Pass(Pass::InstructionCombining),
            Step::Pass(Pass::Reassociate),
            Step::Pass(Pass::GVN),
            Step::Pass(Pass::CFGSimplification),
            Step::Pass(Pass::TailCallElimination),
        ]
    );
    assert_eq!(manager.get_scope(), Scope::Functions { module: 1 });
}

#[test]
fn a_pass_may_be_added_twice() {
    let mut manager = PassManager::new().detach().unwrap();
    manager.add(Pass::GVN).add(Pass::LICM).add(Pass::GVN);
    assert_eq!(
        manager.get_steps(),
        &vec![Step::Pass(Pass::GVN), Step::Pass(Pass::LICM), Step::Pass(Pass::GVN)]
    );
}

#[test]
fn every_named_adder_appends_its_pass() {
    let mut manager = PassManager::new().detach().unwrap();
    manager
        .add_agressive_dce()
        .add_alingmnet_from_assum()
        .add_basic_alias_analysis()
        .add_bit_tacking_dce()
        .add_cfg()
        .add_constant_propagation()
        .add_dead_store_elimination()
        .add_demote_memory_to_register()
        .add_early_cse()
        .add_correlated_value_propagation()
        .add_gvn()
        .add_ind_var_simplify()
        .add_instruction_combining()
        .add_licm()
        .add_loop_deletion()
        .add_loop_idiom()
        .add_loop_reroll()
        .add_loop_rotate()
        .add_loop_unroll()
        .add_loop_nswitch()
        .add_lower_expect_intrinsic()
        .add_lower_swithc()
        .add_mem_cpy()
        .add_merged_load_store_motion()
        .add_partially_inline_lib_calls()
        .add_promote_memory_to_register()
        .add_reassociate()
        .add_sccp()
        .add_scalar_repl_aggregates()
        .add_scalar_repl_aggregates_ssa()
        .add_scalarizer()
        .add_scoped_no_alias_aa()
        .add_simplify_lib_calls()
        .add_tail_call_elimination()
        .add_type_based_alias_nalysis()
        .add_verifier()
        .add_bb_vectorize()
        .add_loop_vectorize()
        .add_slp_vectorize()
        .add_always_inline()
        .add_argument_promotion()
        .add_constant_merge()
        .add_dead_arg_elimination()
        .add_function_attrs()
        .add_function_inlining()
        .add_global_dce()
        .add_global_pptimizer()
        .add_ip_constant_propagation()
        .add_ipsccp()
        .add_prune_eh()
        .add_strip_dead_prototypes()
        .add_strip_symbols();
    let expected = vec![
        Pass::AggressiveDCE,
        Pass::AlignmentFromAssumptions,
        Pass::BasicAliasAnalysis,
        Pass::BitTrackingDCE,
        Pass::CFGSimplification,
        Pass::ConstantPropagation,
        Pass::DeadStoreElimination,
        Pass::DemoteMemoryToRegister,
        Pass::EarlyCSE,
        Pass::CorrelatedValuePropagation,
        Pass::GVN,
        Pass::IndVarSimplify,
        Pass::InstructionCombining,
        Pass::LICM,
        Pass::LoopDeletion,
        Pass::LoopIdiom,
        Pass::LoopReroll,
        Pass::LoopRotate,
        Pass::LoopUnroll,
        Pass::LoopUnswitch,
        Pass::LowerExpectIntrinsic,
        Pass::LowerSwitch,
        Pass::MemCpyOpt,
        Pass::MergedLoadStoreMotion,
        Pass::PartiallyInlineLibCalls,
        Pass::PromoteMemoryToRegister,
        Pass::Reassociate,
        Pass::SCCP,
        Pass::ScalarReplAggregates,
        Pass::ScalarReplAggregatesSSA,
        Pass::Scalarizer,
        Pass::ScopedNoAliasAA,
        Pass::SimplifyLibCalls,
        Pass::TailCallElimination,
        Pass::TypeBasedAliasAnalysis,
        Pass::Verifier,
        Pass::BBVectorize,
        Pass::LoopVectorize,
        Pass::SLPVectorize,
        Pass::AlwaysInliner,
        Pass::ArgumentPromotion,
        Pass::ConstantMerge,
        Pass::DeadArgElimination,
        Pass::FunctionAttrs,
        Pass::FunctionInlining,
        Pass::GlobalDCE,
        Pass::GlobalOptimizer,
        Pass::IPConstantPropagation,
        Pass::IPSCCP,
        Pass::PruneEH,
        Pass::StripDeadPrototypes,
        Pass::StripSymbols,
    ];
    let steps: Vec<Step> = expected.into_iter().map(Step::Pass).collect();
    assert_eq!(manager.get_steps(), &steps);
}

#[test]
fn a_run_reports_the_native_signal() {
    let mut manager = PassManager::new().detach().unwrap();
    manager.add_tail_call_elimination();
    let native = LLVMValueKind::LLVMInstructionValueKind;
    let fib = Value::new(1, Some("fib".to_string()), Type::Opaque, native, Kind::Other).unwrap();
    assert!(manager.run_func_pass(&fib, 1));
    assert!(manager.run_func_pass(&fib, -1));
    assert!(!manager.run_func_pass(&fib, 0));
}

#[test]
fn builder_starts_with_nothing_set() {
    let builder = PassManagerBuilder::new().dispose().unwrap();
    assert_eq!(builder.get_settings(), unset());
}

#[test]
fn builder_settings_are_kept() {
    let mut builder = PassManagerBuilder::new().detach().unwrap();
    builder.set_opt(3);
    assert_eq!(builder.get_settings(), Settings { opt_level: Some(3), ..unset() });
    builder.set_disable_simplify_lib_calls(true);
    builder.disable_unit_at_a_time(false);
    builder.disable_unroll_loop(true);
    builder.inline_with_threshold(225);
    assert_eq!(
        builder.get_settings(),
        Settings {
            opt_level: Some(3),
            disable_simplify_lib_calls: Some(true),
            disable_unit_at_a_time: Some(false),
            disable_unroll_loops: Some(true),
            inliner_threshold: Some(225),
        }
    );
}

#[test]
fn size_level_drives_the_optimisation_level() {
    let mut builder = PassManagerBuilder::new().detach().unwrap();
    builder.set_opt(3);
    builder.set_size(1);
    assert_eq!(builder.get_settings(), Settings { opt_level: Some(1), ..unset() });
}

#[test]
fn builder_populates_pipelines_with_its_settings() {
    let registry = ready_registry();
    let mut builder = PassManagerBuilder::new().detach().unwrap();
    builder.set_opt(2);
    let settings = builder.get_settings();
    let mut manager = PassManager::new().detach().unwrap();
    manager.add_verifier();
    builder.populate_module_pass_manager(&registry, &mut manager);
    builder.populate_function_pass_manager(&registry, &mut manager);
    builder.populate_lto_pass_manger(&registry, &mut manager, true, false);
    manager.add_strip_symbols();
    assert_eq!(
        manager.get_steps(),
        &vec![
            Step::Pass(Pass::Verifier),
            Step::ModulePipeline(settings),
            Step::FunctionPipeline(settings),
            Step::LtoPipeline { settings, internalize: true, run_inliner: false },
            Step::Pass(Pass::StripSymbols),
        ]
    );
    assert_eq!(manager.get_scope(), Scope::Modules);
}

#[test]
fn later_settings_do_not_change_what_was_populated() {
    let registry = ready_registry();
    let mut builder = PassManagerBuilder::new().detach().unwrap();
    let mut manager = PassManager::new().detach().unwrap();
    builder.set_opt(1);
    builder.populate_module_pass_manager(&registry, &mut manager);
    builder.set_opt(3);
    assert_eq!(
        manager.get_steps(),
        &vec![Step::ModulePipeline(Settings { opt_level: Some(1), ..unset() })]
    );
}

#[test]
fn registry_starts_with_nothing_initialised() {
    let registry = PassRegistry::new();
    assert!(!registry.ready());
    assert!(!registry.has(Component::Core));
    assert!(!registry.has(Component::Vectorization));
}

#[test]
fn init_all_initialises_every_group_in_order() {
    let mut registry = PassRegistry::new();
    registry.init_all();
    assert!(registry.ready());
    let all = vec![
        Component::Analysis,
        Component::CodeGen,
        Component::Core,
        Component::Ipa,
        Component::Ipo,
        Component::InstCombine,
        Component::Instrumentation,
        Component::ScalarOpts,
        Component::Target,
        Component::TransformUtils,
        Component::Vectorization,
    ];
    for component in all.iter() {
        assert!(registry.has(*component));
    }
    assert_eq!(format!("{:?}", registry), format!("PassRegistry {{ done: {:?} }}", all));
}

#[test]
fn initialisation_is_idempotent() {
    let mut once = PassRegistry::new();
    once.init_core().init_target();
    let mut twice = PassRegistry::new();
    twice.init_core().init_target().init_core().init_target().init_core();
    assert_eq!(format!("{:?}", once), format!("{:?}", twice));
    assert_eq!(format!("{:?}", once), "PassRegistry { done: [Core, Target] }");

    let mut all_once = PassRegistry::new();
    all_once.init_all();
    let mut all_twice = PassRegistry::new();
    all_twice.init_all();
    all_twice.init_all();
    assert_eq!(format!("{:?}", all_once), format!("{:?}", all_twice));
}

#[test]
fn init_all_keeps_the_order_of_what_was_initialised_before() {
    let mut registry = PassRegistry::new();
    registry.init_vectorization().init_core();
    registry.init_all();
    assert_eq!(
        format!("{:?}", registry),
        "PassRegistry { done: [Vectorization, Core, Analysis, CodeGen, Ipa, Ipo, InstCombine, \
         Instrumentation, ScalarOpts, Target, TransformUtils] }"
    );
    assert!(registry.ready());
}

#[test]
fn each_named_initialiser_initialises_its_group() {
    let mut registry = PassRegistry::new();
    registry.init_analyis();
    assert!(registry.has(Component::Analysis));
    registry.init_codegen();
    assert!(registry.has(Component::CodeGen));
    registry.init_core();
    assert!(registry.has(Component::Core));
    registry.init_ipa();
    assert!(registry.has(Component::Ipa));
    registry.init_ipo();
    assert!(registry.has(Component::Ipo));
    registry.init_inst_combine();
    assert!(registry.has(Component::InstCombine));
    registry.init_instrumentation();
    assert!(registry.has(Component::Instrumentation));
    registry.init_scalar_opts();
    assert!(registry.has(Component::ScalarOpts));
    registry.init_target();
    assert!(registry.has(Component::Target));
    assert!(!registry.ready());
    registry.init_transfrom_utils();
    assert!(registry.has(Component::TransformUtils));
    assert!(!registry.has(Component::Vectorization));
    registry.init_vectorization();
    assert!(registry.ready());
    registry.init(Component::Core);
    assert!(registry.ready());
}
