use llvm_rs::link_time_optimizer::LTOStatus;
use llvm_rs::lto::{
    LTOCodeGenerator, LTODebugModel, LTODiagnosticSeverity, LTOModule, LTOPicModel,
    LTOSymbolAttributes,
};
use llvm_rs::util::{checked, llvm_bool, truth};
use llvm_sys::lto::{
    lto_codegen_diagnostic_severity_t, lto_codegen_model, lto_debug_model, lto_symbol_attributes,
};

#[test]
fn status_numbers() {
    let table = vec![
        (LTOStatus::Uknown, 0),
        (LTOStatus::OptSuccess, 1),
        (LTOStatus::ReadSuccess, 2),
        (LTOStatus::ReadFailure, 3),
        (LTOStatus::WriteFailure, 4),
        (LTOStatus::NoTarget, 5),
        (LTOStatus::NoWork, 6),
        (LTOStatus::ModuleMergeFailure, 7),
        (LTOStatus::ASMFailure, 8),
        (LTOStatus::NullObject, 9),
    ];
    for (status, code) in table {
        assert_eq!(status.code(), code);
        assert_eq!(LTOStatus::from_code(code), Some(status));
    }
    assert_eq!(LTOStatus::from_code(10), None);
    assert_eq!(LTOStatus::from_code(u32::MAX), None);
}

#[test]
fn debug_model_numbers_are_the_native_ones() {
    assert_eq!(LTODebugModel::NoDebugInfo.code(), lto_debug_model::LTO_DEBUG_MODEL_NONE as u32);
    assert_eq!(LTODebugModel::DWARF.code(), lto_debug_model::LTO_DEBUG_MODEL_DWARF as u32);
    assert_eq!(LTODebugModel::NoDebugInfo.code(), 0);
    assert_eq!(LTODebugModel::DWARF.code(), 1);
}

#[test]
fn pic_model_numbers_are_the_native_ones() {
    assert_eq!(
        LTOPicModel::Static.code(),
        lto_codegen_model::LTO_CODEGEN_PIC_MODEL_STATIC as u32
    );
    assert_eq!(
        LTOPicModel::Dynamic.code(),
        lto_codegen_model::LTO_CODEGEN_PIC_MODEL_DYNAMIC as u32
    );
    assert_eq!(
        LTOPicModel::DynamicNoPic.code(),
        lto_codegen_model::LTO_CODEGEN_PIC_MODEL_DYNAMIC_NO_PIC as u32
    );
    assert_eq!(
        LTOPicModel::Default.code(),
        lto_codegen_model::LTO_CODEGEN_PIC_MODEL_DEFAULT as u32
    );
    assert_eq!(LTOPicModel::Default.code(), 3);
}

#[test]
fn symbol_attribute_numbers_are_the_native_ones() {
    let table = vec![
        (LTOSymbolAttributes::MaskAlignment, lto_symbol_attributes::LTO_SYMBOL_ALIGNMENT_MASK),
        (LTOSymbolAttributes::MaskPermissions, lto_symbol_attributes::LTO_SYMBOL_PERMISSIONS_MASK),
        (LTOSymbolAttributes::CodePermissions, lto_symbol_attributes::LTO_SYMBOL_PERMISSIONS_CODE),
        (LTOSymbolAttributes::DataPermissions, lto_symbol_attributes::LTO_SYMBOL_PERMISSIONS_DATA),
        (
            LTOSymbolAttributes::RoDataPermissions,
            lto_symbol_attributes::LTO_SYMBOL_PERMISSIONS_RODATA,
        ),
        (LTOSymbolAttributes::MaskDefinition, lto_symbol_attributes::LTO_SYMBOL_DEFINITION_MASK),
        (
            LTOSymbolAttributes::RegularDefinition,
            lto_symbol_attributes::LTO_SYMBOL_DEFINITION_REGULAR,
        ),
        (
            LTOSymbolAttributes::TentativeDefinition,
            lto_symbol_attributes::LTO_SYMBOL_DEFINITION_TENTATIVE,
        ),
        (LTOSymbolAttributes::WeakDefinition, lto_symbol_attributes::LTO_SYMBOL_DEFINITION_WEAK),
        (
            LTOSymbolAttributes::UndefinedDefinition,
            lto_symbol_attributes::LTO_SYMBOL_DEFINITION_UNDEFINED,
        ),
        (
            LTOSymbolAttributes::WeakUndefindedDefinition,
            lto_symbol_attributes::LTO_SYMBOL_DEFINITION_WEAKUNDEF,
        ),
        (LTOSymbolAttributes::MaskScope, lto_symbol_attributes::LTO_SYMBOL_SCOPE_MASK),
        (LTOSymbolAttributes::InternalScope, lto_symbol_attributes::LTO_SYMBOL_SCOPE_INTERNAL),
        (LTOSymbolAttributes::HiddenScope, lto_symbol_attributes::LTO_SYMBOL_SCOPE_HIDDEN),
        (LTOSymbolAttributes::ProtectedScope, lto_symbol_attributes::LTO_SYMBOL_SCOPE_PROTECTED),
        (LTOSymbolAttributes::DefualtScope, lto_symbol_attributes::LTO_SYMBOL_SCOPE_DEFAULT),
        (
            LTOSymbolAttributes::ScopeCanBeHidden,
            lto_symbol_attributes::LTO_SYMBOL_SCOPE_DEFAULT_CAN_BE_HIDDEN,
        ),
        (LTOSymbolAttributes::Comdat, lto_symbol_attributes::LTO_SYMBOL_COMDAT),
        (LTOSymbolAttributes::Alias, lto_symbol_attributes::LTO_SYMBOL_ALIAS),
    ];
    assert_eq!(table.len(), 19);
    for (attribute, native) in table {
        assert_eq!(LTOSymbolAttributes::from(native), attribute);
        assert_eq!(attribute.code(), native as u32);
        assert_eq!(LTOSymbolAttributes::from_code(native as u32), Some(attribute));
    }
}

#[test]
fn symbol_attribute_numbers() {
    assert_eq!(LTOSymbolAttributes::MaskAlignment.code(), 31);
    assert_eq!(LTOSymbolAttributes::DefualtScope.code(), 6144);
    assert_eq!(LTOSymbolAttributes::from_code(0x8000), Some(LTOSymbolAttributes::Alias));
    assert_eq!(LTOSymbolAttributes::from_code(0), None);
    assert_eq!(LTOSymbolAttributes::from_code(257), None);
    assert_eq!(LTOSymbolAttributes::from_code(0x8001), None);
}

#[test]
fn adding_a_module_fails_on_any_answer_but_zero() {
    assert_eq!(LTOCodeGenerator::add_module(0, "unused".to_string()), Ok(()));
    assert_eq!(LTOCodeGenerator::add_module(1, "bad".to_string()), Err("bad".to_string()));
    assert_eq!(LTOCodeGenerator::add_module(2, "odd".to_string()), Err("odd".to_string()));
}

#[test]
fn other_calls_fail_on_the_answer_one() {
    let calls: Vec<fn(u8, String) -> Result<(), String>> = vec![
        LTOCodeGenerator::optimize,
        LTOCodeGenerator::set_debug_model,
        LTOCodeGenerator::set_pic_model,
        LTOCodeGenerator::write_modules,
    ];
    for call in calls {
        assert_eq!(call(0, "unused".to_string()), Ok(()));
        assert_eq!(call(1, "bad".to_string()), Err("bad".to_string()));
        assert_eq!(call(2, "odd".to_string()), Ok(()));
    }
}

#[test]
fn assembler_arguments_are_joined_and_counted() {
    let args = vec!["-a", "--b=c", "", "d"];
    assert_eq!(LTOCodeGenerator::assembler_args(args), ("-a--b=cd".to_string(), 4));
    assert_eq!(LTOCodeGenerator::assembler_args(vec![]), (String::new(), 0));
}

#[test]
fn loading_into_a_context_fails_without_a_module() {
    assert_eq!(LTOModule::with_context(true, "unused".to_string()), Ok(()));
    assert_eq!(LTOModule::with_context(false, "bad".to_string()), Err("bad".to_string()));
}

#[test]
fn target_answers_are_read_as_truth_values() {
    assert!(!LTOModule::is_for_target(0));
    assert!(LTOModule::is_for_target(1));
    assert!(LTOModule::is_for_target(255));
}

#[test]
fn severities_come_from_the_native_ones() {
    let table = vec![
        (lto_codegen_diagnostic_severity_t::LTO_DS_ERROR, LTODiagnosticSeverity::Error),
        (lto_codegen_diagnostic_severity_t::LTO_DS_WARNING, LTODiagnosticSeverity::Warning),
        (lto_codegen_diagnostic_severity_t::LTO_DS_NOTE, LTODiagnosticSeverity::Note),
        (lto_codegen_diagnostic_severity_t::LTO_DS_REMARK, LTODiagnosticSeverity::Remark),
    ];
    for (native, severity) in table {
        assert_eq!(LTODiagnosticSeverity::from(native), severity);
    }
    assert_eq!(lto_codegen_diagnostic_severity_t::LTO_DS_NOTE as u32, 2);
    assert_eq!(lto_codegen_diagnostic_severity_t::LTO_DS_REMARK as u32, 3);
}

#[test]
fn models_go_to_the_native_models() {
    assert_eq!(
        lto_debug_model::from(LTODebugModel::NoDebugInfo),
        lto_debug_model::LTO_DEBUG_MODEL_NONE
    );
    assert_eq!(lto_debug_model::from(LTODebugModel::DWARF), lto_debug_model::LTO_DEBUG_MODEL_DWARF);
    let native: lto_codegen_model = LTOPicModel::Static.into();
    assert_eq!(native, lto_codegen_model::LTO_CODEGEN_PIC_MODEL_STATIC);
    assert_eq!(
        lto_codegen_model::from(LTOPicModel::Dynamic),
        lto_codegen_model::LTO_CODEGEN_PIC_MODEL_DYNAMIC
    );
    assert_eq!(
        lto_codegen_model::from(LTOPicModel::DynamicNoPic),
        lto_codegen_model::LTO_CODEGEN_PIC_MODEL_DYNAMIC_NO_PIC
    );
    assert_eq!(
        lto_codegen_model::from(LTOPicModel::Default),
        lto_codegen_model::LTO_CODEGEN_PIC_MODEL_DEFAULT
    );
}

#[test]
fn native_truth_values() {
    assert_eq!(llvm_bool(true), 1);
    assert_eq!(llvm_bool(false), 0);
    assert!(truth(1));
    assert!(truth(-1));
    assert!(!truth(0));
}

#[test]
fn checked_keeps_the_message_of_a_failure() {
    assert_eq!(checked(true, "m".to_string()), Err("m".to_string()));
    assert_eq!(checked(false, "m".to_string()), Ok(()));
}
