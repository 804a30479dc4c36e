//! Link-time optimisation: the models and attributes that cross to the
//! native code generator, and what its calls came to.

use vstd::prelude::*;
use vstd::string::*;
use vstd::std_specs::convert::FromSpec;
use llvm_sys::lto::{
    lto_codegen_diagnostic_severity_t, lto_codegen_model, lto_debug_model, lto_symbol_attributes,
};
use crate::util::checked;

verus! {

/// `llvm_sys::lto::lto_debug_model`, the native debug model, with the
/// variants and numbers that the toolkit's bindings declare.
#[verifier::external_type_specification]
pub struct ExDebugModel(lto_debug_model);

/// `llvm_sys::lto::lto_codegen_model`, the native model of
/// position-independent code, with the variants and numbers that the
/// toolkit's bindings declare.
#[verifier::external_type_specification]
pub struct ExCodegenModel(lto_codegen_model);

/// `llvm_sys::lto::lto_codegen_diagnostic_severity_t`, the native severity of
/// a diagnostic, with the variants and numbers that the toolkit's bindings
/// declare.
#[verifier::external_type_specification]
pub struct ExDiagnosticSeverity(lto_codegen_diagnostic_severity_t);

/// `llvm_sys::lto::lto_symbol_attributes`, the native symbol attributes,
/// with the variants and numbers that the toolkit's bindings declare.
#[verifier::external_type_specification]
pub struct ExSymbolAttributes(lto_symbol_attributes);

/// Which debug information the code generator writes.
#[derive(Clone, Copy, Debug, PartialEq, Eq, Structural)]
pub enum LTODebugModel {
    DWARF,
    NoDebugInfo,
}

impl LTODebugModel {
    /// The number by which the native side knows this model.
    pub open spec fn number(self) -> u32 {
        match self {
            LTODebugModel::NoDebugInfo => 0,
            LTODebugModel::DWARF => 1,
        }
    }

    /// The number to hand to the native side for this model.
    pub fn code(self) -> (code: u32)
        ensures
            code == self.number(),
    {
        match self {
            LTODebugModel::NoDebugInfo => 0,
            LTODebugModel::DWARF => 1,
        }
    }
}

impl From<LTODebugModel> for lto_debug_model {
    /// The native debug model for `model`: the one of the same number.
    fn from(model: LTODebugModel) -> (native: lto_debug_model)
        ensures
            native as u32 == model.number(),
    {
        match model {
            LTODebugModel::NoDebugInfo => lto_debug_model::LTO_DEBUG_MODEL_NONE,
            LTODebugModel::DWARF => lto_debug_model::LTO_DEBUG_MODEL_DWARF,
        }
    }
}

impl vstd::std_specs::convert::FromSpecImpl<LTODebugModel> for lto_debug_model {
    open spec fn obeys_from_spec() -> bool {
        true
    }

    open spec fn from_spec(model: LTODebugModel) -> lto_debug_model {
        match model {
            LTODebugModel::NoDebugInfo => lto_debug_model::LTO_DEBUG_MODEL_NONE,
            LTODebugModel::DWARF => lto_debug_model::LTO_DEBUG_MODEL_DWARF,
        }
    }
}

/// Which kind of position-independent code the code generator writes.
#[derive(Clone, Copy, Debug, PartialEq, Eq, Structural)]
pub enum LTOPicModel {
    Static,
    Dynamic,
    DynamicNoPic,
    Default,
}

impl LTOPicModel {
    /// The number by which the native side knows this model.
    pub open spec fn number(self) -> u32 {
        match self {
            LTOPicModel::Static => 0,
            LTOPicModel::Dynamic => 1,
            LTOPicModel::DynamicNoPic => 2,
            LTOPicModel::Default => 3,
        }
    }

    /// The number to hand to the native side for this model.
    pub fn code(self) -> (code: u32)
        ensures
            code == self.number(),
    {
        match self {
            LTOPicModel::Static => 0,
            LTOPicModel::Dynamic => 1,
            LTOPicModel::DynamicNoPic => 2,
            LTOPicModel::Default => 3,
        }
    }
}

impl From<LTOPicModel> for lto_codegen_model {
    /// The native model for `model`: the one of the same number.
    fn from(model: LTOPicModel) -> (native: lto_codegen_model)
        ensures
            native as u32 == model.number(),
    {
        match model {
            LTOPicModel::Static => lto_codegen_model::LTO_CODEGEN_PIC_MODEL_STATIC,
            LTOPicModel::Dynamic => lto_codegen_model::LTO_CODEGEN_PIC_MODEL_DYNAMIC,
            LTOPicModel::DynamicNoPic => lto_codegen_model::LTO_CODEGEN_PIC_MODEL_DYNAMIC_NO_PIC,
            LTOPicModel::Default => lto_codegen_model::LTO_CODEGEN_PIC_MODEL_DEFAULT,
        }
    }
}

impl vstd::std_specs::convert::FromSpecImpl<LTOPicModel> for lto_codegen_model {
    open spec fn obeys_from_spec() -> bool {
        true
    }

    open spec fn from_spec(model: LTOPicModel) -> lto_codegen_model {
        match model {
            LTOPicModel::Static => lto_codegen_model::LTO_CODEGEN_PIC_MODEL_STATIC,
            LTOPicModel::Dynamic => lto_codegen_model::LTO_CODEGEN_PIC_MODEL_DYNAMIC,
            LTOPicModel::DynamicNoPic => lto_codegen_model::LTO_CODEGEN_PIC_MODEL_DYNAMIC_NO_PIC,
            LTOPicModel::Default => lto_codegen_model::LTO_CODEGEN_PIC_MODEL_DEFAULT,
        }
    }
}

/// The attributes of a symbol of an object module, and the masks that part
/// them.
#[derive(Clone, Copy, Debug, PartialEq, Eq, Structural)]
pub enum LTOSymbolAttributes {
    MaskAlignment,
    MaskPermissions,
    CodePermissions,
    DataPermissions,
    RoDataPermissions,
    MaskDefinition,
    RegularDefinition,
    TentativeDefinition,
    WeakDefinition,
    UndefinedDefinition,
    WeakUndefindedDefinition,
    MaskScope,
    InternalScope,
    HiddenScope,
    ProtectedScope,
    DefualtScope,
    ScopeCanBeHidden,
    Comdat,
    Alias,
}

impl LTOSymbolAttributes {
    /// The number by which the native side knows this attribute.
    pub open spec fn number(self) -> u32 {
        match self {
            LTOSymbolAttributes::MaskAlignment => 31,
            LTOSymbolAttributes::MaskPermissions => 224,
            LTOSymbolAttributes::CodePermissions => 160,
            LTOSymbolAttributes::DataPermissions => 192,
            LTOSymbolAttributes::RoDataPermissions => 128,
            LTOSymbolAttributes::MaskDefinition => 1792,
            LTOSymbolAttributes::RegularDefinition => 256,
            LTOSymbolAttributes::TentativeDefinition => 512,
            LTOSymbolAttributes::WeakDefinition => 768,
            LTOSymbolAttributes::UndefinedDefinition => 1024,
            LTOSymbolAttributes::WeakUndefindedDefinition => 1280,
            LTOSymbolAttributes::MaskScope => 14336,
            LTOSymbolAttributes::InternalScope => 2048,
            LTOSymbolAttributes::HiddenScope => 4096,
            LTOSymbolAttributes::ProtectedScope => 8192,
            LTOSymbolAttributes::DefualtScope => 6144,
            LTOSymbolAttributes::ScopeCanBeHidden => 10240,
            LTOSymbolAttributes::Comdat => 16384,
            LTOSymbolAttributes::Alias => 32768,
        }
    }

    /// The attribute that the native number `code` stands for, if it is the
    /// number of one.
    pub open spec fn of_number(code: u32) -> Option<LTOSymbolAttributes> {
        if code == 31 {
            Some(LTOSymbolAttributes::MaskAlignment)
        } else if code == 224 {
            Some(LTOSymbolAttributes::MaskPermissions)
        } else if code == 160 {
            Some(LTOSymbolAttributes::CodePermissions)
        } else if code == 192 {
            Some(LTOSymbolAttributes::DataPermissions)
        } else if code == 128 {
            Some(LTOSymbolAttributes::RoDataPermissions)
        } else if code == 1792 {
            Some(LTOSymbolAttributes::MaskDefinition)
        } else if code == 256 {
            Some(LTOSymbolAttributes::RegularDefinition)
        } else if code == 512 {
            Some(LTOSymbolAttributes::TentativeDefinition)
        } else if code == 768 {
            Some(LTOSymbolAttributes::WeakDefinition)
        } else if code == 1024 {
            Some(LTOSymbolAttributes::UndefinedDefinition)
        } else if code == 1280 {
            Some(LTOSymbolAttributes::WeakUndefindedDefinition)
        } else if code == 14336 {
            Some(LTOSymbolAttributes::MaskScope)
        } else if code == 2048 {
            Some(LTOSymbolAttributes::InternalScope)
        } else if code == 4096 {
            Some(LTOSymbolAttributes::HiddenScope)
        } else if code == 8192 {
            Some(LTOSymbolAttributes::ProtectedScope)
        } else if code == 6144 {
            Some(LTOSymbolAttributes::DefualtScope)
        } else if code == 10240 {
            Some(LTOSymbolAttributes::ScopeCanBeHidden)
        } else if code == 16384 {
            Some(LTOSymbolAttributes::Comdat)
        } else if code == 32768 {
            Some(LTOSymbolAttributes::Alias)
        } else {
            None
        }
    }

    /// The number by which the native side knows this attribute.
    pub fn code(self) -> (code: u32)
        ensures
            code == self.number(),
    {
        match self {
            LTOSymbolAttributes::MaskAlignment => 31,
            LTOSymbolAttributes::MaskPermissions => 224,
            LTOSymbolAttributes::CodePermissions => 160,
            LTOSymbolAttributes::DataPermissions => 192,
            LTOSymbolAttributes::RoDataPermissions => 128,
            LTOSymbolAttributes::MaskDefinition => 1792,
            LTOSymbolAttributes::RegularDefinition => 256,
            LTOSymbolAttributes::TentativeDefinition => 512,
            LTOSymbolAttributes::WeakDefinition => 768,
            LTOSymbolAttributes::UndefinedDefinition => 1024,
            LTOSymbolAttributes::WeakUndefindedDefinition => 1280,
            LTOSymbolAttributes::MaskScope => 14336,
            LTOSymbolAttributes::InternalScope => 2048,
            LTOSymbolAttributes::HiddenScope => 4096,
            LTOSymbolAttributes::ProtectedScope => 8192,
            LTOSymbolAttributes::DefualtScope => 6144,
            LTOSymbolAttributes::ScopeCanBeHidden => 10240,
            LTOSymbolAttributes::Comdat => 16384,
            LTOSymbolAttributes::Alias => 32768,
        }
    }

    /// Reads an attribute from the number the native side reports. A number
    /// that is not the number of one attribute gives `None`.
    pub fn from_code(code: u32) -> (attribute: Option<LTOSymbolAttributes>)
        ensures
            attribute == LTOSymbolAttributes::of_number(code),
    {
        match code {
            31 => Some(LTOSymbolAttributes::MaskAlignment),
            224 => Some(LTOSymbolAttributes::MaskPermissions),
            160 => Some(LTOSymbolAttributes::CodePermissions),
            192 => Some(LTOSymbolAttributes::DataPermissions),
            128 => Some(LTOSymbolAttributes::RoDataPermissions),
            1792 => Some(LTOSymbolAttributes::MaskDefinition),
            256 => Some(LTOSymbolAttributes::RegularDefinition),
            512 => Some(LTOSymbolAttributes::TentativeDefinition),
            768 => Some(LTOSymbolAttributes::WeakDefinition),
            1024 => Some(LTOSymbolAttributes::UndefinedDefinition),
            1280 => Some(LTOSymbolAttributes::WeakUndefindedDefinition),
            14336 => Some(LTOSymbolAttributes::MaskScope),
            2048 => Some(LTOSymbolAttributes::InternalScope),
            4096 => Some(LTOSymbolAttributes::HiddenScope),
            8192 => Some(LTOSymbolAttributes::ProtectedScope),
            6144 => Some(LTOSymbolAttributes::DefualtScope),
            10240 => Some(LTOSymbolAttributes::ScopeCanBeHidden),
            16384 => Some(LTOSymbolAttributes::Comdat),
            32768 => Some(LTOSymbolAttributes::Alias),
            _ => None,
        }
    }
}

impl From<lto_symbol_attributes> for LTOSymbolAttributes {
    /// The attribute for the native attribute `attribute`: the one of the
    /// same number.
    fn from(attribute: lto_symbol_attributes) -> (own: LTOSymbolAttributes)
        ensures
            own.number() == attribute as u32,
            Some(own) == LTOSymbolAttributes::of_number(attribute as u32),
    {
        match attribute {
            lto_symbol_attributes::LTO_SYMBOL_ALIGNMENT_MASK => LTOSymbolAttributes::MaskAlignment,
            lto_symbol_attributes::LTO_SYMBOL_PERMISSIONS_MASK => LTOSymbolAttributes::MaskPermissions,
            lto_symbol_attributes::LTO_SYMBOL_PERMISSIONS_CODE => LTOSymbolAttributes::CodePermissions,
            lto_symbol_attributes::LTO_SYMBOL_PERMISSIONS_DATA => LTOSymbolAttributes::DataPermissions,
            lto_symbol_attributes::LTO_SYMBOL_PERMISSIONS_RODATA => LTOSymbolAttributes::RoDataPermissions,
            lto_symbol_attributes::LTO_SYMBOL_DEFINITION_MASK => LTOSymbolAttributes::MaskDefinition,
            lto_symbol_attributes::LTO_SYMBOL_DEFINITION_REGULAR => LTOSymbolAttributes::RegularDefinition,
            lto_symbol_attributes::LTO_SYMBOL_DEFINITION_TENTATIVE => LTOSymbolAttributes::TentativeDefinition,
            lto_symbol_attributes::LTO_SYMBOL_DEFINITION_WEAK => LTOSymbolAttributes::WeakDefinition,
            lto_symbol_attributes::LTO_SYMBOL_DEFINITION_UNDEFINED => LTOSymbolAttributes::UndefinedDefinition,
            lto_symbol_attributes::LTO_SYMBOL_DEFINITION_WEAKUNDEF => LTOSymbolAttributes::WeakUndefindedDefinition,
            lto_symbol_attributes::LTO_SYMBOL_SCOPE_MASK => LTOSymbolAttributes::MaskScope,
            lto_symbol_attributes::LTO_SYMBOL_SCOPE_INTERNAL => LTOSymbolAttributes::InternalScope,
            lto_symbol_attributes::LTO_SYMBOL_SCOPE_HIDDEN => LTOSymbolAttributes::HiddenScope,
            lto_symbol_attributes::LTO_SYMBOL_SCOPE_PROTECTED => LTOSymbolAttributes::ProtectedScope,
            lto_symbol_attributes::LTO_SYMBOL_SCOPE_DEFAULT => LTOSymbolAttributes::DefualtScope,
            lto_symbol_attributes::LTO_SYMBOL_SCOPE_DEFAULT_CAN_BE_HIDDEN => LTOSymbolAttributes::ScopeCanBeHidden,
            lto_symbol_attributes::LTO_SYMBOL_COMDAT => LTOSymbolAttributes::Comdat,
            lto_symbol_attributes::LTO_SYMBOL_ALIAS => LTOSymbolAttributes::Alias,
        }
    }
}

impl vstd::std_specs::convert::FromSpecImpl<lto_symbol_attributes> for LTOSymbolAttributes {
    open spec fn obeys_from_spec() -> bool {
        true
    }

    open spec fn from_spec(attribute: lto_symbol_attributes) -> LTOSymbolAttributes {
        match attribute {
            lto_symbol_attributes::LTO_SYMBOL_ALIGNMENT_MASK => LTOSymbolAttributes::MaskAlignment,
            lto_symbol_attributes::LTO_SYMBOL_PERMISSIONS_MASK => LTOSymbolAttributes::MaskPermissions,
            lto_symbol_attributes::LTO_SYMBOL_PERMISSIONS_CODE => LTOSymbolAttributes::CodePermissions,
            lto_symbol_attributes::LTO_SYMBOL_PERMISSIONS_DATA => LTOSymbolAttributes::DataPermissions,
            lto_symbol_attributes::LTO_SYMBOL_PERMISSIONS_RODATA => LTOSymbolAttributes::RoDataPermissions,
            lto_symbol_attributes::LTO_SYMBOL_DEFINITION_MASK => LTOSymbolAttributes::MaskDefinition,
            lto_symbol_attributes::LTO_SYMBOL_DEFINITION_REGULAR => LTOSymbolAttributes::RegularDefinition,
            lto_symbol_attributes::LTO_SYMBOL_DEFINITION_TENTATIVE => LTOSymbolAttributes::TentativeDefinition,
            lto_symbol_attributes::LTO_SYMBOL_DEFINITION_WEAK => LTOSymbolAttributes::WeakDefinition,
            lto_symbol_attributes::LTO_SYMBOL_DEFINITION_UNDEFINED => LTOSymbolAttributes::UndefinedDefinition,
            lto_symbol_attributes::LTO_SYMBOL_DEFINITION_WEAKUNDEF => LTOSymbolAttributes::WeakUndefindedDefinition,
            lto_symbol_attributes::LTO_SYMBOL_SCOPE_MASK => LTOSymbolAttributes::MaskScope,
            lto_symbol_attributes::LTO_SYMBOL_SCOPE_INTERNAL => LTOSymbolAttributes::InternalScope,
            lto_symbol_attributes::LTO_SYMBOL_SCOPE_HIDDEN => LTOSymbolAttributes::HiddenScope,
            lto_symbol_attributes::LTO_SYMBOL_SCOPE_PROTECTED => LTOSymbolAttributes::ProtectedScope,
            lto_symbol_attributes::LTO_SYMBOL_SCOPE_DEFAULT => LTOSymbolAttributes::DefualtScope,
            lto_symbol_attributes::LTO_SYMBOL_SCOPE_DEFAULT_CAN_BE_HIDDEN => LTOSymbolAttributes::ScopeCanBeHidden,
            lto_symbol_attributes::LTO_SYMBOL_COMDAT => LTOSymbolAttributes::Comdat,
            lto_symbol_attributes::LTO_SYMBOL_ALIAS => LTOSymbolAttributes::Alias,
        }
    }
}

/// The models and attributes of this layer and the native ones stand for
/// each other number by number: a model goes to the native model of its
/// number, a native attribute comes from the attribute of its number, and
/// every attribute is the one of some native attribute.
pub proof fn law_native_numbers(
    debug: LTODebugModel,
    pic: LTOPicModel,
    native: lto_symbol_attributes,
    attribute: LTOSymbolAttributes,
)
    ensures
        lto_debug_model::from_spec(debug) as u32 == debug.number(),
        lto_codegen_model::from_spec(pic) as u32 == pic.number(),
        LTOSymbolAttributes::from_spec(native).number() == native as u32,
        exists|source: lto_symbol_attributes| LTOSymbolAttributes::from_spec(source) == attribute,
{
    let source = match attribute {
        LTOSymbolAttributes::MaskAlignment => lto_symbol_attributes::LTO_SYMBOL_ALIGNMENT_MASK,
        LTOSymbolAttributes::MaskPermissions => lto_symbol_attributes::LTO_SYMBOL_PERMISSIONS_MASK,
        LTOSymbolAttributes::CodePermissions => lto_symbol_attributes::LTO_SYMBOL_PERMISSIONS_CODE,
        LTOSymbolAttributes::DataPermissions => lto_symbol_attributes::LTO_SYMBOL_PERMISSIONS_DATA,
        LTOSymbolAttributes::RoDataPermissions => lto_symbol_attributes::LTO_SYMBOL_PERMISSIONS_RODATA,
        LTOSymbolAttributes::MaskDefinition => lto_symbol_attributes::LTO_SYMBOL_DEFINITION_MASK,
        LTOSymbolAttributes::RegularDefinition => lto_symbol_attributes::LTO_SYMBOL_DEFINITION_REGULAR,
        LTOSymbolAttributes::TentativeDefinition => lto_symbol_attributes::LTO_SYMBOL_DEFINITION_TENTATIVE,
        LTOSymbolAttributes::WeakDefinition => lto_symbol_attributes::LTO_SYMBOL_DEFINITION_WEAK,
        LTOSymbolAttributes::UndefinedDefinition => lto_symbol_attributes::LTO_SYMBOL_DEFINITION_UNDEFINED,
        LTOSymbolAttributes::WeakUndefindedDefinition => lto_symbol_attributes::LTO_SYMBOL_DEFINITION_WEAKUNDEF,
        LTOSymbolAttributes::MaskScope => lto_symbol_attributes::LTO_SYMBOL_SCOPE_MASK,
        LTOSymbolAttributes::InternalScope => lto_symbol_attributes::LTO_SYMBOL_SCOPE_INTERNAL,
        LTOSymbolAttributes::HiddenScope => lto_symbol_attributes::LTO_SYMBOL_SCOPE_HIDDEN,
        LTOSymbolAttributes::ProtectedScope => lto_symbol_attributes::LTO_SYMBOL_SCOPE_PROTECTED,
        LTOSymbolAttributes::DefualtScope => lto_symbol_attributes::LTO_SYMBOL_SCOPE_DEFAULT,
        LTOSymbolAttributes::ScopeCanBeHidden => lto_symbol_attributes::LTO_SYMBOL_SCOPE_DEFAULT_CAN_BE_HIDDEN,
        LTOSymbolAttributes::Comdat => lto_symbol_attributes::LTO_SYMBOL_COMDAT,
        LTOSymbolAttributes::Alias => lto_symbol_attributes::LTO_SYMBOL_ALIAS,
    };
    assert(LTOSymbolAttributes::from_spec(source) == attribute);
}

/// Reading back the number of an attribute gives that attribute, and a
/// number that reads as an attribute is the number of that attribute.
pub proof fn law_symbol_attribute_codes(attribute: LTOSymbolAttributes, code: u32)
    ensures
        LTOSymbolAttributes::of_number(attribute.number()) == Some(attribute),
        LTOSymbolAttributes::of_number(code) == Some(attribute) ==> attribute.number() == code,
{
}

/// How severe a diagnostic of the code generator is.
#[derive(Clone, Copy, Debug, PartialEq, Eq, Structural)]
pub enum LTODiagnosticSeverity {
    Error,
    Warning,
    Note,
    Remark,
}

impl LTODiagnosticSeverity {
    /// The number by which the native side knows this severity.
    pub open spec fn number(self) -> u32 {
        match self {
            LTODiagnosticSeverity::Error => 0,
            LTODiagnosticSeverity::Warning => 1,
            LTODiagnosticSeverity::Note => 2,
            LTODiagnosticSeverity::Remark => 3,
        }
    }
}

impl From<lto_codegen_diagnostic_severity_t> for LTODiagnosticSeverity {
    /// The severity for the native severity `severity`: the one of the same
    /// number.
    fn from(severity: lto_codegen_diagnostic_severity_t) -> (own: LTODiagnosticSeverity)
        ensures
            own.number() == severity as u32,
    {
        match severity {
            lto_codegen_diagnostic_severity_t::LTO_DS_ERROR => LTODiagnosticSeverity::Error,
            lto_codegen_diagnostic_severity_t::LTO_DS_WARNING => LTODiagnosticSeverity::Warning,
            lto_codegen_diagnostic_severity_t::LTO_DS_NOTE => LTODiagnosticSeverity::Note,
            lto_codegen_diagnostic_severity_t::LTO_DS_REMARK => LTODiagnosticSeverity::Remark,
        }
    }
}

impl vstd::std_specs::convert::FromSpecImpl<lto_codegen_diagnostic_severity_t> for LTODiagnosticSeverity {
    open spec fn obeys_from_spec() -> bool {
        true
    }

    open spec fn from_spec(severity: lto_codegen_diagnostic_severity_t) -> LTODiagnosticSeverity {
        match severity {
            lto_codegen_diagnostic_severity_t::LTO_DS_ERROR => LTODiagnosticSeverity::Error,
            lto_codegen_diagnostic_severity_t::LTO_DS_WARNING => LTODiagnosticSeverity::Warning,
            lto_codegen_diagnostic_severity_t::LTO_DS_NOTE => LTODiagnosticSeverity::Note,
            lto_codegen_diagnostic_severity_t::LTO_DS_REMARK => LTODiagnosticSeverity::Remark,
        }
    }
}

/// The text of `parts` put together without anything in between.
pub open spec fn joined(parts: Seq<&str>) -> Seq<char>
    decreases parts.len(),
{
    if parts.len() == 0 {
        Seq::empty()
    } else {
        joined(parts.drop_last()) + parts.last()@
    }
}

/// A snapshot of a native object module for link-time optimisation.
#[derive(Debug)]
pub struct LTOModule {
    pub handle: u64,
}

impl LTOModule {
    /// Decides what loading an object file into a context came to:
    /// `created` says whether the native side gave a module, `message` is
    /// its error message.
    pub fn with_context(created: bool, message: String) -> (outcome: Result<(), String>)
        ensures
            outcome.is_ok() == created,
            !created ==> outcome == Err::<(), String>(message),
    {
        checked(!created, message)
    }

    /// Reads the native answer to whether a file is an object file for a
    /// target: everything but zero is yes.
    pub fn is_for_target(answer: u8) -> (flag: bool)
        ensures
            flag == (answer != 0),
    {
        answer != 0
    }
}

/// A snapshot of a native code generator for link-time optimisation.
#[derive(Debug)]
pub struct LTOCodeGenerator {
    pub handle: u64,
}

impl LTOCodeGenerator {
    /// Decides what adding a module came to. `answer` is what the native
    /// side returned, zero for success; `message` is its error message.
    pub fn add_module(answer: u8, message: String) -> (outcome: Result<(), String>)
        ensures
            outcome.is_ok() == (answer == 0),
            answer != 0 ==> outcome == Err::<(), String>(message),
    {
        checked(answer != 0, message)
    }

    /// Decides what optimising the merged module came to. `answer` is what
    /// the native side returned, one for failure; `message` is its error
    /// message.
    pub fn optimize(answer: u8, message: String) -> (outcome: Result<(), String>)
        ensures
            outcome.is_err() == (answer == 1),
            answer == 1 ==> outcome == Err::<(), String>(message),
    {
        checked(answer == 1, message)
    }

    /// Decides what setting the debug model came to. `answer` is what the
    /// native side returned, one for failure; `message` is its error message.
    pub fn set_debug_model(answer: u8, message: String) -> (outcome: Result<(), String>)
        ensures
            outcome.is_err() == (answer == 1),
            answer == 1 ==> outcome == Err::<(), String>(message),
    {
        checked(answer == 1, message)
    }

    /// Decides what setting the model of position-independent code came to.
    /// `answer` is what the native side returned, one for failure; `message`
    /// is its error message.
    pub fn set_pic_model(answer: u8, message: String) -> (outcome: Result<(), String>)
        ensures
            outcome.is_err() == (answer == 1),
            answer == 1 ==> outcome == Err::<(), String>(message),
    {
        checked(answer == 1, message)
    }

    /// Decides what writing the merged modules to a file came to. `answer`
    /// is what the native side returned, one for failure; `message` is its
    /// error message.
    pub fn write_modules(answer: u8, message: String) -> (outcome: Result<(), String>)
        ensures
            outcome.is_err() == (answer == 1),
            answer == 1 ==> outcome == Err::<(), String>(message),
    {
        checked(answer == 1, message)
    }

    /// Prepares the extra arguments for the assembler: the arguments put
    /// together without anything in between, and their number as the native
    /// side takes it, cut to 32 bits.
    pub fn assembler_args(args: Vec<&str>) -> (prepared: (String, i32))
        ensures
            prepared.0@ == joined(args@),
            prepared.1 == args@.len() as i32,
    {
        let mut text = String::new();
        let mut i: usize = 0;
        while i < args.len()
            invariant
                i <= args@.len(),
                text@ == joined(args@.subrange(0, i as int)),
            decreases args@.len() - i,
        {
            proof {
                let next = args@.subrange(0, i + 1);
                assert(next.drop_last() =~= args@.subrange(0, i as int));
                assert(next.last() == args@[i as int]);
            }
            text.append(args[i]);
            i = i + 1;
        }
        proof {
            assert(args@.subrange(0, i as int) =~= args@);
        }
        (text, #[verifier::truncate] (args.len() as i32))
    }
}

} // verus!
