//! Values and the checked hierarchy of their kinds.
//!
//! A [`Value`] is a snapshot of a native value: its identity, its name and
//! type, and what its runtime kind carries. The narrower kinds are borrowed
//! views of a value. Narrowing tests the runtime kind and may fail; widening
//! never does. The hierarchy is one chain per kind:
//! `Value -> Arg` and `Value -> GlobalValue -> {GlobalVariable, Function, Alias}`.

use vstd::prelude::*;
use vstd::string::*;
use vstd::std_specs::convert::FromSpec;
use llvm_sys::{LLVMLinkage, LLVMValueKind};
use crate::block::BasicBlock;
use crate::types::{FunctionType, Type};
use crate::util::llvm_bool;

verus! {

/// `llvm_sys::LLVMLinkage`, the native linkage, with the variants and numbers
/// that the toolkit's bindings declare.
#[verifier::external_type_specification]
pub struct ExLinkage(LLVMLinkage);

/// `llvm_sys::LLVMValueKind`, the native kind of a value, with the variants
/// that the toolkit's bindings declare.
#[verifier::external_type_specification]
pub struct ExValueKind(LLVMValueKind);

/// Comparative operations on values.
#[derive(Clone, Copy, Debug, PartialEq, Eq, Structural)]
pub enum Predicate {
    Equal,
    NotEqual,
    GreaterThan,
    GreaterThanOrEqual,
    LessThan,
    LessThanOrEqual,
}

/// How a global takes part in linking.
#[derive(Clone, Copy, Debug, PartialEq, Eq, Structural)]
pub enum Linkage {
    /// Externally visible; takes part in linking normally.
    External,
    /// Never emitted into the object file; known only for optimisation.
    AvailableExternally,
    /// Merged with globals of the same name; discarded when unreferenced.
    LinkOnceAny,
    /// Like `LinkOnceAny`, merged only with equivalent globals.
    LinkOnceODR,
    /// Merged like `LinkOnceAny`, kept when unreferenced.
    WeakAny,
    /// Like `WeakAny`, merged only with equivalent globals.
    WeakODR,
    /// Arrays that are appended to each other when merged.
    Appending,
    /// Like `Private`, shown as a local symbol in the object file.
    Internal,
    /// Accessible in the current module only; absent from the symbol table.
    Private,
    /// Weak until linked; null when not linked.
    ExternalWeak,
    /// Like weak, for zero-initialised data without a section.
    Common,
}

impl Linkage {
    /// The number by which the native side knows this linkage.
    pub open spec fn number(self) -> u32 {
        match self {
            Linkage::External => 0,
            Linkage::AvailableExternally => 1,
            Linkage::LinkOnceAny => 2,
            Linkage::LinkOnceODR => 3,
            Linkage::WeakAny => 5,
            Linkage::WeakODR => 6,
            Linkage::Appending => 7,
            Linkage::Internal => 8,
            Linkage::Private => 9,
            Linkage::ExternalWeak => 12,
            Linkage::Common => 14,
        }
    }

    /// The linkage that the native number `code` stands for, if it is one of
    /// the linkages of this layer.
    pub open spec fn of_number(code: u32) -> Option<Linkage> {
        if code == 0 {
            Some(Linkage::External)
        } else if code == 1 {
            Some(Linkage::AvailableExternally)
        } else if code == 2 {
            Some(Linkage::LinkOnceAny)
        } else if code == 3 {
            Some(Linkage::LinkOnceODR)
        } else if code == 5 {
            Some(Linkage::WeakAny)
        } else if code == 6 {
            Some(Linkage::WeakODR)
        } else if code == 7 {
            Some(Linkage::Appending)
        } else if code == 8 {
            Some(Linkage::Internal)
        } else if code == 9 {
            Some(Linkage::Private)
        } else if code == 12 {
            Some(Linkage::ExternalWeak)
        } else if code == 14 {
            Some(Linkage::Common)
        } else {
            None
        }
    }

    /// The number to hand to the native side for this linkage.
    pub fn code(self) -> (code: u32)
        ensures
            code == self.number(),
    {
        match self {
            Linkage::External => 0,
            Linkage::AvailableExternally => 1,
            Linkage::LinkOnceAny => 2,
            Linkage::LinkOnceODR => 3,
            Linkage::WeakAny => 5,
            Linkage::WeakODR => 6,
            Linkage::Appending => 7,
            Linkage::Internal => 8,
            Linkage::Private => 9,
            Linkage::ExternalWeak => 12,
            Linkage::Common => 14,
        }
    }

    /// Reads a linkage from the number the native side reports. Numbers of
    /// linkages that this layer does not know give `None`.
    pub fn from_code(code: u32) -> (linkage: Option<Linkage>)
        ensures
            linkage == Linkage::of_number(code),
    {
        match code {
            0 => Some(Linkage::External),
            1 => Some(Linkage::AvailableExternally),
            2 => Some(Linkage::LinkOnceAny),
            3 => Some(Linkage::LinkOnceODR),
            5 => Some(Linkage::WeakAny),
            6 => Some(Linkage::WeakODR),
            7 => Some(Linkage::Appending),
            8 => Some(Linkage::Internal),
            9 => Some(Linkage::Private),
            12 => Some(Linkage::ExternalWeak),
            14 => Some(Linkage::Common),
            _ => None,
        }
    }
}

impl Linkage {
    /// Reads a linkage from the native linkage: the linkage of the same
    /// number, or `None` for a native linkage that this layer does not know.
    pub fn from_native(native: LLVMLinkage) -> (linkage: Option<Linkage>)
        ensures
            linkage == Linkage::of_number(native as u32),
    {
        Linkage::from_code(native as u32)
    }
}

impl From<Linkage> for LLVMLinkage {
    /// The native linkage for `linkage`: the one of the same number.
    fn from(linkage: Linkage) -> (native: LLVMLinkage)
        ensures
            native as u32 == linkage.number(),
    {
        match linkage {
            Linkage::External => LLVMLinkage::LLVMExternalLinkage,
            Linkage::AvailableExternally => LLVMLinkage::LLVMAvailableExternallyLinkage,
            Linkage::LinkOnceAny => LLVMLinkage::LLVMLinkOnceAnyLinkage,
            Linkage::LinkOnceODR => LLVMLinkage::LLVMLinkOnceODRLinkage,
            Linkage::WeakAny => LLVMLinkage::LLVMWeakAnyLinkage,
            Linkage::WeakODR => LLVMLinkage::LLVMWeakODRLinkage,
            Linkage::Appending => LLVMLinkage::LLVMAppendingLinkage,
            Linkage::Internal => LLVMLinkage::LLVMInternalLinkage,
            Linkage::Private => LLVMLinkage::LLVMPrivateLinkage,
            Linkage::ExternalWeak => LLVMLinkage::LLVMExternalWeakLinkage,
            Linkage::Common => LLVMLinkage::LLVMCommonLinkage,
        }
    }
}

impl vstd::std_specs::convert::FromSpecImpl<Linkage> for LLVMLinkage {
    open spec fn obeys_from_spec() -> bool {
        true
    }

    open spec fn from_spec(linkage: Linkage) -> LLVMLinkage {
        match linkage {
            Linkage::External => LLVMLinkage::LLVMExternalLinkage,
            Linkage::AvailableExternally => LLVMLinkage::LLVMAvailableExternallyLinkage,
            Linkage::LinkOnceAny => LLVMLinkage::LLVMLinkOnceAnyLinkage,
            Linkage::LinkOnceODR => LLVMLinkage::LLVMLinkOnceODRLinkage,
            Linkage::WeakAny => LLVMLinkage::LLVMWeakAnyLinkage,
            Linkage::WeakODR => LLVMLinkage::LLVMWeakODRLinkage,
            Linkage::Appending => LLVMLinkage::LLVMAppendingLinkage,
            Linkage::Internal => LLVMLinkage::LLVMInternalLinkage,
            Linkage::Private => LLVMLinkage::LLVMPrivateLinkage,
            Linkage::ExternalWeak => LLVMLinkage::LLVMExternalWeakLinkage,
            Linkage::Common => LLVMLinkage::LLVMCommonLinkage,
        }
    }
}

/// Reading back the number of a linkage gives that linkage, a number that
/// reads as a linkage is the number of that linkage, and a linkage and the
/// native linkage made from it have the same number, so that reading the
/// native linkage gives the linkage back.
pub proof fn law_linkage_codes(linkage: Linkage, code: u32)
    ensures
        Linkage::of_number(linkage.number()) == Some(linkage),
        Linkage::of_number(code) == Some(linkage) ==> linkage.number() == code,
        LLVMLinkage::from_spec(linkage) as u32 == linkage.number(),
        Linkage::of_number(LLVMLinkage::from_spec(linkage) as u32) == Some(linkage),
{
}

/// What the native side is asked for when a constant structure is made.
#[derive(Clone, Debug, PartialEq, Eq)]
pub struct StructRequest {
    /// The identities of the member values, in order.
    pub members: Vec<u64>,
    /// The number of members, as the native side takes it.
    pub count: u32,
    /// The native truth value of whether the structure is packed.
    pub packed: i32,
}

/// What the native side is asked for when a constant string is made.
#[derive(Clone, Copy, Debug, PartialEq, Eq)]
pub struct StringRequest {
    /// The length of the text in bytes, as the native side takes it.
    pub length: u32,
    /// The native truth value of whether the terminating zero is left out.
    pub unterminated: i32,
}

/// The identities of `values`, in order.
pub open spec fn handles(values: Seq<&Value>) -> Seq<u64> {
    Seq::new(values.len(), |i: int| values[i].handle())
}

/// What every global value carries.
#[derive(Clone, Copy, Debug, PartialEq, Eq)]
pub struct Global {
    pub linkage: Linkage,
    pub declaration: bool,
}

/// The runtime kind of a value, with what a value of that kind carries.
#[derive(Debug, PartialEq)]
pub enum Kind {
    /// An argument of a function.
    Argument,
    /// A global variable.
    GlobalVariable { global: Global, initializer: Option<Box<Value>>, constant: bool },
    /// A function: its signature, its arguments and its blocks in order, and
    /// the identity of the module it belongs to.
    Function {
        global: Global,
        signature: FunctionType,
        params: Vec<Value>,
        blocks: Vec<BasicBlock>,
        module: u64,
    },
    /// An alias of another global value.
    Alias { global: Global },
    /// An indirect function: a global value of none of the narrower kinds.
    IFunc { global: Global },
    /// Any other value: a constant, an instruction, a block.
    Other,
}

/// The classes of the hierarchy.
#[derive(Clone, Copy, Debug, PartialEq, Eq, Structural)]
pub enum Class {
    Value,
    Arg,
    GlobalValue,
    GlobalVariable,
    Function,
    Alias,
}

impl Class {
    /// The immediate superclass; the root has none.
    pub open spec fn parent(self) -> Option<Class> {
        match self {
            Class::Value => None,
            Class::Arg => Some(Class::Value),
            Class::GlobalValue => Some(Class::Value),
            Class::GlobalVariable => Some(Class::GlobalValue),
            Class::Function => Some(Class::GlobalValue),
            Class::Alias => Some(Class::GlobalValue),
        }
    }

    /// Whether this class is `other` or lies below it in the hierarchy.
    pub open spec fn is_within(self, other: Class) -> bool {
        ||| self == other
        ||| self.parent() == Some(other)
        ||| (self.parent() matches Some(above) && above.parent() == Some(other))
    }

    /// The narrowest class of the hierarchy that a value of the native kind
    /// `kind` is an instance of.
    pub open spec fn of(kind: LLVMValueKind) -> Class {
        match kind {
            LLVMValueKind::LLVMArgumentValueKind => Class::Arg,
            LLVMValueKind::LLVMFunctionValueKind => Class::Function,
            LLVMValueKind::LLVMGlobalAliasValueKind => Class::Alias,
            LLVMValueKind::LLVMGlobalVariableValueKind => Class::GlobalVariable,
            LLVMValueKind::LLVMGlobalIFuncValueKind => Class::GlobalValue,
            _ => Class::Value,
        }
    }

    /// Whether no class has this one as its superclass.
    pub open spec fn is_leaf(self) -> bool {
        self == Class::Arg || self == Class::GlobalVariable || self == Class::Function || self
            == Class::Alias
    }

    /// The narrowest class of the hierarchy that a value of the native kind
    /// `kind` is an instance of.
    pub fn of_native(kind: LLVMValueKind) -> (class: Class)
        ensures
            class == Class::of(kind),
    {
        match kind {
            LLVMValueKind::LLVMArgumentValueKind => Class::Arg,
            LLVMValueKind::LLVMFunctionValueKind => Class::Function,
            LLVMValueKind::LLVMGlobalAliasValueKind => Class::Alias,
            LLVMValueKind::LLVMGlobalVariableValueKind => Class::GlobalVariable,
            LLVMValueKind::LLVMGlobalIFuncValueKind => Class::GlobalValue,
            _ => Class::Value,
        }
    }

    /// Whether this class is `other` or lies below it in the hierarchy.
    pub fn within(self, other: Class) -> (flag: bool)
        ensures
            flag == self.is_within(other),
    {
        match other {
            Class::Value => true,
            Class::GlobalValue => match self {
                Class::GlobalValue | Class::GlobalVariable | Class::Function | Class::Alias => true,
                _ => false,
            },
            _ => self == other,
        }
    }

    /// The immediate superclass; the root has none.
    pub fn superclass(self) -> (parent: Option<Class>)
        ensures
            parent == self.parent(),
    {
        match self {
            Class::Value => None,
            Class::Arg => Some(Class::Value),
            Class::GlobalValue => Some(Class::Value),
            Class::GlobalVariable => Some(Class::GlobalValue),
            Class::Function => Some(Class::GlobalValue),
            Class::Alias => Some(Class::GlobalValue),
        }
    }
}

impl Kind {
    /// The narrowest class that a value of this kind is an instance of.
    pub open spec fn class(self) -> Class {
        match self {
            Kind::Argument => Class::Arg,
            Kind::GlobalVariable { .. } => Class::GlobalVariable,
            Kind::Function { .. } => Class::Function,
            Kind::Alias { .. } => Class::Alias,
            Kind::IFunc { .. } => Class::GlobalValue,
            Kind::Other => Class::Value,
        }
    }

    /// The runtime kind predicate: whether a value of this kind is an
    /// instance of `class`, which it is when its narrowest class is `class`
    /// or lies below it.
    pub open spec fn belongs_to(self, class: Class) -> bool {
        self.class().is_within(class)
    }

    /// The narrowest class that a value of this kind is an instance of.
    pub fn get_class(&self) -> (class: Class)
        ensures
            class == self.class(),
    {
        match self {
            Kind::Argument => Class::Arg,
            Kind::GlobalVariable { .. } => Class::GlobalVariable,
            Kind::Function { .. } => Class::Function,
            Kind::Alias { .. } => Class::Alias,
            Kind::IFunc { .. } => Class::GlobalValue,
            Kind::Other => Class::Value,
        }
    }

    /// Whether the kind is in order: a function carries one argument per
    /// parameter of its signature, and each of them is an argument.
    pub open spec fn well_formed(self) -> bool {
        self matches Kind::Function { signature, params, .. } ==> {
            &&& params@.len() == signature.params@.len()
            &&& forall|i: int| 0 <= i < params@.len() ==> (#[trigger] params@[i]).kind() is Argument
        }
    }
}

/// A snapshot of a native value.
#[derive(Debug, PartialEq)]
pub struct Value {
    handle: u64,
    name: Option<String>,
    ty: Type,
    native: LLVMValueKind,
    kind: Kind,
}

impl Value {
    #[verifier::type_invariant]
    spec fn inv(self) -> bool {
        self.valid()
    }

    /// What holds of every snapshot: its kind is in order, and the class of
    /// its kind is the class of its native kind.
    pub open spec fn valid(&self) -> bool {
        self.kind().well_formed() && self.kind().class() == Class::of(self.native())
    }

    /// The native kind that the toolkit reports of the resource.
    pub closed spec fn native(&self) -> LLVMValueKind {
        self.native
    }

    /// The identity of the native resource.
    pub closed spec fn handle(&self) -> u64 {
        self.handle
    }

    /// The name, if the value has one.
    pub closed spec fn name(&self) -> Option<String> {
        self.name
    }

    /// The type of the value.
    pub closed spec fn ty(&self) -> Type {
        self.ty
    }

    /// The runtime kind of the value.
    pub closed spec fn kind(&self) -> Kind {
        self.kind
    }

    /// Whether the value is an instance of `class`.
    pub open spec fn is_a(&self, class: Class) -> bool {
        self.kind().belongs_to(class)
    }

    /// Makes the snapshot of a value from what the native side reports of
    /// it. What does not fit together is no value: a function whose
    /// arguments do not fit its signature, one for one and each an argument,
    /// or a kind whose class is not the one of the native kind.
    pub fn new(
        handle: u64,
        name: Option<String>,
        ty: Type,
        native: LLVMValueKind,
        kind: Kind,
    ) -> (value: Option<Value>)
        ensures
            value.is_some() == (kind.well_formed() && kind.class() == Class::of(native)),
            value matches Some(v) ==> v.handle() == handle && v.name() == name && v.ty() == ty
                && v.native() == native && v.kind() == kind && v.valid(),
    {
        let fits = match &kind {
            Kind::Function { signature, params, .. } => {
                if params.len() != signature.params.len() {
                    false
                } else {
                    let mut all = true;
                    let mut i: usize = 0;
                    while i < params.len()
                        invariant
                            i <= params@.len(),
                            all == forall|j: int|
                                0 <= j < i ==> (#[trigger] params@[j]).kind() is Argument,
                        decreases params@.len() - i,
                    {
                        let is_argument = match &params[i].kind {
                            Kind::Argument => true,
                            _ => false,
                        };
                        all = all && is_argument;
                        i = i + 1;
                    }
                    all
                }
            },
            _ => true,
        };
        if fits && kind.get_class() == Class::of_native(native) {
            Some(Value { handle, name, ty, native, kind })
        } else {
            None
        }
    }

    /// The native kind that the toolkit reports of the resource.
    pub fn get_native(&self) -> (native: LLVMValueKind)
        ensures
            native == self.native(),
    {
        self.native
    }

    /// Prepares the making of a constant structure from the values given:
    /// their identities in order, their number cut to 32 bits, and whether
    /// the structure is packed.
    pub fn new_struct(vals: &[&Value], packed: bool) -> (request: StructRequest)
        ensures
            request.members@ == handles(vals@),
            request.count == vals@.len() as u32,
            request.packed == (if packed { 1i32 } else { 0i32 }),
    {
        let mut members: Vec<u64> = Vec::new();
        let mut i: usize = 0;
        while i < vals.len()
            invariant
                i <= vals@.len(),
                members@.len() == i,
                forall|j: int| 0 <= j < i ==> members@[j] == (#[trigger] vals@[j]).handle(),
            decreases vals@.len() - i,
        {
            members.push(vals[i].handle);
            i = i + 1;
        }
        assert(members@ =~= handles(vals@));
        StructRequest {
            members,
            count: #[verifier::truncate] (vals.len() as u32),
            packed: llvm_bool(packed),
        }
    }

    /// Prepares the making of a constant string from the text given: its
    /// length in bytes cut to 32 bits, and whether the terminating zero is
    /// left out, as it is in the style of Rust.
    pub fn new_string(text: &str, rust_style: bool) -> (request: StringRequest)
        ensures
            request.length == text.len() as u32,
            request.unterminated == (if rust_style { 1i32 } else { 0i32 }),
    {
        StringRequest {
            length: #[verifier::truncate] (text.len() as u32),
            unterminated: llvm_bool(rust_style),
        }
    }

    /// The identity of the native resource.
    pub fn get_handle(&self) -> (handle: u64)
        ensures
            handle == self.handle(),
    {
        self.handle
    }

    /// The name of this value, or `None` if it lacks a name.
    pub fn get_name(&self) -> (name: Option<&String>)
        ensures
            name.is_some() == self.name().is_some(),
            name matches Some(text) ==> *text == self.name().unwrap(),
    {
        self.name.as_ref()
    }

    /// The type of this value.
    pub fn get_type(&self) -> (ty: &Type)
        ensures
            *ty == self.ty(),
    {
        &self.ty
    }

    /// The narrowest class that this value is an instance of: the class of
    /// its native kind.
    pub fn get_class(&self) -> (class: Class)
        ensures
            class == self.kind().class(),
            class == Class::of(self.native()),
    {
        proof {
            use_type_invariant(self);
        }
        self.kind.get_class()
    }

    /// The runtime kind predicate: whether this value is an instance of
    /// `class`, which it is when the class of its native kind is `class` or
    /// lies below it.
    pub fn is_instance(&self, class: Class) -> (flag: bool)
        ensures
            flag == self.is_a(class),
            flag == Class::of(self.native()).is_within(class),
    {
        self.get_class().within(class)
    }
}

/// An argument that is passed to a function: a view of a value whose runtime
/// kind is that of an argument.
#[derive(Clone, Copy, Debug)]
pub struct Arg<'a> {
    value: &'a Value,
}

impl<'a> Arg<'a> {
    #[verifier::type_invariant]
    spec fn inv(self) -> bool {
        self.value.kind is Argument
    }

    /// The value that this view is a view of.
    pub closed spec fn widened(self) -> Value {
        *self.value
    }

    /// The view that narrowing `value` gives: one on the same value when its
    /// runtime kind is that of an argument, none otherwise.
    pub closed spec fn narrowed(value: &'a Value) -> Option<Arg<'a>> {
        if value.kind is Argument {
            Some(Arg { value })
        } else {
            None
        }
    }

    /// Whether `value` can be narrowed to an argument.
    pub fn is(value: &Value) -> (flag: bool)
        ensures
            flag == value.is_a(Class::Arg),
    {
        value.is_instance(Class::Arg)
    }

    /// Narrows a value to an argument; `None` when its runtime kind is
    /// another.
    pub fn from_super(value: &'a Value) -> (narrow: Option<Arg<'a>>)
        ensures
            narrow == Arg::narrowed(value),
            narrow.is_some() == value.is_a(Class::Arg),
            narrow.is_some() == Class::of(value.native()).is_within(Class::Arg),
            narrow matches Some(arg) ==> arg.widened() == *value,
    {
        proof {
            use_type_invariant(value);
        }
        match &value.kind {
            Kind::Argument => Some(Arg { value }),
            _ => None,
        }
    }

    /// Widens the view to the value it is a view of.
    pub fn to_super(&self) -> (wide: &'a Value)
        ensures
            *wide == self.widened(),
            wide.is_a(Class::Arg),
    {
        proof {
            use_type_invariant(self);
        }
        self.value
    }
}

/// A value with global scope: a view of a value whose runtime kind is that of
/// a global variable, a function or an alias.
#[derive(Clone, Copy, Debug)]
pub struct GlobalValue<'a> {
    value: &'a Value,
}

impl<'a> GlobalValue<'a> {
    #[verifier::type_invariant]
    spec fn inv(self) -> bool {
        self.value.kind.belongs_to(Class::GlobalValue)
    }

    /// The value that this view is a view of.
    pub closed spec fn widened(self) -> Value {
        *self.value
    }

    /// The view that narrowing `value` gives: one on the same value when its
    /// runtime kind is that of a global value, none otherwise.
    pub closed spec fn narrowed(value: &'a Value) -> Option<GlobalValue<'a>> {
        if value.kind.belongs_to(Class::GlobalValue) {
            Some(GlobalValue { value })
        } else {
            None
        }
    }

    /// What the value carries as a global value.
    pub open spec fn global(self) -> Global {
        match self.widened().kind() {
            Kind::GlobalVariable { global, .. } => global,
            Kind::Function { global, .. } => global,
            Kind::Alias { global } => global,
            Kind::IFunc { global } => global,
            _ => arbitrary(),
        }
    }

    /// Whether `value` can be narrowed to a global value.
    pub fn is(value: &Value) -> (flag: bool)
        ensures
            flag == value.is_a(Class::GlobalValue),
    {
        value.is_instance(Class::GlobalValue)
    }

    /// Narrows a value to a global value; `None` when its runtime kind is
    /// another.
    pub fn from_super(value: &'a Value) -> (narrow: Option<GlobalValue<'a>>)
        ensures
            narrow == GlobalValue::narrowed(value),
            narrow.is_some() == value.is_a(Class::GlobalValue),
            narrow.is_some() == Class::of(value.native()).is_within(Class::GlobalValue),
            narrow matches Some(global) ==> global.widened() == *value,
    {
        if value.is_instance(Class::GlobalValue) {
            Some(GlobalValue { value })
        } else {
            None
        }
    }

    /// Widens the view to the value it is a view of.
    pub fn to_super(&self) -> (wide: &'a Value)
        ensures
            *wide == self.widened(),
            wide.is_a(Class::GlobalValue),
    {
        proof {
            use_type_invariant(self);
        }
        self.value
    }

    /// The linkage of this global.
    pub fn get_linkage(&self) -> (linkage: Linkage)
        ensures
            linkage == self.global().linkage,
    {
        proof {
            use_type_invariant(self);
        }
        match &self.value.kind {
            Kind::GlobalVariable { global, .. } => global.linkage,
            Kind::Function { global, .. } => global.linkage,
            Kind::Alias { global } => global.linkage,
            Kind::IFunc { global } => global.linkage,
            _ => Linkage::External,
        }
    }

    /// Whether this global is a declaration, as opposed to a definition.
    pub fn is_declaration(&self) -> (flag: bool)
        ensures
            flag == self.global().declaration,
    {
        proof {
            use_type_invariant(self);
        }
        match &self.value.kind {
            Kind::GlobalVariable { global, .. } => global.declaration,
            Kind::Function { global, .. } => global.declaration,
            Kind::Alias { global } => global.declaration,
            Kind::IFunc { global } => global.declaration,
            _ => false,
        }
    }
}

/// A global variable: a view of a global value of that runtime kind.
#[derive(Clone, Copy, Debug)]
pub struct GlobalVariable<'a> {
    value: &'a Value,
}

impl<'a> GlobalVariable<'a> {
    #[verifier::type_invariant]
    spec fn inv(self) -> bool {
        self.value.kind is GlobalVariable
    }

    /// The global value that this view is a view of.
    pub closed spec fn widened(self) -> GlobalValue<'a> {
        GlobalValue { value: self.value }
    }

    /// The view that narrowing `global` gives: one on the same value when its
    /// runtime kind is that of a global variable, none otherwise.
    pub closed spec fn narrowed(global: GlobalValue<'a>) -> Option<GlobalVariable<'a>> {
        if global.value.kind is GlobalVariable {
            Some(GlobalVariable { value: global.value })
        } else {
            None
        }
    }

    /// The initial value, if the variable has one.
    pub open spec fn initializer(self) -> Option<Value> {
        match self.widened().widened().kind() {
            Kind::GlobalVariable { initializer: Some(value), .. } => Some(*value),
            _ => None,
        }
    }

    /// Whether the variable is a constant.
    pub open spec fn constant(self) -> bool {
        self.widened().widened().kind() matches Kind::GlobalVariable { constant, .. } && constant
    }

    /// Whether `global` can be narrowed to a global variable.
    pub fn is(global: &GlobalValue<'a>) -> (flag: bool)
        ensures
            flag == global.widened().is_a(Class::GlobalVariable),
    {
        global.value.is_instance(Class::GlobalVariable)
    }

    /// Narrows a global value to a global variable; `None` when its runtime
    /// kind is another.
    pub fn from_super(global: GlobalValue<'a>) -> (narrow: Option<GlobalVariable<'a>>)
        ensures
            narrow == GlobalVariable::narrowed(global),
            narrow.is_some() == global.widened().is_a(Class::GlobalVariable),
            narrow.is_some() == Class::of(global.widened().native()).is_within(Class::GlobalVariable),
            narrow matches Some(variable) ==> variable.widened() == global,
    {
        proof {
            use_type_invariant(global.value);
        }
        match &global.value.kind {
            Kind::GlobalVariable { .. } => Some(GlobalVariable { value: global.value }),
            _ => None,
        }
    }

    /// Widens the view to the global value it is a view of.
    pub fn to_super(&self) -> (wide: GlobalValue<'a>)
        ensures
            wide == self.widened(),
            wide.widened().is_a(Class::GlobalVariable),
    {
        proof {
            use_type_invariant(self);
        }
        GlobalValue { value: self.value }
    }

    /// The initial value of the global, or `None` if it has none.
    pub fn get_initializer(&self) -> (initial: Option<&'a Value>)
        ensures
            initial.is_some() == self.initializer().is_some(),
            initial matches Some(value) ==> *value == self.initializer().unwrap(),
    {
        match &self.value.kind {
            Kind::GlobalVariable { initializer: Some(value), .. } => Some(&**value),
            _ => None,
        }
    }

    /// Whether this global is a constant.
    pub fn get_constant(&self) -> (flag: bool)
        ensures
            flag == self.constant(),
    {
        match &self.value.kind {
            Kind::GlobalVariable { constant, .. } => *constant,
            _ => false,
        }
    }
}

/// An alias to another global value: a view of a global value of that
/// runtime kind.
#[derive(Clone, Copy, Debug)]
pub struct Alias<'a> {
    value: &'a Value,
}

impl<'a> Alias<'a> {
    #[verifier::type_invariant]
    spec fn inv(self) -> bool {
        self.value.kind is Alias
    }

    /// The global value that this view is a view of.
    pub closed spec fn widened(self) -> GlobalValue<'a> {
        GlobalValue { value: self.value }
    }

    /// The view that narrowing `global` gives: one on the same value when its
    /// runtime kind is that of an alias, none otherwise.
    pub closed spec fn narrowed(global: GlobalValue<'a>) -> Option<Alias<'a>> {
        if global.value.kind is Alias {
            Some(Alias { value: global.value })
        } else {
            None
        }
    }

    /// Whether `global` can be narrowed to an alias.
    pub fn is(global: &GlobalValue<'a>) -> (flag: bool)
        ensures
            flag == global.widened().is_a(Class::Alias),
    {
        global.value.is_instance(Class::Alias)
    }

    /// Narrows a global value to an alias; `None` when its runtime kind is
    /// another.
    pub fn from_super(global: GlobalValue<'a>) -> (narrow: Option<Alias<'a>>)
        ensures
            narrow == Alias::narrowed(global),
            narrow.is_some() == global.widened().is_a(Class::Alias),
            narrow.is_some() == Class::of(global.widened().native()).is_within(Class::Alias),
            narrow matches Some(alias) ==> alias.widened() == global,
    {
        proof {
            use_type_invariant(global.value);
        }
        match &global.value.kind {
            Kind::Alias { .. } => Some(Alias { value: global.value }),
            _ => None,
        }
    }

    /// Widens the view to the global value it is a view of.
    pub fn to_super(&self) -> (wide: GlobalValue<'a>)
        ensures
            wide == self.widened(),
            wide.widened().is_a(Class::Alias),
    {
        proof {
            use_type_invariant(self);
        }
        GlobalValue { value: self.value }
    }
}

/// A function: a view of a global value of that runtime kind. A function can
/// be called and contains blocks of code; its arguments are reached by their
/// position.
#[derive(Clone, Copy, Debug)]
pub struct Function<'a> {
    value: &'a Value,
}

impl<'a> Function<'a> {
    #[verifier::type_invariant]
    spec fn inv(self) -> bool {
        self.value.kind is Function
    }

    /// The global value that this view is a view of.
    pub closed spec fn widened(self) -> GlobalValue<'a> {
        GlobalValue { value: self.value }
    }

    /// The view that narrowing `global` gives: one on the same value when its
    /// runtime kind is that of a function, none otherwise.
    pub closed spec fn narrowed(global: GlobalValue<'a>) -> Option<Function<'a>> {
        if global.value.kind is Function {
            Some(Function { value: global.value })
        } else {
            None
        }
    }

    /// The arguments of the function, in order.
    pub open spec fn params(self) -> Seq<Value> {
        match self.widened().widened().kind() {
            Kind::Function { params, .. } => params@,
            _ => Seq::empty(),
        }
    }

    /// The blocks of the function, in order.
    pub open spec fn block_seq(self) -> Seq<BasicBlock> {
        match self.widened().widened().kind() {
            Kind::Function { blocks, .. } => blocks@,
            _ => Seq::empty(),
        }
    }

    /// The signature of the function.
    pub open spec fn signature(self) -> FunctionType {
        match self.widened().widened().kind() {
            Kind::Function { signature, .. } => signature,
            _ => arbitrary(),
        }
    }

    /// The identity of the module that the function belongs to.
    pub open spec fn module(self) -> u64 {
        match self.widened().widened().kind() {
            Kind::Function { module, .. } => module,
            _ => 0,
        }
    }

    /// Whether `global` can be narrowed to a function.
    pub fn is(global: &GlobalValue<'a>) -> (flag: bool)
        ensures
            flag == global.widened().is_a(Class::Function),
    {
        global.value.is_instance(Class::Function)
    }

    /// Narrows a global value to a function; `None` when its runtime kind is
    /// another.
    pub fn from_super(global: GlobalValue<'a>) -> (narrow: Option<Function<'a>>)
        ensures
            narrow == Function::narrowed(global),
            narrow.is_some() == global.widened().is_a(Class::Function),
            narrow.is_some() == Class::of(global.widened().native()).is_within(Class::Function),
            narrow matches Some(function) ==> function.widened() == global,
    {
        proof {
            use_type_invariant(global.value);
        }
        match &global.value.kind {
            Kind::Function { .. } => Some(Function { value: global.value }),
            _ => None,
        }
    }

    /// Widens the view to the global value it is a view of.
    pub fn to_super(&self) -> (wide: GlobalValue<'a>)
        ensures
            wide == self.widened(),
            wide.widened().is_a(Class::Function),
    {
        proof {
            use_type_invariant(self);
        }
        GlobalValue { value: self.value }
    }

    /// The number of arguments, which is the number of parameters of the
    /// signature.
    pub fn count_params(&self) -> (count: usize)
        ensures
            count == self.params().len(),
            count == self.signature().arity(),
    {
        proof {
            use_type_invariant(self);
            use_type_invariant(self.value);
        }
        match &self.value.kind {
            Kind::Function { params, .. } => params.len(),
            _ => 0,
        }
    }

    /// The argument at position `index`. A position past the last argument
    /// is a defect of the caller.
    pub fn index(&self, index: usize) -> (arg: Arg<'a>)
        requires
            index < self.params().len(),
        ensures
            arg.widened() == self.params()[index as int],
    {
        proof {
            use_type_invariant(self);
            use_type_invariant(self.value);
        }
        match &self.value.kind {
            Kind::Function { params, .. } => Arg { value: &params[index] },
            _ => vstd::pervasive::unreached(),
        }
    }

    /// The blocks of this function, in order.
    pub fn blocks(&self) -> (blocks: &'a Vec<BasicBlock>)
        ensures
            blocks@ == self.block_seq(),
    {
        proof {
            use_type_invariant(self);
        }
        match &self.value.kind {
            Kind::Function { blocks, .. } => blocks,
            _ => vstd::pervasive::unreached(),
        }
    }

    /// The entry block of this function, or `None` if it has no block.
    pub fn get_entry(&self) -> (entry: Option<&'a BasicBlock>)
        ensures
            entry.is_some() == (self.block_seq().len() > 0),
            entry matches Some(block) ==> *block == self.block_seq()[0],
    {
        match &self.value.kind {
            Kind::Function { blocks, .. } => {
                if blocks.len() > 0 {
                    Some(&blocks[0])
                } else {
                    None
                }
            },
            _ => None,
        }
    }

    /// The signature of this function.
    pub fn get_signature(&self) -> (signature: &'a FunctionType)
        ensures
            *signature == self.signature(),
    {
        proof {
            use_type_invariant(self);
        }
        match &self.value.kind {
            Kind::Function { signature, .. } => signature,
            _ => vstd::pervasive::unreached(),
        }
    }

    /// The identity of the module that this function belongs to.
    pub fn get_module(&self) -> (module: u64)
        ensures
            module == self.module(),
    {
        match &self.value.kind {
            Kind::Function { module, .. } => *module,
            _ => 0,
        }
    }
}

/// Narrowing is sound: it succeeds exactly when the runtime kind predicate of
/// the narrower kind holds of the value, which is when the class of the
/// value's native kind is that kind or lies below it, and widening what it
/// gave leads back to the value that was narrowed.
pub proof fn law_downcast_sound<'a>(value: &'a Value, class: Class)
    requires
        value.valid(),
    ensures
        value.is_a(class) <==> Class::of(value.native()).is_within(class),
        Arg::narrowed(value).is_some() <==> value.is_a(Class::Arg),
        Arg::narrowed(value) matches Some(arg) ==> arg.widened() == *value,
        GlobalValue::narrowed(value).is_some() <==> value.is_a(Class::GlobalValue),
        GlobalValue::narrowed(value) matches Some(global) ==> {
            &&& global.widened() == *value
            &&& GlobalVariable::narrowed(global).is_some() <==> value.is_a(Class::GlobalVariable)
            &&& GlobalVariable::narrowed(global) matches Some(narrow) ==> narrow.widened()
                == global
            &&& Function::narrowed(global).is_some() <==> value.is_a(Class::Function)
            &&& Function::narrowed(global) matches Some(narrow) ==> narrow.widened() == global
            &&& Alias::narrowed(global).is_some() <==> value.is_a(Class::Alias)
            &&& Alias::narrowed(global) matches Some(narrow) ==> narrow.widened() == global
        },
{
}

/// The hierarchy is one chain per kind under a single root: every value is
/// an instance of the root, an instance of a class is an instance of its
/// superclass, and no value is an instance of two different leaf classes.
pub proof fn law_single_chain(kind: Kind, class: Class, other: Class)
    ensures
        kind.belongs_to(Class::Value),
        kind.belongs_to(class) && class.parent().is_some() ==> kind.belongs_to(
            class.parent().unwrap(),
        ),
        kind.belongs_to(class) && kind.belongs_to(other) && class.is_leaf() && other.is_leaf()
            ==> class == other,
{
}

} // verus!
