//! Mapping from native shapes to the toolkit's type descriptors.
//!
//! The supported shapes are a closed list: the scalar shapes of [`Scalar`] and
//! function shapes built from them. Every shape has exactly one descriptor.

use vstd::prelude::*;

verus! {

/// A native scalar shape.
#[derive(Clone, Copy, Debug, PartialEq, Eq, Structural)]
pub enum Scalar {
    Bool,
    I8,
    I16,
    I32,
    I64,
    U8,
    U16,
    U32,
    U64,
    F32,
    F64,
}

impl Scalar {
    /// Whether the shape is a floating-point one.
    pub open spec fn is_float(self) -> bool {
        self == Scalar::F32 || self == Scalar::F64
    }

    /// Whether the shape is a signed integer.
    pub open spec fn is_signed(self) -> bool {
        self == Scalar::I8 || self == Scalar::I16 || self == Scalar::I32 || self == Scalar::I64
    }

    /// The number of bits a value of this shape occupies.
    pub open spec fn width(self) -> u32 {
        match self {
            Scalar::Bool => 1,
            Scalar::I8 | Scalar::U8 => 8,
            Scalar::I16 | Scalar::U16 => 16,
            Scalar::I32 | Scalar::U32 | Scalar::F32 => 32,
            Scalar::I64 | Scalar::U64 | Scalar::F64 => 64,
        }
    }

    /// Whether the shape is a floating-point one.
    pub fn float(self) -> (flag: bool)
        ensures
            flag == self.is_float(),
    {
        match self {
            Scalar::F32 | Scalar::F64 => true,
            _ => false,
        }
    }

    /// Whether the shape is a signed integer.
    pub fn signed(self) -> (flag: bool)
        ensures
            flag == self.is_signed(),
    {
        match self {
            Scalar::I8 | Scalar::I16 | Scalar::I32 | Scalar::I64 => true,
            _ => false,
        }
    }

    /// The number of bits a value of this shape occupies.
    pub fn bit_width(self) -> (bits: u32)
        ensures
            bits == self.width(),
    {
        match self {
            Scalar::Bool => 1,
            Scalar::I8 | Scalar::U8 => 8,
            Scalar::I16 | Scalar::U16 => 16,
            Scalar::I32 | Scalar::U32 | Scalar::F32 => 32,
            Scalar::I64 | Scalar::U64 | Scalar::F64 => 64,
        }
    }
}

/// A native function shape: ordered parameter shapes and a result shape,
/// `None` for a function that returns nothing.
#[derive(Clone, Debug, PartialEq, Eq)]
pub struct FunctionShape {
    pub params: Vec<Scalar>,
    pub ret: Option<Scalar>,
}

/// A native shape the layer can map.
#[derive(Clone, Debug, PartialEq, Eq)]
pub enum Shape {
    Scalar(Scalar),
    Function(FunctionShape),
}

/// A descriptor of one of the toolkit's types.
#[derive(Debug, PartialEq, Eq)]
pub enum Type {
    Void,
    Integer { bits: u32 },
    Float,
    Double,
    Pointer(Box<Type>),
    Function(FunctionType),
    /// A type this layer carries but does not describe further.
    Opaque,
}

/// A descriptor of a function type: ordered parameter types and a result.
#[derive(Debug, PartialEq, Eq)]
pub struct FunctionType {
    pub params: Vec<Type>,
    pub ret: Box<Type>,
}

impl Type {
    /// The descriptor of a scalar shape.
    pub open spec fn of_scalar(shape: Scalar) -> Type {
        match shape {
            Scalar::F32 => Type::Float,
            Scalar::F64 => Type::Double,
            _ => Type::Integer { bits: shape.width() },
        }
    }

    /// The descriptor of a function's result shape.
    pub open spec fn of_result(ret: Option<Scalar>) -> Type {
        match ret {
            Some(shape) => Type::of_scalar(shape),
            None => Type::Void,
        }
    }

    /// Whether this descriptor is the one that `shape` maps to.
    pub open spec fn maps(&self, shape: Shape) -> bool {
        match shape {
            Shape::Scalar(scalar) => *self == Type::of_scalar(scalar),
            Shape::Function(function) => *self matches Type::Function(ty) && ty.describes(
                function,
            ),
        }
    }

    /// Whether this descriptor is a function type.
    pub open spec fn is_function(&self) -> bool {
        *self is Function
    }

    /// The descriptor of a scalar shape.
    pub fn scalar(shape: Scalar) -> (ty: Type)
        ensures
            ty == Type::of_scalar(shape),
    {
        match shape {
            Scalar::F32 => Type::Float,
            Scalar::F64 => Type::Double,
            _ => Type::Integer { bits: shape.bit_width() },
        }
    }

    /// The descriptor of a function's result shape.
    pub fn result(ret: Option<Scalar>) -> (ty: Type)
        ensures
            ty == Type::of_result(ret),
    {
        match ret {
            Some(shape) => Type::scalar(shape),
            None => Type::Void,
        }
    }

    /// Maps a native shape to its descriptor. Every supported shape has one.
    pub fn get(shape: &Shape) -> (ty: Type)
        ensures
            ty.maps(*shape),
    {
        match shape {
            Shape::Scalar(scalar) => Type::scalar(*scalar),
            Shape::Function(function) => Type::Function(FunctionType::get(function)),
        }
    }

    /// Whether this descriptor is the one of the scalar shape `shape`.
    pub fn is_scalar(&self, shape: Scalar) -> (same: bool)
        ensures
            same == (*self == Type::of_scalar(shape)),
    {
        match self {
            Type::Float => shape == Scalar::F32,
            Type::Double => shape == Scalar::F64,
            Type::Integer { bits } => !shape.float() && *bits == shape.bit_width(),
            _ => false,
        }
    }

    /// Whether this descriptor is the one of the result shape `ret`.
    pub fn is_result(&self, ret: Option<Scalar>) -> (same: bool)
        ensures
            same == (*self == Type::of_result(ret)),
    {
        match ret {
            Some(shape) => self.is_scalar(shape),
            None => {
                match self {
                    Type::Void => true,
                    _ => false,
                }
            },
        }
    }

    /// Whether this descriptor is a function type.
    pub fn function(&self) -> (flag: bool)
        ensures
            flag == self.is_function(),
    {
        match self {
            Type::Function(_) => true,
            _ => false,
        }
    }
}

impl FunctionType {
    /// The number of parameters.
    pub open spec fn arity(&self) -> nat {
        self.params@.len()
    }

    /// Whether this function type is the one that `shape` maps to: the same
    /// number of parameters, each parameter the descriptor of the shape at
    /// its position, and the result the descriptor of the result shape.
    pub open spec fn describes(&self, shape: FunctionShape) -> bool {
        &&& self.params@.len() == shape.params@.len()
        &&& forall|i: int|
            0 <= i < shape.params@.len() ==> #[trigger] self.params@[i] == Type::of_scalar(
                shape.params@[i],
            )
        &&& *self.ret == Type::of_result(shape.ret)
    }

    /// Maps a native function shape to its function type.
    pub fn get(shape: &FunctionShape) -> (ty: FunctionType)
        ensures
            ty.describes(*shape),
    {
        let mut params: Vec<Type> = Vec::new();
        let mut i: usize = 0;
        while i < shape.params.len()
            invariant
                i <= shape.params@.len(),
                params@.len() == i,
                forall|j: int|
                    0 <= j < i ==> #[trigger] params@[j] == Type::of_scalar(shape.params@[j]),
            decreases shape.params@.len() - i,
        {
            params.push(Type::scalar(shape.params[i]));
            i = i + 1;
        }
        FunctionType { params, ret: Box::new(Type::result(shape.ret)) }
    }

    /// Whether this function type is the one that `shape` maps to.
    pub fn matches(&self, shape: &FunctionShape) -> (same: bool)
        ensures
            same == self.describes(*shape),
    {
        if self.params.len() != shape.params.len() {
            return false;
        }
        let mut i: usize = 0;
        while i < shape.params.len()
            invariant
                i <= shape.params@.len(),
                self.params@.len() == shape.params@.len(),
                forall|j: int|
                    0 <= j < i ==> #[trigger] self.params@[j] == Type::of_scalar(
                        shape.params@[j],
                    ),
            decreases shape.params@.len() - i,
        {
            if !self.params[i].is_scalar(shape.params[i]) {
                return false;
            }
            i = i + 1;
        }
        self.ret.is_result(shape.ret)
    }

    /// The number of parameters.
    pub fn num_params(&self) -> (count: usize)
        ensures
            count == self.arity(),
    {
        self.params.len()
    }
}

/// The descriptor of a function shape keeps the number and the order of the
/// parameters: position by position it holds the descriptor of that
/// parameter's shape, and its result is the descriptor of the result shape.
pub proof fn law_signature_fidelity(ty: FunctionType, shape: FunctionShape, position: int)
    requires
        ty.describes(shape),
        0 <= position < shape.params@.len(),
    ensures
        ty.arity() == shape.params@.len(),
        ty.params@[position] == Type::of_scalar(shape.params@[position]),
        *ty.ret == Type::of_result(shape.ret),
{
}

/// A shape has one descriptor only: two function types that both describe
/// the same shape have the same parameters and the same result.
pub proof fn law_mapping_unambiguous(first: FunctionType, second: FunctionType, shape: FunctionShape)
    requires
        first.describes(shape),
        second.describes(shape),
    ensures
        first.params@ == second.params@,
        *first.ret == *second.ret,
{
    assert(first.params@ =~= second.params@);
}

/// Scalar shapes of different width or kind have different descriptors, and
/// the descriptor of a scalar shape is never a function type.
pub proof fn law_scalar_descriptors(a: Scalar, b: Scalar)
    ensures
        !Type::of_scalar(a).is_function(),
        Type::of_scalar(a) == Type::of_scalar(b) <==> (a.width() == b.width() && a.is_float()
            == b.is_float()),
{
}

} // verus!
