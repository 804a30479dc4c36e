//! Compiling native scalar values into constants.
//!
//! A native value of a scalar shape becomes a [`Constant`]: the shape, which
//! fixes the type of the constant, and the 64 bits that are handed to the
//! native side to build it. Floating-point values travel as their bits.

use vstd::prelude::*;
use crate::types::{Scalar, Type};

verus! {

/// A native value of one of the scalar shapes.
#[derive(Clone, Copy, Debug, PartialEq, Eq, Structural)]
pub enum Native {
    Bool(bool),
    I8(i8),
    I16(i16),
    I32(i32),
    I64(i64),
    U8(u8),
    U16(u16),
    U32(u32),
    U64(u64),
    /// A 32-bit float, by its bits.
    F32(u32),
    /// A 64-bit float, by its bits.
    F64(u64),
}

impl Native {
    /// The shape of the value.
    pub open spec fn shape(self) -> Scalar {
        match self {
            Native::Bool(_) => Scalar::Bool,
            Native::I8(_) => Scalar::I8,
            Native::I16(_) => Scalar::I16,
            Native::I32(_) => Scalar::I32,
            Native::I64(_) => Scalar::I64,
            Native::U8(_) => Scalar::U8,
            Native::U16(_) => Scalar::U16,
            Native::U32(_) => Scalar::U32,
            Native::U64(_) => Scalar::U64,
            Native::F32(_) => Scalar::F32,
            Native::F64(_) => Scalar::F64,
        }
    }

    /// The 64 bits that stand for the value: an unsigned value as it is, a
    /// signed one in two's complement extended to 64 bits, a truth value as
    /// 1 or 0, a float as its bits.
    pub open spec fn payload(self) -> u64 {
        match self {
            Native::Bool(b) => if b { 1 } else { 0 },
            Native::I8(n) => n as u64,
            Native::I16(n) => n as u64,
            Native::I32(n) => n as u64,
            Native::I64(n) => n as u64,
            Native::U8(n) => n as u64,
            Native::U16(n) => n as u64,
            Native::U32(n) => n as u64,
            Native::U64(n) => n,
            Native::F32(bits) => bits as u64,
            Native::F64(bits) => bits,
        }
    }

    /// The shape of the value.
    pub fn get_shape(self) -> (shape: Scalar)
        ensures
            shape == self.shape(),
    {
        match self {
            Native::Bool(_) => Scalar::Bool,
            Native::I8(_) => Scalar::I8,
            Native::I16(_) => Scalar::I16,
            Native::I32(_) => Scalar::I32,
            Native::I64(_) => Scalar::I64,
            Native::U8(_) => Scalar::U8,
            Native::U16(_) => Scalar::U16,
            Native::U32(_) => Scalar::U32,
            Native::U64(_) => Scalar::U64,
            Native::F32(_) => Scalar::F32,
            Native::F64(_) => Scalar::F64,
        }
    }

    /// Compiles the value into the constant of its shape.
    pub fn compile(self) -> (constant: Constant)
        ensures
            constant.shape() == self.shape(),
            constant.bits() == self.payload(),
            constant.ty() == Type::of_scalar(self.shape()),
    {
        let bits: u64 = match self {
            Native::Bool(b) => if b { 1 } else { 0 },
            Native::I8(n) => #[verifier::truncate] (n as u64),
            Native::I16(n) => #[verifier::truncate] (n as u64),
            Native::I32(n) => #[verifier::truncate] (n as u64),
            Native::I64(n) => #[verifier::truncate] (n as u64),
            Native::U8(n) => n as u64,
            Native::U16(n) => n as u64,
            Native::U32(n) => n as u64,
            Native::U64(n) => n,
            Native::F32(bits) => bits as u64,
            Native::F64(bits) => bits,
        };
        Constant { shape: self.get_shape(), bits }
    }
}

/// A constant to be built on the native side: its shape and its bits.
#[derive(Clone, Copy, Debug, PartialEq, Eq)]
pub struct Constant {
    shape: Scalar,
    bits: u64,
}

impl Constant {
    /// The shape that the constant was compiled from.
    pub closed spec fn shape(self) -> Scalar {
        self.shape
    }

    /// The bits of the constant.
    pub closed spec fn bits(self) -> u64 {
        self.bits
    }

    /// The type of the constant: the descriptor of its shape.
    pub open spec fn ty(self) -> Type {
        Type::of_scalar(self.shape())
    }

    /// The native value that the constant stands for: the low bits of the
    /// constant, as many as the shape is wide, read as a value of the shape.
    pub open spec fn value(self) -> Native {
        match self.shape() {
            Scalar::Bool => Native::Bool(self.bits() & 1 == 1),
            Scalar::I8 => Native::I8(self.bits() as i8),
            Scalar::I16 => Native::I16(self.bits() as i16),
            Scalar::I32 => Native::I32(self.bits() as i32),
            Scalar::I64 => Native::I64(self.bits() as i64),
            Scalar::U8 => Native::U8(self.bits() as u8),
            Scalar::U16 => Native::U16(self.bits() as u16),
            Scalar::U32 => Native::U32(self.bits() as u32),
            Scalar::U64 => Native::U64(self.bits()),
            Scalar::F32 => Native::F32(self.bits() as u32),
            Scalar::F64 => Native::F64(self.bits()),
        }
    }

    /// The shape that the constant was compiled from.
    pub fn get_shape(&self) -> (shape: Scalar)
        ensures
            shape == self.shape(),
    {
        self.shape
    }

    /// The bits to hand to the native side.
    pub fn get_bits(&self) -> (bits: u64)
        ensures
            bits == self.bits(),
    {
        self.bits
    }

    /// The type of the constant.
    pub fn get_type(&self) -> (ty: Type)
        ensures
            ty == self.ty(),
    {
        Type::scalar(self.shape)
    }

    /// Whether the native side is to read the bits as a signed number.
    pub fn sign_extend(&self) -> (flag: bool)
        ensures
            flag == self.shape().is_signed(),
    {
        self.shape.signed()
    }

    /// Reads the constant back as a native value.
    pub fn read_back(&self) -> (native: Native)
        ensures
            native == self.value(),
            native.shape() == self.shape(),
    {
        let bits = self.bits;
        match self.shape {
            Scalar::Bool => Native::Bool(bits & 1 == 1),
            Scalar::I8 => Native::I8(#[verifier::truncate] (bits as i8)),
            Scalar::I16 => Native::I16(#[verifier::truncate] (bits as i16)),
            Scalar::I32 => Native::I32(#[verifier::truncate] (bits as i32)),
            Scalar::I64 => Native::I64(#[verifier::truncate] (bits as i64)),
            Scalar::U8 => Native::U8(#[verifier::truncate] (bits as u8)),
            Scalar::U16 => Native::U16(#[verifier::truncate] (bits as u16)),
            Scalar::U32 => Native::U32(#[verifier::truncate] (bits as u32)),
            Scalar::U64 => Native::U64(bits),
            Scalar::F32 => Native::F32(#[verifier::truncate] (bits as u32)),
            Scalar::F64 => Native::F64(bits),
        }
    }
}

/// A compiled constant reports the shape it was compiled from, its type is
/// the descriptor of that shape, and reading it back gives the value that
/// was compiled.
pub proof fn law_constant_round_trip(native: Native, constant: Constant)
    requires
        constant.shape() == native.shape(),
        constant.bits() == native.payload(),
    ensures
        constant.ty() == Type::of_scalar(native.shape()),
        constant.value().shape() == native.shape(),
        constant.value() == native,
{
    match native {
        Native::Bool(b) => {
            assert(1u64 & 1 == 1) by (bit_vector);
            assert(0u64 & 1 == 0) by (bit_vector);
        },
        Native::I8(n) => {
            assert((n as u64) as i8 == n) by (bit_vector);
        },
        Native::I16(n) => {
            assert((n as u64) as i16 == n) by (bit_vector);
        },
        Native::I32(n) => {
            assert((n as u64) as i32 == n) by (bit_vector);
        },
        Native::I64(n) => {
            assert((n as u64) as i64 == n) by (bit_vector);
        },
        Native::U8(n) => {
            assert((n as u64) as u8 == n) by (bit_vector);
        },
        Native::U16(n) => {
            assert((n as u64) as u16 == n) by (bit_vector);
        },
        Native::U32(n) => {
            assert((n as u64) as u32 == n) by (bit_vector);
        },
        Native::U64(_) => {},
        Native::F32(bits) => {
            assert((bits as u64) as u32 == bits) by (bit_vector);
        },
        Native::F64(_) => {},
    }
}

} // verus!
