use llvm_rs::types::{FunctionShape, FunctionType, Scalar, Shape, Type};

fn shape(params: Vec<Scalar>, ret: Option<Scalar>) -> FunctionShape {
    FunctionShape { params, ret }
}

#[test]
fn scalar_shapes_map_to_their_descriptors() {
    assert_eq!(Type::scalar(Scalar::Bool), Type::Integer { bits: 1 });
    assert_eq!(Type::scalar(Scalar::I8), Type::Integer { bits: 8 });
    assert_eq!(Type::scalar(Scalar::U8), Type::Integer { bits: 8 });
    assert_eq!(Type::scalar(Scalar::I16), Type::Integer { bits: 16 });
    assert_eq!(Type::scalar(Scalar::U16), Type::Integer { bits: 16 });
    assert_eq!(Type::scalar(Scalar::I32), Type::Integer { bits: 32 });
    assert_eq!(Type::scalar(Scalar::U32), Type::Integer { bits: 32 });
    assert_eq!(Type::scalar(Scalar::I64), Type::Integer { bits: 64 });
    assert_eq!(Type::scalar(Scalar::U64), Type::Integer { bits: 64 });
    assert_eq!(Type::scalar(Scalar::F32), Type::Float);
    assert_eq!(Type::scalar(Scalar::F64), Type::Double);
}

#[test]
fn scalar_widths_and_kinds() {
    assert_eq!(Scalar::Bool.bit_width(), 1);
    assert_eq!(Scalar::F32.bit_width(), 32);
    assert_eq!(Scalar::U64.bit_width(), 64);
    assert!(Scalar::F64.float());
    assert!(!Scalar::U64.float());
    assert!(Scalar::I16.signed());
    assert!(!Scalar::U16.signed());
    assert!(!Scalar::F32.signed());
}

#[test]
fn result_shapes_map_to_their_descriptors() {
    assert_eq!(Type::result(None), Type::Void);
    assert_eq!(Type::result(Some(Scalar::U64)), Type::Integer { bits: 64 });
}

#[test]
fn function_shape_keeps_arity_and_order() {
    let binary = shape(vec![Scalar::F64, Scalar::U64, Scalar::Bool], Some(Scalar::F32));
    let ty = FunctionType::get(&binary);
    assert_eq!(ty.num_params(), 3);
    assert_eq!(ty.params, vec![Type::Double, Type::Integer { bits: 64 }, Type::Integer { bits: 1 }]);
    assert_eq!(*ty.ret, Type::Float);
    assert!(ty.matches(&binary));
}

#[test]
fn function_without_parameters_or_result() {
    let nothing = shape(vec![], None);
    let ty = FunctionType::get(&nothing);
    assert_eq!(ty.num_params(), 0);
    assert_eq!(*ty.ret, Type::Void);
    assert!(ty.matches(&nothing));
}

#[test]
fn function_type_rejects_other_shapes() {
    let ty = FunctionType::get(&shape(vec![Scalar::F64, Scalar::U64], Some(Scalar::F64)));
    assert!(!ty.matches(&shape(vec![Scalar::U64, Scalar::F64], Some(Scalar::F64))));
    assert!(!ty.matches(&shape(vec![Scalar::F64], Some(Scalar::F64))));
    assert!(!ty.matches(&shape(vec![Scalar::F64, Scalar::U64, Scalar::U64], Some(Scalar::F64))));
    assert!(!ty.matches(&shape(vec![Scalar::F64, Scalar::U64], Some(Scalar::F32))));
    assert!(!ty.matches(&shape(vec![Scalar::F64, Scalar::U64], None)));
    assert!(!ty.matches(&shape(vec![Scalar::F64, Scalar::U32], Some(Scalar::F64))));
}

#[test]
fn signedness_does_not_change_the_descriptor() {
    let signed = FunctionType::get(&shape(vec![Scalar::I64], Some(Scalar::I64)));
    assert!(signed.matches(&shape(vec![Scalar::U64], Some(Scalar::U64))));
}

#[test]
fn shapes_map_through_get() {
    assert_eq!(Type::get(&Shape::Scalar(Scalar::F64)), Type::Double);
    let fib = shape(vec![Scalar::U64], Some(Scalar::U64));
    let expected = FunctionType {
        params: vec![Type::Integer { bits: 64 }],
        ret: Box::new(Type::Integer { bits: 64 }),
    };
    assert_eq!(Type::get(&Shape::Function(fib)), Type::Function(expected));
}

#[test]
fn descriptors_answer_for_their_shape() {
    assert!(Type::Double.is_scalar(Scalar::F64));
    assert!(!Type::Double.is_scalar(Scalar::F32));
    assert!(Type::Integer { bits: 32 }.is_scalar(Scalar::I32));
    assert!(Type::Integer { bits: 32 }.is_scalar(Scalar::U32));
    assert!(!Type::Integer { bits: 32 }.is_scalar(Scalar::F32));
    assert!(!Type::Integer { bits: 7 }.is_scalar(Scalar::U8));
    assert!(!Type::Void.is_scalar(Scalar::Bool));
    assert!(!Type::Opaque.is_scalar(Scalar::Bool));
    assert!(!Type::Pointer(Box::new(Type::Double)).is_scalar(Scalar::F64));
    assert!(Type::Void.is_result(None));
    assert!(!Type::Void.is_result(Some(Scalar::Bool)));
    assert!(!Type::Double.is_result(None));
    assert!(Type::Double.is_result(Some(Scalar::F64)));
    assert!(!Type::Double.function());
    assert!(Type::get(&Shape::Function(shape(vec![], None))).function());
}
