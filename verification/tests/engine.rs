use llvm_rs::block::BasicBlock;
use llvm_rs::engine::{EngineError, EngineState, ExecutionEngine, JitOptions, Trampoline};
use llvm_rs::module::Module;
use llvm_rs::ownership::CSemiBox;
use llvm_rs::types::{FunctionShape, FunctionType, Scalar, Type};
use llvm_sys::LLVMValueKind;
use llvm_rs::value::{Function, Global, GlobalValue, Kind, Linkage, Value};

const SIMPLE: u64 = 100;
const FIB: u64 = 10;

fn module(handle: u64, name: &str) -> Module {
    Module { handle, name: name.to_string() }
}

fn engine(opt_level: usize) -> ExecutionEngine {
    ExecutionEngine::new(JitOptions { opt_level }, Ok(())).unwrap()
}

fn fib_shape() -> FunctionShape {
    FunctionShape { params: vec![Scalar::U64], ret: Some(Scalar::U64) }
}

fn fib_value(module: u64) -> Value {
    let kind = Kind::Function {
        global: Global { linkage: Linkage::External, declaration: false },
        signature: FunctionType::get(&fib_shape()),
        params: vec![Value::new(
            11,
            None,
            Type::Integer { bits: 64 },
            LLVMValueKind::LLVMArgumentValueKind,
            Kind::Argument,
        )
        .unwrap()],
        blocks: vec![BasicBlock { handle: 21, name: Some("entry".to_string()) }],
        module,
    };
    Value::new(FIB, Some("fib".to_string()), Type::Opaque, LLVMValueKind::LLVMFunctionValueKind, kind).unwrap()
}

fn fib(n: u64) -> u64 {
    if n < 2 {
        n
    } else {
        fib(n - 1) + fib(n - 2)
    }
}

fn call(trampoline: Trampoline, input: u64) -> u64 {
    assert_eq!(trampoline, Trampoline { function: FIB, module: SIMPLE });
    fib(input)
}

#[test]
fn engine_is_created_without_modules() {
    let engine = engine(3);
    assert_eq!(engine.get_state(), EngineState::Created);
    assert_eq!(engine.count_modules(), 0);
    assert_eq!(engine.get_opt_level(), 3);
    assert!(!engine.has_module(SIMPLE));
}

#[test]
fn engine_without_a_backend_is_an_error() {
    let made = ExecutionEngine::new(JitOptions { opt_level: 0 }, Err("no backend".to_string()));
    match made {
        Err(EngineError::NoTarget { message }) => assert_eq!(message, "no backend"),
        other => panic!("expected a missing target, got {:?}", other),
    }
}

#[test]
fn adding_a_module_makes_the_engine_active() {
    let mut engine = engine(0);
    assert!(engine.add_module(module(SIMPLE, "simple"), Ok(())).is_ok());
    assert_eq!(engine.get_state(), EngineState::Active);
    assert_eq!(engine.count_modules(), 1);
    assert!(engine.has_module(SIMPLE));
    assert!(!engine.has_module(SIMPLE + 1));
    assert_eq!(engine.get_opt_level(), 0);
}

#[test]
fn a_module_that_fails_verification_is_handed_back() {
    let mut engine = engine(0);
    let added = engine.add_module(module(SIMPLE, "simple"), Err("broken block".to_string()));
    match added {
        Err(EngineError::InvalidModule { module, message }) => {
            assert_eq!(module.handle, SIMPLE);
            assert_eq!(module.name, "simple");
            assert_eq!(message, "broken block");
        },
        other => panic!("expected an invalid module, got {:?}", other),
    }
    assert_eq!(engine.get_state(), EngineState::Created);
    assert!(!engine.has_module(SIMPLE));
}

#[test]
fn fib_round_trip() {
    let mut first = engine(0);
    let mut boxed = CSemiBox::new(module(SIMPLE, "simple"));
    let value = fib_value(SIMPLE);
    let function = Function::from_super(GlobalValue::from_super(&value).unwrap()).unwrap();

    first.add_module(boxed.detach().unwrap(), Ok(())).unwrap();
    assert!(first.can_call(&function, &fib_shape()));
    let result = first.with_function(function, &fib_shape(), |trampoline| call(trampoline, 10));
    assert_eq!(result, 55);

    let back = first.remove_module(SIMPLE);
    assert_eq!(back.handle, SIMPLE);
    assert_eq!(back.name, "simple");
    assert_eq!(first.get_state(), EngineState::Created);
    assert!(!first.can_call(&function, &fib_shape()));

    let mut second = engine(0);
    assert!(second.add_module(back, Ok(())).is_ok());
    assert!(second.can_call(&function, &fib_shape()));
    let again = second.with_function(function, &fib_shape(), |trampoline| call(trampoline, 10));
    assert_eq!(again, 55);
    assert!(boxed.dispose().is_none());
}

#[test]
fn module_never_added_is_not_there_to_remove() {
    let mut engine = engine(0);
    assert!(!engine.has_module(SIMPLE));
    engine.add_module(module(7, "other"), Ok(())).unwrap();
    assert!(!engine.has_module(SIMPLE));
    assert!(engine.has_module(7));
}

#[test]
fn function_of_another_module_cannot_be_called() {
    let mut engine = engine(0);
    engine.add_module(module(SIMPLE, "simple"), Ok(())).unwrap();
    let value = fib_value(SIMPLE + 1);
    let function = Function::from_super(GlobalValue::from_super(&value).unwrap()).unwrap();
    assert!(!engine.can_call(&function, &fib_shape()));
}

#[test]
fn witness_of_another_shape_cannot_be_used() {
    let mut engine = engine(0);
    engine.add_module(module(SIMPLE, "simple"), Ok(())).unwrap();
    let value = fib_value(SIMPLE);
    let function = Function::from_super(GlobalValue::from_super(&value).unwrap()).unwrap();
    let float = FunctionShape { params: vec![Scalar::F64], ret: Some(Scalar::F64) };
    let binary = FunctionShape { params: vec![Scalar::U64, Scalar::U64], ret: Some(Scalar::U64) };
    let unit = FunctionShape { params: vec![Scalar::U64], ret: None };
    assert!(!engine.can_call(&function, &float));
    assert!(!engine.can_call(&function, &binary));
    assert!(!engine.can_call(&function, &unit));
    assert!(engine.can_call(&function, &fib_shape()));
}

#[test]
fn removing_takes_the_first_module_of_that_identity() {
    let mut engine = engine(0);
    engine.add_module(module(1, "a"), Ok(())).unwrap();
    engine.add_module(module(2, "b"), Ok(())).unwrap();
    engine.add_module(module(1, "c"), Ok(())).unwrap();
    assert_eq!(engine.remove_module(1).name, "a");
    assert_eq!(engine.count_modules(), 2);
    assert_eq!(engine.remove_module(1).name, "c");
    assert!(!engine.has_module(1));
    assert_eq!(engine.remove_module(2).name, "b");
    assert_eq!(engine.get_state(), EngineState::Created);
}

#[test]
fn disposal_releases_the_modules_still_added() {
    let mut engine = engine(2);
    engine.add_module(module(1, "a"), Ok(())).unwrap();
    engine.add_module(module(2, "b"), Ok(())).unwrap();
    engine.add_module(module(3, "c"), Ok(())).unwrap();
    engine.remove_module(2);
    let released: Vec<u64> = engine.dispose().iter().map(|module| module.handle).collect();
    assert_eq!(released, vec![1, 3]);
    assert_eq!(engine.get_state(), EngineState::Disposed);
    assert_eq!(engine.count_modules(), 0);
    assert!(!engine.has_module(1));
    assert_eq!(engine.get_opt_level(), 2);
}
