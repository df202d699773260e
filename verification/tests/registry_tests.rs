use exprjit::error::RegistryError;
use exprjit::kind::{CallConv, Kind, Signature};
use exprjit::native_opcall::NativeOpCall;
use exprjit::registry::{NativeOpCallRegistry, NativeOperation};

fn op(name: &str, params: Vec<Kind>, rets: Vec<Kind>, address: usize) -> NativeOperation {
    NativeOperation {
        name: name.to_owned(),
        sig: Signature { params, returns: rets, call_conv: CallConv::Fast },
        address,
    }
}

#[test]
fn register_then_resolve_returns_registered_entry() {
    let mut registry = NativeOpCallRegistry::new();
    registry
        .register(op("Float64AddWrapping", vec![Kind::F64, Kind::F64], vec![Kind::F64], 0x1000))
        .unwrap();
    registry
        .register(op("Float64Lt", vec![Kind::F64, Kind::F64], vec![Kind::I8], 0x2000))
        .unwrap();

    let found = registry.resolve(&"Float64AddWrapping".to_owned()).unwrap();
    assert_eq!(found.address, 0x1000);
    assert_eq!(found.sig.params, vec![Kind::F64, Kind::F64]);
    assert_eq!(found.sig.returns, vec![Kind::F64]);

    let found = registry.resolve(&"Float64Lt".to_owned()).unwrap();
    assert_eq!(found.address, 0x2000);
    assert_eq!(found.sig.returns, vec![Kind::I8]);
}

#[test]
fn duplicate_registration_fails_and_keeps_first_entry() {
    let mut registry = NativeOpCallRegistry::new();
    registry.register(op("round", vec![Kind::F64], vec![Kind::F64], 7)).unwrap();
    let second = registry.register(op("round", vec![Kind::F64], vec![Kind::F64], 8));
    match second {
        Err(RegistryError::DuplicateOperation(name)) => assert_eq!(name, "round"),
        other => panic!("expected DuplicateOperation, got {:?}", other),
    }
    assert_eq!(registry.resolve(&"round".to_owned()).unwrap().address, 7);
    assert_eq!(registry.len(), 1);
}

#[test]
fn unknown_operation_resolution_fails() {
    let mut registry = NativeOpCallRegistry::new();
    registry.register(op("known", vec![], vec![Kind::I64], 1)).unwrap();
    match registry.resolve(&"unknown".to_owned()) {
        Err(RegistryError::UnknownOperation(name)) => assert_eq!(name, "unknown"),
        other => panic!("expected UnknownOperation, got {:?}", other),
    }
}

#[test]
fn enumerate_keeps_registration_order() {
    let mut registry = NativeOpCallRegistry::new();
    registry.register(op("first", vec![], vec![Kind::I64], 1)).unwrap();
    registry.register(op("second", vec![], vec![Kind::I64], 2)).unwrap();
    registry.register(op("third", vec![], vec![Kind::I64], 3)).unwrap();
    let names: Vec<String> = registry.enumerate().iter().map(|e| e.name.clone()).collect();
    assert_eq!(names, vec!["first".to_owned(), "second".to_owned(), "third".to_owned()]);
}

#[test]
fn standard_opcalls_have_binary_signatures() {
    for opcall in NativeOpCall::all_opcalls() {
        let sig = opcall.signature();
        assert_eq!(sig.params, vec![Kind::F64, Kind::F64]);
        assert_eq!(sig.returns.len(), 1);
    }
    assert_eq!(NativeOpCall::Float64AddWrapping.signature().returns, vec![Kind::F64]);
    assert_eq!(NativeOpCall::Float64DivWrapping.signature().returns, vec![Kind::F64]);
    assert_eq!(NativeOpCall::Float64Lt.signature().returns, vec![Kind::I8]);
    assert_eq!(NativeOpCall::Float64AddWrapping.name(), "Float64AddWrapping");
    assert_eq!(NativeOpCall::Float64DivWrapping.name(), "Float64DivWrapping");
    assert_eq!(NativeOpCall::Float64Lt.name(), "Float64Lt");
}

#[test]
fn kind_widths_and_lanes() {
    assert_eq!(Kind::I8.bytes(), 1);
    assert_eq!(Kind::I32.bytes(), 4);
    assert_eq!(Kind::I64.bytes(), 8);
    assert_eq!(Kind::F64.bytes(), 8);
    assert_eq!(Kind::Ptr.bytes(), 8);
    assert_eq!(Kind::F64X2.bytes(), 16);
    assert_eq!(Kind::I8X2.bytes(), 2);
    assert_eq!(Kind::F64X2.lanes(), 2);
    assert_eq!(Kind::F64.lanes(), 1);
    assert_eq!(Kind::F64.cmp_result(), Kind::I8);
    assert_eq!(Kind::F64X2.cmp_result(), Kind::I8X2);
}
