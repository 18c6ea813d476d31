use wasm_instance::error::HostEnvInitError;
use wasm_instance::error::RuntimeError;
use wasm_instance::error::TrapCode;
use wasm_instance::exports::Exports;
use wasm_instance::externals::Extern;
use wasm_instance::externals::Global;
use wasm_instance::module::ExportType;
use wasm_instance::module::ImportType;
use wasm_instance::module::Module;
use wasm_instance::module::NativeExport;
use wasm_instance::module::Store;
use wasm_instance::types::ExternType;
use wasm_instance::types::FunctionType;
use wasm_instance::types::GlobalType;
use wasm_instance::types::MemoryType;
use wasm_instance::types::TableType;
use wasm_instance::types::ValType;
use wasm_instance::types::Value;
use wasm_instance::InstantiationError;

#[test]
fn value_types() {
    assert_eq!(Value::I32(3).ty(), ValType::I32);
    assert_eq!(Value::I64(-1).ty(), ValType::I64);
    assert_eq!(Value::FuncRef(None).ty(), ValType::FuncRef);
    assert_eq!(Value::ExternRef(Some(4)).ty(), ValType::ExternRef);
}

#[test]
fn extern_type_equality() {
    let f1 = ExternType::Function(FunctionType::new(vec![ValType::I32], vec![ValType::I32]));
    let f2 = ExternType::Function(FunctionType::new(vec![ValType::I32], vec![ValType::I32]));
    let f3 = ExternType::Function(FunctionType::new(vec![ValType::I64], vec![ValType::I32]));
    assert!(f1.same_as(&f2));
    assert!(!f1.same_as(&f3));

    let m1 = ExternType::Memory(MemoryType {
        minimum: 1,
        maximum: Some(4),
        shared: false,
    });
    let m2 = ExternType::Memory(MemoryType {
        minimum: 1,
        maximum: None,
        shared: false,
    });
    assert!(m1.same_as(&m1.clone()));
    assert!(!m1.same_as(&m2));
    assert!(!f1.same_as(&m1));

    let t1 = ExternType::Table(TableType {
        element: ValType::FuncRef,
        minimum: 0,
        maximum: None,
    });
    assert!(t1.same_as(&t1.clone()));

    let g1 = ExternType::Global(GlobalType {
        ty: ValType::I32,
        mutability: true,
    });
    let g2 = ExternType::Global(GlobalType {
        ty: ValType::I32,
        mutability: false,
    });
    assert!(!g1.same_as(&g2));
}

#[test]
fn global_set_respects_mutability_and_type() {
    let mut g = Global::new(1, Value::I32(10), true);
    assert!(g.set(Value::I32(11)).is_ok());
    assert_eq!(g.value, Value::I32(11));
    let err = g.set(Value::I64(0)).expect_err("type mismatch");
    assert_eq!(err.code, TrapCode::BadValueType);
    assert_eq!(g.value, Value::I32(11));

    let mut frozen = Global::new(2, Value::I32(0), false);
    let err = frozen.set(Value::I32(1)).expect_err("immutable");
    assert_eq!(err.code, TrapCode::ImmutableGlobalWrite);
    assert_eq!(frozen.value, Value::I32(0));
}

#[test]
fn module_validation_rejects_duplicate_export_names() {
    let module = Module::new(
        Store::new(1),
        vec![],
        vec![
            ExportType::new("a".to_string(), ExternType::Function(FunctionType::new(vec![], vec![]))),
            ExportType::new("a".to_string(), ExternType::Function(FunctionType::new(vec![], vec![]))),
        ],
        None,
        vec![
            NativeExport::Function { handle: 1 },
            NativeExport::Function { handle: 2 },
        ],
        1,
    );
    assert!(module.is_none());
}

#[test]
fn module_validation_rejects_kind_mismatches() {
    let module = Module::new(
        Store::new(1),
        vec![],
        vec![ExportType::new(
            "a".to_string(),
            ExternType::Memory(MemoryType {
                minimum: 1,
                maximum: None,
                shared: false,
            }),
        )],
        None,
        vec![NativeExport::Function { handle: 1 }],
        1,
    );
    assert!(module.is_none());

    let missing = Module::new(
        Store::new(1),
        vec![],
        vec![ExportType::new(
            "a".to_string(),
            ExternType::Function(FunctionType::new(vec![], vec![])),
        )],
        None,
        vec![],
        1,
    );
    assert!(missing.is_none());

    let value_mismatch = Module::new(
        Store::new(1),
        vec![],
        vec![ExportType::new(
            "g".to_string(),
            ExternType::Global(GlobalType {
                ty: ValType::I64,
                mutability: false,
            }),
        )],
        None,
        vec![NativeExport::Global {
            handle: 1,
            value: Value::I32(0),
        }],
        1,
    );
    assert!(value_mismatch.is_none());
}

#[test]
fn exports_lookup_and_update() {
    let mut exports = Exports::new();
    assert_eq!(exports.len(), 0);
    assert!(exports.get("g").is_none());
    exports.insert("g".to_string(), Extern::Global(Global::new(1, Value::I32(2), true)));
    exports.insert(
        "frozen".to_string(),
        Extern::Global(Global::new(2, Value::I32(3), false)),
    );
    assert_eq!(exports.len(), 2);

    assert!(exports.set_global("g", Value::I32(9)));
    match exports.get("g") {
        Some(Extern::Global(g)) => assert_eq!(g.value, Value::I32(9)),
        other => panic!("expected a global, got {:?}", other),
    }
    // immutable, absent, and ill-typed writes all fail and change
    // nothing
    assert!(!exports.set_global("frozen", Value::I32(1)));
    assert!(!exports.set_global("missing", Value::I32(1)));
    assert!(!exports.set_global("g", Value::I64(1)));
    match exports.get("frozen") {
        Some(Extern::Global(g)) => assert_eq!(g.value, Value::I32(3)),
        other => panic!("expected a global, got {:?}", other),
    }
}

#[test]
fn error_messages() {
    assert_eq!(
        RuntimeError::new(TrapCode::IntegerDivisionByZero, None).message(),
        "integer division by zero"
    );
    assert_eq!(
        RuntimeError::new(TrapCode::StackOverflow, Some(9)).message(),
        "call stack exhausted"
    );
    assert_eq!(
        InstantiationError::Link("cannot find import env.add_one".to_string()).message(),
        "Link error: cannot find import env.add_one"
    );
    assert_eq!(
        InstantiationError::Start(RuntimeError::new(TrapCode::MemoryOutOfBounds, None)).message(),
        "out of bounds memory access"
    );
    assert_eq!(
        InstantiationError::HostEnvInitialization(HostEnvInitError {
            index: 0,
            handle: 1
        })
        .message(),
        "error while initializing the host environment"
    );
}

#[test]
fn import_and_export_descriptors() {
    let it = ImportType::new(
        "env".to_string(),
        "add_one".to_string(),
        ExternType::Function(FunctionType::new(vec![ValType::I32], vec![ValType::I32])),
    );
    assert_eq!(it.module, "env");
    assert_eq!(it.name, "add_one");
    let et = ExportType::new(
        "run".to_string(),
        ExternType::Function(FunctionType::new(vec![], vec![ValType::I32])),
    );
    assert_eq!(et.name, "run");
}
