use wasm_instance::error::RuntimeError;
use wasm_instance::error::TrapCode;
use wasm_instance::externals::Extern;
use wasm_instance::externals::Function;
use wasm_instance::externals::FunctionEnv;
use wasm_instance::externals::Global;
use wasm_instance::instance::init_host_envs;
use wasm_instance::instance::Instance;
use wasm_instance::module::ExportType;
use wasm_instance::module::ImportType;
use wasm_instance::module::Module;
use wasm_instance::module::NativeExport;
use wasm_instance::module::Store;
use wasm_instance::resolver::Resolver;
use wasm_instance::types::ExternType;
use wasm_instance::types::FunctionType;
use wasm_instance::types::ValType;
use wasm_instance::types::Value;
use wasm_instance::InstantiationError;

fn i32_to_i32() -> FunctionType {
    FunctionType::new(vec![ValType::I32], vec![ValType::I32])
}

fn nullary_to_i32() -> FunctionType {
    FunctionType::new(vec![], vec![ValType::I32])
}

/// A module importing `(env, add_one : i32 -> i32)` and exporting
/// `(run : () -> i32)`.
fn add_one_module(start_trap: Option<RuntimeError>) -> Module {
    Module::new(
        Store::new(1),
        vec![ImportType::new(
            "env".to_string(),
            "add_one".to_string(),
            ExternType::Function(i32_to_i32()),
        )],
        vec![ExportType::new(
            "run".to_string(),
            ExternType::Function(nullary_to_i32()),
        )],
        start_trap,
        vec![NativeExport::Function { handle: 7 }],
        100,
    )
    .expect("valid module")
}

/// Resolves every function import to a fresh host function and counts
/// the queries.
struct CountingResolver {
    count: usize,
    next_handle: u64,
    env: FunctionEnv,
}

impl CountingResolver {
    fn new(env: FunctionEnv) -> Self {
        CountingResolver {
            count: 0,
            next_handle: 50,
            env,
        }
    }
}

impl Resolver for CountingResolver {
    fn resolve(&mut self, _module: &str, _name: &str, ty: &ExternType) -> Option<Extern> {
        self.count += 1;
        let handle = self.next_handle;
        self.next_handle += 1;
        match ty {
            ExternType::Function(ft) => Some(Extern::Function(Function {
                handle,
                ty: ft.clone(),
                env: self.env,
            })),
            _ => None,
        }
    }
}

/// Fails every import, counting the queries.
struct FailingResolver {
    count: usize,
}

impl Resolver for FailingResolver {
    fn resolve(&mut self, _module: &str, _name: &str, _ty: &ExternType) -> Option<Extern> {
        self.count += 1;
        None
    }
}

/// Resolves every import to a global, whatever was asked for.
struct WrongTypeResolver;

impl Resolver for WrongTypeResolver {
    fn resolve(&mut self, _module: &str, _name: &str, _ty: &ExternType) -> Option<Extern> {
        Some(Extern::Global(Global::new(9, Value::I32(0), false)))
    }
}

#[test]
fn successful_instantiation_materializes_exports_in_order() {
    let module = add_one_module(None);
    let mut resolver = CountingResolver::new(FunctionEnv::Empty);
    let instance = Instance::new(&module, &mut resolver).expect("instantiation succeeds");
    assert_eq!(resolver.count, 1);
    assert_eq!(instance.exports.len(), 1);
    let entry = instance.exports.nth(0);
    assert_eq!(entry.0, "run");
    match &entry.1 {
        Extern::Function(f) => {
            assert_eq!(f.handle, 7);
            assert_eq!(f.ty, nullary_to_i32());
            assert_eq!(f.env, FunctionEnv::Empty);
        }
        other => panic!("expected a function export, got {:?}", other),
    }
}

#[test]
fn run_export_is_a_function_extern() {
    let module = add_one_module(None);
    let mut resolver = CountingResolver::new(FunctionEnv::Empty);
    let instance = Instance::new(&module, &mut resolver).expect("instantiation succeeds");
    match instance.exports.get("run") {
        Some(Extern::Function(_)) => {}
        other => panic!("expected a function extern, got {:?}", other),
    }
    assert!(instance.exports.get("add_one").is_none());
}

#[test]
fn missing_import_is_a_link_error_naming_the_import() {
    let module = add_one_module(None);
    let mut resolver = FailingResolver { count: 0 };
    let err = Instance::new(&module, &mut resolver).expect_err("instantiation fails");
    match &err {
        InstantiationError::Link(msg) => {
            assert!(msg.contains("env.add_one"), "diagnostic was {:?}", msg);
        }
        other => panic!("expected a link error, got {:?}", other),
    }
    assert_eq!(err.message(), "Link error: cannot find import env.add_one");
}

#[test]
fn incompatible_import_is_a_link_error_naming_the_import() {
    let module = add_one_module(None);
    let mut resolver = WrongTypeResolver;
    let err = Instance::new(&module, &mut resolver).expect_err("instantiation fails");
    match &err {
        InstantiationError::Link(msg) => {
            assert_eq!(msg, "incompatible type for import env.add_one");
        }
        other => panic!("expected a link error, got {:?}", other),
    }
}

#[test]
fn resolution_queries_every_import_once_in_one_pass() {
    let module = Module::new(
        Store::new(1),
        vec![
            ImportType::new(
                "env".to_string(),
                "add_one".to_string(),
                ExternType::Function(i32_to_i32()),
            ),
            ImportType::new(
                "env".to_string(),
                "add_two".to_string(),
                ExternType::Function(i32_to_i32()),
            ),
            ImportType::new(
                "env".to_string(),
                "add_three".to_string(),
                ExternType::Function(i32_to_i32()),
            ),
        ],
        vec![],
        None,
        vec![],
        101,
    )
    .expect("valid module");
    let mut resolver = FailingResolver { count: 0 };
    let err = Instance::new(&module, &mut resolver).expect_err("instantiation fails");
    match &err {
        InstantiationError::Link(msg) => {
            assert!(msg.contains("env.add_one"), "diagnostic was {:?}", msg);
        }
        other => panic!("expected a link error, got {:?}", other),
    }
    assert_eq!(resolver.count, 3);
}

#[test]
fn resolution_follows_declaration_order() {
    let module = Module::new(
        Store::new(1),
        vec![
            ImportType::new(
                "env".to_string(),
                "first".to_string(),
                ExternType::Function(i32_to_i32()),
            ),
            ImportType::new(
                "other".to_string(),
                "second".to_string(),
                ExternType::Function(i32_to_i32()),
            ),
            ImportType::new(
                "env".to_string(),
                "third".to_string(),
                ExternType::Function(i32_to_i32()),
            ),
        ],
        vec![],
        None,
        vec![],
        105,
    )
    .expect("valid module");

    struct RecordingResolver {
        seen: Vec<(String, String)>,
    }
    impl Resolver for RecordingResolver {
        fn resolve(&mut self, module: &str, name: &str, ty: &ExternType) -> Option<Extern> {
            self.seen.push((module.to_string(), name.to_string()));
            match ty {
                ExternType::Function(ft) => Some(Extern::Function(Function {
                    handle: 80,
                    ty: ft.clone(),
                    env: FunctionEnv::Empty,
                })),
                _ => None,
            }
        }
    }

    let mut resolver = RecordingResolver { seen: vec![] };
    Instance::new(&module, &mut resolver).expect("instantiation succeeds");
    let seen: Vec<(&str, &str)> = resolver
        .seen
        .iter()
        .map(|(m, n)| (m.as_str(), n.as_str()))
        .collect();
    assert_eq!(
        seen,
        vec![("env", "first"), ("other", "second"), ("env", "third")]
    );
}

#[test]
fn start_trap_is_a_start_error_and_no_exports_are_observable() {
    let trap = RuntimeError::new(TrapCode::Unreachable, Some(42));
    let module = add_one_module(Some(trap));
    let mut resolver = CountingResolver::new(FunctionEnv::Empty);
    let result = Instance::new(&module, &mut resolver);
    match result {
        Err(InstantiationError::Start(t)) => {
            assert_eq!(t, trap);
            assert_eq!(t.message(), "unreachable executed");
        }
        Ok(_) => panic!("expected a start error, got an instance"),
        Err(other) => panic!("expected a start error, got {:?}", other),
    }
}

#[test]
fn zero_imports_never_query_the_resolver() {
    let module = Module::new(
        Store::new(1),
        vec![],
        vec![ExportType::new(
            "run".to_string(),
            ExternType::Function(nullary_to_i32()),
        )],
        None,
        vec![NativeExport::Function { handle: 3 }],
        102,
    )
    .expect("valid module");
    let mut resolver = FailingResolver { count: 0 };
    let instance = Instance::new(&module, &mut resolver).expect("instantiation succeeds");
    assert_eq!(resolver.count, 0);
    assert_eq!(instance.exports.len(), 1);
}

#[test]
fn failing_host_env_initializer_identifies_the_function() {
    let module = Module::new(
        Store::new(1),
        vec![
            ImportType::new(
                "env".to_string(),
                "first".to_string(),
                ExternType::Function(i32_to_i32()),
            ),
            ImportType::new(
                "env".to_string(),
                "second".to_string(),
                ExternType::Function(i32_to_i32()),
            ),
        ],
        vec![],
        None,
        vec![],
        103,
    )
    .expect("valid module");

    struct MixedResolver {
        count: usize,
    }
    impl Resolver for MixedResolver {
        fn resolve(&mut self, _module: &str, _name: &str, ty: &ExternType) -> Option<Extern> {
            let init_ok = self.count == 0;
            let handle = 60 + self.count as u64;
            self.count += 1;
            match ty {
                ExternType::Function(ft) => Some(Extern::Function(Function {
                    handle,
                    ty: ft.clone(),
                    env: FunctionEnv::Pending { state: 5, init_ok },
                })),
                _ => None,
            }
        }
    }

    let mut resolver = MixedResolver { count: 0 };
    let err = Instance::new(&module, &mut resolver).expect_err("instantiation fails");
    match err {
        InstantiationError::HostEnvInitialization(e) => {
            assert_eq!(e.index, 1);
            assert_eq!(e.handle, 61);
        }
        other => panic!("expected a host-env error, got {:?}", other),
    }
}

#[test]
fn earlier_initializers_have_run_when_a_later_one_fails() {
    let ok = |handle: u64| {
        Extern::Function(Function {
            handle,
            ty: i32_to_i32(),
            env: FunctionEnv::Pending {
                state: 8,
                init_ok: true,
            },
        })
    };
    let bad = Extern::Function(Function {
        handle: 72,
        ty: i32_to_i32(),
        env: FunctionEnv::Pending {
            state: 8,
            init_ok: false,
        },
    });
    let mut funcs = vec![ok(70), ok(71), bad, ok(73)];
    let err = init_host_envs(&mut funcs, 900).expect_err("initialization fails");
    assert_eq!(err.index, 2);
    assert_eq!(err.handle, 72);
    // the initializers before the failing one have run and are not
    // rolled back
    for (i, f) in funcs.iter().take(2).enumerate() {
        match f {
            Extern::Function(f) => assert_eq!(
                f.env,
                FunctionEnv::Ready {
                    state: 8,
                    instance: 900
                },
                "function {} was not bound",
                i
            ),
            other => panic!("expected a function, got {:?}", other),
        }
    }
    // the failing one and everything after it are untouched
    for f in funcs.iter().skip(2) {
        match f {
            Extern::Function(f) => {
                assert!(matches!(f.env, FunctionEnv::Pending { .. }));
            }
            other => panic!("expected a function, got {:?}", other),
        }
    }
}

#[test]
fn successful_initialization_binds_every_pending_environment() {
    let module = add_one_module(None);
    let mut resolver = CountingResolver::new(FunctionEnv::Pending {
        state: 4,
        init_ok: true,
    });
    let instance = Instance::new(&module, &mut resolver).expect("instantiation succeeds");
    assert_eq!(instance.exports.len(), 1);
}

#[test]
fn two_instances_have_independent_exports() {
    let module = Module::new(
        Store::new(1),
        vec![],
        vec![ExportType::new(
            "counter".to_string(),
            ExternType::Global(wasm_instance::types::GlobalType {
                ty: ValType::I32,
                mutability: true,
            }),
        )],
        None,
        vec![NativeExport::Global {
            handle: 11,
            value: Value::I32(5),
        }],
        104,
    )
    .expect("valid module");
    let mut r1 = FailingResolver { count: 0 };
    let mut r2 = FailingResolver { count: 0 };
    let mut i1 = Instance::new(&module, &mut r1).expect("instantiation succeeds");
    let i2 = Instance::new(&module, &mut r2).expect("instantiation succeeds");

    assert!(i1.exports.set_global("counter", Value::I32(40)));
    match i1.exports.get("counter") {
        Some(Extern::Global(g)) => assert_eq!(g.value, Value::I32(40)),
        other => panic!("expected a global, got {:?}", other),
    }
    match i2.exports.get("counter") {
        Some(Extern::Global(g)) => assert_eq!(g.value, Value::I32(5)),
        other => panic!("expected a global, got {:?}", other),
    }
}

#[test]
fn module_and_store_accessors() {
    let module = add_one_module(None);
    let mut resolver = CountingResolver::new(FunctionEnv::Empty);
    let instance = Instance::new(&module, &mut resolver).expect("instantiation succeeds");
    assert_eq!(instance.store().id, 1);
    assert_eq!(instance.module().imports().len(), 1);
    assert_eq!(instance.module().exports().len(), 1);
}
