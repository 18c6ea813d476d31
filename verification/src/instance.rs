//! The instantiation pipeline: import resolution, native
//! instantiation, export materialization, and the deferred
//! host-environment initialization phase; and the [`Instance`] value
//! it produces.

use crate::error::HostEnvInitError;
use crate::error::InstantiationError;
use crate::error::InstantiationErrorV;
use crate::exports::Exports;
use crate::externals::Extern;
use crate::externals::ExternV;
use crate::externals::Function;
use crate::externals::FunctionEnv;
use crate::externals::FunctionV;
use crate::module::spec_extern_from_native;
use crate::module::extern_from_native;
use crate::module::ImportType;
use crate::module::Module;
use crate::module::ModuleV;
use crate::module::Store;
use crate::resolver::Resolver;
use vstd::prelude::*;
use vstd::string::*;

verus! {

/// The views of a list of extern values.
pub open spec fn externs_view(v: Seq<Extern>) -> Seq<ExternV> {
    v.map_values(|e: Extern| e@)
}

/// The diagnostic for an import that the resolver could not provide.
pub open spec fn missing_import_diag(module: Seq<char>, name: Seq<char>) -> Seq<char> {
    "cannot find import "@ + module + "."@ + name
}

/// The diagnostic for an import resolved to a value of the wrong type.
pub open spec fn incompatible_import_diag(module: Seq<char>, name: Seq<char>) -> Seq<char> {
    "incompatible type for import "@ + module + "."@ + name
}

/// One resolved extern per import descriptor, each of the descriptor's
/// declared type.
pub open spec fn imports_compatible(m: ModuleV, imps: Seq<ExternV>) -> bool {
    &&& imps.len() == m.imports.len()
    &&& forall|i: int| 0 <= i < imps.len() ==> (#[trigger] imps[i]).ty() == m.imports[i].ty
}

/// Whether this extern is a host function whose deferred
/// host-environment initializer fails when run.
pub open spec fn env_fails(e: ExternV) -> bool {
    e matches ExternV::Function(f) && f.env matches FunctionEnv::Pending { state, init_ok }
        && !init_ok
}

/// The extern after the deferred initialization phase has bound the
/// owning instance's handle `h`: a pending host environment becomes
/// ready, everything else is untouched.
pub open spec fn spec_init_env(e: ExternV, h: u64) -> ExternV {
    match e {
        ExternV::Function(f) => match f.env {
            FunctionEnv::Pending { state, init_ok } => ExternV::Function(
                FunctionV {
                    handle: f.handle,
                    ty: f.ty,
                    env: FunctionEnv::Ready { state, instance: h },
                },
            ),
            _ => e,
        },
        _ => e,
    }
}

/// The exports table that instantiating `m` materializes: one entry
/// per export descriptor, in declaration order, pairing the
/// descriptor's name with the conversion of the corresponding native
/// export.
pub open spec fn spec_exports(m: ModuleV) -> Seq<(Seq<char>, ExternV)> {
    Seq::new(
        m.exports.len(),
        |i: int| (m.exports[i].name, spec_extern_from_native(m.native_exports[i], m.exports[i].ty)),
    )
}

/// The exports table of a successful instantiation has exactly one
/// entry per export descriptor, in declaration order, carrying the
/// descriptor's name and an extern value of the descriptor's declared
/// type.
pub proof fn lemma_exports_shape(m: ModuleV)
    requires
        m.wf(),
    ensures
        spec_exports(m).len() == m.exports.len(),
        forall|i: int|
            0 <= i < m.exports.len() ==> (#[trigger] spec_exports(m)[i]).0 == m.exports[i].name
                && spec_exports(m)[i].1.ty() == m.exports[i].ty,
{
    assert forall|i: int|
        0 <= i < m.exports.len() implies (#[trigger] spec_exports(m)[i]).0 == m.exports[i].name
        && spec_exports(m)[i].1.ty() == m.exports[i].ty by {
        assert(m.native_exports[i].matches(m.exports[i].ty));
    }
}

/// Builds the diagnostic for an import the resolver could not provide.
fn missing_import_message(it: &ImportType) -> (r: String)
    ensures
        r@ == missing_import_diag(it@.module, it@.name),
{
    let mut s = String::from_str("cannot find import ");
    s.append(it.module.as_str());
    s.append(".");
    s.append(it.name.as_str());
    s
}

/// Builds the diagnostic for an import resolved to the wrong type.
fn incompatible_import_message(it: &ImportType) -> (r: String)
    ensures
        r@ == incompatible_import_diag(it@.module, it@.name),
{
    let mut s = String::from_str("incompatible type for import ");
    s.append(it.module.as_str());
    s.append(".");
    s.append(it.name.as_str());
    s
}

/// Resolves every import declared by `module`, in declaration order,
/// querying the resolver once per descriptor in a single pass. A
/// missing or type-incompatible import turns the whole pass into a
/// single link failure whose diagnostic names the first failing
/// import; the pass still queries the resolver for the remaining
/// descriptors.
pub fn resolve_imports<R: Resolver>(module: &Module, resolver: &mut R) -> (r: Result<
    Vec<Extern>,
    InstantiationError,
>)
    ensures
        module@.imports.len() == 0 ==> *final(resolver) == *old(resolver),
        r matches Ok(v) ==> imports_compatible(module@, externs_view(v@)),
        r matches Err(e) ==> e@ matches InstantiationErrorV::Link(m) && exists|i: int|
            #![auto]
            {
                &&& 0 <= i < module@.imports.len()
                &&& (m == missing_import_diag(module@.imports[i].module, module@.imports[i].name)
                    || m == incompatible_import_diag(
                    module@.imports[i].module,
                    module@.imports[i].name,
                ))
            },
        r is Err ==> module@.imports.len() > 0,
{
    let n: usize = module.imports.len();
    let mut resolved: Vec<Extern> = Vec::new();
    let mut failure: Option<String> = Option::None;
    let ghost mut fail_i: int = 0;
    let mut k: usize = 0;
    while k < n
        invariant
            n == module.imports.len(),
            n == module@.imports.len(),
            k <= n,
            n == 0 ==> *resolver == *old(resolver),
            failure is None ==> resolved@.len() == k && forall|j: int|
                0 <= j < k ==> (#[trigger] externs_view(resolved@)[j]).ty()
                    == module@.imports[j].ty,
            failure matches Some(m) ==> 0 <= fail_i < n && (m@ == missing_import_diag(
                module@.imports[fail_i].module,
                module@.imports[fail_i].name,
            ) || m@ == incompatible_import_diag(
                module@.imports[fail_i].module,
                module@.imports[fail_i].name,
            )),
        decreases n - k,
    {
        proof {
            assert(module@.imports[k as int] == module.imports@[k as int]@);
        }
        let it = &module.imports[k];
        let outcome = resolver.resolve(it.module.as_str(), it.name.as_str(), &it.ty);
        match outcome {
            Option::None => {
                if failure.is_none() {
                    failure = Option::Some(missing_import_message(it));
                    proof {
                        fail_i = k as int;
                    }
                }
            },
            Option::Some(ext) => {
                let ty_ok = ext.ty().same_as(&it.ty);
                if ty_ok {
                    let ghost prev = resolved@;
                    resolved.push(ext);
                    proof {
                        assert(externs_view(resolved@) =~= externs_view(prev).push(ext@));
                    }
                } else {
                    if failure.is_none() {
                        failure = Option::Some(incompatible_import_message(it));
                        proof {
                            fail_i = k as int;
                        }
                    }
                }
            },
        }
        k = k + 1;
    }
    match failure {
        Option::None => Ok(resolved),
        Option::Some(m) => {
            proof {
                assert(0 <= fail_i < module@.imports.len());
            }
            Err(InstantiationError::Link(m))
        },
    }
}

/// Runs the deferred host-environment initialization phase: walks the
/// resolved import functions in the order they were created and binds
/// each pending host environment to the owning instance's handle.
///
/// When the initializer of the function at position `k` fails, the
/// error identifies that function, the functions before `k` keep their
/// already-bound environments — the phase is deliberately not atomic —
/// and the functions from `k` on are untouched.
pub fn init_host_envs(funcs: &mut Vec<Extern>, instance_handle: u64) -> (r: Result<
    (),
    HostEnvInitError,
>)
    ensures
        final(funcs)@.len() == old(funcs)@.len(),
        r matches Ok(()) ==> forall|j: int|
            0 <= j < old(funcs)@.len() ==> !env_fails(#[trigger] externs_view(old(funcs)@)[j])
                && externs_view(final(funcs)@)[j] == spec_init_env(
                externs_view(old(funcs)@)[j],
                instance_handle,
            ),
        r matches Err(e) ==> {
            &&& 0 <= e.index < old(funcs)@.len()
            &&& env_fails(externs_view(old(funcs)@)[e.index as int])
            &&& externs_view(old(funcs)@)[e.index as int] matches ExternV::Function(f) && f.handle
                == e.handle
            &&& forall|j: int|
                0 <= j < e.index ==> !env_fails(#[trigger] externs_view(old(funcs)@)[j])
                    && externs_view(final(funcs)@)[j] == spec_init_env(
                    externs_view(old(funcs)@)[j],
                    instance_handle,
                )
            &&& forall|j: int|
                e.index <= j < old(funcs)@.len() ==> #[trigger] externs_view(final(funcs)@)[j]
                    == externs_view(old(funcs)@)[j]
        },
{
    let n: usize = funcs.len();
    let mut i: usize = 0;
    while i < n
        invariant
            n == funcs.len(),
            funcs@.len() == old(funcs)@.len(),
            i <= n,
            forall|j: int|
                0 <= j < i ==> !env_fails(#[trigger] externs_view(old(funcs)@)[j])
                    && externs_view(funcs@)[j] == spec_init_env(
                    externs_view(old(funcs)@)[j],
                    instance_handle,
                ),
            forall|j: int|
                i <= j < n ==> #[trigger] externs_view(funcs@)[j] == externs_view(old(funcs)@)[j],
        decreases n - i,
    {
        let mut replacement: Option<Extern> = Option::None;
        let mut failed: Option<u64> = Option::None;
        match &funcs[i] {
            Extern::Function(f) => {
                match f.env {
                    FunctionEnv::Pending { state, init_ok } => {
                        if init_ok {
                            replacement = Option::Some(
                                Extern::Function(
                                    Function {
                                        handle: f.handle,
                                        ty: f.ty.clone(),
                                        env: FunctionEnv::Ready { state, instance: instance_handle },
                                    },
                                ),
                            );
                        } else {
                            failed = Option::Some(f.handle);
                        }
                    },
                    _ => {},
                }
            },
            _ => {},
        }
        if let Option::Some(handle) = failed {
            return Err(HostEnvInitError { index: i, handle });
        }
        if let Option::Some(ext) = replacement {
            let ghost prev = funcs@;
            funcs.set(i, ext);
            proof {
                assert(externs_view(funcs@) =~= externs_view(prev).update(
                    i as int,
                    spec_init_env(externs_view(old(funcs)@)[i as int], instance_handle),
                ));
            }
        }
        i = i + 1;
    }
    Ok(())
}

/// Materializes the exports table: for every export descriptor, in
/// declaration order, converts the corresponding native export into a
/// typed extern value and inserts it under the descriptor's name.
fn materialize_exports(module: &Module) -> (r: Exports)
    requires
        module.wf(),
    ensures
        r@ == spec_exports(module@),
{
    let mut ex = Exports::new();
    let n: usize = module.exports.len();
    let mut i: usize = 0;
    while i < n
        invariant
            module.wf(),
            n == module.exports.len(),
            n == module@.exports.len(),
            n == module.native_exports.len(),
            i <= n,
            ex@.len() == i,
            forall|j: int| 0 <= j < i ==> ex@[j] == spec_exports(module@)[j],
        decreases n - i,
    {
        proof {
            assert(module@.exports[i as int] == module.exports@[i as int]@);
            assert(module@.native_exports[i as int].matches(module@.exports[i as int].ty));
        }
        let name = module.exports[i].name.clone();
        let ext = extern_from_native(&module.native_exports[i], &module.exports[i].ty);
        ex.insert(name, ext);
        i = i + 1;
    }
    proof {
        assert(ex@ =~= spec_exports(module@));
    }
    ex
}

/// A linked, runnable instance of a module: the originating module,
/// the opaque native instance handle, the exports table, and the
/// resolved import functions with their bound host environments.
#[derive(Clone, Debug)]
pub struct Instance {
    module: Module,
    handle: u64,
    /// The exports for an instance.
    pub exports: Exports,
    imports: Vec<Extern>,
}

/// Mathematical model of an [`Instance`].
pub struct InstanceV {
    pub module: ModuleV,
    pub handle: u64,
    pub exports: Seq<(Seq<char>, ExternV)>,
    pub imports: Seq<ExternV>,
}

impl View for Instance {
    type V = InstanceV;

    closed spec fn view(&self) -> InstanceV {
        InstanceV {
            module: self.module@,
            handle: self.handle,
            exports: self.exports@,
            imports: externs_view(self.imports@),
        }
    }
}

/// Instantiates `module` with the imports already resolved: runs
/// native instantiation (reporting the start function's trap if it
/// traps), materializes the exports, and then runs the deferred
/// host-environment initialization phase against the new instance.
pub fn instantiate_with_imports(module: &Module, imports: Vec<Extern>) -> (r: Result<
    Instance,
    InstantiationError,
>)
    requires
        module.wf(),
        imports_compatible(module@, externs_view(imports@)),
    ensures
        module@.start_trap matches Some(t) ==> r matches Err(e) && e@
            == InstantiationErrorV::Start(t),
        module@.start_trap is None && (exists|k: int|
            0 <= k < imports@.len() && env_fails(#[trigger] externs_view(imports@)[k])) ==> (
        r matches Err(e) && e@ matches InstantiationErrorV::HostEnvInitialization(he) && {
            &&& 0 <= he.index < imports@.len()
            &&& env_fails(externs_view(imports@)[he.index as int])
            &&& forall|j: int|
                0 <= j < he.index ==> !env_fails(#[trigger] externs_view(imports@)[j])
            &&& externs_view(imports@)[he.index as int] matches ExternV::Function(f) && f.handle
                == he.handle
        }),
        module@.start_trap is None && (forall|k: int|
            0 <= k < imports@.len() ==> !env_fails(#[trigger] externs_view(imports@)[k])) ==> (
        r matches Ok(inst) && {
            &&& inst@.module == module@
            &&& inst@.handle == module@.instance_handle
            &&& inst@.exports == spec_exports(module@)
            &&& inst@.imports.len() == imports@.len()
            &&& forall|j: int|
                0 <= j < imports@.len() ==> inst@.imports[j] == spec_init_env(
                    #[trigger] externs_view(imports@)[j],
                    module@.instance_handle,
                )
        }),
{
    match &module.start_trap {
        Option::Some(t) => {
            return Err(InstantiationError::Start(*t));
        },
        Option::None => {},
    }
    let exports = materialize_exports(module);
    let mut funcs = imports;
    match init_host_envs(&mut funcs, module.instance_handle) {
        Err(e) => Err(InstantiationError::HostEnvInitialization(e)),
        Ok(()) => {
            let inst = Instance {
                module: module.clone(),
                handle: module.instance_handle,
                exports,
                imports: funcs,
            };
            Ok(inst)
        },
    }
}

impl Instance {
    /// Creates a new instance from a compiled module and a set of
    /// imports resolved by the resolver.
    ///
    /// The pipeline resolves every import in declaration order, runs
    /// native instantiation — including the module's start function —
    /// materializes the exports in declaration order, and finally runs
    /// the deferred host-environment initializers of the imported host
    /// functions. Each of the three phases reports its own kind of
    /// [`InstantiationError`]; a caller never observes a partially
    /// built instance.
    pub fn new<R: Resolver>(module: &Module, resolver: &mut R) -> (r: Result<
        Instance,
        InstantiationError,
    >)
        requires
            module.wf(),
        ensures
            module@.imports.len() == 0 ==> *final(resolver) == *old(resolver),
            r matches Ok(inst) ==> {
                &&& module@.start_trap is None
                &&& inst@.module == module@
                &&& inst@.handle == module@.instance_handle
                &&& inst@.exports == spec_exports(module@)
                &&& inst@.imports.len() == module@.imports.len()
                &&& forall|j: int|
                    0 <= j < module@.imports.len() ==> (#[trigger] inst@.imports[j]).ty()
                        == module@.imports[j].ty
                &&& forall|j: int|
                    0 <= j < module@.imports.len() ==> ((#[trigger] inst@.imports[j]) matches
                    ExternV::Function(f) ==> !(f.env is Pending))
            },
            r matches Err(e) ==> (e@ matches InstantiationErrorV::Start(t) ==> module@.start_trap
                == Some(t)),
            r matches Err(e) ==> (e@ matches InstantiationErrorV::Link(m)
                ==> module@.imports.len() > 0 && exists|i: int|
                #![auto]
                {
                    &&& 0 <= i < module@.imports.len()
                    &&& (m == missing_import_diag(
                        module@.imports[i].module,
                        module@.imports[i].name,
                    ) || m == incompatible_import_diag(
                        module@.imports[i].module,
                        module@.imports[i].name,
                    ))
                }),
            r matches Err(e) ==> (e@ matches InstantiationErrorV::HostEnvInitialization(he)
                ==> module@.start_trap is None && he.index < module@.imports.len()),
    {
        let resolved = match resolve_imports(module, resolver) {
            Err(e) => {
                return Err(e);
            },
            Ok(v) => v,
        };
        let ghost rv = externs_view(resolved@);
        match instantiate_with_imports(module, resolved) {
            Ok(inst) => {
                proof {
                    assert forall|k: int| 0 <= k < rv.len() implies !env_fails(
                        #[trigger] rv[k],
                    ) by {
                        if env_fails(rv[k]) {
                            assert(exists|i: int| 0 <= i < rv.len() && env_fails(#[trigger] rv[i]));
                            assert(false);
                        }
                    }
                    assert forall|j: int|
                        0 <= j < module@.imports.len() implies (#[trigger] inst@.imports[j]).ty()
                        == module@.imports[j].ty && (inst@.imports[j] matches ExternV::Function(f)
                        ==> !(f.env is Pending)) by {
                        assert(inst@.imports[j] == spec_init_env(rv[j], module@.instance_handle));
                        assert(rv[j].ty() == module@.imports[j].ty);
                    }
                }
                Ok(inst)
            },
            Err(e) => {
                proof {
                    if module@.start_trap is None {
                        if exists|k: int| 0 <= k < rv.len() && env_fails(#[trigger] rv[k]) {
                        } else {
                            assert(forall|k: int|
                                0 <= k < rv.len() ==> !env_fails(#[trigger] rv[k]));
                            assert(false);
                        }
                    }
                }
                Err(e)
            },
        }
    }

    /// The module this instance was created from.
    pub fn module(&self) -> (r: &Module)
        ensures
            r@ == self@.module,
    {
        &self.module
    }

    /// The store this instance belongs to.
    pub fn store(&self) -> (r: &Store)
        ensures
            *r == self@.module.store,
    {
        self.module.store()
    }
}

} // verus!
