//! The compiled module consumed by instantiation: its store, its import
//! and export descriptors, and the recorded outcome of native
//! instantiation (start-function behavior and native export handles).

use crate::error::RuntimeError;
use crate::externals::Extern;
use crate::externals::ExternV;
use crate::externals::Function;
use crate::externals::FunctionEnv;
use crate::externals::FunctionV;
use crate::externals::Global;
use crate::externals::Memory;
use crate::externals::Table;
use crate::types::ExternType;
use crate::types::ExternTypeV;
use crate::types::Value;
use vstd::prelude::*;

verus! {

/// The shared execution context that owns native allocations. Modeled
/// by the handle under which the native side knows it; it is recorded
/// in each instance and otherwise not consulted during instantiation.
#[derive(Clone, Copy, PartialEq, Eq, Structural, Debug)]
pub struct Store {
    pub id: u64,
}

impl Store {
    pub fn new(id: u64) -> (r: Store)
        ensures
            r.id == id,
    {
        Store { id }
    }
}

/// An import descriptor: the defining namespace, the import's name in
/// that namespace, and the expected type.
#[derive(PartialEq, Eq, Debug)]
pub struct ImportType {
    pub module: String,
    pub name: String,
    pub ty: ExternType,
}

/// Mathematical model of an [`ImportType`].
pub struct ImportTypeV {
    pub module: Seq<char>,
    pub name: Seq<char>,
    pub ty: ExternTypeV,
}

impl View for ImportType {
    type V = ImportTypeV;

    open spec fn view(&self) -> ImportTypeV {
        ImportTypeV { module: self.module@, name: self.name@, ty: self.ty@ }
    }
}

impl Clone for ImportType {
    fn clone(&self) -> (res: Self)
        ensures
            res@ == self@,
    {
        ImportType { module: self.module.clone(), name: self.name.clone(), ty: self.ty.clone() }
    }
}

impl ImportType {
    pub fn new(module: String, name: String, ty: ExternType) -> (r: ImportType)
        ensures
            r@.module == module@,
            r@.name == name@,
            r@.ty == ty@,
    {
        ImportType { module, name, ty }
    }
}

/// An export descriptor: the export's name and its type.
#[derive(PartialEq, Eq, Debug)]
pub struct ExportType {
    pub name: String,
    pub ty: ExternType,
}

/// Mathematical model of an [`ExportType`].
pub struct ExportTypeV {
    pub name: Seq<char>,
    pub ty: ExternTypeV,
}

impl View for ExportType {
    type V = ExportTypeV;

    open spec fn view(&self) -> ExportTypeV {
        ExportTypeV { name: self.name@, ty: self.ty@ }
    }
}

impl Clone for ExportType {
    fn clone(&self) -> (res: Self)
        ensures
            res@ == self@,
    {
        ExportType { name: self.name.clone(), ty: self.ty.clone() }
    }
}

impl ExportType {
    pub fn new(name: String, ty: ExternType) -> (r: ExportType)
        ensures
            r@.name == name@,
            r@.ty == ty@,
    {
        ExportType { name, ty }
    }
}

/// One export as native instantiation hands it out: a handle of the
/// kind the corresponding descriptor declares, with the initial cell
/// value for globals.
#[derive(Clone, Copy, PartialEq, Eq, Debug)]
pub enum NativeExport {
    Function { handle: u64 },
    Memory { handle: u64 },
    Table { handle: u64 },
    Global { handle: u64, value: Value },
}

impl NativeExport {
    /// The native handle.
    pub open spec fn spec_handle(self) -> u64 {
        match self {
            NativeExport::Function { handle } => handle,
            NativeExport::Memory { handle } => handle,
            NativeExport::Table { handle } => handle,
            NativeExport::Global { handle, value } => handle,
        }
    }

    /// The native handle carries the kind that `ty` declares, and a
    /// global's initial value inhabits the declared value type.
    pub open spec fn matches(self, ty: ExternTypeV) -> bool {
        match self {
            NativeExport::Function { handle } => ty is Function,
            NativeExport::Memory { handle } => ty is Memory,
            NativeExport::Table { handle } => ty is Table,
            NativeExport::Global { handle, value } => {
                ty matches ExternTypeV::Global(gt) && value.spec_ty() == gt.ty
            },
        }
    }
}

/// The extern value that the fixed conversion rule produces from one
/// native export and the static type of its descriptor.
pub open spec fn spec_extern_from_native(native: NativeExport, ty: ExternTypeV) -> ExternV {
    match ty {
        ExternTypeV::Function(ft) => ExternV::Function(
            FunctionV { handle: native.spec_handle(), ty: ft, env: FunctionEnv::Empty },
        ),
        ExternTypeV::Memory(mt) => ExternV::Memory(Memory { handle: native.spec_handle(), ty: mt }),
        ExternTypeV::Table(tt) => ExternV::Table(Table { handle: native.spec_handle(), ty: tt }),
        ExternTypeV::Global(gt) => ExternV::Global(
            Global {
                handle: native.spec_handle(),
                ty: gt,
                value: match native {
                    NativeExport::Global { handle, value } => value,
                    _ => arbitrary(),
                },
            },
        ),
    }
}

/// Converts one native export into a typed extern value.
///
/// The variant of the result is chosen by the static type from the
/// descriptor alone; a kind mismatch between descriptor and native
/// handle is a contract violation of the upstream module boundary,
/// which the precondition rules out.
pub fn extern_from_native(native: &NativeExport, ty: &ExternType) -> (r: Extern)
    requires
        native.matches(ty@),
    ensures
        r@ == spec_extern_from_native(*native, ty@),
{
    match ty {
        ExternType::Function(ft) => {
            let handle = native_handle(native);
            Extern::Function(Function { handle, ty: ft.clone(), env: FunctionEnv::Empty })
        },
        ExternType::Memory(mt) => {
            let handle = native_handle(native);
            Extern::Memory(Memory { handle, ty: *mt })
        },
        ExternType::Table(tt) => {
            let handle = native_handle(native);
            Extern::Table(Table { handle, ty: *tt })
        },
        ExternType::Global(gt) => {
            match native {
                NativeExport::Global { handle, value } => {
                    Extern::Global(Global { handle: *handle, ty: *gt, value: *value })
                },
                _ => vstd::pervasive::unreached(),
            }
        },
    }
}

/// Decides whether a native export matches the declared type of its
/// descriptor.
fn native_kind_matches(native: &NativeExport, ty: &ExternType) -> (r: bool)
    ensures
        r == native.matches(ty@),
{
    match (native, ty) {
        (NativeExport::Function { handle }, ExternType::Function(_)) => true,
        (NativeExport::Memory { handle }, ExternType::Memory(_)) => true,
        (NativeExport::Table { handle }, ExternType::Table(_)) => true,
        (NativeExport::Global { handle, value }, ExternType::Global(gt)) => value.ty() == gt.ty,
        _ => false,
    }
}

/// Returns the native handle of a native export.
fn native_handle(native: &NativeExport) -> (r: u64)
    ensures
        r == native.spec_handle(),
{
    match native {
        NativeExport::Function { handle } => *handle,
        NativeExport::Memory { handle } => *handle,
        NativeExport::Table { handle } => *handle,
        NativeExport::Global { handle, value } => *handle,
    }
}

/// A compiled, validated module: static import and export descriptors
/// together with what its native instantiation yields — whether the
/// start function traps, and the native export handles in declaration
/// order.
#[derive(Debug)]
pub struct Module {
    pub store: Store,
    pub imports: Vec<ImportType>,
    pub exports: Vec<ExportType>,
    pub start_trap: Option<RuntimeError>,
    pub native_exports: Vec<NativeExport>,
    pub instance_handle: u64,
}

/// Mathematical model of a [`Module`].
pub struct ModuleV {
    pub store: Store,
    pub imports: Seq<ImportTypeV>,
    pub exports: Seq<ExportTypeV>,
    pub start_trap: Option<RuntimeError>,
    pub native_exports: Seq<NativeExport>,
    pub instance_handle: u64,
}

impl View for Module {
    type V = ModuleV;

    open spec fn view(&self) -> ModuleV {
        ModuleV {
            store: self.store,
            imports: self.imports@.map_values(|it: ImportType| it@),
            exports: self.exports@.map_values(|et: ExportType| et@),
            start_trap: self.start_trap,
            native_exports: self.native_exports@,
            instance_handle: self.instance_handle,
        }
    }
}

impl Clone for Module {
    fn clone(&self) -> (res: Self)
        ensures
            res@ == self@,
    {
        let imports = self.imports.clone();
        let exports = self.exports.clone();
        let native_exports = self.native_exports.clone();
        proof {
            assert forall|i: int| 0 <= i < self.imports@.len() implies imports@[i]@
                == self.imports@[i]@ by {}
            assert forall|i: int| 0 <= i < self.exports@.len() implies exports@[i]@
                == self.exports@[i]@ by {}
            assert(native_exports@ =~= self.native_exports@);
            assert(imports@.map_values(|it: ImportType| it@) =~= self.imports@.map_values(
                |it: ImportType| it@,
            ));
            assert(exports@.map_values(|et: ExportType| et@) =~= self.exports@.map_values(
                |et: ExportType| et@,
            ));
        }
        Module {
            store: self.store,
            imports,
            exports,
            start_trap: self.start_trap,
            native_exports,
            instance_handle: self.instance_handle,
        }
    }
}

impl ModuleV {
    /// Module validity, as upstream validation guarantees it: one
    /// native export per export descriptor, each of the declared kind,
    /// and export names unique.
    pub open spec fn wf(self) -> bool {
        &&& self.native_exports.len() == self.exports.len()
        &&& forall|i: int|
            0 <= i < self.exports.len() ==> self.native_exports[i].matches(
                #[trigger] self.exports[i].ty,
            )
        &&& forall|i: int, j: int|
            0 <= i < j < self.exports.len() ==> #[trigger] self.exports[i].name
                != #[trigger] self.exports[j].name
    }
}

impl Module {
    /// Module validity; see [`ModuleV::wf`].
    pub open spec fn wf(&self) -> bool {
        self@.wf()
    }

    /// Assembles a compiled module from upstream metadata: descriptors,
    /// the start function's recorded outcome, and the native exports in
    /// declaration order. Returns `None` when the metadata violates the
    /// validity that upstream validation owes (a native export missing
    /// or of the wrong kind, or a duplicate export name).
    pub fn new(
        store: Store,
        imports: Vec<ImportType>,
        exports: Vec<ExportType>,
        start_trap: Option<RuntimeError>,
        native_exports: Vec<NativeExport>,
        instance_handle: u64,
    ) -> (r: Option<Module>)
        ensures
            r matches Some(m) ==> {
                &&& m.wf()
                &&& m@ == (ModuleV {
                    store,
                    imports: imports@.map_values(|it: ImportType| it@),
                    exports: exports@.map_values(|et: ExportType| et@),
                    start_trap,
                    native_exports: native_exports@,
                    instance_handle,
                })
            },
            r is None ==> !(ModuleV {
                store,
                imports: imports@.map_values(|it: ImportType| it@),
                exports: exports@.map_values(|et: ExportType| et@),
                start_trap,
                native_exports: native_exports@,
                instance_handle,
            }).wf(),
    {
        let m = Module { store, imports, exports, start_trap, native_exports, instance_handle };
        if m.check_wf() {
            Some(m)
        } else {
            None
        }
    }

    /// Decides module validity.
    fn check_wf(&self) -> (r: bool)
        ensures
            r == self.wf(),
    {
        if self.native_exports.len() != self.exports.len() {
            return false;
        }
        let n: usize = self.exports.len();
        let mut i: usize = 0;
        while i < n
            invariant
                n == self.exports.len(),
                n == self.native_exports.len(),
                i <= n,
                forall|k: int|
                    0 <= k < i ==> self@.native_exports[k].matches(#[trigger] self@.exports[k].ty),
            decreases n - i,
        {
            if !native_kind_matches(&self.native_exports[i], &self.exports[i].ty) {
                proof {
                    assert(self@.exports[i as int] == self.exports@[i as int]@);
                    assert(!self@.native_exports[i as int].matches(self@.exports[i as int].ty));
                }
                return false;
            }
            i = i + 1;
        }
        let mut a: usize = 0;
        while a < n
            invariant
                n == self.exports.len(),
                a <= n,
                forall|i: int, j: int|
                    0 <= i < j < n && i < a ==> #[trigger] self@.exports[i].name
                        != #[trigger] self@.exports[j].name,
            decreases n - a,
        {
            let mut b: usize = a + 1;
            while b < n
                invariant
                    n == self.exports.len(),
                    a < n,
                    a < b,
                    b <= n,
                    forall|i: int, j: int|
                        0 <= i < j < n && i < a ==> #[trigger] self@.exports[i].name
                            != #[trigger] self@.exports[j].name,
                    forall|j: int|
                        a < j < b ==> self@.exports[a as int].name != #[trigger] self@.exports[j].name,
                decreases n - b,
            {
                if self.exports[a].name == self.exports[b].name {
                    proof {
                        assert(self@.exports[a as int] == self.exports@[a as int]@);
                        assert(self@.exports[b as int] == self.exports@[b as int]@);
                        assert(self@.exports[a as int].name == self@.exports[b as int].name);
                    }
                    return false;
                }
                b = b + 1;
            }
            a = a + 1;
        }
        true
    }

    /// The import descriptors, in declaration order.
    pub fn imports(&self) -> (r: &Vec<ImportType>)
        ensures
            r@.map_values(|it: ImportType| it@) == self@.imports,
    {
        &self.imports
    }

    /// The export descriptors, in declaration order.
    pub fn exports(&self) -> (r: &Vec<ExportType>)
        ensures
            r@.map_values(|et: ExportType| et@) == self@.exports,
    {
        &self.exports
    }

    /// The store this module was compiled in.
    pub fn store(&self) -> (r: &Store)
        ensures
            *r == self@.store,
    {
        &self.store
    }
}

} // verus!
