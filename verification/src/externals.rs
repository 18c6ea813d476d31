//! Live external values: the four kinds of handles a module imports or
//! exports, and the deferred host-environment state of host functions.

use crate::error::RuntimeError;
use crate::error::TrapCode;
use crate::types::ExternType;
use crate::types::ExternTypeV;
use crate::types::FunctionType;
use crate::types::FunctionTypeV;
use crate::types::GlobalType;
use crate::types::MemoryType;
use crate::types::TableType;
use crate::types::Value;
use vstd::prelude::*;

verus! {

/// The host-environment state captured by a function.
///
/// A host function created before its owning instance exists starts in
/// `Pending`; the second phase of instantiation binds it to the
/// instance, turning it into `Ready`. `init_ok` records whether the
/// host's deferred initializer succeeds when it is eventually run.
#[derive(Clone, Copy, PartialEq, Eq, Debug)]
pub enum FunctionEnv {
    /// The function captures no host state.
    Empty,
    /// Captured host state awaiting its owning instance.
    Pending { state: u64, init_ok: bool },
    /// Captured host state bound to the handle of its owning instance.
    Ready { state: u64, instance: u64 },
}

/// A live function: a callable native handle, its signature, and its
/// host-environment state.
#[derive(Clone, Debug)]
pub struct Function {
    pub handle: u64,
    pub ty: FunctionType,
    pub env: FunctionEnv,
}

/// Mathematical model of a [`Function`].
pub struct FunctionV {
    pub handle: u64,
    pub ty: FunctionTypeV,
    pub env: FunctionEnv,
}

impl View for Function {
    type V = FunctionV;

    open spec fn view(&self) -> FunctionV {
        FunctionV { handle: self.handle, ty: self.ty@, env: self.env }
    }
}

/// A live linear memory: a growable native buffer handle and its type.
#[derive(Clone, Copy, PartialEq, Eq, Debug)]
pub struct Memory {
    pub handle: u64,
    pub ty: MemoryType,
}

/// A live table: an indexable native handle and its type.
#[derive(Clone, Copy, PartialEq, Eq, Debug)]
pub struct Table {
    pub handle: u64,
    pub ty: TableType,
}

/// A live global: a native value-cell handle, its type, and the value
/// the cell currently holds.
#[derive(Clone, Copy, Debug)]
pub struct Global {
    pub handle: u64,
    pub ty: GlobalType,
    pub value: Value,
}

impl Global {
    /// The cell's value matches its declared value type.
    pub open spec fn wf(self) -> bool {
        self.value.spec_ty() == self.ty.ty
    }

    /// Creates a global holding `value`, typed after it.
    pub fn new(handle: u64, value: Value, mutability: bool) -> (r: Global)
        ensures
            r.handle == handle,
            r.value == value,
            r.ty == (GlobalType { ty: value.spec_ty(), mutability }),
            r.wf(),
    {
        let ty = GlobalType { ty: value.ty(), mutability };
        Global { handle, ty, value }
    }

    /// Writes `value` into the cell. Fails with a trap if the global is
    /// immutable or the value's type does not match the global's type.
    pub fn set(&mut self, value: Value) -> (r: Result<(), RuntimeError>)
        ensures
            r is Ok <==> old(self).ty.mutability && value.spec_ty() == old(self).ty.ty,
            r is Ok ==> *final(self) == (Global { value, ..*old(self) }),
            r is Err ==> *final(self) == *old(self),
    {
        if !self.ty.mutability {
            return Err(RuntimeError::new(TrapCode::ImmutableGlobalWrite, None));
        }
        if !(value.ty() == self.ty.ty) {
            return Err(RuntimeError::new(TrapCode::BadValueType, None));
        }
        self.value = value;
        Ok(())
    }
}

/// A live external value: the tagged union over the four kinds.
#[derive(Clone, Debug)]
pub enum Extern {
    Function(Function),
    Memory(Memory),
    Table(Table),
    Global(Global),
}

/// Mathematical model of an [`Extern`].
pub enum ExternV {
    Function(FunctionV),
    Memory(Memory),
    Table(Table),
    Global(Global),
}

impl View for Extern {
    type V = ExternV;

    open spec fn view(&self) -> ExternV {
        match self {
            Extern::Function(f) => ExternV::Function(f@),
            Extern::Memory(m) => ExternV::Memory(*m),
            Extern::Table(t) => ExternV::Table(*t),
            Extern::Global(g) => ExternV::Global(*g),
        }
    }
}

impl ExternV {
    /// The static type of a modeled external value.
    pub open spec fn ty(self) -> ExternTypeV {
        match self {
            ExternV::Function(f) => ExternTypeV::Function(f.ty),
            ExternV::Memory(m) => ExternTypeV::Memory(m.ty),
            ExternV::Table(t) => ExternTypeV::Table(t.ty),
            ExternV::Global(g) => ExternTypeV::Global(g.ty),
        }
    }
}

impl Extern {
    /// Returns the static type of this external value.
    pub fn ty(&self) -> (r: ExternType)
        ensures
            r@ == self@.ty(),
    {
        match self {
            Extern::Function(f) => ExternType::Function(f.ty.clone()),
            Extern::Memory(m) => ExternType::Memory(m.ty),
            Extern::Table(t) => ExternType::Table(t.ty),
            Extern::Global(g) => ExternType::Global(g.ty),
        }
    }
}

} // verus!
