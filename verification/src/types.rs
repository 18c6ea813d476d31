//! Static types for module imports and exports: value types, the four
//! kinds of external values (functions, memories, tables, globals), and
//! runtime values for globals.

use vstd::prelude::*;

verus! {

/// The type of a WebAssembly value that this runtime models.
#[derive(Clone, Copy, PartialEq, Eq, Structural, Debug)]
pub enum ValType {
    I32,
    I64,
    FuncRef,
    ExternRef,
}

/// A runtime value, carried by globals. Reference values hold an
/// optional native handle (`None` is the null reference).
#[derive(Clone, Copy, PartialEq, Eq, Debug)]
pub enum Value {
    I32(i32),
    I64(i64),
    FuncRef(Option<u64>),
    ExternRef(Option<u64>),
}

impl Value {
    /// The value type this value inhabits.
    pub open spec fn spec_ty(self) -> ValType {
        match self {
            Value::I32(_) => ValType::I32,
            Value::I64(_) => ValType::I64,
            Value::FuncRef(_) => ValType::FuncRef,
            Value::ExternRef(_) => ValType::ExternRef,
        }
    }

    /// Returns the value type this value inhabits.
    pub fn ty(&self) -> (r: ValType)
        ensures
            r == self.spec_ty(),
    {
        match self {
            Value::I32(_) => ValType::I32,
            Value::I64(_) => ValType::I64,
            Value::FuncRef(_) => ValType::FuncRef,
            Value::ExternRef(_) => ValType::ExternRef,
        }
    }
}

/// The signature of a function: parameter types and result types.
#[derive(PartialEq, Eq, Debug)]
pub struct FunctionType {
    pub params: Vec<ValType>,
    pub results: Vec<ValType>,
}

impl Clone for FunctionType {
    fn clone(&self) -> (res: Self)
        ensures
            res@ == self@,
    {
        let params = self.params.clone();
        let results = self.results.clone();
        proof {
            assert(params@ =~= self.params@);
            assert(results@ =~= self.results@);
        }
        FunctionType { params, results }
    }
}

/// Mathematical model of a [`FunctionType`].
pub struct FunctionTypeV {
    pub params: Seq<ValType>,
    pub results: Seq<ValType>,
}

impl View for FunctionType {
    type V = FunctionTypeV;

    open spec fn view(&self) -> FunctionTypeV {
        FunctionTypeV { params: self.params@, results: self.results@ }
    }
}

impl FunctionType {
    pub fn new(params: Vec<ValType>, results: Vec<ValType>) -> (r: FunctionType)
        ensures
            r@.params == params@,
            r@.results == results@,
    {
        FunctionType { params, results }
    }
}

/// The type of a linear memory: page limits and whether the memory may
/// be shared between instances.
#[derive(Clone, Copy, PartialEq, Eq, Debug)]
pub struct MemoryType {
    pub minimum: u32,
    pub maximum: Option<u32>,
    pub shared: bool,
}

/// The type of a table: its element type and size limits.
#[derive(Clone, Copy, PartialEq, Eq, Debug)]
pub struct TableType {
    pub element: ValType,
    pub minimum: u32,
    pub maximum: Option<u32>,
}

/// The type of a global: its value type and whether it is mutable.
#[derive(Clone, Copy, PartialEq, Eq, Debug)]
pub struct GlobalType {
    pub ty: ValType,
    pub mutability: bool,
}

/// The static type of an external value, one variant per kind.
#[derive(PartialEq, Eq, Debug)]
pub enum ExternType {
    Function(FunctionType),
    Memory(MemoryType),
    Table(TableType),
    Global(GlobalType),
}

/// Mathematical model of an [`ExternType`].
pub enum ExternTypeV {
    Function(FunctionTypeV),
    Memory(MemoryType),
    Table(TableType),
    Global(GlobalType),
}

impl View for ExternType {
    type V = ExternTypeV;

    open spec fn view(&self) -> ExternTypeV {
        match self {
            ExternType::Function(ft) => ExternTypeV::Function(ft@),
            ExternType::Memory(mt) => ExternTypeV::Memory(*mt),
            ExternType::Table(tt) => ExternTypeV::Table(*tt),
            ExternType::Global(gt) => ExternTypeV::Global(*gt),
        }
    }
}

impl Clone for ExternType {
    fn clone(&self) -> (res: Self)
        ensures
            res@ == self@,
    {
        match self {
            ExternType::Function(ft) => ExternType::Function(ft.clone()),
            ExternType::Memory(mt) => ExternType::Memory(*mt),
            ExternType::Table(tt) => ExternType::Table(*tt),
            ExternType::Global(gt) => ExternType::Global(*gt),
        }
    }
}

/// Compares two optional `u32` limits for equality.
fn max_eq(a: &Option<u32>, b: &Option<u32>) -> (r: bool)
    ensures
        r == (*a == *b),
{
    match (a, b) {
        (Option::None, Option::None) => true,
        (Option::Some(x), Option::Some(y)) => *x == *y,
        _ => false,
    }
}

/// Compares two lists of value types for equality.
fn val_types_eq(a: &Vec<ValType>, b: &Vec<ValType>) -> (r: bool)
    ensures
        r == (a@ == b@),
{
    if a.len() != b.len() {
        proof {
            assert(a@.len() != b@.len());
        }
        return false;
    }
    let n: usize = a.len();
    let mut i: usize = 0;
    while i < n
        invariant
            n == a@.len(),
            n == b@.len(),
            i <= n,
            forall|j: int| 0 <= j < i ==> a@[j] == b@[j],
        decreases n - i,
    {
        if a[i] != b[i] {
            return false;
        }
        i = i + 1;
    }
    proof {
        assert(a@ =~= b@);
    }
    true
}

impl ExternType {
    /// Returns whether two extern types are identical. An import is
    /// type-compatible with its descriptor exactly when this holds.
    pub fn same_as(&self, other: &ExternType) -> (r: bool)
        ensures
            r == (self@ == other@),
    {
        match (self, other) {
            (ExternType::Function(a), ExternType::Function(b)) => {
                let r = val_types_eq(&a.params, &b.params) && val_types_eq(&a.results, &b.results);
                proof {
                    if a@.params == b@.params && a@.results == b@.results {
                        assert(a@ =~= b@);
                    }
                }
                r
            },
            (ExternType::Memory(a), ExternType::Memory(b)) => {
                a.minimum == b.minimum && max_eq(&a.maximum, &b.maximum) && a.shared == b.shared
            },
            (ExternType::Table(a), ExternType::Table(b)) => {
                a.element == b.element && a.minimum == b.minimum && max_eq(&a.maximum, &b.maximum)
            },
            (ExternType::Global(a), ExternType::Global(b)) => {
                a.ty == b.ty && a.mutability == b.mutability
            },
            _ => false,
        }
    }
}

} // verus!
