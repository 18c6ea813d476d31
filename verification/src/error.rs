//! The error taxonomy of instantiation: runtime traps raised by the
//! start function, failures of deferred host-environment initializers,
//! and the three-way [`InstantiationError`] surfaced to callers.

use vstd::prelude::*;
use vstd::string::*;

verus! {

/// The kind of a runtime trap.
#[derive(Clone, Copy, PartialEq, Eq, Structural, Debug)]
pub enum TrapCode {
    Unreachable,
    MemoryOutOfBounds,
    TableOutOfBounds,
    IndirectCallTypeMismatch,
    IntegerOverflow,
    IntegerDivisionByZero,
    StackOverflow,
    ImmutableGlobalWrite,
    BadValueType,
}

impl TrapCode {
    /// A human-readable description of the trap kind.
    pub open spec fn spec_message(self) -> Seq<char> {
        match self {
            TrapCode::Unreachable => "unreachable executed"@,
            TrapCode::MemoryOutOfBounds => "out of bounds memory access"@,
            TrapCode::TableOutOfBounds => "out of bounds table access"@,
            TrapCode::IndirectCallTypeMismatch => "indirect call type mismatch"@,
            TrapCode::IntegerOverflow => "integer overflow"@,
            TrapCode::IntegerDivisionByZero => "integer division by zero"@,
            TrapCode::StackOverflow => "call stack exhausted"@,
            TrapCode::ImmutableGlobalWrite => "write to an immutable global"@,
            TrapCode::BadValueType => "value type mismatch"@,
        }
    }
}

/// A runtime trap: its kind and, when the trap's source is known, a
/// code offset within the module.
#[derive(Clone, Copy, PartialEq, Eq, Debug)]
pub struct RuntimeError {
    pub code: TrapCode,
    pub offset: Option<u32>,
}

impl RuntimeError {
    pub fn new(code: TrapCode, offset: Option<u32>) -> (r: RuntimeError)
        ensures
            r == (RuntimeError { code, offset }),
    {
        RuntimeError { code, offset }
    }

    /// Returns a human-readable description of the trap.
    pub fn message(&self) -> (r: String)
        ensures
            r@ == self.code.spec_message(),
    {
        match self.code {
            TrapCode::Unreachable => String::from_str("unreachable executed"),
            TrapCode::MemoryOutOfBounds => String::from_str("out of bounds memory access"),
            TrapCode::TableOutOfBounds => String::from_str("out of bounds table access"),
            TrapCode::IndirectCallTypeMismatch => String::from_str("indirect call type mismatch"),
            TrapCode::IntegerOverflow => String::from_str("integer overflow"),
            TrapCode::IntegerDivisionByZero => String::from_str("integer division by zero"),
            TrapCode::StackOverflow => String::from_str("call stack exhausted"),
            TrapCode::ImmutableGlobalWrite => String::from_str("write to an immutable global"),
            TrapCode::BadValueType => String::from_str("value type mismatch"),
        }
    }
}

/// Failure of a deferred host-environment initializer.
///
/// `index` is the position, among the resolved imports in declaration
/// order, of the function whose initializer failed; `handle` is that
/// function's native handle.
#[derive(Clone, Copy, PartialEq, Eq, Debug)]
pub struct HostEnvInitError {
    pub index: usize,
    pub handle: u64,
}

impl HostEnvInitError {
    /// Returns a human-readable description of the failure.
    pub fn message(&self) -> (r: String)
        ensures
            r@ == "error while initializing the host environment"@,
    {
        String::from_str("error while initializing the host environment")
    }
}

/// An error while instantiating a module.
///
/// The three kinds are mutually exclusive: an error during linking, a
/// trap raised by the module's start function, and a failure while
/// initializing a host function's environment.
#[derive(Clone, Debug)]
pub enum InstantiationError {
    /// A link error occurred during instantiation.
    Link(String),
    /// A runtime error occurred while invoking the start function.
    Start(RuntimeError),
    /// An error occurred when initializing the host environment.
    HostEnvInitialization(HostEnvInitError),
}

/// Mathematical model of an [`InstantiationError`].
pub enum InstantiationErrorV {
    Link(Seq<char>),
    Start(RuntimeError),
    HostEnvInitialization(HostEnvInitError),
}

impl View for InstantiationError {
    type V = InstantiationErrorV;

    open spec fn view(&self) -> InstantiationErrorV {
        match self {
            InstantiationError::Link(s) => InstantiationErrorV::Link(s@),
            InstantiationError::Start(t) => InstantiationErrorV::Start(*t),
            InstantiationError::HostEnvInitialization(e) => {
                InstantiationErrorV::HostEnvInitialization(*e)
            },
        }
    }
}

impl InstantiationError {
    /// The human-readable description of the error: link errors carry
    /// their diagnostic behind a fixed prefix, the other two kinds
    /// surface the underlying description unchanged.
    pub open spec fn spec_message(self) -> Seq<char> {
        match self@ {
            InstantiationErrorV::Link(s) => "Link error: "@ + s,
            InstantiationErrorV::Start(t) => t.code.spec_message(),
            InstantiationErrorV::HostEnvInitialization(_) => {
                "error while initializing the host environment"@
            },
        }
    }

    /// Returns a human-readable description of the error.
    pub fn message(&self) -> (r: String)
        ensures
            r@ == self.spec_message(),
    {
        match self {
            InstantiationError::Link(s) => {
                let prefix = String::from_str("Link error: ");
                prefix.concat(s.as_str())
            },
            InstantiationError::Start(t) => t.message(),
            InstantiationError::HostEnvInitialization(e) => e.message(),
        }
    }
}

} // verus!
