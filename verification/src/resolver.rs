//! The import-resolution capability supplied by the caller of
//! instantiation.

use crate::externals::Extern;
use crate::types::ExternType;
use vstd::prelude::*;

verus! {

/// Maps an import request to a live extern value.
///
/// Instantiation queries `resolve` once per import descriptor of the
/// module, in declaration order. Returning `None` fails the import;
/// returning a value of a type other than `ty` fails it as well, as
/// type-incompatible. The method takes `&mut self` so that an
/// implementation may keep state of its own, such as a call counter or
/// a supply of fresh handles; no contract constrains what it returns.
pub trait Resolver {
    /// Resolves the import `name` from the namespace `module`, with
    /// expected type `ty`.
    fn resolve(&mut self, module: &str, name: &str, ty: &ExternType) -> Option<Extern>;
}

} // verus!
