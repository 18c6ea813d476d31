//! Instantiation and linking for compiled WebAssembly modules.
//!
//! A compiled [`module::Module`] carries static import and export
//! descriptors together with the outcome of native instantiation. A
//! caller-supplied [`resolver::Resolver`] maps each import descriptor to
//! a live [`externals::Extern`]. Instantiation resolves the imports in
//! declaration order, performs native instantiation (running the start
//! function, which may trap), materializes the exports as typed extern
//! values in declaration order, and finally runs the deferred
//! host-environment initializers of imported host functions against the
//! newly built [`instance::Instance`].

pub mod error;
pub mod exports;
pub mod externals;
pub mod instance;
pub mod module;
pub mod resolver;
pub mod types;

pub use error::HostEnvInitError;
pub use error::InstantiationError;
pub use error::RuntimeError;
pub use error::TrapCode;
pub use exports::Exports;
pub use externals::Extern;
pub use externals::Function;
pub use externals::FunctionEnv;
pub use externals::Global;
pub use externals::Memory;
pub use externals::Table;
pub use instance::Instance;
pub use module::ExportType;
pub use module::ImportType;
pub use module::Module;
pub use module::NativeExport;
pub use module::Store;
pub use resolver::Resolver;
pub use types::ExternType;
pub use types::FunctionType;
pub use types::GlobalType;
pub use types::MemoryType;
pub use types::TableType;
pub use types::ValType;
pub use types::Value;
