//! A verified emitter for small WebAssembly modules.
//!
//! The library assembles a module from a declarative API: function types are
//! registered by arity and deduplicated, imported functions are registered
//! before any local definition and deduplicated by (module, name, arity),
//! local functions carry an already-encoded body, and `finish` serializes the
//! sections in the order the binary format fixes and runs the structural
//! validator over the result.

pub mod encode;
pub mod model;
pub mod emitter;
pub mod laws;

pub use emitter::Arity;
pub use emitter::TypeRef;
pub use emitter::FuncRef;
pub use emitter::ImportEntry;
pub use emitter::ExportEntry;
pub use emitter::ModEmitter;
