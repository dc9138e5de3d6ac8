//! Build-time description of SQL queries: resolving the macro input, choosing a
//! database backend, the offline snapshot of descriptions, mapping column types
//! to host types, and choosing how the binding is generated.

pub mod backend;
pub mod cache;
pub mod describe;
pub mod expand;
pub mod input;
pub mod mapping;
pub mod output;
pub mod text;

pub use expand::{expand_from_file, expand_input};
pub use input::{QueryMacroInput, RecordType};
