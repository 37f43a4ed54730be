//! Resolution of the functions that a shader source declares, some of them
//! by reference to files of definitions.

pub mod import_cache;
pub mod laws;
pub mod loader;
pub mod resolver;

pub use import_cache::{FileContents, ImportCache};
pub use loader::{generate_shader_str, ShaderError, ShaderStep};
pub use resolver::{generate_imported_functions, ImportStep, ResolveError};
