//! Per-test filesystem sandboxing: a private working directory per test
//! execution, plus a staging operation that copies fixture files and
//! directories into the sandbox at caller-chosen locations.
//!
//! The path policy (source resolution, destination placement, separator
//! handling, usage-error rules) is verified; the filesystem itself is reached
//! through a small set of trusted calls into `tempfile`, `fs_err` and
//! `fs_extra`.

pub mod errors;
mod fsio;
pub mod paths;
pub mod runtime;
pub mod sandbox;
pub mod staging;

pub use errors::AssayError;
pub use runtime::Runtime;
pub use sandbox::PrivateFS;
pub use staging::{SourceKind, StagePlan};
