//! Release-engineering helpers: triage of a build tool's output, and the
//! generation of the lock artifact that a newly generated downstream project
//! would produce.
//!
//! The library performs no input or output. Whatever touches processes or
//! files is described as data that a driver acts upon.

pub mod text;
pub mod error;
pub mod lock;
pub mod manifest;
pub mod executor;
pub mod scaffold;
pub mod root;
pub mod dispatch;

pub use executor::run_cmd;
