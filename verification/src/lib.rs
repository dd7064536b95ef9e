//! Execution backend of a function-as-a-service worker.
//!
//! The library provisions an isolated execution environment for a single
//! invocation of user-supplied code, runs that code, captures its output and
//! tears the environment down.  Two interchangeable isolation backends exist:
//! an OS-container backend driven through a remote container-engine API, and a
//! WebAssembly sandbox backend that compiles and executes a WASI-capable
//! module in-process with virtualized standard streams.

pub mod bridge;
pub mod container;
pub mod docker;
pub mod endpoint;
pub mod errors;
pub mod image;
pub mod registry;
pub mod scheduler;
pub mod text;
pub mod wasm;
