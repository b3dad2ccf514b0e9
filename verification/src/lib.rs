//! Lifecycle supervision for one locally launched server process.
//!
//! The crate decides; its caller performs. Probing the port, starting the
//! process and signalling it are left to the caller, which reports each
//! outcome back as a plain value.

pub mod endpoint;
pub mod error;
pub mod supervisor;
pub mod lifecycle;
pub mod launch;
