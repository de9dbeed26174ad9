//! Helpers around the core: fixed settings, the engine's registry and what is
//! written to the log.

pub mod constants;
pub mod registry;
pub mod tracing;
