//! Target-resolution and fan-out execution core for a multi-target build
//! tool: a registry of known build targets, a fallback policy that picks a
//! target set when none is named explicitly, and an executor that applies one
//! action to every resolved target and aggregates the per-target outcomes.

pub mod android;
pub mod cli;
pub mod mixins;
pub mod opts;
pub mod target;
pub mod registry;
pub mod resolve;
pub mod execute;
