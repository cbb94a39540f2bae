//! A verified compile/load/execute pipeline for user-defined functions whose
//! bodies are snippets of native source code.
//!
//! The library turns a function identifier plus a source body into a
//! self-contained compilation unit, tracks artifact generations so a rebuilt
//! function is never served a stale image by the platform's dynamic linker,
//! and keeps a per-session cache that maps each identifier to at most one
//! loaded artifact handle.
//!
//! All filesystem access, toolchain invocation and dynamic loading are
//! performed by the host embedding this library; the library makes every
//! decision (what to render, which paths to use, when a load is needed, what
//! to cache) and states those decisions in its contracts.

pub mod error;
pub mod generation;
pub mod names;
pub mod plrust;
pub mod user_crate;

pub use error::PlRustError;
pub use plrust::{contains_str, output_has_warnings, Config, EvalPlan, Session};
pub use generation::{latest_generation, next_generation, parse_generation};
pub use names::{crate_name, dec_string, symbol_name};
pub use user_crate::state_loaded::{Invocation, LoadFault, StateLoaded};
pub use user_crate::{
    dummy_user_fn, ArgSpec, BuildOutput, ProvisionFile, SourceUnit, StateBuilt, StateGenerated,
    StateProvisioned,
};
