//! Decision logic of a bridge between a desktop shell and a local
//! language-model runtime: prompt construction, interpretation of what the
//! runtime process reported, deterministic stand-in output when inference is
//! unavailable, and the readiness state that guards generation.
//!
//! The library performs no I/O. The shell around it runs the runtime process,
//! hands the library plain values describing what happened, and carries out
//! what the library decides.

pub mod fallback;
pub mod inference;
pub mod prompts;
pub mod readiness;
pub mod session;
pub mod text;

pub use readiness::AppState;
