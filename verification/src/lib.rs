//! An incremental program-image state machine for an interactive,
//! line-oriented shell over a compiled language.
//!
//! The library keeps two snapshots of an accumulating program: a
//! *committed* image (the last known-good program) and a *working* image
//! (committed plus one speculative statement). Input lines are classified,
//! merged into the working image, rendered to source text for an external
//! toolchain, and then either promoted to committed or rolled back,
//! depending on the toolchain's diagnostics.

pub mod classify;
pub mod engine;
pub mod image;
pub mod text;
