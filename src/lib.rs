//! Declarative provisioning of a workspace of git repositories.
//!
//! The library resolves a workspace declaration, supplies SSH credentials for
//! clones, and decides, step by step, which version-control operations bring
//! a workspace to its declared state. Performing those operations is left to
//! the caller, which reports each outcome back.
pub mod config;
pub mod credentials;
pub mod reconcile;
pub mod laws;
