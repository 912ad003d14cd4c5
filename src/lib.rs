//! Declarative reconciliation of installed packages against a desired state,
//! gated by conditions on the host.
pub mod args;
pub mod config;
pub mod errors;
pub mod filter;
pub mod package_managers;
pub mod version;
