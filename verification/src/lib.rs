//! Backend command layer for a desktop application shell: a process-wide
//! store for one base-URL configuration string, a greeting formatter, and
//! the pure part of the host environment-variable passthrough.

pub mod config;
pub mod env_vars;
pub mod greeting;
