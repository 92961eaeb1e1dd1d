//! Boundary adapter between a host-controlled module-loading environment and
//! an embedded compiler engine.
//!
//! The host hands this crate untyped descriptors of modules and files; the
//! crate validates them into typed compilation units, tracks the engine's
//! diagnostic events, and decides the outcome of one compile request. The
//! engine itself and the host's storage are external collaborators; the
//! unverified plumbing that talks to them lives outside this library.

pub mod driver;
pub mod handler;
pub mod host;
pub mod loader;
pub mod model;
pub mod resolver;
