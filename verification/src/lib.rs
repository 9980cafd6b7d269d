//! A library for turning declared container commands into concrete runtime
//! invocations: resolving host paths against volume mounts, collecting the
//! dynamic mounts an argument list needs, and assembling and serializing the
//! final invocation.
//!
//! All filesystem, environment and identity facts are injected as plain
//! values, so the whole engine is pure and verified: probes say what the
//! host filesystem reports about a path, and the invoking user's identity
//! and environment variables come in as strings.

pub mod cache;
pub mod collect;
pub mod command;
pub mod docker;
pub mod image;
pub mod parser;
pub mod paths;
pub mod repo;
pub mod strutil;
pub mod volumes;
