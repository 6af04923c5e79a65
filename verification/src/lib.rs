//! Provisioning engine for a shell-environment bootstrapper.
//!
//! The library decides whether a locally installed artifact (an entrypoint
//! binary or a vendor bundle of precompiled tools) is stale relative to a
//! remote object store, narrows remote candidates to the ones usable on this
//! host, models the atomic replacement of an installed artifact, and encodes
//! the small cache record that remembers which object generation was last
//! installed.  Network and filesystem access stay with the caller; every
//! decision the engine takes is a function of plain values.

pub mod build_info;
pub mod decompress;
pub mod error;
pub mod installer;
pub mod metadata;
pub mod options;
pub mod quoting;
pub mod staleness;
pub mod target;
pub mod tmux;
pub mod text;
pub mod vendor;
