//! Resolving the remote object name for this host.

use vstd::prelude::*;
use vstd::string::*;

use crate::error::Error;
use crate::text::str_eq;

verus! {

/// The architecture/OS pairs entrypoint binaries are published for.  The
/// pair must resolve to exactly one of these or the run aborts; there is no
/// best-effort fallback.
#[derive(Clone, Copy, Debug, PartialEq, Eq, Structural)]
pub enum Target {
    Amd64Linux,
    Arm64Linux,
}

/// Which target a host's architecture and OS identifiers name, if any.
pub open spec fn spec_target_of(arch: Seq<char>, os: Seq<char>) -> Option<Target> {
    if os == "linux"@ && arch == "x86_64"@ {
        Some(Target::Amd64Linux)
    } else if os == "linux"@ && arch == "aarch64"@ {
        Some(Target::Arm64Linux)
    } else {
        None
    }
}

/// The suffix a target appends to a published binary's base name.
pub open spec fn spec_target_suffix(t: Target) -> Seq<char> {
    match t {
        Target::Amd64Linux => "-x86_64-unknown-linux-musl.xz"@,
        Target::Arm64Linux => "-aarch64-unknown-linux-musl.xz"@,
    }
}

/// Resolve the host's architecture and OS identifiers — as the compiler
/// names them — to a supported target.
pub fn detect(arch: &str, os: &str) -> (r: Result<Target, Error>)
    ensures
        match spec_target_of(arch@, os@) {
            Some(t) => r == Ok::<Target, Error>(t),
            None => r == Err::<Target, Error>(Error::UnsupportedTarget),
        },
{
    if !str_eq(os, "linux") {
        return Err(Error::UnsupportedTarget);
    }
    if str_eq(arch, "x86_64") {
        Ok(Target::Amd64Linux)
    } else if str_eq(arch, "aarch64") {
        Ok(Target::Arm64Linux)
    } else {
        Err(Error::UnsupportedTarget)
    }
}

impl Target {
    /// The store object name of the published binary `base` for this
    /// target.
    pub fn remote_binary_name(&self, base: &str) -> (r: String)
        ensures
            r@ == base@ + spec_target_suffix(*self),
    {
        match self {
            Target::Amd64Linux => String::from_str(base).concat("-x86_64-unknown-linux-musl.xz"),
            Target::Arm64Linux => String::from_str(base).concat("-aarch64-unknown-linux-musl.xz"),
        }
    }
}

} // verus!
