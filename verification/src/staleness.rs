//! The staleness oracle: a pure decision over cached and remote metadata.

use vstd::prelude::*;

use crate::metadata::{CachedMetadata, ObjectMeta};

verus! {

/// Whether a managed artifact needs to be (re)installed.
#[derive(Clone, Copy, Debug, PartialEq, Eq, Structural)]
pub enum Staleness {
    /// The installed artifact matches the remote object.
    UpToDate,
    /// The artifact is missing, unrecorded, forced, or behind the remote.
    NeedsInstall,
}

/// How an entrypoint update run ended.
#[derive(Clone, Copy, Debug, PartialEq, Eq, Structural)]
pub enum EntrypointInstallation {
    /// A fresh artifact was downloaded and installed.
    Installed,
    /// The installed artifact was already current.
    Up2Date,
}

/// The decision table, in precedence order: a forced run, a missing
/// artifact and a missing cache record all require installation; otherwise
/// the cached and remote generation markers decide by equality alone.
pub open spec fn spec_decide(
    force: bool,
    artifact_present: bool,
    cached: Option<Seq<char>>,
    remote_generation: Seq<char>,
) -> Staleness {
    if force {
        Staleness::NeedsInstall
    } else if !artifact_present {
        Staleness::NeedsInstall
    } else if cached is None {
        Staleness::NeedsInstall
    } else if cached->0 == remote_generation {
        Staleness::UpToDate
    } else {
        Staleness::NeedsInstall
    }
}

/// Classify an artifact as up to date or requiring installation.  Pure: the
/// caller resolves filesystem presence and loads the cache record.
pub fn decide(
    force: bool,
    artifact_present: bool,
    cached: Option<&CachedMetadata>,
    remote: &ObjectMeta,
) -> (r: Staleness)
    ensures
        r == spec_decide(
            force,
            artifact_present,
            match cached {
                Some(c) => Some(c.generation@),
                None => None,
            },
            remote.generation@,
        ),
{
    if force {
        return Staleness::NeedsInstall;
    }
    if !artifact_present {
        return Staleness::NeedsInstall;
    }
    match cached {
        None => Staleness::NeedsInstall,
        Some(c) => {
            if c.generation == remote.generation {
                Staleness::UpToDate
            } else {
                Staleness::NeedsInstall
            }
        },
    }
}

/// The entrypoint binary is current: it exists on disk, a cache record was
/// found, and the recorded generation equals the remote one.
pub fn is_entrypoint_up2date(
    artifact_present: bool,
    cached: Option<&CachedMetadata>,
    remote: &ObjectMeta,
) -> (r: bool)
    ensures
        r == (artifact_present && match cached {
            Some(c) => c.generation@ == remote.generation@,
            None => false,
        }),
{
    let d = decide(false, artifact_present, cached, remote);
    match d {
        Staleness::UpToDate => true,
        Staleness::NeedsInstall => false,
    }
}

/// Law: with identical cached and remote generation markers, no force and
/// the artifact in place, a run decides `UpToDate`; running the decision any
/// number of times keeps returning it, so a second workflow invocation
/// installs nothing.
pub proof fn lemma_decide_idempotent(g: Seq<char>)
    ensures
        spec_decide(false, true, Some(g), g) == Staleness::UpToDate,
{
}

/// Law: a forced run always requires installation, whatever the artifact,
/// cache record and generation markers say.
pub proof fn lemma_force_overrides(
    artifact_present: bool,
    cached: Option<Seq<char>>,
    remote_generation: Seq<char>,
)
    ensures
        spec_decide(true, artifact_present, cached, remote_generation)
            == Staleness::NeedsInstall,
{
}

} // verus!
