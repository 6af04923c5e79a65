//! Options that steer a provisioning run.

use vstd::prelude::*;

verus! {

/// The switches the updater takes on its command line.  Argument parsing
/// itself stays with the caller; the engine only reads the resolved values.
#[derive(Clone, Copy, Debug, PartialEq, Eq, Structural)]
pub struct Opt {
    /// Display debug log.
    pub debug: bool,
    /// Force install even when everything looks current.
    pub force: bool,
}

} // verus!
