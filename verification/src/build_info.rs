//! The version string a build reports about itself.

use vstd::prelude::*;
use vstd::string::*;

verus! {

/// The reported version: the build's short revision hash when one was
/// recorded, the word `development` for an unreleased debug build, nothing
/// otherwise.
pub fn get_version(hash: Option<&String>, dev: bool) -> (r: Option<String>)
    ensures
        match hash {
            Some(h) => r matches Some(s) && s@ == "#"@ + h@,
            None => if dev {
                r matches Some(s) && s@ == "development"@
            } else {
                r is None
            },
        },
{
    match hash {
        Some(h) => Some(String::from_str("#").concat(h.as_str())),
        None => {
            if dev {
                Some(String::from_str("development"))
            } else {
                None
            }
        },
    }
}

} // verus!
