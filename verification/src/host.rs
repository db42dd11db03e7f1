//! What the library reads of the host machine.

use vstd::prelude::*;

verus! {

/// Calls `std::path::Path::exists` on `path`: whether something exists
/// there. The answer depends on the file system at the time of the call,
/// so nothing is stated of it.
#[verifier::external_body]
pub(crate) fn path_exists(path: &str) -> bool {
    std::path::Path::new(path).exists()
}

} // verus!
