//! Keywright core engine (UI-agnostic): typed errors and the decision registry.

use vstd::prelude::*;

pub mod errors;
pub mod laws;
pub mod registry;

pub use errors::{Error, Result};

verus! {

/// The version string of this crate, as its manifest declares it.
pub open spec fn crate_version() -> Seq<char> {
    "0.0.1"@
}

/// Returns the compiled crate version.
pub fn version() -> (v: &'static str)
    ensures
        v@ == crate_version(),
        v@ == seq!['0', '.', '0', '.', '1'],
{
    proof {
        reveal_strlit("0.0.1");
    }
    "0.0.1"
}

} // verus!
