//! Plain data of the plotting transport.
//!
//! The transport itself — spawning the command-line tool that drives the
//! plotter and waiting on its result — is process work that lives outside
//! this library; only the transport's name is modelled here.

use vstd::prelude::*;
use vstd::string::StringExecFns;

verus! {

/// Identifies the external plotting tool by name.
pub struct Axidraw {
    name: String,
}

impl Axidraw {
    /// The name of the tool this transport drives.
    pub closed spec fn name_spec(&self) -> Seq<char> {
        self.name@
    }

    pub fn new() -> (r: Self)
        ensures
            r.name_spec() == "axidraw"@,
    {
        Axidraw { name: String::from_str("axidraw") }
    }
}

pub fn test() {
}

} // verus!
