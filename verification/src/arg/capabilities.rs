use vstd::prelude::*;

verus! {

/// What can be asked about the capabilities of the bridge.
#[derive(Clone, Copy, Debug, PartialEq, Eq)]
pub enum Arg {
    /// Prints capabilities of resources.
    Get,
}

} // verus!
