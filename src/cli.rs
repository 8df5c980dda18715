//! Command-line options of the tool.
use vstd::prelude::*;

verus! {

/// The options the tool is run with.
pub struct Cli {
    /// The network-configuration command whose output is read.
    pub command: String,
}

} // verus!
