//! The standard command-line flags that programs carry.

use vstd::prelude::*;

verus! {

/// The set of standard flags shared by command-line programs. Reading them
/// out of the argument vector is the program boundary's concern; this type
/// carries the parsed result.
#[derive(Clone, Copy, Debug, Eq, PartialEq, Structural)]
pub struct StandardOptions {
    /// Enable debugging output.
    pub debug: bool,
    /// Show license information.
    pub license: bool,
    /// Verbosity, raised by one for each repetition of the flag.
    pub verbose: u8,
    /// Print version information.
    pub version: bool,
}

impl Default for StandardOptions {
    /// Every flag starts switched off, with zero verbosity.
    fn default() -> (r: Self)
        ensures
            r == (StandardOptions { debug: false, license: false, verbose: 0u8, version: false }),
    {
        StandardOptions { debug: false, license: false, verbose: 0, version: false }
    }
}

} // verus!
