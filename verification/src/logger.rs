//! The operator-visible progress log. Formatting and the output channel are
//! the binary's concern; the library only carries the handle through the
//! components that report their steps.

use vstd::prelude::*;

verus! {

/// A handle for reporting deployment progress to the operator.
#[derive(Debug)]
pub struct Logger {}

impl Logger {
    pub fn new() -> Logger {
        Logger {  }
    }
}

impl Default for Logger {
    fn default() -> (r: Self)
        ensures
            r == (Logger {  }),
    {
        Logger::new()
    }
}

} // verus!
