//! Debug-output logging is an external collaborator: only the logger's
//! configuration lives here; formatting and emission run with the host
//! bindings.

use vstd::prelude::*;

verus! {

/// Configuration of the kernel debug logger: the fixed prefix stamped on
/// every line.
pub struct KernelLogger {
    pub prefix: &'static str,
}

} // verus!
