//! The backends for Unix-like systems.

use vstd::prelude::*;
use crate::platform::backend::{result_view, run, run_result, PlatformProvider, ProbeOutcome, ResolveError};
use crate::types::FullPortInfo;

pub mod bsd;
pub mod linux;

verus! {

/// Answers a lookup of `port` on the Unix backend `P` from the way its
/// discovery command ended.
///
/// Gives the listeners on exactly `port` among the lines that the command
/// printed, in their order, whatever status the command reported; none is a
/// normal answer. A command that could not be started, or whose output is
/// not valid UTF-8, gives `ExecutionFailed`.
pub fn check_port<P: PlatformProvider>(port: u16, outcome: ProbeOutcome) -> (r: Result<
    Vec<FullPortInfo>,
    ResolveError,
>)
    ensures
        result_view(r) == run_result::<P>(port, outcome),
        r matches Ok(found) ==> forall|k: int|
            0 <= k < found.len() ==> (#[trigger] found[k]).base.port == port,
{
    run::<P>(port, outcome)
}

} // verus!
