//! The writable destinations an output sink can offer.
//!
//! A sink is one of three kinds: a running pager's input pipe, the
//! process's standard output, or a capture sink that offers no writable
//! destination at all — asking one of it is a caller-side logic error, not
//! a runtime failure.

use vstd::prelude::*;
use crate::resolve::PagerPlan;

verus! {

/// The kind of sink one resolution produced.
#[derive(Clone, Copy, Debug, PartialEq, Eq, Structural)]
pub enum SinkKind {
    /// Holds a running pager child; writes go to its input pipe, and
    /// disposal blocks until the child exits.
    Pager,
    /// Writes go to the process's standard output.
    Standard,
    /// No writable destination exists.
    Capture,
}

/// Where a sink's writes land.
#[derive(Clone, Copy, Debug, PartialEq, Eq, Structural)]
pub enum WriteTarget {
    PagerInput,
    ProcessStdout,
}

/// The writable destination of a sink of kind `kind`: exactly the capture
/// sink has none, so a request against it signals the logic error instead
/// of returning a handle.
pub fn writable_target(kind: &SinkKind) -> (r: Option<WriteTarget>)
    ensures
        r is None <==> kind is Capture,
        kind is Pager ==> r == Some(WriteTarget::PagerInput),
        kind is Standard ==> r == Some(WriteTarget::ProcessStdout),
{
    match kind {
        SinkKind::Pager => Some(WriteTarget::PagerInput),
        SinkKind::Standard => Some(WriteTarget::ProcessStdout),
        SinkKind::Capture => None,
    }
}

/// The kind of sink a plan ends up as, given whether the one spawn attempt
/// succeeded: the non-spawning plans keep their kind, and a failed spawn
/// degrades once to the standard sink — never a retry.  The self-recursion
/// case terminates the process instead and reaches no sink.
pub fn sink_kind_for(plan: &PagerPlan, spawn_succeeded: bool) -> (r: SinkKind)
    requires
        !(plan is SelfRecursion),
    ensures
        plan is Capture ==> r == SinkKind::Capture,
        plan is Standard ==> r == SinkKind::Standard,
        plan is LessPager || plan is GenericPager ==> r == (if spawn_succeeded {
            SinkKind::Pager
        } else {
            SinkKind::Standard
        }),
{
    match plan {
        PagerPlan::Capture => SinkKind::Capture,
        PagerPlan::Standard => SinkKind::Standard,
        _ => if spawn_succeeded {
            SinkKind::Pager
        } else {
            SinkKind::Standard
        },
    }
}

} // verus!
