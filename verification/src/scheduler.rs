//! The background scheduler's lifecycle.
//!
//! All asynchronous work runs on one process-wide, lazily constructed
//! multi-worker scheduler. Construction is attempted at most once: the first
//! operation that needs the scheduler resolves it, and a construction
//! failure poisons it for the remaining life of the process, so every later
//! operation that needs it fails rather than silently degrading. The
//! one-time construction guard itself lives on the host-facing side; this
//! module holds the resolution rule it must follow.

use vstd::prelude::*;

verus! {

/// The state of the process-wide scheduler singleton.
#[derive(Clone, Copy, Debug, PartialEq, Eq, Structural)]
pub enum SchedulerState {
    /// No operation has needed the scheduler yet.
    Unbuilt,
    /// Construction succeeded; the scheduler serves every later operation.
    Ready,
    /// Construction failed; the failure is permanent.
    Poisoned,
}

/// The state after one observation of the construction guard, where
/// `build_ok` reports the construction attempt made if and only if the
/// scheduler was still unbuilt.
pub open spec fn spec_resolve(s: SchedulerState, build_ok: bool) -> SchedulerState {
    match s {
        SchedulerState::Unbuilt => if build_ok {
            SchedulerState::Ready
        } else {
            SchedulerState::Poisoned
        },
        SchedulerState::Ready => SchedulerState::Ready,
        SchedulerState::Poisoned => SchedulerState::Poisoned,
    }
}

/// Resolve the scheduler state on an operation that needs it.
pub fn resolve(s: SchedulerState, build_ok: bool) -> (r: SchedulerState)
    ensures
        r == spec_resolve(s, build_ok),
{
    match s {
        SchedulerState::Unbuilt => if build_ok {
            SchedulerState::Ready
        } else {
            SchedulerState::Poisoned
        },
        SchedulerState::Ready => SchedulerState::Ready,
        SchedulerState::Poisoned => SchedulerState::Poisoned,
    }
}

/// Whether asynchronous work may be submitted in this state.
pub fn is_usable(s: &SchedulerState) -> (r: bool)
    ensures
        r == (*s is Ready),
{
    match s {
        SchedulerState::Ready => true,
        _ => false,
    }
}

/// Law: resolution is one-time and a construction failure is permanent — a
/// resolved scheduler never changes state again, and a poisoned scheduler
/// never recovers.
pub proof fn lemma_resolution_permanent(first_ok: bool, later_ok: bool)
    ensures
        spec_resolve(spec_resolve(SchedulerState::Unbuilt, first_ok), later_ok) == spec_resolve(
            SchedulerState::Unbuilt,
            first_ok,
        ),
        spec_resolve(SchedulerState::Poisoned, later_ok) is Poisoned,
        spec_resolve(SchedulerState::Ready, later_ok) is Ready,
{
}

} // verus!
