//! The priority guard: a scoped raise of the firmware's execution priority.
//!
//! A critical section raises the priority to the highest tier and holds a
//! token carrying the level that was in effect; releasing the token restores
//! that level. While the highest tier is held, no other priority-bounded
//! activity can observe the table mid-update.

use vstd::prelude::*;

verus! {

/// The ordinary application priority tier.
pub const TPL_APPLICATION: usize = 4;

/// The deferred-callback priority tier, where the relocation notification is
/// delivered.
pub const TPL_CALLBACK: usize = 8;

/// The highest priority tier: holding it excludes every other
/// priority-bounded activity.
pub const TPL_HIGH_LEVEL: usize = 31;

/// The execution priority currently in effect.
pub struct PriorityState {
    pub level: usize,
}

impl PriorityState {
    /// The priority in effect when the driver entry point runs.
    pub fn at_application_level() -> (r: PriorityState)
        ensures
            r.level == TPL_APPLICATION,
    {
        PriorityState { level: TPL_APPLICATION }
    }
}

/// The token a critical section holds: the level to restore on release,
/// never inspected otherwise.
pub struct PriorityGuard {
    pub saved: usize,
}

/// Raises the execution priority to the highest tier; the returned token
/// remembers the level that was in effect.
pub fn acquire(prio: &mut PriorityState) -> (guard: PriorityGuard)
    requires
        old(prio).level <= TPL_HIGH_LEVEL,
    ensures
        final(prio).level == TPL_HIGH_LEVEL,
        guard.saved == old(prio).level,
{
    let saved = prio.level;
    prio.level = TPL_HIGH_LEVEL;
    PriorityGuard { saved }
}

/// Restores the execution priority captured in `guard`; taking the token by
/// value makes a second release of the same section impossible.
pub fn release(prio: &mut PriorityState, guard: PriorityGuard)
    ensures
        final(prio).level == guard.saved,
{
    prio.level = guard.saved;
}

} // verus!
