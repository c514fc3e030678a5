use vstd::prelude::*;

verus! {

/// Answer index of "All" in a four-button question.
pub const CHOICE_ALL: usize = 0;

/// Answer index of "Yes".
pub const CHOICE_YES: usize = 1;

/// Answer index of "No".
pub const CHOICE_NO: usize = 2;

/// Answer index of "Cancel".
pub const CHOICE_CANCEL: usize = 3;

/// The cached decision a four-button answer leaves behind: "All" answers yes
/// for the remainder of the operation, "Cancel" answers no for the remainder,
/// the two plain answers decide the current item alone.
pub open spec fn policy_after(action: usize) -> Option<bool> {
    if action == CHOICE_ALL {
        Some(true)
    } else if action == CHOICE_CANCEL {
        Some(false)
    } else {
        None
    }
}

/// Whether a four-button answer confirms the current item.
pub open spec fn confirms(action: usize) -> bool {
    action < CHOICE_NO
}

/// Applies a four-button answer to a decision that was still open: caches
/// what "All" or "Cancel" decided for the remainder, and says whether the
/// current item is confirmed.
pub fn policy_update(policy: &mut Option<bool>, action: usize) -> (confirmed: bool)
    requires
        *old(policy) is None,
    ensures
        confirmed == confirms(action),
        *final(policy) == policy_after(action),
{
    if action == CHOICE_ALL {
        *policy = Some(true);
    } else if action == CHOICE_CANCEL {
        *policy = Some(false);
    }
    action < CHOICE_NO
}

/// The least time between two progress messages, in milliseconds.
pub const PROGRESS_INTERVAL_MS: u64 = 10;

/// Whether a progress message may be shown now: at least the throttle
/// interval has passed since the last one was shown.  A clock that moved
/// backwards stays quiet.
pub fn progress_due(now_ms: u64, last_ms: u64) -> (r: bool)
    ensures
        r == (now_ms >= last_ms + PROGRESS_INTERVAL_MS),
{
    now_ms >= last_ms && now_ms - last_ms >= PROGRESS_INTERVAL_MS
}

} // verus!
