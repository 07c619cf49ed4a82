//! The supervisor's lifecycle, modelled as a trace of serialized `start`
//! calls.
//!
//! The host's lock serializes every call, so a history of calls is a
//! sequence.  Call `i` attempts a spawn exactly when the running flag is
//! still false at that point; `outcomes[i]` says whether that spawn would
//! succeed.  The proof functions here state the supervisor's start-once
//! guarantees over such traces.

use vstd::prelude::*;

verus! {

/// The running flag after one serialized `start` call: it stays set once
/// set, and becomes set exactly when a spawn was attempted and succeeded.
pub open spec fn running_after(running: bool, spawn_ok: bool) -> bool {
    running || spawn_ok
}

/// The running flag after the first `n` calls of a trace, starting from a
/// fresh supervisor.
pub open spec fn running_after_prefix(outcomes: Seq<bool>, n: int) -> bool
    decreases n,
{
    if n <= 0 {
        false
    } else {
        running_after(running_after_prefix(outcomes, n - 1), outcomes[n - 1])
    }
}

/// Call `i` of the trace reaches the spawn step: the flag is still false
/// when it runs, so it is not short-circuited.
pub open spec fn spawns_at(outcomes: Seq<bool>, i: int) -> bool {
    !running_after_prefix(outcomes, i)
}

/// Once the running flag is set it never reverts within the trace.
pub proof fn lemma_running_is_monotone(outcomes: Seq<bool>, m: int, n: int)
    requires
        0 <= m <= n,
        running_after_prefix(outcomes, m),
    ensures
        running_after_prefix(outcomes, n),
    decreases n - m,
{
    if m < n {
        lemma_running_is_monotone(outcomes, m, n - 1);
    }
}

/// The spawn operation succeeds at most once per trace: after the call
/// whose spawn succeeded, every later call is short-circuited and spawns
/// nothing.
pub proof fn lemma_spawn_at_most_once(outcomes: Seq<bool>, i: int, j: int)
    requires
        0 <= i < j,
        spawns_at(outcomes, i),
        outcomes[i],
    ensures
        !spawns_at(outcomes, j),
{
    assert(running_after_prefix(outcomes, i + 1));
    lemma_running_is_monotone(outcomes, i + 1, j);
}

/// The status flag is true after `n` calls exactly when some earlier call
/// attempted a spawn and that spawn succeeded; by monotonicity it then
/// stays true for the rest of the trace.
pub proof fn lemma_status_reflects_success(outcomes: Seq<bool>, n: int)
    requires
        0 <= n,
    ensures
        running_after_prefix(outcomes, n) <==> exists|i: int|
            0 <= i < n && #[trigger] spawns_at(outcomes, i) && outcomes[i],
    decreases n,
{
    if n > 0 {
        lemma_status_reflects_success(outcomes, n - 1);
        if running_after_prefix(outcomes, n) && !running_after_prefix(outcomes, n - 1) {
            assert(spawns_at(outcomes, n - 1) && outcomes[n - 1]);
        }
    }
}

/// A failed spawn leaves the flag false, so the very next call attempts
/// the spawn again instead of short-circuiting.
pub proof fn lemma_failed_spawn_retries(outcomes: Seq<bool>, i: int)
    requires
        0 <= i,
        spawns_at(outcomes, i),
        !outcomes[i],
    ensures
        !running_after_prefix(outcomes, i + 1),
        spawns_at(outcomes, i + 1),
{
}

} // verus!
