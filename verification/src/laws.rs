use vstd::prelude::*;

use crate::scheduler::{
    clamped_sub, max64, min64, spec_after_failure, spec_after_success, spec_allowable,
    SchedulerState,
};
use crate::types::{AllocationRequest, AllocationStatus};

verus! {

/// The minimum of two mathematical integers.
pub open spec fn min_int(a: int, b: int) -> int {
    if a <= b {
        a
    } else {
        b
    }
}

/// The scheduler state after `k` successful ticks, each releasing its
/// allowable amount. The tick times do not matter here: neither the released
/// total nor the chunk depends on them.
pub open spec fn spec_success_run(
    state: SchedulerState,
    req: AllocationRequest,
    k: nat,
) -> SchedulerState
    decreases k,
{
    if k == 0 {
        state
    } else {
        let prev = spec_success_run(state, req, (k - 1) as nat);
        spec_after_success(prev, req, spec_allowable(prev, req), prev.next_release_time)
    }
}

/// The `k`-th power of two, as a mathematical integer.
pub open spec fn pow2n(k: nat) -> int
    decreases k,
{
    if k == 0 {
        1
    } else {
        2 * pow2n((k - 1) as nat)
    }
}

pub proof fn lemma_pow2n_pos(k: nat)
    ensures
        pow2n(k) >= 1,
    decreases k,
{
    if k > 0 {
        lemma_pow2n_pos((k - 1) as nat);
    }
}

/// The two clamped subtractions of the allowable-release computation fold
/// into one subtraction from the effective target `min(requested, cap)`.
pub proof fn lemma_allowable_as_target(state: SchedulerState, req: AllocationRequest)
    ensures
        spec_allowable(state, req) == min64(
            state.current_chunk,
            clamped_sub(req.spec_target(), state.released_total),
        ),
{
}

/// Monotonicity: across successive successful ticks of one allocation the
/// released total never decreases, so the `released` values recorded in
/// successive `Active` states form a non-decreasing sequence.
pub proof fn lemma_released_monotonic(
    state: SchedulerState,
    req: AllocationRequest,
    i: nat,
    j: nat,
)
    requires
        i <= j,
    ensures
        spec_success_run(state, req, i).released_total <= spec_success_run(
            state,
            req,
            j,
        ).released_total,
    decreases j,
{
    if i < j {
        lemma_released_monotonic(state, req, i, (j - 1) as nat);
    }
}

/// A released total that starts within the effective target
/// `min(requested_units, cap)` stays within it through every successful
/// tick.
pub proof fn lemma_released_bounded(state: SchedulerState, req: AllocationRequest, k: nat)
    requires
        state.released_total <= req.spec_target(),
    ensures
        spec_success_run(state, req, k).released_total <= req.spec_target(),
    decreases k,
{
    if k > 0 {
        lemma_released_bounded(state, req, (k - 1) as nat);
        lemma_allowable_as_target(spec_success_run(state, req, (k - 1) as nat), req);
    }
}

/// The chunk doubles each successful tick, so after `k` ticks it is at least
/// `2^k`, up to saturation.
pub proof fn lemma_chunk_floor(state: SchedulerState, req: AllocationRequest, k: nat)
    requires
        state.current_chunk >= 1,
    ensures
        spec_success_run(state, req, k).current_chunk as int >= min_int(
            pow2n(k),
            u64::MAX as int,
        ),
    decreases k,
{
    if k > 0 {
        lemma_chunk_floor(state, req, (k - 1) as nat);
        lemma_pow2n_pos((k - 1) as nat);
    }
}

/// Progress: after `k` successful ticks the released total has grown by at
/// least `2^k - 1`, unless the effective target was reached first. This is
/// the doubling-chunk growth law behind the logarithmic tick bound.
pub proof fn lemma_release_progress(state: SchedulerState, req: AllocationRequest, k: nat)
    requires
        state.current_chunk >= 1,
        state.released_total <= req.spec_target(),
    ensures
        spec_success_run(state, req, k).released_total as int >= min_int(
            req.spec_target() as int,
            state.released_total + pow2n(k) - 1,
        ),
    decreases k,
{
    if k > 0 {
        let prev = spec_success_run(state, req, (k - 1) as nat);
        lemma_release_progress(state, req, (k - 1) as nat);
        lemma_released_bounded(state, req, (k - 1) as nat);
        lemma_chunk_floor(state, req, (k - 1) as nat);
        lemma_pow2n_pos((k - 1) as nat);
        lemma_allowable_as_target(prev, req);
    }
}

/// Termination, in its logarithmic form: once `2^k - 1` covers the distance
/// from the starting released total to the effective target, the `k`-th tick
/// finds nothing left to release and the scheduler completes.
pub proof fn lemma_termination_bound(state: SchedulerState, req: AllocationRequest, k: nat)
    requires
        state.current_chunk >= 1,
        state.released_total <= req.spec_target(),
        state.released_total + pow2n(k) - 1 >= req.spec_target(),
    ensures
        spec_allowable(spec_success_run(state, req, k), req) == 0,
{
    lemma_release_progress(state, req, k);
    lemma_released_bounded(state, req, k);
    lemma_allowable_as_target(spec_success_run(state, req, k), req);
}

/// Termination: from any state with a positive chunk — the initial state
/// always has one — some tick within the first 64 finds nothing left to
/// release, whatever the request.
pub proof fn lemma_scheduler_terminates(state: SchedulerState, req: AllocationRequest)
    requires
        state.current_chunk >= 1,
    ensures
        exists|k: nat|
            k <= 64 && spec_allowable(spec_success_run(state, req, k), req) == 0,
{
    if state.released_total > req.spec_target() {
        lemma_allowable_as_target(state, req);
        assert(spec_allowable(spec_success_run(state, req, 0), req) == 0);
    } else {
        lemma_pow2n_64();
        lemma_termination_bound(state, req, 64);
        assert(spec_allowable(spec_success_run(state, req, 64), req) == 0);
    }
}

proof fn lemma_pow2n_64()
    ensures
        pow2n(64) > u64::MAX as int,
{
    reveal_with_fuel(pow2n, 65);
    assert(pow2n(64) == 0x1_0000_0000_0000_0000);
}

/// Retry-on-failure: a failed delivery changes nothing, so a tick that
/// fails any number of times before succeeding releases exactly what a
/// directly successful tick would have — no double-counting and no skipped
/// units.
pub proof fn lemma_retry_matches_direct_success(
    state: SchedulerState,
    req: AllocationRequest,
    now: u64,
)
    ensures
        spec_after_failure(state) == state,
        spec_allowable(spec_after_failure(state), req) == spec_allowable(state, req),
        spec_after_success(spec_after_failure(state), req, spec_allowable(state, req), now)
            == spec_after_success(state, req, spec_allowable(state, req), now),
{
}

/// Cap enforcement: where the cap is tighter than the requested total the
/// effective target is the cap itself, so a completed run has released
/// exactly `cap_units` — see the contract of `run_allocation_simulation`.
pub proof fn lemma_cap_is_target(req: AllocationRequest, c: u64)
    requires
        req.cap_units == Some(c),
        c <= req.requested_units,
    ensures
        req.spec_target() == c,
        req.spec_initial_released() <= c ==> max64(req.spec_initial_released(), req.spec_target())
            == c,
{
}

/// Registration of a fresh identifier stores the request with status
/// `Pending`, and the identifier is no longer fresh afterwards, so a second
/// registration under it fails whatever its payload — see the contracts of
/// `register_validated` and `Store::read`.
pub proof fn lemma_register_then_read(
    m: Map<Seq<char>, (AllocationRequest, AllocationStatus)>,
    req: AllocationRequest,
    other: AllocationRequest,
)
    requires
        !m.contains_key(req.id@),
        other.id@ == req.id@,
    ensures
        ({
            let m1 = m.insert(req.id@, (req, AllocationStatus::Pending));
            &&& m1.contains_key(req.id@)
            &&& m1[req.id@] == (req, AllocationStatus::Pending)
            &&& m1[req.id@].1.is_pending()
            &&& m1.contains_key(other.id@)
        }),
{
}

} // verus!
