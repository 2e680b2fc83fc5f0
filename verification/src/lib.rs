//! A resource-allocation release scheduler.
//!
//! Given a target quantity of units to release over time, the scheduler
//! progressively disburses them to an external delivery channel following a
//! doubling-chunk-size policy, subject to a safety cap, and tracks the
//! allocation lifecycle (Pending, Active, Completed, Cancelled) in a keyed
//! store.

mod clock;
mod error;
mod laws;
mod orchestrator;
mod scheduler;
mod store;
mod types;

pub use clock::current_unix_seconds;
pub use error::PencallError;
pub use laws::{
    lemma_allowable_as_target, lemma_cap_is_target, lemma_chunk_floor, lemma_register_then_read,
    lemma_release_progress, lemma_released_bounded, lemma_released_monotonic,
    lemma_retry_matches_direct_success, lemma_scheduler_terminates, lemma_termination_bound,
    min_int, pow2n, spec_success_run,
};
pub use orchestrator::{register_validated, Pencall, PolicyCheck};
pub use scheduler::{
    capped_add, capped_double, clamped_sub, lemma_allowable_zero_meets_target,
    lemma_success_keeps_bounds, max64, min64, run_allocation_simulation, spec_after_failure,
    spec_after_success, spec_allowable, spec_init_state, DeliveryProvider, RunOutcome, Scheduler,
    SchedulerState, StepOutcome, TickPlan, RETRY_BACKOFF_SECONDS,
};
pub use store::Store;
pub use types::{AllocationRequest, AllocationStatus, ReleaseEvent};
