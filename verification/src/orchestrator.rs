use vstd::prelude::*;

use crate::error::PencallError;
use crate::scheduler::{spec_init_state, Scheduler};
use crate::store::Store;
use crate::types::{AllocationRequest, AllocationStatus};

verus! {

/// The authorization/policy gate, evaluated once, synchronously, before a
/// request is registered.
///
/// Implementors supply the policy; any error stands for rejection and is
/// returned to the caller unchanged, with nothing registered.
pub trait PolicyCheck {
    /// Approves (`Ok`) or rejects (any error) a request.
    fn authorize(&self, req: &AllocationRequest) -> Result<(), PencallError>;
}

/// Registers a request that has already passed the policy gate.
///
/// Succeeds exactly when the request is well-formed and its identifier is
/// fresh; then the allocation exists with status `Pending`. Otherwise fails
/// with `InvalidArgs` and changes nothing.
pub fn register_validated(store: &mut Store, req: AllocationRequest) -> (r: Result<
    (),
    PencallError,
>)
    ensures
        req.spec_valid() && !old(store)@.contains_key(req.id@) ==> (r matches Ok(_))
            && final(store)@ == old(store)@.insert(req.id@, (req, AllocationStatus::Pending)),
        !(req.spec_valid() && !old(store)@.contains_key(req.id@)) ==> (r matches Err(
            PencallError::InvalidArgs(_),
        )) && final(store)@ == old(store)@,
{
    if req.requested_units == 0 {
        return Err(PencallError::InvalidArgs("requested_units must be > 0".to_owned()));
    }
    if req.doubling_interval_seconds == 0 {
        return Err(PencallError::InvalidArgs("doubling_interval_seconds must be > 0".to_owned()));
    }
    store.register(req)
}

/// The orchestrator: the operable surface that registers requests and
/// activates allocations against a store the embedding system owns.
pub struct Pencall<P: PolicyCheck> {
    policy: P,
}

impl<P: PolicyCheck> Pencall<P> {
    /// The policy gate this orchestrator consults.
    pub closed spec fn policy_spec(&self) -> P {
        self.policy
    }

    /// Creates an orchestrator around the given policy gate.
    pub fn new(policy: P) -> (s: Self)
        ensures
            s.policy_spec() == policy,
    {
        Pencall { policy }
    }

    /// Registers an allocation: the policy gate runs first and its error is
    /// returned as-is with nothing registered; then the request is validated
    /// and stored with status `Pending`.
    ///
    /// Success implies the request was well-formed and its identifier fresh;
    /// any failure leaves the store unchanged. On a well-formed request with
    /// a fresh identifier only the policy gate may refuse.
    pub fn register_allocation(&self, store: &mut Store, req: AllocationRequest) -> (r: Result<
        (),
        PencallError,
    >)
        ensures
            (r matches Ok(_)) ==> req.spec_valid() && !old(store)@.contains_key(req.id@)
                && final(store)@ == old(store)@.insert(req.id@, (req, AllocationStatus::Pending)),
            (r matches Err(_)) ==> final(store)@ == old(store)@,
    {
        match self.policy.authorize(&req) {
            Ok(_) => {},
            Err(e) => {
                return Err(e);
            },
        }
        register_validated(store, req)
    }

    /// Activates a `Pending` allocation: moves its status to `Active` with
    /// the request's initial release and `last_release_at = now`, and hands
    /// back the scheduler that will run its release schedule.
    ///
    /// Fails with `InvalidArgs`, changing nothing, exactly when the
    /// identifier is absent or the status is not `Pending` (re-activation
    /// and activation of `Completed` or `Cancelled` allocations included).
    pub fn activate(&self, store: &mut Store, allocation_id: &str, now: u64) -> (r: Result<
        Scheduler,
        PencallError,
    >)
        ensures
            ({
                let id = allocation_id@;
                let m = old(store)@;
                &&& (m.contains_key(id) && m[id].1.is_pending() ==> (r matches Ok(sched)
                    && sched.req == m[id].0 && sched.state == spec_init_state(m[id].0))
                    && final(store)@ == m.insert(
                    id,
                    (
                        m[id].0,
                        AllocationStatus::Active {
                            released: m[id].0.spec_initial_released(),
                            last_release_at: now,
                        },
                    ),
                ))
                &&& (!(m.contains_key(id) && m[id].1.is_pending()) ==> (r matches Err(
                    PencallError::InvalidArgs(_),
                )) && final(store)@ == m)
            }),
    {
        let (req, status): (AllocationRequest, AllocationStatus) = match store.read(
            allocation_id,
        ) {
            Some(pair) => (pair.0.clone(), pair.1),
            None => {
                return Err(PencallError::InvalidArgs("allocation not found".to_owned()));
            },
        };
        match status {
            AllocationStatus::Pending => {},
            _ => {
                return Err(PencallError::InvalidArgs("allocation not in pending state".to_owned()));
            },
        }
        let initial = match req.initial_release {
            Some(v) => v,
            None => 0,
        };
        match store.transition(
            allocation_id,
            AllocationStatus::Active { released: initial, last_release_at: now },
        ) {
            Ok(_) => {},
            Err(_) => {
                assert(false);
                return Err(PencallError::InvalidArgs("allocation not found".to_owned()));
            },
        }
        Ok(Scheduler::new(req))
    }
}

} // verus!
