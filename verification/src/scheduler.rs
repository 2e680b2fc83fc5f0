use vstd::prelude::*;

use crate::error::PencallError;
use crate::store::Store;
use crate::types::{AllocationRequest, AllocationStatus, ReleaseEvent};

verus! {

/// Seconds the scheduler backs off after a failed delivery before it retries
/// the same tick.
pub const RETRY_BACKOFF_SECONDS: u64 = 60;

/// The delivery channel the scheduler releases units into.
///
/// Implementors must be legitimate providers enforcing their own security,
/// rate limits and legality constraints; the scheduler treats any failure
/// uniformly as "retry later". Nothing is assumed of the outcome: every
/// contract downstream holds whatever `deliver` returns.
pub trait DeliveryProvider {
    /// Delivers one release event; may fail with any error.
    fn deliver(&mut self, event: &ReleaseEvent) -> Result<(), PencallError>;
}

/// The minimum of two released-unit quantities.
pub open spec fn min64(a: u64, b: u64) -> u64 {
    if a <= b {
        a
    } else {
        b
    }
}

/// The maximum of two released-unit quantities.
pub open spec fn max64(a: u64, b: u64) -> u64 {
    if a >= b {
        a
    } else {
        b
    }
}

/// Subtraction floor-clamped at zero.
pub open spec fn clamped_sub(a: u64, b: u64) -> u64 {
    if a >= b {
        (a - b) as u64
    } else {
        0
    }
}

/// Addition saturating at the largest representable value.
pub open spec fn capped_add(a: u64, b: u64) -> u64 {
    if a + b <= u64::MAX {
        (a + b) as u64
    } else {
        u64::MAX
    }
}

/// Doubling saturating at the largest representable value.
pub open spec fn capped_double(a: u64) -> u64 {
    if a <= u64::MAX / 2 {
        (a * 2) as u64
    } else {
        u64::MAX
    }
}

/// The state a scheduler carries across ticks.
#[derive(Debug, Clone, Copy, PartialEq, Eq, Structural)]
pub struct SchedulerState {
    /// Units released so far, including the initial release.
    pub released_total: u64,
    /// Unix seconds before which the next tick must not deliver.
    pub next_release_time: u64,
    /// Units the next delivery attempts; doubles after each success.
    pub current_chunk: u64,
}

/// The state a scheduler starts from for a given request.
pub open spec fn spec_init_state(req: AllocationRequest) -> SchedulerState {
    SchedulerState {
        released_total: req.spec_initial_released(),
        next_release_time: req.start_time,
        current_chunk: req.spec_initial_chunk(),
    }
}

/// The units one tick may release: the current chunk, clamped by the units
/// still owed toward `requested_units` and by the room left under the cap.
pub open spec fn spec_allowable(state: SchedulerState, req: AllocationRequest) -> u64 {
    min64(
        min64(state.current_chunk, clamped_sub(req.requested_units, state.released_total)),
        clamped_sub(req.spec_cap(), state.released_total),
    )
}

/// The state after a successful delivery of `units` at time `now`: the
/// released total grows by `units`, the chunk doubles, and the next tick is
/// scheduled one doubling interval ahead.
pub open spec fn spec_after_success(
    state: SchedulerState,
    req: AllocationRequest,
    units: u64,
    now: u64,
) -> SchedulerState {
    SchedulerState {
        released_total: capped_add(state.released_total, units),
        next_release_time: capped_add(now, req.doubling_interval_seconds),
        current_chunk: capped_double(state.current_chunk),
    }
}

/// The state after a failed delivery: unchanged, so that the same tick is
/// retried with the same allowable release.
pub open spec fn spec_after_failure(state: SchedulerState) -> SchedulerState {
    state
}

/// What one scheduler tick did.
#[derive(Debug, Clone, Copy, PartialEq, Eq, Structural)]
pub enum StepOutcome {
    /// The allocation's status was `Cancelled`; the scheduler stops without
    /// delivering anything further.
    Cancelled,
    /// Nothing was left to release; the status moved to `Completed`.
    Completed,
    /// `units` were delivered and recorded.
    Released { units: u64 },
    /// The delivery failed; nothing changed, retry the same tick after the
    /// backoff.
    RetryLater,
    /// The allocation vanished from the store: a consistency violation in
    /// the embedding system.
    Vanished,
}

/// What the next tick should do, as decided by `plan_tick`.
#[derive(Debug)]
pub enum TickPlan {
    /// Stop: the allocation was cancelled.
    Cancelled,
    /// Stop: the allocation vanished from the store.
    Vanished,
    /// Transition the status to `Completed` and stop.
    Finish,
    /// Deliver this event; on success `record_success` its units, on
    /// failure retry the same tick after the backoff.
    Deliver(ReleaseEvent),
}

/// One release schedule in progress: the immutable request it serves and the
/// state carried across ticks.
#[derive(Debug)]
pub struct Scheduler {
    pub req: AllocationRequest,
    pub state: SchedulerState,
}

impl Scheduler {
    /// Starts a schedule for `req` from the initial state.
    pub fn new(req: AllocationRequest) -> (s: Self)
        ensures
            s.req == req,
            s.state == spec_init_state(req),
    {
        let base = match req.initial_release {
            Some(v) => v,
            None => 0,
        };
        let chunk_base = match req.initial_release {
            Some(v) => v,
            None => 1,
        };
        let chunk = if chunk_base >= 1 {
            chunk_base
        } else {
            1
        };
        let state = SchedulerState {
            released_total: base,
            next_release_time: req.start_time,
            current_chunk: chunk,
        };
        Scheduler { req, state }
    }

    /// Seconds to wait before the next tick is due at time `now`.
    pub fn wait_seconds(&self, now: u64) -> (w: u64)
        ensures
            w == clamped_sub(self.state.next_release_time, now),
    {
        if self.state.next_release_time >= now {
            self.state.next_release_time - now
        } else {
            0
        }
    }

    /// The units the next tick may release.
    pub fn allowable_release(&self) -> (r: u64)
        ensures
            r == spec_allowable(self.state, self.req),
    {
        let remaining_requested = if self.req.requested_units >= self.state.released_total {
            self.req.requested_units - self.state.released_total
        } else {
            0
        };
        let possible = if self.state.current_chunk <= remaining_requested {
            self.state.current_chunk
        } else {
            remaining_requested
        };
        let cap = match self.req.cap_units {
            Some(c) => c,
            None => u64::MAX,
        };
        let remaining_cap = if cap >= self.state.released_total {
            cap - self.state.released_total
        } else {
            0
        };
        if possible <= remaining_cap {
            possible
        } else {
            remaining_cap
        }
    }

    /// What the next tick should do at time `now`, given the allocation's
    /// current status as read from the store.
    ///
    /// This is the decision half of `step`, for an embedding that performs
    /// the delivery itself — asynchronously, say — and reports a success
    /// back through `record_success`.
    pub fn plan_tick(&self, status: Option<AllocationStatus>, now: u64) -> (p: TickPlan)
        ensures
            ({
                let a = spec_allowable(self.state, self.req);
                &&& (status matches None ==> p matches TickPlan::Vanished)
                &&& (status matches Some(s) && s.is_cancelled() ==> p matches TickPlan::Cancelled)
                &&& (status matches Some(s) && !s.is_cancelled() && a == 0 ==> p
                    matches TickPlan::Finish)
                &&& (status matches Some(s) && !s.is_cancelled() && a > 0 ==> p == (
                TickPlan::Deliver(
                    ReleaseEvent {
                        allocation_id: self.req.id,
                        release_time: now,
                        units: a,
                    },
                )))
            }),
    {
        match status {
            None => TickPlan::Vanished,
            Some(AllocationStatus::Cancelled) => TickPlan::Cancelled,
            Some(_) => {
                let allowable = self.allowable_release();
                if allowable == 0 {
                    TickPlan::Finish
                } else {
                    TickPlan::Deliver(
                        ReleaseEvent {
                            allocation_id: self.req.id.clone(),
                            release_time: now,
                            units: allowable,
                        },
                    )
                }
            },
        }
    }

    /// Records a successful delivery of `units` at time `now`: the released
    /// total grows by `units`, the chunk doubles, and the next tick is due
    /// one doubling interval from `now`. A failed delivery records nothing:
    /// the same tick is retried with the same allowable release.
    pub fn record_success(&mut self, units: u64, now: u64)
        ensures
            final(self).req == old(self).req,
            final(self).state == spec_after_success(old(self).state, old(self).req, units, now),
    {
        let new_released = if self.state.released_total <= u64::MAX - units {
            self.state.released_total + units
        } else {
            u64::MAX
        };
        let new_chunk = if self.state.current_chunk <= u64::MAX / 2 {
            self.state.current_chunk * 2
        } else {
            u64::MAX
        };
        let new_next = if now <= u64::MAX - self.req.doubling_interval_seconds {
            now + self.req.doubling_interval_seconds
        } else {
            u64::MAX
        };
        self.state = SchedulerState {
            released_total: new_released,
            next_release_time: new_next,
            current_chunk: new_chunk,
        };
    }

    /// Runs one tick at time `now`: checks cancellation, computes the
    /// allowable release, and either completes the allocation, delivers a
    /// release event, or reports that the tick must be retried.
    ///
    /// A tick that ends cancelled, completed or vanished leaves the provider
    /// untouched: no delivery is fired on such a tick.
    ///
    /// The caller is responsible for waiting until the tick is due
    /// (`wait_seconds`) and for backing off after `RetryLater`.
    pub fn step<D: DeliveryProvider>(
        &mut self,
        store: &mut Store,
        provider: &mut D,
        now: u64,
    ) -> (out: StepOutcome)
        ensures
            final(self).req == old(self).req,
            ({
                let id = old(self).req.id@;
                let m = old(store)@;
                let st = old(self).state;
                let req = old(self).req;
                let a = spec_allowable(st, req);
                &&& (!m.contains_key(id) ==> (out matches StepOutcome::Vanished)
                    && final(store)@ == m && final(self).state == st && *final(provider) == *old(provider))
                &&& (m.contains_key(id) && m[id].1.is_cancelled() ==> (out
                    matches StepOutcome::Cancelled) && final(store)@ == m && final(self).state
                    == st && *final(provider) == *old(provider))
                &&& (m.contains_key(id) && !m[id].1.is_cancelled() && a == 0 ==> (out
                    matches StepOutcome::Completed) && final(store)@ == m.insert(
                    id,
                    (m[id].0, AllocationStatus::Completed),
                ) && final(self).state == st && *final(provider) == *old(provider))
                &&& (m.contains_key(id) && !m[id].1.is_cancelled() && a > 0 ==> {
                    ||| ((out matches StepOutcome::Released { units } && units == a)
                        && final(self).state == spec_after_success(st, req, a, now)
                        && final(store)@ == m.insert(
                        id,
                        (
                            m[id].0,
                            AllocationStatus::Active {
                                released: spec_after_success(st, req, a, now).released_total,
                                last_release_at: now,
                            },
                        ),
                    ))
                    ||| ((out matches StepOutcome::RetryLater) && final(store)@ == m
                        && final(self).state == spec_after_failure(st))
                })
            }),
    {
        let status: Option<AllocationStatus> = match store.read(self.req.id.as_str()) {
            Some(pair) => Some(pair.1),
            None => None,
        };
        match status {
            None => {
                return StepOutcome::Vanished;
            },
            Some(AllocationStatus::Cancelled) => {
                return StepOutcome::Cancelled;
            },
            Some(_) => {},
        }

        let allowable = self.allowable_release();
        if allowable == 0 {
            match store.transition(self.req.id.as_str(), AllocationStatus::Completed) {
                Ok(_) => {
                    return StepOutcome::Completed;
                },
                Err(_) => {
                    assert(false);
                    return StepOutcome::Vanished;
                },
            }
        }

        let event = ReleaseEvent {
            allocation_id: self.req.id.clone(),
            release_time: now,
            units: allowable,
        };
        match provider.deliver(&event) {
            Ok(_) => {
                self.record_success(allowable, now);
                let new_released = self.state.released_total;
                match store.transition(
                    self.req.id.as_str(),
                    AllocationStatus::Active { released: new_released, last_release_at: now },
                ) {
                    Ok(_) => StepOutcome::Released { units: allowable },
                    Err(_) => {
                        assert(false);
                        StepOutcome::Vanished
                    },
                }
            },
            Err(_) => StepOutcome::RetryLater,
        }
    }
}

/// How a simulated run ended.
#[derive(Debug, Clone, Copy, PartialEq, Eq, Structural)]
pub enum RunOutcome {
    /// The schedule finished and the status moved to `Completed`.
    Completed { released: u64 },
    /// The allocation's status was `Cancelled`; nothing further was
    /// delivered.
    Cancelled { released: u64 },
    /// The tick budget ran out before the schedule finished; the store holds
    /// the last recorded `Active` status.
    Unfinished { released: u64 },
}

/// Runs the release schedule for `req` in simulated time starting at
/// `start_now`, waiting for due times and backing off after failures by
/// advancing the clock instead of sleeping, for at most `max_ticks` ticks.
///
/// On completion the store's status is `Completed` and the released total
/// equals `requested_units` or the cap, whichever is tighter (or the initial
/// release, where that already meets the target). A request whose initial
/// release already meets the target completes on the first tick, with
/// nothing delivered and the provider untouched. A status already
/// `Cancelled` on entry stops the run at once with nothing delivered; a
/// missing identifier is a consistency violation reported as `Internal`.
#[verifier::loop_isolation(false)]
pub fn run_allocation_simulation<D: DeliveryProvider>(
    store: &mut Store,
    provider: &mut D,
    req: &AllocationRequest,
    start_now: u64,
    max_ticks: u64,
) -> (r: Result<RunOutcome, PencallError>)
    ensures
        ({
            let id = req.id@;
            let m = old(store)@;
            let top = max64(req.spec_initial_released(), req.spec_target());
            &&& (max_ticks == 0 ==> (r matches Ok(out) && out == (RunOutcome::Unfinished {
                released: req.spec_initial_released(),
            })) && final(store)@ == m && *final(provider) == *old(provider))
            &&& (max_ticks > 0 && !m.contains_key(id) ==> (r matches Err(
                PencallError::Internal(_),
            )) && final(store)@ == m && *final(provider) == *old(provider))
            &&& (max_ticks > 0 && m.contains_key(id) && m[id].1.is_cancelled() ==> (r matches Ok(
                out,
            ) && out == (RunOutcome::Cancelled { released: req.spec_initial_released() }))
                && final(store)@ == m && *final(provider) == *old(provider))
            &&& (max_ticks > 0 && m.contains_key(id) && !m[id].1.is_cancelled()
                && spec_allowable(spec_init_state(*req), *req) == 0 ==> (r matches Ok(out)
                && out == (RunOutcome::Completed { released: req.spec_initial_released() }))
                && final(store)@ == m.insert(id, (m[id].0, AllocationStatus::Completed))
                && *final(provider) == *old(provider))
            &&& (m.contains_key(id) && !m[id].1.is_cancelled() ==> {
                ||| ((r matches Ok(out) && out == (RunOutcome::Completed { released: top }))
                    && final(store)@ == m.insert(id, (m[id].0, AllocationStatus::Completed)))
                ||| (r matches Ok(out) && out matches RunOutcome::Unfinished { released }
                    && req.spec_initial_released() <= released && released <= top && (
                    final(store)@ == m || (exists|t: u64|
                        final(store)@ == m.insert(
                            id,
                            (m[id].0, AllocationStatus::Active { released, last_release_at: t }),
                        ))))
            })
        }),
{
    let ghost m0 = store@;
    let ghost p0 = *provider;
    let mut sched = Scheduler::new(req.clone());
    let mut now: u64 = start_now;
    let mut ticks_left: u64 = max_ticks;
    let ghost mut last_now: u64 = 0;
    loop
        invariant
            sched.req == *req,
            ticks_left <= max_ticks,
            max_ticks == 0 ==> store@ == m0 && sched.state == spec_init_state(*req) && *provider
                == p0,
            !m0.contains_key(req.id@) ==> store@ == m0 && sched.state == spec_init_state(*req)
                && ticks_left == max_ticks && *provider == p0,
            m0.contains_key(req.id@) && m0[req.id@].1.is_cancelled() ==> store@ == m0
                && sched.state == spec_init_state(*req) && ticks_left == max_ticks && *provider
                == p0,
            m0.contains_key(req.id@) && !m0[req.id@].1.is_cancelled() && spec_allowable(
                spec_init_state(*req),
                *req,
            ) == 0 ==> store@ == m0 && sched.state == spec_init_state(*req) && ticks_left
                == max_ticks && *provider == p0,
            m0.contains_key(req.id@) && !m0[req.id@].1.is_cancelled() ==> {
                ||| (store@ == m0 && sched.state.released_total == req.spec_initial_released())
                ||| store@ == m0.insert(
                    req.id@,
                    (
                        m0[req.id@].0,
                        AllocationStatus::Active {
                            released: sched.state.released_total,
                            last_release_at: last_now,
                        },
                    ),
                )
            },
            sched.state.released_total >= req.spec_initial_released(),
            sched.state.released_total <= max64(req.spec_initial_released(), req.spec_target()),
            sched.state.current_chunk >= 1,
        decreases ticks_left,
    {
        if ticks_left == 0 {
            proof {
                if m0.contains_key(req.id@) && !m0[req.id@].1.is_cancelled() && store@ != m0 {
                    assert(store@ == m0.insert(
                        req.id@,
                        (
                            m0[req.id@].0,
                            AllocationStatus::Active {
                                released: sched.state.released_total,
                                last_release_at: last_now,
                            },
                        ),
                    ));
                }
            }
            return Ok(RunOutcome::Unfinished { released: sched.state.released_total });
        }
        ticks_left = ticks_left - 1;
        let w = sched.wait_seconds(now);
        now = if now <= u64::MAX - w {
            now + w
        } else {
            u64::MAX
        };
        let ghost pre_state = sched.state;
        match sched.step(store, provider, now) {
            StepOutcome::Vanished => {
                return Err(PencallError::Internal("allocation disappeared".to_owned()));
            },
            StepOutcome::Cancelled => {
                return Ok(RunOutcome::Cancelled { released: sched.state.released_total });
            },
            StepOutcome::Completed => {
                proof {
                    lemma_allowable_zero_meets_target(pre_state, *req);
                    if m0.contains_key(req.id@) && !m0[req.id@].1.is_cancelled() {
                        assert(store@ =~= m0.insert(
                            req.id@,
                            (m0[req.id@].0, AllocationStatus::Completed),
                        ));
                    }
                }
                return Ok(RunOutcome::Completed { released: sched.state.released_total });
            },
            StepOutcome::Released { .. } => {
                proof {
                    lemma_success_keeps_bounds(pre_state, *req, now);
                    last_now = now;
                    if m0.contains_key(req.id@) && !m0[req.id@].1.is_cancelled() {
                        assert(store@ =~= m0.insert(
                            req.id@,
                            (
                                m0[req.id@].0,
                                AllocationStatus::Active {
                                    released: sched.state.released_total,
                                    last_release_at: last_now,
                                },
                            ),
                        ));
                    }
                }
            },
            StepOutcome::RetryLater => {
                now = if now <= u64::MAX - RETRY_BACKOFF_SECONDS {
                    now + RETRY_BACKOFF_SECONDS
                } else {
                    u64::MAX
                };
            },
        }
    }
}

/// A tick whose allowable release is zero has already met the effective
/// target (or started above it): the released total is at least
/// `min(requested_units, cap)`.
pub proof fn lemma_allowable_zero_meets_target(state: SchedulerState, req: AllocationRequest)
    requires
        state.current_chunk >= 1,
        spec_allowable(state, req) == 0,
    ensures
        state.released_total >= req.spec_target(),
{
}

/// A successful delivery of the allowable release keeps the released total
/// monotone and within the effective target (or at its starting point, where
/// that already exceeded the target), and keeps the chunk positive.
pub proof fn lemma_success_keeps_bounds(state: SchedulerState, req: AllocationRequest, now: u64)
    requires
        state.current_chunk >= 1,
    ensures
        ({
            let next = spec_after_success(state, req, spec_allowable(state, req), now);
            &&& next.released_total >= state.released_total
            &&& next.current_chunk >= 1
            &&& state.released_total <= req.spec_target() ==> next.released_total
                <= req.spec_target()
        }),
{
}

} // verus!
