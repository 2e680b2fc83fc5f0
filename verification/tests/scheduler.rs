use pencall::{
    run_allocation_simulation, AllocationRequest, AllocationStatus, DeliveryProvider, Pencall,
    PencallError, PolicyCheck, ReleaseEvent, RunOutcome, Scheduler, StepOutcome, Store, TickPlan,
    RETRY_BACKOFF_SECONDS,
};

fn make_req(
    id: &str,
    requested_units: u64,
    initial_release: Option<u64>,
    doubling_interval_seconds: u64,
    cap_units: Option<u64>,
) -> AllocationRequest {
    AllocationRequest {
        id: id.to_owned(),
        requested_units,
        start_time: 0,
        initial_release,
        doubling_interval_seconds,
        cap_units,
    }
}

struct AllowAll;

impl PolicyCheck for AllowAll {
    fn authorize(&self, _req: &AllocationRequest) -> Result<(), PencallError> {
        Ok(())
    }
}

/// Records every delivered event and always succeeds.
struct Recorder {
    events: Vec<ReleaseEvent>,
}

impl Recorder {
    fn new() -> Recorder {
        Recorder { events: Vec::new() }
    }

    fn units(&self) -> Vec<u64> {
        self.events.iter().map(|e| e.units).collect()
    }
}

impl DeliveryProvider for Recorder {
    fn deliver(&mut self, event: &ReleaseEvent) -> Result<(), PencallError> {
        self.events.push(event.clone());
        Ok(())
    }
}

/// Fails the first `failures_left` deliveries, then records and succeeds.
struct Flaky {
    failures_left: u64,
    events: Vec<ReleaseEvent>,
}

impl DeliveryProvider for Flaky {
    fn deliver(&mut self, event: &ReleaseEvent) -> Result<(), PencallError> {
        if self.failures_left > 0 {
            self.failures_left -= 1;
            return Err(PencallError::DeliveryError("transient outage".to_owned()));
        }
        self.events.push(event.clone());
        Ok(())
    }
}

fn activated(
    store: &mut Store,
    req: AllocationRequest,
    now: u64,
) -> Scheduler {
    let orch = Pencall::new(AllowAll);
    let id = req.id.clone();
    orch.register_allocation(store, req).unwrap();
    orch.activate(store, &id, now).unwrap()
}

#[test]
fn doubling_scenario_reaches_the_requested_total() {
    // requested 16, initial release 1, cap 32: the initial unit is released
    // at activation, then chunks 1, 2, 4, 8 close the remaining 15.
    let mut store = Store::new();
    let req = make_req("scenario", 16, Some(1), 2, Some(32));
    activated(&mut store, req.clone(), 0);
    let mut provider = Recorder::new();
    let r = run_allocation_simulation(&mut store, &mut provider, &req, 0, 1000).unwrap();
    assert_eq!(r, RunOutcome::Completed { released: 16 });
    assert_eq!(provider.units(), vec![1, 2, 4, 8]);
    assert_eq!(store.read("scenario").unwrap().1, AllocationStatus::Completed);
}

#[test]
fn doubling_scenario_from_zero_clamps_the_last_tick() {
    // With nothing released up front the allowable releases run 1, 2, 4, 8,
    // then 1: the last tick is clamped by the remaining need, summing to 16.
    let mut store = Store::new();
    let req = make_req("scenario0", 16, Some(0), 2, Some(32));
    activated(&mut store, req.clone(), 0);
    let mut provider = Recorder::new();
    let r = run_allocation_simulation(&mut store, &mut provider, &req, 0, 1000).unwrap();
    assert_eq!(r, RunOutcome::Completed { released: 16 });
    assert_eq!(provider.units(), vec![1, 2, 4, 8, 1]);
    assert_eq!(store.read("scenario0").unwrap().1, AllocationStatus::Completed);
}

#[test]
fn cap_tighter_than_request_is_honored_exactly() {
    let mut store = Store::new();
    let req = make_req("capped", 100, None, 1, Some(10));
    activated(&mut store, req.clone(), 0);
    let mut provider = Recorder::new();
    let r = run_allocation_simulation(&mut store, &mut provider, &req, 0, 1000).unwrap();
    assert_eq!(r, RunOutcome::Completed { released: 10 });
    assert_eq!(provider.units().iter().sum::<u64>(), 10);
    assert_eq!(provider.units(), vec![1, 2, 4, 3]);
    assert_eq!(store.read("capped").unwrap().1, AllocationStatus::Completed);
}

#[test]
fn one_failure_then_success_releases_exactly_the_same() {
    let mut store_a = Store::new();
    let req_a = make_req("flaky", 16, None, 2, None);
    activated(&mut store_a, req_a.clone(), 0);
    let mut flaky = Flaky { failures_left: 1, events: Vec::new() };
    let ra = run_allocation_simulation(&mut store_a, &mut flaky, &req_a, 0, 1000).unwrap();

    let mut store_b = Store::new();
    let req_b = make_req("steady", 16, None, 2, None);
    activated(&mut store_b, req_b.clone(), 0);
    let mut steady = Recorder::new();
    let rb = run_allocation_simulation(&mut store_b, &mut steady, &req_b, 0, 1000).unwrap();

    assert_eq!(ra, RunOutcome::Completed { released: 16 });
    assert_eq!(rb, RunOutcome::Completed { released: 16 });
    let flaky_units: Vec<u64> = flaky.events.iter().map(|e| e.units).collect();
    assert_eq!(flaky_units, steady.units());
}

#[test]
fn delivery_failure_reports_retry_and_changes_nothing() {
    let mut store = Store::new();
    let req = make_req("retry", 8, None, 2, None);
    let mut sched = activated(&mut store, req, 0);
    let status_before = store.read("retry").unwrap().1;
    let state_before = sched.state;
    let mut failing = Flaky { failures_left: u64::MAX, events: Vec::new() };
    let out = sched.step(&mut store, &mut failing, 0);
    assert_eq!(out, StepOutcome::RetryLater);
    assert_eq!(sched.state, state_before);
    assert_eq!(store.read("retry").unwrap().1, status_before);
}

#[test]
fn cancelled_before_the_run_delivers_nothing() {
    let mut store = Store::new();
    let req = make_req("precancel", 16, Some(2), 2, None);
    activated(&mut store, req.clone(), 0);
    store.transition("precancel", AllocationStatus::Cancelled).unwrap();
    let mut provider = Recorder::new();
    let r = run_allocation_simulation(&mut store, &mut provider, &req, 0, 1000).unwrap();
    assert_eq!(r, RunOutcome::Cancelled { released: 2 });
    assert!(provider.events.is_empty());
    assert_eq!(store.read("precancel").unwrap().1, AllocationStatus::Cancelled);
}

#[test]
fn cancellation_between_ticks_stops_without_further_delivery() {
    let mut store = Store::new();
    let req = make_req("midcancel", 100, None, 2, None);
    let mut sched = activated(&mut store, req, 0);
    let mut provider = Recorder::new();

    let first = sched.step(&mut store, &mut provider, 0);
    assert_eq!(first, StepOutcome::Released { units: 1 });
    assert_eq!(provider.events.len(), 1);

    store.transition("midcancel", AllocationStatus::Cancelled).unwrap();

    let second = sched.step(&mut store, &mut provider, 2);
    assert_eq!(second, StepOutcome::Cancelled);
    assert_eq!(provider.events.len(), 1);
    assert_eq!(store.read("midcancel").unwrap().1, AllocationStatus::Cancelled);
}

#[test]
fn missing_allocation_is_an_internal_error() {
    let mut store = Store::new();
    let req = make_req("ghost", 5, None, 1, None);
    let mut provider = Recorder::new();
    let r = run_allocation_simulation(&mut store, &mut provider, &req, 0, 1000);
    assert!(matches!(r, Err(PencallError::Internal(_))));
    assert!(provider.events.is_empty());
}

#[test]
fn observed_released_values_are_monotone_and_bounded() {
    let mut store = Store::new();
    let req = make_req("monotone", 50, Some(3), 2, Some(40));
    let mut sched = activated(&mut store, req, 0);
    let mut provider = Recorder::new();
    let bound = 40u64.min(50);
    let mut observed: Vec<u64> = Vec::new();
    match store.read("monotone").unwrap().1 {
        AllocationStatus::Active { released, .. } => observed.push(released),
        _ => panic!("expected an active allocation"),
    }
    let mut now = 0u64;
    loop {
        match sched.step(&mut store, &mut provider, now) {
            StepOutcome::Released { .. } => {
                match store.read("monotone").unwrap().1 {
                    AllocationStatus::Active { released, .. } => observed.push(released),
                    other => panic!("unexpected status {:?}", other),
                }
            }
            StepOutcome::Completed => break,
            other => panic!("unexpected outcome {:?}", other),
        }
        now += 2;
    }
    for pair in observed.windows(2) {
        assert!(pair[0] <= pair[1]);
    }
    for v in &observed {
        assert!(*v <= bound);
    }
    assert_eq!(*observed.last().unwrap(), bound);
}

#[test]
fn exhausted_tick_budget_reports_unfinished_progress() {
    let mut store = Store::new();
    let req = make_req("unfinished", 1000, None, 2, None);
    activated(&mut store, req.clone(), 0);
    let mut provider = Recorder::new();
    let r = run_allocation_simulation(&mut store, &mut provider, &req, 0, 2).unwrap();
    assert_eq!(r, RunOutcome::Unfinished { released: 3 });
    assert_eq!(provider.units(), vec![1, 2]);
    assert_eq!(
        store.read("unfinished").unwrap().1,
        AllocationStatus::Active { released: 3, last_release_at: 2 }
    );
}

#[test]
fn initial_release_meeting_the_target_completes_without_delivery() {
    let mut store = Store::new();
    let req = make_req("instant", 5, Some(5), 1, None);
    activated(&mut store, req.clone(), 0);
    let mut provider = Recorder::new();
    let r = run_allocation_simulation(&mut store, &mut provider, &req, 0, 10).unwrap();
    assert_eq!(r, RunOutcome::Completed { released: 5 });
    assert!(provider.events.is_empty());
    assert_eq!(store.read("instant").unwrap().1, AllocationStatus::Completed);
}

#[test]
fn wait_seconds_counts_down_to_the_due_time() {
    let mut req = make_req("waiting", 5, None, 7, None);
    req.start_time = 50;
    let sched = Scheduler::new(req);
    assert_eq!(sched.wait_seconds(20), 30);
    assert_eq!(sched.wait_seconds(50), 0);
    assert_eq!(sched.wait_seconds(80), 0);
}

#[test]
fn allowable_release_takes_the_tightest_bound() {
    let req = make_req("tight", 10, Some(4), 1, Some(6));
    let sched = Scheduler::new(req);
    // chunk 4, remaining requested 6, remaining cap 2: the cap wins.
    assert_eq!(sched.allowable_release(), 2);
}

#[test]
fn release_events_carry_identifier_and_timestamp() {
    let mut store = Store::new();
    let req = make_req("events", 4, None, 3, None);
    let mut sched = activated(&mut store, req, 0);
    let mut provider = Recorder::new();
    let out = sched.step(&mut store, &mut provider, 11);
    assert_eq!(out, StepOutcome::Released { units: 1 });
    assert_eq!(provider.events[0].allocation_id, "events");
    assert_eq!(provider.events[0].release_time, 11);
    assert_eq!(provider.events[0].units, 1);
    // The next tick is scheduled one doubling interval after this one.
    assert_eq!(sched.state.next_release_time, 14);
    assert_eq!(sched.state.current_chunk, 2);
}

#[test]
fn retry_backoff_is_one_minute() {
    assert_eq!(RETRY_BACKOFF_SECONDS, 60);
}

#[test]
fn plan_tick_decides_each_case() {
    let sched = Scheduler::new(make_req("plan", 10, Some(4), 1, None));
    assert!(matches!(sched.plan_tick(None, 0), TickPlan::Vanished));
    assert!(matches!(
        sched.plan_tick(Some(AllocationStatus::Cancelled), 0),
        TickPlan::Cancelled
    ));
    match sched.plan_tick(
        Some(AllocationStatus::Active { released: 4, last_release_at: 0 }),
        9,
    ) {
        TickPlan::Deliver(event) => {
            assert_eq!(event.allocation_id, "plan");
            assert_eq!(event.release_time, 9);
            assert_eq!(event.units, 4);
        }
        other => panic!("unexpected plan {:?}", other),
    }
    let done = Scheduler::new(make_req("plan-done", 5, Some(5), 1, None));
    assert!(matches!(
        done.plan_tick(Some(AllocationStatus::Active { released: 5, last_release_at: 0 }), 0),
        TickPlan::Finish
    ));
}

#[test]
fn record_success_advances_total_chunk_and_due_time() {
    let mut sched = Scheduler::new(make_req("record", 100, Some(3), 10, None));
    sched.record_success(3, 50);
    assert_eq!(sched.state.released_total, 6);
    assert_eq!(sched.state.current_chunk, 6);
    assert_eq!(sched.state.next_release_time, 60);
}
