use vstd::prelude::*;

verus! {

/// An allocation request: a goal to release `requested_units` resources over
/// time under the identifier `id`.
///
/// Timestamps throughout the library are plain Unix seconds; an embedding
/// system converts its own clock representation at the boundary.
#[derive(Debug)]
pub struct AllocationRequest {
    /// Unique string key of the allocation.
    pub id: String,
    /// Total units to release; must be positive.
    pub requested_units: u64,
    /// Unix seconds at which releasing may begin.
    pub start_time: u64,
    /// Units to release immediately on activation (optional).
    pub initial_release: Option<u64>,
    /// Doubling interval in seconds; must be positive.
    pub doubling_interval_seconds: u64,
    /// Optional hard ceiling on total released units (absent = unbounded).
    pub cap_units: Option<u64>,
}

impl AllocationRequest {
    /// A request is well-formed when both the requested total and the
    /// doubling interval are positive.
    pub open spec fn spec_valid(&self) -> bool {
        self.requested_units > 0 && self.doubling_interval_seconds > 0
    }

    /// The released total an activated allocation starts from.
    pub open spec fn spec_initial_released(&self) -> u64 {
        match self.initial_release {
            Some(v) => v,
            None => 0,
        }
    }

    /// The first chunk size: the floor `max(1, ...)` keeps a request whose
    /// `initial_release` is explicitly 0 from looping with a zero chunk.
    pub open spec fn spec_initial_chunk(&self) -> u64 {
        let base = match self.initial_release {
            Some(v) => v,
            None => 1u64,
        };
        if base >= 1 {
            base
        } else {
            1
        }
    }

    /// The effective cap: `cap_units`, or unbounded when absent.
    pub open spec fn spec_cap(&self) -> u64 {
        match self.cap_units {
            Some(c) => c,
            None => u64::MAX,
        }
    }

    /// The effective release target: the tighter of the requested total and
    /// the cap.
    pub open spec fn spec_target(&self) -> u64 {
        if self.requested_units <= self.spec_cap() {
            self.requested_units
        } else {
            self.spec_cap()
        }
    }

    /// Checks well-formedness of the request.
    pub fn valid(&self) -> (b: bool)
        ensures
            b == self.spec_valid(),
    {
        self.requested_units > 0 && self.doubling_interval_seconds > 0
    }
}

impl Clone for AllocationRequest {
    fn clone(&self) -> (r: Self)
        ensures
            r == *self,
    {
        AllocationRequest {
            id: self.id.clone(),
            requested_units: self.requested_units,
            start_time: self.start_time,
            initial_release: self.initial_release,
            doubling_interval_seconds: self.doubling_interval_seconds,
            cap_units: self.cap_units,
        }
    }
}

/// Lifecycle status of an allocation.
///
/// Exactly one status is associated with each registered identifier at any
/// time. `Pending` may move to `Active` once; `Completed` and `Cancelled`
/// are terminal.
#[derive(Debug, Clone, Copy, PartialEq, Eq, Structural)]
pub enum AllocationStatus {
    Pending,
    Active { released: u64, last_release_at: u64 },
    Completed,
    Cancelled,
}

impl AllocationStatus {
    pub open spec fn is_pending(&self) -> bool {
        matches!(*self, AllocationStatus::Pending)
    }

    pub open spec fn is_active(&self) -> bool {
        matches!(*self, AllocationStatus::Active { .. })
    }

    pub open spec fn is_completed(&self) -> bool {
        matches!(*self, AllocationStatus::Completed)
    }

    pub open spec fn is_cancelled(&self) -> bool {
        matches!(*self, AllocationStatus::Cancelled)
    }

    /// The released total recorded in an `Active` status (0 otherwise).
    pub open spec fn spec_released(&self) -> u64 {
        match *self {
            AllocationStatus::Active { released, .. } => released,
            _ => 0,
        }
    }
}

/// One actionable release, handed to the delivery channel.
#[derive(Debug)]
pub struct ReleaseEvent {
    pub allocation_id: String,
    pub release_time: u64,
    pub units: u64,
}

impl Clone for ReleaseEvent {
    fn clone(&self) -> (r: Self)
        ensures
            r == *self,
    {
        ReleaseEvent {
            allocation_id: self.allocation_id.clone(),
            release_time: self.release_time,
            units: self.units,
        }
    }
}

} // verus!
