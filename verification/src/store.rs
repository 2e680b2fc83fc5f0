use vstd::prelude::*;

use crate::error::PencallError;
use crate::types::{AllocationRequest, AllocationStatus};

verus! {

/// In-memory keyed store for allocations.
///
/// The store maps an allocation identifier to its immutable request together
/// with its current lifecycle status. An embedding system that needs shared
/// or durable access wraps the store in its own synchronization or
/// persistence layer; every operation here is an atomic read or
/// read-modify-write on one key.
pub struct Store {
    allocations: vstd::hash_map::StringHashMap<(AllocationRequest, AllocationStatus)>,
}

impl View for Store {
    type V = Map<Seq<char>, (AllocationRequest, AllocationStatus)>;

    closed spec fn view(&self) -> Self::V {
        self.allocations@
    }
}

impl Store {
    /// Creates an empty store.
    pub fn new() -> (s: Self)
        ensures
            s@ == Map::<Seq<char>, (AllocationRequest, AllocationStatus)>::empty(),
    {
        Store { allocations: vstd::hash_map::StringHashMap::new() }
    }

    /// True when the identifier is registered.
    pub fn contains(&self, id: &str) -> (b: bool)
        ensures
            b == self@.contains_key(id@),
    {
        self.allocations.contains_key(id)
    }

    /// Reads the (request, status) pair of an identifier, if present.
    pub fn read(&self, id: &str) -> (r: Option<&(AllocationRequest, AllocationStatus)>)
        ensures
            match r {
                Some(p) => self@.contains_key(id@) && *p == self@[id@],
                None => !self@.contains_key(id@),
            },
    {
        self.allocations.get(id)
    }

    /// Registers a new allocation with status `Pending`.
    ///
    /// Fails with `InvalidArgs` and leaves the store unchanged when the
    /// identifier already exists.
    pub fn register(&mut self, req: AllocationRequest) -> (r: Result<(), PencallError>)
        ensures
            old(self)@.contains_key(req.id@) ==> (r matches Err(PencallError::InvalidArgs(_)))
                && final(self)@ == old(self)@,
            !old(self)@.contains_key(req.id@) ==> (r matches Ok(_))
                && final(self)@ == old(self)@.insert(req.id@, (req, AllocationStatus::Pending)),
    {
        if self.allocations.contains_key(req.id.as_str()) {
            return Err(PencallError::InvalidArgs("id already exists".to_owned()));
        }
        let key = req.id.clone();
        self.allocations.insert(key, (req, AllocationStatus::Pending));
        Ok(())
    }

    /// Replaces the status of an existing allocation, keeping its request.
    ///
    /// Fails with `InvalidArgs` and leaves the store unchanged when the
    /// identifier is absent.
    pub fn transition(&mut self, id: &str, status: AllocationStatus) -> (r: Result<
        (),
        PencallError,
    >)
        ensures
            old(self)@.contains_key(id@) ==> (r matches Ok(_))
                && final(self)@ == old(self)@.insert(id@, (old(self)@[id@].0, status)),
            !old(self)@.contains_key(id@) ==> (r matches Err(PencallError::InvalidArgs(_)))
                && final(self)@ == old(self)@,
    {
        match self.allocations.get(id) {
            Some(pair) => {
                let req = pair.0.clone();
                let key = id.to_owned();
                self.allocations.insert(key, (req, status));
                Ok(())
            },
            None => Err(PencallError::InvalidArgs("allocation not found".to_owned())),
        }
    }
}

} // verus!
