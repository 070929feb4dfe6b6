use vstd::prelude::*;

verus! {

/// The pool's persisted record: the two asset identifiers and the quantity of
/// each that the pool holds.
#[derive(Debug, Clone, PartialEq, Eq)]
pub struct PoolState {
    pub token1: String,
    pub token2: String,
    pub amount1: i32,
    pub amount2: i32,
}

impl PoolState {
    /// Both reserves are non-negative.
    pub open spec fn wf(&self) -> bool {
        self.amount1 >= 0 && self.amount2 >= 0
    }
}

/// The host's storage slot for the pool: empty until the pool is initialized.
pub struct PoolStore {
    pub state: Option<PoolState>,
}

impl PoolStore {
    /// Every record the slot holds has non-negative reserves.
    pub open spec fn wf(&self) -> bool {
        match self.state {
            Some(s) => s.wf(),
            None => true,
        }
    }

    /// An empty slot, as before initialization.
    pub fn new() -> (r: PoolStore)
        ensures
            r.state is None,
            r.wf(),
    {
        PoolStore { state: None }
    }

    /// A slot holding what the host loaded from storage.
    pub fn from_state(state: Option<PoolState>) -> (r: PoolStore)
        ensures
            r.state == state,
    {
        PoolStore { state }
    }

    /// Hands the record back to the host for saving.
    pub fn into_state(self) -> (r: Option<PoolState>)
        ensures
            r == self.state,
    {
        self.state
    }
}

} // verus!
