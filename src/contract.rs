use vstd::prelude::*;

use crate::error::ContractError;
use crate::msg::{ExecuteMsg, InstantiateMsg, PoolResponse, QueryMsg};
use crate::state::{PoolState, PoolStore};

verus! {

/// Units of the asked-for asset paid out per unit of the offered asset.
pub const EXCHANGE_RATE: i32 = 1;

/// Which asset a swap offers to the pool.
#[derive(Debug, Clone, Copy, PartialEq, Eq, Structural)]
pub enum Direction {
    /// The caller offers the first asset and receives the second.
    Asset1ToAsset2,
    /// The caller offers the second asset and receives the first.
    Asset2ToAsset1,
}

impl Direction {
    /// The swap that trades the other way.
    pub open spec fn reverse(self) -> Direction {
        match self {
            Direction::Asset1ToAsset2 => Direction::Asset2ToAsset1,
            Direction::Asset2ToAsset1 => Direction::Asset1ToAsset2,
        }
    }
}

/// Sum of both reserves.
pub open spec fn total_reserve(s: PoolState) -> int {
    s.amount1 + s.amount2
}

/// The reserves after `amount` of the offered asset comes in and
/// `amount * EXCHANGE_RATE` of the other goes out, before any check.
pub open spec fn traded(s: PoolState, dir: Direction, amount: int) -> (int, int) {
    match dir {
        Direction::Asset1ToAsset2 => (s.amount1 + amount, s.amount2 - amount * EXCHANGE_RATE),
        Direction::Asset2ToAsset1 => (s.amount1 - amount * EXCHANGE_RATE, s.amount2 + amount),
    }
}

/// The reserve that a swap in direction `dir` pays out of.
pub open spec fn payout_reserve(s: PoolState, dir: Direction) -> int {
    match dir {
        Direction::Asset1ToAsset2 => s.amount2 as int,
        Direction::Asset2ToAsset1 => s.amount1 as int,
    }
}

/// The record that a swap of `amount` in direction `dir` commits, or why it
/// is rejected.
pub open spec fn swap_outcome(s: PoolState, dir: Direction, amount: int) -> Result<
    PoolState,
    ContractError,
> {
    let (a1, a2) = traded(s, dir, amount);
    if amount <= 0 {
        Err(ContractError::InvalidAmount)
    } else if amount * EXCHANGE_RATE > payout_reserve(s, dir) {
        Err(ContractError::InsufficientReserve)
    } else if a1 > i32::MAX || a2 > i32::MAX {
        Err(ContractError::InvalidAmount)
    } else {
        Ok(PoolState { token1: s.token1, token2: s.token2, amount1: a1 as i32, amount2: a2 as i32 })
    }
}

/// Trades `amount` of the offered asset for the same amount of the other one
/// on `state`. On rejection `state` is left as it was.
pub fn swap(state: &mut PoolState, direction: Direction, amount: i32) -> (r: Result<(), ContractError>)
    ensures
        match swap_outcome(*old(state), direction, amount as int) {
            Ok(s) => r is Ok && *final(state) == s,
            Err(e) => r == Err::<(), ContractError>(e) && *final(state) == *old(state),
        },
        r is Ok ==> total_reserve(*final(state)) == total_reserve(*old(state)),
        old(state).wf() ==> final(state).wf(),
{
    if amount <= 0 {
        return Err(ContractError::InvalidAmount);
    }
    let return_amount: i32 = amount * EXCHANGE_RATE;
    match direction {
        Direction::Asset1ToAsset2 => {
            if return_amount > state.amount2 {
                return Err(ContractError::InsufficientReserve);
            }
            match state.amount1.checked_add(amount) {
                None => Err(ContractError::InvalidAmount),
                Some(received) => {
                    state.amount1 = received;
                    state.amount2 = state.amount2 - return_amount;
                    Ok(())
                },
            }
        },
        Direction::Asset2ToAsset1 => {
            if return_amount > state.amount1 {
                return Err(ContractError::InsufficientReserve);
            }
            match state.amount2.checked_add(amount) {
                None => Err(ContractError::InvalidAmount),
                Some(received) => {
                    state.amount2 = received;
                    state.amount1 = state.amount1 - return_amount;
                    Ok(())
                },
            }
        },
    }
}

/// The stored record moves from `before` to `after` as `outcome` says: an
/// accepted outcome is committed, a rejected one is returned and changes
/// nothing.
pub open spec fn commits(
    before: Option<PoolState>,
    after: Option<PoolState>,
    r: Result<(), ContractError>,
    outcome: Result<PoolState, ContractError>,
) -> bool {
    match outcome {
        Ok(s) => r is Ok && after == Some(s),
        Err(e) => r == Err::<(), ContractError>(e) && after == before,
    }
}

/// The record that initialization commits on the slot `state`, or why it is
/// rejected.
pub open spec fn instantiate_outcome(state: Option<PoolState>, msg: InstantiateMsg) -> Result<
    PoolState,
    ContractError,
> {
    if state is Some {
        Err(ContractError::AlreadyInitialized)
    } else if msg.amount1 < 0 || msg.amount2 < 0 {
        Err(ContractError::InvalidAmount)
    } else {
        Ok(
            PoolState {
                token1: msg.token1,
                token2: msg.token2,
                amount1: msg.amount1,
                amount2: msg.amount2,
            },
        )
    }
}

/// The record that a swap request commits on the slot `state`, or why it is
/// rejected. The amount is checked before the slot is read.
pub open spec fn store_swap_outcome(state: Option<PoolState>, dir: Direction, amount: int) -> Result<
    PoolState,
    ContractError,
> {
    if amount <= 0 {
        Err(ContractError::InvalidAmount)
    } else {
        match state {
            None => Err(ContractError::NotInitialized),
            Some(s) => swap_outcome(s, dir, amount),
        }
    }
}

/// The direction and amount that a swap request asks for.
pub open spec fn requested(msg: ExecuteMsg) -> (Direction, int) {
    match msg {
        ExecuteMsg::GetToken1for2 { token1 } => (Direction::Asset1ToAsset2, token1 as int),
        ExecuteMsg::GetToken2for1 { token2 } => (Direction::Asset2ToAsset1, token2 as int),
    }
}

/// The total of both reserves in a slot, zero when it is empty.
pub open spec fn stored_total(state: Option<PoolState>) -> int {
    match state {
        Some(s) => total_reserve(s),
        None => 0,
    }
}

/// What a query returns for the slot `state`.
pub open spec fn pool_view(state: Option<PoolState>) -> Result<PoolResponse, ContractError> {
    match state {
        None => Err(ContractError::NotInitialized),
        Some(s) => Ok(
            PoolResponse {
                token1: s.token1,
                token2: s.token2,
                amount1: s.amount1,
                amount2: s.amount2,
            },
        ),
    }
}

/// Creates the pool record in an empty slot. A slot that already holds a
/// record is left alone, and negative starting reserves are refused.
pub fn instantiate(store: &mut PoolStore, msg: InstantiateMsg) -> (r: Result<(), ContractError>)
    ensures
        commits(old(store).state, final(store).state, r, instantiate_outcome(old(store).state, msg)),
        old(store).wf() ==> final(store).wf(),
{
    if store.state.is_some() {
        return Err(ContractError::AlreadyInitialized);
    }
    if msg.amount1 < 0 || msg.amount2 < 0 {
        return Err(ContractError::InvalidAmount);
    }
    store.state = Some(
        PoolState {
            token1: msg.token1,
            token2: msg.token2,
            amount1: msg.amount1,
            amount2: msg.amount2,
        },
    );
    Ok(())
}

/// Loads the record, trades in direction `direction` and commits the result.
fn swap_stored(store: &mut PoolStore, direction: Direction, amount: i32) -> (r: Result<(), ContractError>)
    ensures
        commits(old(store).state, final(store).state, r, store_swap_outcome(old(store).state, direction, amount as int)),
        r is Ok ==> stored_total(final(store).state) == stored_total(old(store).state),
        old(store).wf() ==> final(store).wf(),
{
    if amount <= 0 {
        return Err(ContractError::InvalidAmount);
    }
    match &mut store.state {
        None => Err(ContractError::NotInitialized),
        Some(state) => swap(state, direction, amount),
    }
}

/// Offers `amount` of the first asset for the same amount of the second.
pub fn get_token1for2(store: &mut PoolStore, amount: i32) -> (r: Result<(), ContractError>)
    ensures
        commits(old(store).state, final(store).state, r, store_swap_outcome(old(store).state, Direction::Asset1ToAsset2, amount as int)),
        r is Ok ==> stored_total(final(store).state) == stored_total(old(store).state),
        old(store).wf() ==> final(store).wf(),
{
    swap_stored(store, Direction::Asset1ToAsset2, amount)
}

/// Offers `amount` of the second asset for the same amount of the first.
pub fn get_token2for1(store: &mut PoolStore, amount: i32) -> (r: Result<(), ContractError>)
    ensures
        commits(old(store).state, final(store).state, r, store_swap_outcome(old(store).state, Direction::Asset2ToAsset1, amount as int)),
        r is Ok ==> stored_total(final(store).state) == stored_total(old(store).state),
        old(store).wf() ==> final(store).wf(),
{
    swap_stored(store, Direction::Asset2ToAsset1, amount)
}

/// Runs a swap request against the pool.
pub fn execute(store: &mut PoolStore, msg: ExecuteMsg) -> (r: Result<(), ContractError>)
    ensures
        commits(old(store).state, final(store).state, r, store_swap_outcome(old(store).state, requested(msg).0, requested(msg).1)),
        r is Ok ==> stored_total(final(store).state) == stored_total(old(store).state),
        old(store).wf() ==> final(store).wf(),
{
    match msg {
        ExecuteMsg::GetToken1for2 { token1 } => get_token1for2(store, token1),
        ExecuteMsg::GetToken2for1 { token2 } => get_token2for1(store, token2),
    }
}

/// The pool's identifiers and reserves, without changing anything.
pub fn get_pool(store: &PoolStore) -> (r: Result<PoolResponse, ContractError>)
    ensures
        r == pool_view(store.state),
{
    match &store.state {
        None => Err(ContractError::NotInitialized),
        Some(state) => Ok(
            PoolResponse {
                token1: state.token1.clone(),
                token2: state.token2.clone(),
                amount1: state.amount1,
                amount2: state.amount2,
            },
        ),
    }
}

/// Answers a read-only request.
pub fn query(store: &PoolStore, msg: QueryMsg) -> (r: Result<PoolResponse, ContractError>)
    ensures
        r == pool_view(store.state),
{
    match msg {
        QueryMsg::GetPool {  } => get_pool(store),
    }
}

/// Every record that initialization commits has non-negative reserves.
pub proof fn lemma_instantiate_commits_valid(slot: Option<PoolState>, msg: InstantiateMsg)
    requires
        instantiate_outcome(slot, msg) is Ok,
    ensures
        instantiate_outcome(slot, msg)->Ok_0.wf(),
{
}

/// A swap accepted on a record with non-negative reserves commits a record
/// with non-negative reserves.
pub proof fn lemma_swap_preserves_valid(s: PoolState, dir: Direction, amount: int)
    requires
        s.wf(),
        swap_outcome(s, dir, amount) is Ok,
    ensures
        swap_outcome(s, dir, amount)->Ok_0.wf(),
{
}

/// An accepted swap keeps the sum of the two reserves.
pub proof fn lemma_swap_conserves_total(s: PoolState, dir: Direction, amount: int)
    requires
        swap_outcome(s, dir, amount) is Ok,
    ensures
        total_reserve(swap_outcome(s, dir, amount)->Ok_0) == total_reserve(s),
{
}

/// Swapping `amount` one way and then `amount` back, when both are accepted,
/// restores the starting record.
pub proof fn lemma_swap_round_trip(s: PoolState, dir: Direction, amount: int)
    requires
        swap_outcome(s, dir, amount) is Ok,
        swap_outcome(swap_outcome(s, dir, amount)->Ok_0, dir.reverse(), amount) is Ok,
    ensures
        swap_outcome(swap_outcome(s, dir, amount)->Ok_0, dir.reverse(), amount)->Ok_0 == s,
{
}

/// A swap rejected for want of reserve leaves the stored record as it was.
pub proof fn lemma_rejected_swap_keeps_state(
    before: Option<PoolState>,
    after: Option<PoolState>,
    r: Result<(), ContractError>,
    dir: Direction,
    amount: int,
)
    requires
        commits(before, after, r, store_swap_outcome(before, dir, amount)),
        r == Err::<(), ContractError>(ContractError::InsufficientReserve),
    ensures
        after == before,
{
}

/// A second initialization is refused with `AlreadyInitialized` and leaves the
/// record of the first. On an empty slot with non-negative starting reserves,
/// that record holds the first request's values.
pub proof fn lemma_initialize_twice(
    s0: Option<PoolState>,
    s1: Option<PoolState>,
    s2: Option<PoolState>,
    r1: Result<(), ContractError>,
    r2: Result<(), ContractError>,
    first: InstantiateMsg,
    second: InstantiateMsg,
)
    requires
        s0 is None,
        first.amount1 >= 0,
        first.amount2 >= 0,
        commits(s0, s1, r1, instantiate_outcome(s0, first)),
        commits(s1, s2, r2, instantiate_outcome(s1, second)),
    ensures
        r1 is Ok,
        r2 == Err::<(), ContractError>(ContractError::AlreadyInitialized),
        s2 == s1,
        s2 == Some(
            PoolState {
                token1: first.token1,
                token2: first.token2,
                amount1: first.amount1,
                amount2: first.amount2,
            },
        ),
{
}

} // verus!
