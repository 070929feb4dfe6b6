use swap_pool::contract::{
    execute, get_pool, get_token1for2, get_token2for1, instantiate, query, swap, Direction,
};
use swap_pool::error::ContractError;
use swap_pool::msg::{ExecuteMsg, InstantiateMsg, PoolResponse, QueryMsg};
use swap_pool::state::{PoolState, PoolStore};

fn pool(amount1: i32, amount2: i32) -> PoolStore {
    let mut store = PoolStore::new();
    let msg = InstantiateMsg {
        token1: "token1".to_string(),
        token2: "token2".to_string(),
        amount1,
        amount2,
    };
    instantiate(&mut store, msg).unwrap();
    store
}

fn reserves(store: &PoolStore) -> (i32, i32) {
    let value = get_pool(store).unwrap();
    (value.amount1, value.amount2)
}

#[test]
fn proper_initialization() {
    let mut store = PoolStore::new();

    let msg = InstantiateMsg {
        token1: "token1".to_string(),
        token2: "token2".to_string(),
        amount1: 50,
        amount2: 50,
    };

    let res = instantiate(&mut store, msg);
    assert_eq!(Ok(()), res);

    let value: PoolResponse = query(&store, QueryMsg::GetPool {}).unwrap();
    assert_eq!("token1", value.token1);
    assert_eq!("token2", value.token2);
    assert_eq!(50, value.amount1);
    assert_eq!(50, value.amount2);
}

#[test]
fn trade2for1() {
    let mut store = PoolStore::new();

    let msg = InstantiateMsg {
        token1: "token1".to_string(),
        token2: "token2".to_string(),
        amount1: 50,
        amount2: 50,
    };
    instantiate(&mut store, msg).unwrap();

    let msg = ExecuteMsg::GetToken2for1 { token2: 1 };
    execute(&mut store, msg).unwrap();

    let value: PoolResponse = query(&store, QueryMsg::GetPool {}).unwrap();
    assert_eq!("token1", value.token1);
    assert_eq!("token2", value.token2);
    assert_eq!(49, value.amount1);
    assert_eq!(51, value.amount2);
}

#[test]
fn trade1for2() {
    let mut store = PoolStore::new();

    let msg = InstantiateMsg {
        token1: "token1".to_string(),
        token2: "token2".to_string(),
        amount1: 50,
        amount2: 50,
    };
    instantiate(&mut store, msg).unwrap();

    let msg = ExecuteMsg::GetToken1for2 { token1: 1 };
    execute(&mut store, msg).unwrap();

    let value: PoolResponse = query(&store, QueryMsg::GetPool {}).unwrap();
    assert_eq!("token1", value.token1);
    assert_eq!("token2", value.token2);
    assert_eq!(51, value.amount1);
    assert_eq!(49, value.amount2);
}

#[test]
fn query_before_initialization_fails() {
    let store = PoolStore::new();
    assert_eq!(Err(ContractError::NotInitialized), get_pool(&store));
    assert_eq!(Err(ContractError::NotInitialized), query(&store, QueryMsg::GetPool {}));
}

#[test]
fn swap_before_initialization_fails() {
    let mut store = PoolStore::new();
    assert_eq!(Err(ContractError::NotInitialized), get_token1for2(&mut store, 1));
    assert_eq!(Err(ContractError::NotInitialized), get_token2for1(&mut store, 1));
    assert!(store.into_state().is_none());
}

#[test]
fn second_initialization_is_refused() {
    let mut store = pool(50, 50);
    let again = InstantiateMsg {
        token1: "other1".to_string(),
        token2: "other2".to_string(),
        amount1: 7,
        amount2: 8,
    };
    assert_eq!(Err(ContractError::AlreadyInitialized), instantiate(&mut store, again));
    let value = get_pool(&store).unwrap();
    assert_eq!("token1", value.token1);
    assert_eq!("token2", value.token2);
    assert_eq!((50, 50), reserves(&store));
}

#[test]
fn negative_starting_reserve_is_refused() {
    let mut store = PoolStore::new();
    let msg = InstantiateMsg {
        token1: "token1".to_string(),
        token2: "token2".to_string(),
        amount1: -1,
        amount2: 5,
    };
    assert_eq!(Err(ContractError::InvalidAmount), instantiate(&mut store, msg));
    assert!(store.into_state().is_none());
}

#[test]
fn zero_starting_reserves_are_accepted() {
    let store = pool(0, 0);
    assert_eq!((0, 0), reserves(&store));
}

#[test]
fn insufficient_reserve_leaves_state() {
    let mut store = pool(10, 5);
    assert_eq!(Err(ContractError::InsufficientReserve), get_token1for2(&mut store, 6));
    assert_eq!((10, 5), reserves(&store));
    assert_eq!(
        Err(ContractError::InsufficientReserve),
        execute(&mut store, ExecuteMsg::GetToken2for1 { token2: 11 })
    );
    assert_eq!((10, 5), reserves(&store));
}

#[test]
fn whole_reserve_can_be_drained() {
    let mut store = pool(10, 5);
    get_token1for2(&mut store, 5).unwrap();
    assert_eq!((15, 0), reserves(&store));
}

#[test]
fn non_positive_amount_is_refused() {
    let mut store = pool(10, 5);
    assert_eq!(Err(ContractError::InvalidAmount), get_token1for2(&mut store, 0));
    assert_eq!(Err(ContractError::InvalidAmount), get_token2for1(&mut store, -3));
    assert_eq!((10, 5), reserves(&store));
    let mut empty = PoolStore::new();
    assert_eq!(Err(ContractError::InvalidAmount), get_token1for2(&mut empty, 0));
}

#[test]
fn overflowing_reserve_is_refused() {
    let mut store = pool(5, i32::MAX);
    assert_eq!(Err(ContractError::InvalidAmount), get_token2for1(&mut store, 1));
    assert_eq!((5, i32::MAX), reserves(&store));
    let mut store = pool(i32::MAX - 1, 5);
    assert_eq!(Err(ContractError::InvalidAmount), get_token1for2(&mut store, 2));
    assert_eq!((i32::MAX - 1, 5), reserves(&store));
    get_token1for2(&mut store, 1).unwrap();
    assert_eq!((i32::MAX, 4), reserves(&store));
}

#[test]
fn total_reserve_is_conserved() {
    let mut store = pool(30, 70);
    get_token1for2(&mut store, 20).unwrap();
    assert_eq!((50, 50), reserves(&store));
    get_token2for1(&mut store, 45).unwrap();
    assert_eq!((5, 95), reserves(&store));
    let (a, b) = reserves(&store);
    assert_eq!(100, a + b);
}

#[test]
fn swap_and_back_restores_reserves() {
    let mut store = pool(12, 9);
    get_token1for2(&mut store, 4).unwrap();
    assert_eq!((16, 5), reserves(&store));
    get_token2for1(&mut store, 4).unwrap();
    assert_eq!((12, 9), reserves(&store));
}

#[test]
fn swap_on_record() {
    let mut state = PoolState {
        token1: "a".to_string(),
        token2: "b".to_string(),
        amount1: 50,
        amount2: 50,
    };
    assert_eq!(Ok(()), swap(&mut state, Direction::Asset2ToAsset1, 1));
    assert_eq!((49, 51), (state.amount1, state.amount2));
    assert_eq!(Ok(()), swap(&mut state, Direction::Asset1ToAsset2, 3));
    assert_eq!((52, 48), (state.amount1, state.amount2));
    assert_eq!(Err(ContractError::InsufficientReserve), swap(&mut state, Direction::Asset1ToAsset2, 49));
    assert_eq!(Err(ContractError::InvalidAmount), swap(&mut state, Direction::Asset2ToAsset1, 0));
    assert_eq!((52, 48), (state.amount1, state.amount2));
    assert_eq!("a", state.token1);
    assert_eq!("b", state.token2);
}

#[test]
fn store_round_trips_through_host_record() {
    let store = pool(3, 4);
    let record = store.into_state();
    let store = PoolStore::from_state(record.clone());
    assert_eq!(record, store.into_state());
}
