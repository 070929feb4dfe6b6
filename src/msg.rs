use vstd::prelude::*;

verus! {

/// Creates the pool: the two asset identifiers and their starting reserves.
#[derive(Debug, Clone, PartialEq, Eq)]
pub struct InstantiateMsg {
    pub token1: String,
    pub token2: String,
    pub amount1: i32,
    pub amount2: i32,
}

/// A swap request: the amount of the offered asset.
#[derive(Debug, Clone, Copy, PartialEq, Eq, Structural)]
pub enum ExecuteMsg {
    /// Offer `token1` of the first asset for the same amount of the second.
    GetToken1for2 { token1: i32 },
    /// Offer `token2` of the second asset for the same amount of the first.
    GetToken2for1 { token2: i32 },
}

/// A read-only request.
#[derive(Debug, Clone, Copy, PartialEq, Eq, Structural)]
pub enum QueryMsg {
    /// The pool's identifiers and reserves.
    GetPool {},
}

/// What a query of the pool returns.
#[derive(Debug, Clone, PartialEq, Eq)]
pub struct PoolResponse {
    pub token1: String,
    pub token2: String,
    pub amount1: i32,
    pub amount2: i32,
}

} // verus!
