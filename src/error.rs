use vstd::prelude::*;

verus! {

/// Why a pool operation was rejected. A rejected operation never changes the
/// stored pool.
#[derive(Debug, Clone, Copy, PartialEq, Eq, Structural)]
pub enum ContractError {
    /// The pool was read or swapped against before it was initialized.
    NotInitialized,
    /// The pool was initialized a second time.
    AlreadyInitialized,
    /// A swap would pay out more than the pool holds of the asset asked for.
    InsufficientReserve,
    /// A swap amount that is not positive, a negative starting reserve, or an
    /// amount that would carry a reserve past the range of `i32`.
    InvalidAmount,
    /// Reserved for permission checks made by the host.
    Unauthorized,
}

} // verus!
