//! A two-asset liquidity pool with a fixed one-to-one exchange rate.
//!
//! The pool's persisted record lives in a [`state::PoolStore`] handle that the
//! host hands to every operation; the operations in [`contract`] validate a
//! request, compute the new reserves and either commit them or leave the
//! handle untouched.

pub mod contract;
pub mod error;
pub mod msg;
pub mod state;
