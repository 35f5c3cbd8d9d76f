//! The accounting core of a two-asset constant-product pool: share issuance
//! and redemption, swap pricing with a proportional fee, slippage bounds, the
//! checks against substituted accounts, and the transfer-compliance rules that
//! gate the pool's token.

pub mod accounts;
pub mod address;
pub mod arith;
pub mod hook;
pub mod liquidity;
pub mod pool;
pub mod swap;
