use vstd::prelude::*;

use crate::address::Address;

verus! {

/// Numerator of the trading fee every pool is created with.
pub const FEE_NUMERATOR: u64 = 3;

/// Denominator of the trading fee every pool is created with (3/1000, i.e. 0.30%).
pub const FEE_DENOMINATOR: u64 = 1000;

/// Shares minted per token unit on a first deposit; it only sets the initial
/// share-to-asset ratio.
pub const BOOTSTRAP_SCALE: u64 = 1_000_000;

/// Why a pool operation is rejected.
#[derive(Clone, Copy, Debug, PartialEq, Eq, Structural)]
pub enum ErrorCode {
    /// A computed amount violates the caller's stated bound.
    SlippageExceeded,
    /// A supplied vault does not match the one recorded in the pool.
    InvalidVault,
    /// A supplied mint does not match the one expected.
    InvalidMint,
    /// A supplied account is not owned by the acting user.
    InvalidOwner,
    /// A reserve (or the share supply) is zero where a divisor is needed.
    InsufficientLiquidity,
    /// A computed amount does not fit in 64 bits.
    ArithmeticOverflow,
}

/// The persistent record of one pool, fixed at creation.
#[derive(Clone, Copy, Debug)]
pub struct Pool {
    pub token_mint: Address,
    pub token_vault: Address,
    pub sol_vault: Address,
    pub lp_mint: Address,
    pub bump: u8,
    pub fee_numerator: u64,
    pub fee_denominator: u64,
}

impl Pool {
    /// The fee is a fraction of the output no larger than the whole output.
    pub open spec fn wf(&self) -> bool {
        &&& self.fee_denominator > 0
        &&& self.fee_numerator <= self.fee_denominator
    }
}

/// A snapshot of the pool's two reserves and its share supply, read at the
/// start of an operation.
#[derive(Clone, Copy, Debug, PartialEq, Eq, Structural)]
pub struct ReserveView {
    pub token_reserve: u64,
    pub base_reserve: u64,
    pub share_supply: u64,
}

/// The identities that pool creation fixes.
#[derive(Clone, Copy, Debug)]
pub struct InitializePool {
    pub token_mint: Address,
    pub token_vault: Address,
    pub sol_vault: Address,
    pub lp_mint: Address,
}

/// Creates the pool record: it takes the identities of its mints and vaults,
/// the bump of its derived authority, and the fixed fee rate.
pub fn initialize_pool(accounts: &InitializePool, bump: u8) -> (pool: Pool)
    ensures
        pool.token_mint == accounts.token_mint,
        pool.token_vault == accounts.token_vault,
        pool.sol_vault == accounts.sol_vault,
        pool.lp_mint == accounts.lp_mint,
        pool.bump == bump,
        pool.fee_numerator == FEE_NUMERATOR,
        pool.fee_denominator == FEE_DENOMINATOR,
        pool.wf(),
{
    Pool {
        token_mint: accounts.token_mint,
        token_vault: accounts.token_vault,
        sol_vault: accounts.sol_vault,
        lp_mint: accounts.lp_mint,
        bump,
        fee_numerator: FEE_NUMERATOR,
        fee_denominator: FEE_DENOMINATOR,
    }
}

} // verus!
