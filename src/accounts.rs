use vstd::prelude::*;

use crate::address::Address;
use crate::pool::{ErrorCode, Pool};

verus! {

/// What an operation needs to know of a user's token account.
#[derive(Clone, Copy, Debug)]
pub struct TokenAccountInfo {
    pub mint: Address,
    pub owner: Address,
}

/// The accounts a deposit names.
#[derive(Clone, Copy, Debug)]
pub struct AddLiquidity {
    pub token_mint: Address,
    pub token_vault: Address,
    pub sol_vault: Address,
    pub lp_mint: Address,
    pub user_token_account: TokenAccountInfo,
    pub user_lp_token_account: TokenAccountInfo,
    pub user: Address,
}

/// The accounts a redemption names.
#[derive(Clone, Copy, Debug)]
pub struct RemoveLiquidity {
    pub token_mint: Address,
    pub token_vault: Address,
    pub sol_vault: Address,
    pub lp_mint: Address,
    pub user_token_account: TokenAccountInfo,
    pub user_lp_token_account: TokenAccountInfo,
    pub user: Address,
}

/// The accounts a token-for-base swap names.
#[derive(Clone, Copy, Debug)]
pub struct SwapToken {
    pub token_mint: Address,
    pub token_vault: Address,
    pub sol_vault: Address,
    pub user_token_account: TokenAccountInfo,
    pub user: Address,
}

/// The accounts a base-for-token swap names.
#[derive(Clone, Copy, Debug)]
pub struct SwapSol {
    pub token_mint: Address,
    pub token_vault: Address,
    pub sol_vault: Address,
    pub user_token_account: TokenAccountInfo,
    pub user: Address,
}

pub open spec fn same(a: Address, b: Address) -> bool {
    a.bytes@ == b.bytes@
}

/// The first substituted account among those a swap names, in the order they
/// are checked: the two vaults, then the user's token account.
pub open spec fn swap_accounts_check(
    pool: Pool,
    token_mint: Address,
    token_vault: Address,
    sol_vault: Address,
    user_token_account: TokenAccountInfo,
    user: Address,
) -> Result<(), ErrorCode> {
    if !same(token_vault, pool.token_vault) || !same(sol_vault, pool.sol_vault) {
        Err(ErrorCode::InvalidVault)
    } else if !same(user_token_account.mint, token_mint) {
        Err(ErrorCode::InvalidMint)
    } else if !same(user_token_account.owner, user) {
        Err(ErrorCode::InvalidOwner)
    } else {
        Ok(())
    }
}

/// The first substituted account among those a deposit or a redemption names:
/// the swap's accounts, with the share mint checked after the vaults and the
/// user's share account checked last.
pub open spec fn liquidity_accounts_check(
    pool: Pool,
    token_mint: Address,
    token_vault: Address,
    sol_vault: Address,
    lp_mint: Address,
    user_token_account: TokenAccountInfo,
    user_lp_token_account: TokenAccountInfo,
    user: Address,
) -> Result<(), ErrorCode> {
    if !same(token_vault, pool.token_vault) || !same(sol_vault, pool.sol_vault) {
        Err(ErrorCode::InvalidVault)
    } else if !same(lp_mint, pool.lp_mint) {
        Err(ErrorCode::InvalidMint)
    } else if !same(user_token_account.mint, token_mint) {
        Err(ErrorCode::InvalidMint)
    } else if !same(user_token_account.owner, user) {
        Err(ErrorCode::InvalidOwner)
    } else if !same(user_lp_token_account.mint, lp_mint) {
        Err(ErrorCode::InvalidMint)
    } else if !same(user_lp_token_account.owner, user) {
        Err(ErrorCode::InvalidOwner)
    } else {
        Ok(())
    }
}

fn check_swap_accounts(
    pool: &Pool,
    token_mint: &Address,
    token_vault: &Address,
    sol_vault: &Address,
    user_token_account: &TokenAccountInfo,
    user: &Address,
) -> (r: Result<(), ErrorCode>)
    ensures
        r == swap_accounts_check(*pool, *token_mint, *token_vault, *sol_vault, *user_token_account, *user),
{
    if !token_vault.same_as(&pool.token_vault) || !sol_vault.same_as(&pool.sol_vault) {
        return Err(ErrorCode::InvalidVault);
    }
    if !user_token_account.mint.same_as(token_mint) {
        return Err(ErrorCode::InvalidMint);
    }
    if !user_token_account.owner.same_as(user) {
        return Err(ErrorCode::InvalidOwner);
    }
    Ok(())
}

fn check_liquidity_accounts(
    pool: &Pool,
    token_mint: &Address,
    token_vault: &Address,
    sol_vault: &Address,
    lp_mint: &Address,
    user_token_account: &TokenAccountInfo,
    user_lp_token_account: &TokenAccountInfo,
    user: &Address,
) -> (r: Result<(), ErrorCode>)
    ensures
        r == liquidity_accounts_check(
            *pool,
            *token_mint,
            *token_vault,
            *sol_vault,
            *lp_mint,
            *user_token_account,
            *user_lp_token_account,
            *user,
        ),
{
    if !token_vault.same_as(&pool.token_vault) || !sol_vault.same_as(&pool.sol_vault) {
        return Err(ErrorCode::InvalidVault);
    }
    if !lp_mint.same_as(&pool.lp_mint) {
        return Err(ErrorCode::InvalidMint);
    }
    if !user_token_account.mint.same_as(token_mint) {
        return Err(ErrorCode::InvalidMint);
    }
    if !user_token_account.owner.same_as(user) {
        return Err(ErrorCode::InvalidOwner);
    }
    if !user_lp_token_account.mint.same_as(lp_mint) {
        return Err(ErrorCode::InvalidMint);
    }
    if !user_lp_token_account.owner.same_as(user) {
        return Err(ErrorCode::InvalidOwner);
    }
    Ok(())
}

impl AddLiquidity {
    /// Rejects a deposit that names an account other than the pool's own.
    pub fn validate(&self, pool: &Pool) -> (r: Result<(), ErrorCode>)
        ensures
            r == liquidity_accounts_check(
                *pool,
                self.token_mint,
                self.token_vault,
                self.sol_vault,
                self.lp_mint,
                self.user_token_account,
                self.user_lp_token_account,
                self.user,
            ),
    {
        check_liquidity_accounts(
            pool,
            &self.token_mint,
            &self.token_vault,
            &self.sol_vault,
            &self.lp_mint,
            &self.user_token_account,
            &self.user_lp_token_account,
            &self.user,
        )
    }
}

impl RemoveLiquidity {
    /// Rejects a redemption that names an account other than the pool's own.
    pub fn validate(&self, pool: &Pool) -> (r: Result<(), ErrorCode>)
        ensures
            r == liquidity_accounts_check(
                *pool,
                self.token_mint,
                self.token_vault,
                self.sol_vault,
                self.lp_mint,
                self.user_token_account,
                self.user_lp_token_account,
                self.user,
            ),
    {
        check_liquidity_accounts(
            pool,
            &self.token_mint,
            &self.token_vault,
            &self.sol_vault,
            &self.lp_mint,
            &self.user_token_account,
            &self.user_lp_token_account,
            &self.user,
        )
    }
}

impl SwapToken {
    /// Rejects a swap that names an account other than the pool's own.
    pub fn validate(&self, pool: &Pool) -> (r: Result<(), ErrorCode>)
        ensures
            r == swap_accounts_check(
                *pool,
                self.token_mint,
                self.token_vault,
                self.sol_vault,
                self.user_token_account,
                self.user,
            ),
    {
        check_swap_accounts(
            pool,
            &self.token_mint,
            &self.token_vault,
            &self.sol_vault,
            &self.user_token_account,
            &self.user,
        )
    }
}

impl SwapSol {
    /// Rejects a swap that names an account other than the pool's own.
    pub fn validate(&self, pool: &Pool) -> (r: Result<(), ErrorCode>)
        ensures
            r == swap_accounts_check(
                *pool,
                self.token_mint,
                self.token_vault,
                self.sol_vault,
                self.user_token_account,
                self.user,
            ),
    {
        check_swap_accounts(
            pool,
            &self.token_mint,
            &self.token_vault,
            &self.sol_vault,
            &self.user_token_account,
            &self.user,
        )
    }
}

} // verus!
