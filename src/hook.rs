use vstd::prelude::*;

use crate::accounts::same;
use crate::address::Address;

verus! {

/// Seconds in a day; usage against a daily limit restarts at each day boundary.
pub const SECONDS_PER_DAY: i64 = 86400;

/// Status of a user whose identity check has passed.
pub const KYC_APPROVED: u8 = 1;

/// Status of a user whose approval was withdrawn.
pub const KYC_REVOKED: u8 = 0;

/// Why a compliance operation is rejected.
#[derive(Clone, Copy, Debug, PartialEq, Eq, Structural)]
pub enum ErrorCode {
    KycFailed,
    Unauthorized,
    InvalidKycAccount,
    TransferLimitExceeded,
    DailyLimitExceeded,
    InvalidMintLimits,
}

/// The compliance record of one user.
#[derive(Clone, Copy, Debug)]
pub struct KycData {
    pub user: Address,
    pub status: u8,
    pub created_at: i64,
    pub revoked_at: Option<i64>,
}

/// Who administers the compliance records.
#[derive(Clone, Copy, Debug)]
pub struct ProgramSettings {
    pub authority: Address,
    pub created_at: i64,
    pub is_active: bool,
    pub updated_at: i64,
}

/// The transfer limits of one mint.
#[derive(Clone, Copy, Debug)]
pub struct MintLimits {
    pub mint: Address,
    pub daily_limit: u64,
    pub transaction_limit: u64,
    pub is_active: bool,
    pub updated_at: i64,
}

/// What one user has moved of one mint on the current day.
#[derive(Clone, Copy, Debug)]
pub struct UserUsage {
    pub user: Address,
    pub daily_used: u64,
    pub last_reset_day: i64,
    pub last_transaction: i64,
}

/// Limits requested for a mint.
#[derive(Clone, Copy, Debug, PartialEq, Eq, Structural)]
pub struct TransferLimits {
    pub daily_limit: u64,
    pub transaction_limit: u64,
}

/// The accounts a transfer check names.
#[derive(Clone, Copy, Debug)]
pub struct ValidateTransfer {
    pub kyc: KycData,
    pub owner: Address,
}

/// The accounts that approving a user names.
#[derive(Clone, Copy, Debug)]
pub struct CreateKyc {
    pub user: Address,
    pub settings: ProgramSettings,
    pub authority: Address,
}

/// The accounts that revoking a user's approval names.
#[derive(Clone, Copy, Debug)]
pub struct RevokeKyc {
    pub kyc: KycData,
    pub user: Address,
    pub settings: ProgramSettings,
    pub authority: Address,
}

/// The accounts that handing over administration names.
#[derive(Clone, Copy, Debug)]
pub struct UpdateAuthority {
    pub settings: ProgramSettings,
    pub authority: Address,
    pub new_authority: Address,
}

/// The account that sets up administration.
#[derive(Clone, Copy, Debug)]
pub struct Initialize {
    pub authority: Address,
}

/// The accounts that setting a mint's limits names.
#[derive(Clone, Copy, Debug)]
pub struct SetTransferLimits {
    pub mint: Address,
    pub settings: ProgramSettings,
    pub authority: Address,
}

/// The accounts that checking a transfer against the limits names.
#[derive(Clone, Copy, Debug)]
pub struct CheckTransferLimits {
    pub mint_limits: MintLimits,
    pub user_usage: UserUsage,
    pub mint: Address,
    pub user: Address,
}

/// The day a timestamp falls in, counted from the epoch; the quotient is
/// truncated toward zero.
pub open spec fn day_of(now: i64) -> int {
    if now >= 0 {
        (now as int) / (SECONDS_PER_DAY as int)
    } else {
        -((-(now as int)) / (SECONDS_PER_DAY as int))
    }
}

/// A transfer passes when the owner's compliance record is the owner's and approved.
pub fn validate_transfer(ctx: &ValidateTransfer) -> (r: Result<(), ErrorCode>)
    ensures
        !same(ctx.kyc.user, ctx.owner) ==> r == Err::<(), ErrorCode>(ErrorCode::InvalidKycAccount),
        same(ctx.kyc.user, ctx.owner) && ctx.kyc.status != KYC_APPROVED ==> r == Err::<(), ErrorCode>(
            ErrorCode::KycFailed,
        ),
        same(ctx.kyc.user, ctx.owner) && ctx.kyc.status == KYC_APPROVED ==> r is Ok,
{
    if !ctx.kyc.user.same_as(&ctx.owner) {
        return Err(ErrorCode::InvalidKycAccount);
    }
    if ctx.kyc.status != KYC_APPROVED {
        return Err(ErrorCode::KycFailed);
    }
    Ok(())
}

/// Approves a user; only the administrator may.
pub fn create_kyc(ctx: &CreateKyc, now: i64) -> (r: Result<KycData, ErrorCode>)
    ensures
        !same(ctx.settings.authority, ctx.authority) ==> r == Err::<KycData, ErrorCode>(
            ErrorCode::Unauthorized,
        ),
        same(ctx.settings.authority, ctx.authority) ==> r == Ok::<KycData, ErrorCode>(
            KycData { user: ctx.user, status: KYC_APPROVED, created_at: now, revoked_at: None },
        ),
{
    if !ctx.settings.authority.same_as(&ctx.authority) {
        return Err(ErrorCode::Unauthorized);
    }
    Ok(KycData { user: ctx.user, status: KYC_APPROVED, created_at: now, revoked_at: None })
}

/// Withdraws a user's approval; only the administrator may. On an error the
/// record is left as it was.
pub fn revoke_kyc(ctx: &mut RevokeKyc, now: i64) -> (r: Result<(), ErrorCode>)
    ensures
        !same(old(ctx).kyc.user, old(ctx).user) ==> r == Err::<(), ErrorCode>(
            ErrorCode::InvalidKycAccount,
        ),
        same(old(ctx).kyc.user, old(ctx).user) && !same(old(ctx).settings.authority, old(ctx).authority)
            ==> r == Err::<(), ErrorCode>(ErrorCode::Unauthorized),
        same(old(ctx).kyc.user, old(ctx).user) && same(old(ctx).settings.authority, old(ctx).authority)
            <==> r is Ok,
        r is Err ==> *final(ctx) == *old(ctx),
        r is Ok ==> *final(ctx) == (RevokeKyc {
            kyc: KycData { status: KYC_REVOKED, revoked_at: Some(now), ..old(ctx).kyc },
            ..*old(ctx)
        }),
{
    if !ctx.kyc.user.same_as(&ctx.user) {
        return Err(ErrorCode::InvalidKycAccount);
    }
    if !ctx.settings.authority.same_as(&ctx.authority) {
        return Err(ErrorCode::Unauthorized);
    }
    ctx.kyc.status = KYC_REVOKED;
    ctx.kyc.revoked_at = Some(now);
    Ok(())
}

/// Hands administration to a new authority; only the current one may.
pub fn update_authority(ctx: &mut UpdateAuthority, now: i64) -> (r: Result<(), ErrorCode>)
    ensures
        same(old(ctx).settings.authority, old(ctx).authority) <==> r is Ok,
        r is Err ==> r == Err::<(), ErrorCode>(ErrorCode::Unauthorized) && *final(ctx) == *old(ctx),
        r is Ok ==> *final(ctx) == (UpdateAuthority {
            settings: ProgramSettings {
                authority: old(ctx).new_authority,
                updated_at: now,
                ..old(ctx).settings
            },
            ..*old(ctx)
        }),
{
    if !ctx.settings.authority.same_as(&ctx.authority) {
        return Err(ErrorCode::Unauthorized);
    }
    ctx.settings.authority = ctx.new_authority;
    ctx.settings.updated_at = now;
    Ok(())
}

/// Sets up administration under the signing authority.
pub fn initialize(ctx: &Initialize, now: i64) -> (settings: ProgramSettings)
    ensures
        settings == (ProgramSettings {
            authority: ctx.authority,
            created_at: now,
            is_active: true,
            updated_at: now,
        }),
{
    ProgramSettings { authority: ctx.authority, created_at: now, is_active: true, updated_at: now }
}

/// Records a mint's limits; only the administrator may.
pub fn set_transfer_limits(ctx: &SetTransferLimits, limits: TransferLimits, now: i64) -> (r: Result<
    MintLimits,
    ErrorCode,
>)
    ensures
        !same(ctx.settings.authority, ctx.authority) ==> r == Err::<MintLimits, ErrorCode>(
            ErrorCode::Unauthorized,
        ),
        same(ctx.settings.authority, ctx.authority) ==> r == Ok::<MintLimits, ErrorCode>(
            MintLimits {
                mint: ctx.mint,
                daily_limit: limits.daily_limit,
                transaction_limit: limits.transaction_limit,
                is_active: true,
                updated_at: now,
            },
        ),
{
    if !ctx.settings.authority.same_as(&ctx.authority) {
        return Err(ErrorCode::Unauthorized);
    }
    Ok(
        MintLimits {
            mint: ctx.mint,
            daily_limit: limits.daily_limit,
            transaction_limit: limits.transaction_limit,
            is_active: true,
            updated_at: now,
        },
    )
}

/// What the user has already moved today: nothing once a new day has begun.
pub open spec fn used_today(usage: UserUsage, now: i64) -> int {
    if usage.last_reset_day != day_of(now) {
        0
    } else {
        usage.daily_used as int
    }
}

/// The outcome of checking a transfer of `amount` at time `now`.
pub open spec fn transfer_limits_outcome(ctx: CheckTransferLimits, amount: u64, now: i64) -> Result<
    CheckTransferLimits,
    ErrorCode,
> {
    if !same(ctx.mint_limits.mint, ctx.mint) {
        Err(ErrorCode::InvalidMintLimits)
    } else if amount > ctx.mint_limits.transaction_limit {
        Err(ErrorCode::TransferLimitExceeded)
    } else if used_today(ctx.user_usage, now) + amount > ctx.mint_limits.daily_limit {
        Err(ErrorCode::DailyLimitExceeded)
    } else {
        Ok(
            CheckTransferLimits {
                user_usage: UserUsage {
                    user: ctx.user,
                    daily_used: (used_today(ctx.user_usage, now) + amount) as u64,
                    last_reset_day: day_of(now) as i64,
                    last_transaction: now,
                },
                ..ctx
            },
        )
    }
}

/// Checks a transfer of `amount` against the mint's per-transaction and daily
/// limits and, when it passes, counts it against the user's usage for the day.
/// On an error the usage is left as it was.
pub fn check_transfer_limits(ctx: &mut CheckTransferLimits, amount: u64, now: i64) -> (r: Result<
    (),
    ErrorCode,
>)
    ensures
        match transfer_limits_outcome(*old(ctx), amount, now) {
            Ok(next) => r is Ok && *final(ctx) == next,
            Err(e) => r == Err::<(), ErrorCode>(e) && *final(ctx) == *old(ctx),
        },
{
    if !ctx.mint_limits.mint.same_as(&ctx.mint) {
        return Err(ErrorCode::InvalidMintLimits);
    }
    if amount > ctx.mint_limits.transaction_limit {
        return Err(ErrorCode::TransferLimitExceeded);
    }
    let current_day: i64 = now / SECONDS_PER_DAY;
    let used: u64 = if ctx.user_usage.last_reset_day != current_day {
        0
    } else {
        ctx.user_usage.daily_used
    };
    if amount > ctx.mint_limits.daily_limit || used > ctx.mint_limits.daily_limit - amount {
        return Err(ErrorCode::DailyLimitExceeded);
    }
    ctx.user_usage.daily_used = used + amount;
    ctx.user_usage.last_reset_day = current_day;
    ctx.user_usage.last_transaction = now;
    ctx.user_usage.user = ctx.user;
    Ok(())
}

} // verus!
