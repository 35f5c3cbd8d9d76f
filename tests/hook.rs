use amm::address::Address;
use amm::hook::{
    check_transfer_limits, create_kyc, initialize, revoke_kyc, set_transfer_limits, update_authority,
    validate_transfer, CheckTransferLimits, CreateKyc, ErrorCode, Initialize, KycData, MintLimits,
    ProgramSettings, RevokeKyc, SetTransferLimits, TransferLimits, UpdateAuthority, UserUsage,
    ValidateTransfer,
};

fn addr(b: u8) -> Address {
    Address { bytes: [b; 32] }
}

fn settings(authority: u8) -> ProgramSettings {
    initialize(&Initialize { authority: addr(authority) }, 100)
}

#[test]
fn initialize_sets_authority_and_times() {
    let s = settings(1);
    assert!(s.authority.same_as(&addr(1)));
    assert_eq!(s.created_at, 100);
    assert_eq!(s.updated_at, 100);
    assert!(s.is_active);
}

#[test]
fn create_kyc_approves_user() {
    let k = create_kyc(&CreateKyc { user: addr(5), settings: settings(1), authority: addr(1) }, 200).unwrap();
    assert!(k.user.same_as(&addr(5)));
    assert_eq!(k.status, 1);
    assert_eq!(k.created_at, 200);
    assert_eq!(k.revoked_at, None);
    assert!(create_kyc(&CreateKyc { user: addr(5), settings: settings(1), authority: addr(2) }, 200).is_err());
}

#[test]
fn validate_transfer_checks_record_and_status() {
    let k = KycData { user: addr(5), status: 1, created_at: 0, revoked_at: None };
    assert_eq!(validate_transfer(&ValidateTransfer { kyc: k, owner: addr(5) }), Ok(()));
    assert_eq!(validate_transfer(&ValidateTransfer { kyc: k, owner: addr(6) }), Err(ErrorCode::InvalidKycAccount));
    let revoked = KycData { status: 0, ..k };
    assert_eq!(validate_transfer(&ValidateTransfer { kyc: revoked, owner: addr(5) }), Err(ErrorCode::KycFailed));
}

#[test]
fn revoke_kyc_marks_record() {
    let k = KycData { user: addr(5), status: 1, created_at: 0, revoked_at: None };
    let mut ctx = RevokeKyc { kyc: k, user: addr(5), settings: settings(1), authority: addr(1) };
    assert_eq!(revoke_kyc(&mut ctx, 300), Ok(()));
    assert_eq!(ctx.kyc.status, 0);
    assert_eq!(ctx.kyc.revoked_at, Some(300));

    let mut bad = RevokeKyc { kyc: k, user: addr(5), settings: settings(1), authority: addr(2) };
    assert_eq!(revoke_kyc(&mut bad, 300), Err(ErrorCode::Unauthorized));
    assert_eq!(bad.kyc.status, 1);
    let mut wrong = RevokeKyc { kyc: k, user: addr(6), settings: settings(1), authority: addr(1) };
    assert_eq!(revoke_kyc(&mut wrong, 300), Err(ErrorCode::InvalidKycAccount));
}

#[test]
fn update_authority_hands_over() {
    let mut ctx = UpdateAuthority { settings: settings(1), authority: addr(1), new_authority: addr(2) };
    assert_eq!(update_authority(&mut ctx, 400), Ok(()));
    assert!(ctx.settings.authority.same_as(&addr(2)));
    assert_eq!(ctx.settings.updated_at, 400);
    assert_eq!(ctx.settings.created_at, 100);
    let mut bad = UpdateAuthority { settings: settings(1), authority: addr(3), new_authority: addr(2) };
    assert_eq!(update_authority(&mut bad, 400), Err(ErrorCode::Unauthorized));
    assert!(bad.settings.authority.same_as(&addr(1)));
}

#[test]
fn set_transfer_limits_records_limits() {
    let limits = TransferLimits { daily_limit: 1000, transaction_limit: 300 };
    let m = set_transfer_limits(&SetTransferLimits { mint: addr(4), settings: settings(1), authority: addr(1) }, limits, 500)
        .unwrap();
    assert!(m.mint.same_as(&addr(4)));
    assert_eq!(m.daily_limit, 1000);
    assert_eq!(m.transaction_limit, 300);
    assert!(m.is_active);
    assert_eq!(m.updated_at, 500);
    assert!(set_transfer_limits(&SetTransferLimits { mint: addr(4), settings: settings(1), authority: addr(2) }, limits, 500)
        .is_err());
}

fn limits_ctx(daily_used: u64, last_reset_day: i64) -> CheckTransferLimits {
    CheckTransferLimits {
        mint_limits: MintLimits { mint: addr(4), daily_limit: 1000, transaction_limit: 300, is_active: true, updated_at: 0 },
        user_usage: UserUsage { user: addr(0), daily_used, last_reset_day, last_transaction: 0 },
        mint: addr(4),
        user: addr(7),
    }
}

#[test]
fn transfer_limits_count_usage_within_day() {
    let mut ctx = limits_ctx(600, 2);
    let now = 2 * 86400 + 10;
    assert_eq!(check_transfer_limits(&mut ctx, 300, now), Ok(()));
    assert_eq!(ctx.user_usage.daily_used, 900);
    assert_eq!(ctx.user_usage.last_reset_day, 2);
    assert_eq!(ctx.user_usage.last_transaction, now);
    assert!(ctx.user_usage.user.same_as(&addr(7)));
    assert_eq!(check_transfer_limits(&mut ctx, 101, now), Err(ErrorCode::DailyLimitExceeded));
    assert_eq!(ctx.user_usage.daily_used, 900);
    assert_eq!(check_transfer_limits(&mut ctx, 100, now), Ok(()));
    assert_eq!(ctx.user_usage.daily_used, 1000);
}

#[test]
fn transfer_limits_reset_on_new_day() {
    let mut ctx = limits_ctx(1000, 2);
    assert_eq!(check_transfer_limits(&mut ctx, 200, 3 * 86400), Ok(()));
    assert_eq!(ctx.user_usage.daily_used, 200);
    assert_eq!(ctx.user_usage.last_reset_day, 3);
}

#[test]
fn transfer_limits_reject_large_transaction() {
    let mut ctx = limits_ctx(0, 0);
    assert_eq!(check_transfer_limits(&mut ctx, 301, 10), Err(ErrorCode::TransferLimitExceeded));
    let mut wrong = limits_ctx(0, 0);
    wrong.mint = addr(5);
    assert_eq!(check_transfer_limits(&mut wrong, 1, 10), Err(ErrorCode::InvalidMintLimits));
}

#[test]
fn transfer_limits_day_truncates_toward_zero() {
    let mut ctx = limits_ctx(0, 5);
    assert_eq!(check_transfer_limits(&mut ctx, 1, -86399), Ok(()));
    assert_eq!(ctx.user_usage.last_reset_day, 0);
    let mut ctx = limits_ctx(0, 5);
    assert_eq!(check_transfer_limits(&mut ctx, 1, -86400), Ok(()));
    assert_eq!(ctx.user_usage.last_reset_day, -1);
}
