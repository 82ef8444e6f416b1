use honey_locker::pubkey::Pubkey;
use honey_locker::stake::context::{
    Claim, Deposit, Initialize, InitializeUser, ModifyParams, SetOwner, Vest,
};
use honey_locker::stake::error::ProtocolError;
use honey_locker::stake::state::{PoolInfo, PoolParams, PoolUser, CLAIM_MAX_COUNT, CLAIM_PERIOD_UNIT};
use honey_locker::stake::utils::conversion_ratio;
use honey_locker::token::{TokenAccount, TokenInstruction};

const T: i64 = 1_700_000_000;

fn key(b: u8) -> Pubkey {
    Pubkey::new([b; 32])
}

fn daily_params() -> PoolParams {
    PoolParams { starts_at: T, claim_period_unit: CLAIM_PERIOD_UNIT, max_claim_count: CLAIM_MAX_COUNT }
}

fn started_pool() -> PoolInfo {
    PoolInfo {
        version: 1,
        p_token_mint: key(1),
        token_mint: key(2),
        owner: key(3),
        bump: 255,
        params: daily_params(),
    }
}

#[test]
fn claim_after_five_periods_pays_five_twentyfirsts() {
    let params = daily_params();
    let mut user = PoolUser::default();
    user.deposit(2100, T - 1).unwrap();
    let paid = user.claim(params, T + 86_400 * 5 + 1).unwrap();
    assert_eq!(paid, 500);
    assert_eq!(user.count, 5);
    assert_eq!(user.claimed_amount, 500);
}

#[test]
fn two_deposits_restart_vesting() {
    let mut user = PoolUser::default();
    user.deposit(100, T).unwrap();
    assert_eq!(user.deposit_amount, 100);
    assert_eq!(user.count, 0);
    user.deposit(50, T + 10).unwrap();
    assert_eq!(user.deposit_amount, 150);
    assert_eq!(user.count, 0);
    assert_eq!(user.claimed_amount, 0);
    assert_eq!(user.deposited_at, T + 10);
}

#[test]
fn deposit_rolls_unclaimed_remainder_forward() {
    let params = daily_params();
    let mut user = PoolUser::default();
    user.deposit(2100, T).unwrap();
    assert_eq!(user.claim(params, T + 86_400 * 2).unwrap(), 200);
    user.deposit(100, T + 86_400 * 2).unwrap();
    assert_eq!(user.deposit_amount, 2000);
    assert_eq!(user.claimed_amount, 0);
    assert_eq!(user.count, 0);
}

#[test]
fn deposit_overflow_is_refused() {
    let mut user = PoolUser::default();
    user.deposit(u64::MAX, T).unwrap();
    let before = user;
    assert_eq!(user.deposit(1, T), Err(ProtocolError::MathOverflow));
    assert_eq!(user.deposit_amount, before.deposit_amount);
}

#[test]
fn claim_twice_in_one_period_is_not_claimable() {
    let params = daily_params();
    let mut user = PoolUser::default();
    user.deposit(2100, T).unwrap();
    assert_eq!(user.claim(params, T + 86_400 + 5).unwrap(), 100);
    assert_eq!(user.claim(params, T + 86_400 + 500), Err(ProtocolError::NotClaimable));
    assert_eq!(user.count, 1);
    assert_eq!(user.claimed_amount, 100);
}

#[test]
fn claim_before_first_period_is_not_claimable() {
    let params = daily_params();
    let mut user = PoolUser::default();
    user.deposit(2100, T).unwrap();
    assert_eq!(user.claim(params, T + 10), Err(ProtocolError::NotClaimable));
    assert_eq!(user.claim(params, T - 10), Err(ProtocolError::NotClaimable));
}

#[test]
fn claims_never_exceed_deposit() {
    let params = daily_params();
    let mut user = PoolUser::default();
    user.deposit(1000, T).unwrap();
    let mut total: u64 = 0;
    let mut last_count = 0;
    for day in [1i64, 3, 4, 7, 11, 20, 21, 30] {
        if let Ok(paid) = user.claim(params, T + 86_400 * day + 1) {
            total += paid;
        }
        assert!(user.claimed_amount <= user.deposit_amount);
        assert!(user.count >= last_count);
        last_count = user.count;
    }
    assert_eq!(user.claimed_amount, 1000);
    assert_eq!(user.count, CLAIM_MAX_COUNT);
    assert!(total <= 1000);
}

#[test]
fn claim_after_schedule_pays_remainder() {
    let params = daily_params();
    let mut user = PoolUser::default();
    user.deposit(1000, T).unwrap();
    assert_eq!(user.claim(params, T + 86_400 + 1).unwrap(), 47);
    let rest = user.claim(params, T + 86_400 * 22).unwrap();
    assert_eq!(rest, 953);
    assert_eq!(user.count, 21);
    assert_eq!(user.claimed_amount, 1000);
}

#[test]
fn claimable_amount_reports_count() {
    let params = daily_params();
    let mut user = PoolUser::default();
    user.deposit(2100, T).unwrap();
    assert_eq!(user.get_claimable_amount(params, T + 86_400 * 3), Ok((300, 3)));
    assert_eq!(user.get_claimable_amount(params, T + 86_400 * 21), Ok((2100, 21)));
}

#[test]
fn claim_with_zero_period_length_is_invalid() {
    let params = PoolParams { starts_at: T, claim_period_unit: 0, max_claim_count: 21 };
    let mut user = PoolUser::default();
    user.deposit(100, T).unwrap();
    assert_eq!(user.claim(params, T), Err(ProtocolError::InvalidParams));
}

#[test]
fn claim_period_is_unit_times_count() {
    assert_eq!(daily_params().get_claim_period(), Ok(86_400 * 21));
    let huge = PoolParams { starts_at: 0, claim_period_unit: i64::MAX, max_claim_count: 2 };
    assert_eq!(huge.get_claim_period(), Err(ProtocolError::MathOverflow));
}

#[test]
fn conversion_ratio_by_duration() {
    assert_eq!(conversion_ratio(7_689_600), Ok(2));
    assert_eq!(conversion_ratio(7_948_800), Ok(2));
    assert_eq!(conversion_ratio(15_638_400), Ok(5));
    assert_eq!(conversion_ratio(31_622_400), Ok(10));
    assert_eq!(conversion_ratio(31_536_000), Ok(10));
    assert_eq!(conversion_ratio(7_948_801), Err(ProtocolError::InvalidParams));
    assert_eq!(conversion_ratio(0), Err(ProtocolError::InvalidParams));
}

#[test]
fn initialize_requires_future_start() {
    let mut ctx = Initialize { owner: key(3), token_mint: key(2), p_token_mint: key(1), pool_info: PoolInfo::default() };
    assert_eq!(ctx.process(daily_params(), 7, T), Err(ProtocolError::InvalidParams));
    assert_eq!(ctx.pool_info.version, 0);
    ctx.process(daily_params(), 7, T - 1).unwrap();
    assert_eq!(ctx.pool_info.version, 1);
    assert_eq!(ctx.pool_info.bump, 7);
    assert!(ctx.pool_info.owner == key(3));
}

#[test]
fn modify_params_only_before_start() {
    let mut ctx = ModifyParams { owner: key(3), pool_info: started_pool() };
    assert_eq!(ctx.validate(T - 5), Ok(()));
    assert_eq!(ctx.validate(T), Err(ProtocolError::StartTimeFreezed));
    let wrong_owner = ModifyParams { owner: key(9), pool_info: started_pool() };
    assert_eq!(wrong_owner.validate(T - 5), Err(ProtocolError::InvalidOwner));
    let earlier = PoolParams { starts_at: T - 10, claim_period_unit: 10, max_claim_count: 3 };
    assert_eq!(ctx.process(earlier, T - 20), Err(ProtocolError::InvalidParams));
    assert_eq!(ctx.pool_info.params.starts_at, T);
    let new_params = PoolParams { starts_at: T + 100, claim_period_unit: 10, max_claim_count: 3 };
    assert_eq!(ctx.process(new_params, T + 100), Err(ProtocolError::InvalidParams));
    ctx.process(new_params, T).unwrap();
    assert_eq!(ctx.pool_info.params.claim_period_unit, 10);
}

#[test]
fn set_owner_replaces_owner() {
    let mut ctx = SetOwner { owner: key(3), pool_info: started_pool() };
    assert_eq!(ctx.validate(), Ok(()));
    ctx.process(key(8)).unwrap();
    assert!(ctx.pool_info.owner == key(8));
    let mut uninit = started_pool();
    uninit.version = 0;
    let ctx = SetOwner { owner: key(3), pool_info: uninit };
    assert_eq!(ctx.validate(), Err(ProtocolError::Uninitialized));
}

#[test]
fn initialize_user_opens_empty_position() {
    let mut user = PoolUser::default();
    user.deposit_amount = 9;
    let mut ctx = InitializeUser { pool_info_key: key(4), pool_info: started_pool(), user_info: user, user_owner: key(5) };
    assert_eq!(ctx.validate(), Ok(()));
    ctx.process().unwrap();
    assert_eq!(ctx.user_info.deposit_amount, 0);
    assert!(ctx.user_info.pool_info == key(4));
    assert!(ctx.user_info.owner == key(5));
}

fn deposit_ctx(balance: u64) -> Deposit {
    let mut user = PoolUser::default();
    user.pool_info = key(4);
    user.owner = key(5);
    Deposit {
        pool_info_key: key(4),
        pool_info: started_pool(),
        user_info: user,
        user_owner: key(5),
        p_token_mint: key(1),
        source: TokenAccount { key: key(6), mint: key(1), owner: key(7), amount: balance },
        user_authority: key(7),
    }
}

#[test]
fn deposit_burns_principal() {
    let mut ctx = deposit_ctx(500);
    assert_eq!(ctx.validate(), Ok(()));
    let burn = ctx.process(200, T).unwrap();
    match burn {
        TokenInstruction::Burn { from, mint, authority, amount } => {
            assert!(from == key(6) && mint == key(1) && authority == key(7));
            assert_eq!(amount, 200);
        }
        _ => panic!("expected a burn"),
    }
    assert_eq!(ctx.user_info.deposit_amount, 200);
}

#[test]
fn deposit_errors() {
    let mut ctx = deposit_ctx(100);
    assert_eq!(ctx.process(101, T).err(), Some(ProtocolError::InsufficientFunds));
    assert_eq!(ctx.process(0, T).err(), Some(ProtocolError::InvalidInputValue));
    let mut bad = deposit_ctx(100);
    bad.source.mint = key(9);
    assert_eq!(bad.validate(), Err(ProtocolError::InvalidMint));
    let mut bad = deposit_ctx(100);
    bad.user_info.pool_info = key(9);
    assert_eq!(bad.validate(), Err(ProtocolError::InvalidPool));
}

fn claim_ctx() -> Claim {
    let mut user = PoolUser::default();
    user.pool_info = key(4);
    user.owner = key(5);
    user.deposit(2100, T - 1).unwrap();
    Claim {
        pool_info_key: key(4),
        pool_info: started_pool(),
        authority: key(10),
        token_mint: key(2),
        user_info: user,
        user_owner: key(5),
        destination: TokenAccount { key: key(11), mint: key(2), owner: key(5), amount: 0 },
    }
}

#[test]
fn claim_mints_and_closes_at_end() {
    let mut ctx = claim_ctx();
    assert_eq!(ctx.validate(T), Err(ProtocolError::NotClaimable));
    assert_eq!(ctx.validate(T + 1), Ok(()));
    let out = ctx.process(T + 86_400 * 5 + 1).unwrap();
    assert!(!out.close_user_info);
    match out.mint_to {
        TokenInstruction::MintTo { amount, to, .. } => {
            assert_eq!(amount, 500);
            assert!(to == key(11));
        }
        _ => panic!("expected a mint"),
    }
    let out = ctx.process(T + 86_400 * 30).unwrap();
    assert!(out.close_user_info);
    match out.mint_to {
        TokenInstruction::MintTo { amount, .. } => assert_eq!(amount, 1600),
        _ => panic!("expected a mint"),
    }
}

#[test]
fn claim_uninitialized_pool() {
    let mut ctx = claim_ctx();
    ctx.pool_info.version = 0;
    assert_eq!(ctx.validate(T + 1), Err(ProtocolError::Uninitialized));
}

#[test]
fn vest_converts_and_locks() {
    let ctx = Vest {
        pool_info: started_pool(),
        token_mint: key(2),
        p_token_mint: key(1),
        p_token_from: TokenAccount { key: key(6), mint: key(1), owner: key(7), amount: 1000 },
        user_authority: key(7),
        token_vault: TokenAccount { key: key(12), mint: key(2), owner: key(10), amount: 0 },
        authority: key(10),
    };
    assert_eq!(ctx.validate(T + 1), Ok(()));
    let out = ctx.process(100, 15_638_400).unwrap();
    assert_eq!(out.lock_amount, 500);
    assert_eq!(out.lock_duration, 15_638_400);
    assert_eq!(ctx.process(100, 12).err(), Some(ProtocolError::InvalidParams));
    assert_eq!(ctx.process(0, 15_638_400).err(), Some(ProtocolError::InvalidParams));
    assert_eq!(ctx.process(1001, 15_638_400).err(), Some(ProtocolError::InsufficientFunds));
}

#[test]
fn claim_at_exact_schedule_end_adds_payable() {
    let params = PoolParams { starts_at: T, claim_period_unit: 100, max_claim_count: 3 };
    let mut user = PoolUser::default();
    user.deposit_amount = 10;
    user.claimed_amount = 3;
    user.count = 1;
    user.deposited_at = T;
    assert_eq!(user.claim(params, T + 300), Ok(6));
    assert_eq!(user.claimed_amount, 9);
    assert_eq!(user.count, 3);
}
