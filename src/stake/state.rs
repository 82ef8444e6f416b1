use vstd::prelude::*;
use crate::convert::{i64_to_u8, u128_to_u64, u8_to_i64};
use crate::pubkey::Pubkey;
use crate::stake::error::ProtocolError;

verus! {

/// Version marker of an initialized pool.
pub const STAKE_POOL_VERSION: u8 = 1;

/// Length of one claim period in production pools: one day.
pub const CLAIM_PERIOD_UNIT: i64 = 86_400;

/// Number of claim periods in production pools.
pub const CLAIM_MAX_COUNT: u8 = 21;

/// A vesting pool: burns the principal token and mints the entitlement token.
#[derive(Clone, Copy, Debug, Default)]
pub struct PoolInfo {
    /// `STAKE_POOL_VERSION` once initialized, 0 before.
    pub version: u8,
    /// Mint of the principal token that is deposited (and burnt).
    pub p_token_mint: Pubkey,
    /// Mint of the entitlement token that is claimed (and minted).
    pub token_mint: Pubkey,
    /// Owner allowed to change the parameters.
    pub owner: Pubkey,
    /// Bump seed of the pool's authority address.
    pub bump: u8,
    pub params: PoolParams,
}

/// The schedule of a vesting pool.
#[derive(Clone, Copy, Debug, Default)]
pub struct PoolParams {
    /// Time at which vesting starts.
    pub starts_at: i64,
    /// Length of one claim period, in seconds.
    pub claim_period_unit: i64,
    /// Number of claim periods.
    pub max_claim_count: u8,
}

/// The later of the deposit time and the pool's start time.
pub open spec fn claim_start(deposited_at: i64, starts_at: i64) -> i64 {
    if deposited_at > starts_at {
        deposited_at
    } else {
        starts_at
    }
}

pub open spec fn fits_i64(x: int) -> bool {
    i64::MIN <= x <= i64::MAX
}

impl PoolParams {
    /// Length of the whole vesting schedule: period length times period count.
    pub open spec fn claim_period_spec(self) -> int {
        self.claim_period_unit * self.max_claim_count
    }

    /// Length of the whole vesting schedule, or `MathOverflow` where it does not fit
    /// in an `i64`.
    pub fn get_claim_period(&self) -> (r: Result<i64, ProtocolError>)
        ensures
            fits_i64(self.claim_period_spec()) ==> r == Ok::<i64, ProtocolError>(
                self.claim_period_spec() as i64,
            ),
            !fits_i64(self.claim_period_spec()) ==> r == Err::<i64, ProtocolError>(
                ProtocolError::MathOverflow,
            ),
    {
        let max_claim_count = match u8_to_i64(self.max_claim_count) {
            Some(c) => c,
            None => return Err(ProtocolError::MathOverflow),
        };
        match self.claim_period_unit.checked_mul(max_claim_count) {
            Some(p) => Ok(p),
            None => Err(ProtocolError::MathOverflow),
        }
    }
}

/// A holder's position in a vesting pool.
#[derive(Clone, Copy, Debug, Default)]
pub struct PoolUser {
    /// The pool this position belongs to.
    pub pool_info: Pubkey,
    /// The holder.
    pub owner: Pubkey,
    /// Principal that vests.
    pub deposit_amount: u64,
    /// Part of the principal already paid out.
    pub claimed_amount: u64,
    /// Time of the last deposit.
    pub deposited_at: i64,
    /// Number of periods already paid out.
    pub count: u8,
}

impl PoolUser {
    /// The position after a deposit of `amount` at `now`: the unclaimed remainder and
    /// `amount` vest anew from `now`.
    pub open spec fn deposit_spec(self, amount: u64, now: i64) -> Result<PoolUser, ProtocolError> {
        let remaining = self.deposit_amount - self.claimed_amount;
        if remaining < 0 || remaining + amount > u64::MAX {
            Err(ProtocolError::MathOverflow)
        } else {
            Ok(
                PoolUser {
                    deposit_amount: (remaining + amount) as u64,
                    claimed_amount: 0,
                    deposited_at: now,
                    count: 0,
                    ..self
                },
            )
        }
    }

    /// What a claim at `now` pays, and the number of periods paid out after it.
    pub open spec fn claimable_spec(self, params: PoolParams, now: i64) -> Result<
        (u64, u8),
        ProtocolError,
    > {
        let elapsed = now - claim_start(self.deposited_at, params.starts_at);
        let unit = params.claim_period_unit as int;
        let max = params.max_claim_count;
        if !fits_i64(elapsed) || !fits_i64(params.claim_period_spec()) {
            Err(ProtocolError::MathOverflow)
        } else if elapsed > params.claim_period_spec() {
            if self.claimed_amount > self.deposit_amount {
                Err(ProtocolError::MathOverflow)
            } else {
                Ok(((self.deposit_amount - self.claimed_amount) as u64, max))
            }
        } else if unit <= 0 {
            Err(ProtocolError::InvalidParams)
        } else if elapsed / unit <= self.count {
            Err(ProtocolError::NotClaimable)
        } else {
            let count = elapsed / unit;
            Ok(((self.deposit_amount * (count - self.count) / max as int) as u64, count as u8))
        }
    }

    /// The position after a claim at `now`, and the amount paid: the amount is added to
    /// what was claimed, and the period count moves to the one reached.
    pub open spec fn claim_spec(self, params: PoolParams, now: i64) -> Result<
        (u64, PoolUser),
        ProtocolError,
    > {
        match self.claimable_spec(params, now) {
            Err(e) => Err(e),
            Ok((amount, count)) => {
                if self.claimed_amount + amount > u64::MAX {
                    Err(ProtocolError::MathOverflow)
                } else {
                    Ok(
                        (
                            amount,
                            PoolUser {
                                claimed_amount: (self.claimed_amount + amount) as u64,
                                count,
                                ..self
                            },
                        ),
                    )
                }
            },
        }
    }

    /// Never more claimed than deposited, and never more than the share of the periods
    /// paid out so far.
    pub open spec fn claims_within(self, max_claim_count: u8) -> bool {
        &&& self.claimed_amount <= self.deposit_amount
        &&& self.count <= max_claim_count
        &&& self.count < max_claim_count ==> self.claimed_amount * max_claim_count
            <= self.deposit_amount * self.count
    }

    /// Adds `amount` to the unclaimed remainder and restarts vesting at `now`.
    pub fn deposit(&mut self, amount: u64, now: i64) -> (r: Result<(), ProtocolError>)
        ensures
            r is Ok <==> old(self).deposit_spec(amount, now) is Ok,
            r is Ok ==> *final(self) == old(self).deposit_spec(amount, now)->Ok_0,
            r is Err ==> r == Err::<(), ProtocolError>(ProtocolError::MathOverflow),
            r is Err ==> *final(self) == *old(self),
    {
        let remaining_amount = match self.deposit_amount.checked_sub(self.claimed_amount) {
            Some(v) => v,
            None => return Err(ProtocolError::MathOverflow),
        };
        let deposit_amount = match remaining_amount.checked_add(amount) {
            Some(v) => v,
            None => return Err(ProtocolError::MathOverflow),
        };
        self.deposit_amount = deposit_amount;
        self.claimed_amount = 0;
        self.deposited_at = now;
        self.count = 0;
        Ok(())
    }

    /// Pays out the periods elapsed since the last claim.
    pub fn claim(&mut self, pool_params: PoolParams, now: i64) -> (r: Result<u64, ProtocolError>)
        ensures
            r is Ok <==> old(self).claim_spec(pool_params, now) is Ok,
            r is Ok ==> r->Ok_0 == old(self).claim_spec(pool_params, now)->Ok_0.0 && *final(self)
                == old(self).claim_spec(pool_params, now)->Ok_0.1,
            r is Err ==> r->Err_0 == old(self).claim_spec(pool_params, now)->Err_0 && *final(self)
                == *old(self),
    {
        let (claimable_amount, count) = self.get_claimable_amount(pool_params, now)?;
        self.claimed_amount = match self.claimed_amount.checked_add(claimable_amount) {
            Some(v) => v,
            None => return Err(ProtocolError::MathOverflow),
        };
        self.count = count;
        Ok(claimable_amount)
    }

    /// What a claim at `now` would pay, and the period count it would reach.
    pub fn get_claimable_amount(&self, pool_params: PoolParams, now: i64) -> (r: Result<
        (u64, u8),
        ProtocolError,
    >)
        ensures
            r == self.claimable_spec(pool_params, now),
    {
        let claim_starts_at = if self.deposited_at > pool_params.starts_at {
            self.deposited_at
        } else {
            pool_params.starts_at
        };
        let duration = match now.checked_sub(claim_starts_at) {
            Some(d) => d,
            None => return Err(ProtocolError::MathOverflow),
        };
        let claim_period = pool_params.get_claim_period()?;
        if duration > claim_period {
            // the whole remainder is claimable
            match self.deposit_amount.checked_sub(self.claimed_amount) {
                Some(rest) => Ok((rest, pool_params.max_claim_count)),
                None => Err(ProtocolError::MathOverflow),
            }
        } else {
            let unit = pool_params.claim_period_unit;
            if unit <= 0 {
                return Err(ProtocolError::InvalidParams);
            }
            if duration < 0 {
                proof {
                    lemma_neg_div_below(duration as int, unit as int);
                }
                return Err(ProtocolError::NotClaimable);
            }
            proof {
                lemma_periods_bounded(
                    duration as int,
                    unit as int,
                    pool_params.max_claim_count as int,
                );
            }
            let count = match i64_to_u8(duration / unit) {
                Some(c) => c,
                None => return Err(ProtocolError::MathOverflow),
            };
            if count <= self.count {
                return Err(ProtocolError::NotClaimable);
            }
            let delta = count - self.count;
            proof {
                lemma_share_fits(
                    self.deposit_amount as int,
                    delta as int,
                    pool_params.max_claim_count as int,
                );
            }
            let share = (self.deposit_amount as u128) * (delta as u128);
            let share = match share.checked_div(pool_params.max_claim_count as u128) {
                Some(s) => s,
                None => return Err(ProtocolError::MathOverflow),
            };
            match u128_to_u64(share) {
                Some(s) => Ok((s, count)),
                None => Err(ProtocolError::MathOverflow),
            }
        }
    }
}

proof fn lemma_neg_div_below(d: int, u: int)
    requires
        d < 0,
        u > 0,
    ensures
        d / u < 0,
{
    assert(d / u < 0) by (nonlinear_arith)
        requires
            d < 0,
            u > 0,
    ;
}

proof fn lemma_periods_bounded(d: int, u: int, m: int)
    requires
        0 <= d <= u * m,
        u > 0,
        0 <= m <= 255,
    ensures
        0 <= d / u <= m,
{
    assert(0 <= d / u <= m) by (nonlinear_arith)
        requires
            0 <= d <= u * m,
            u > 0,
    ;
}

proof fn lemma_share_fits(a: int, delta: int, m: int)
    requires
        0 <= a <= u64::MAX,
        0 < delta <= m <= 255,
    ensures
        a * delta <= u128::MAX,
        a * delta / m <= a,
        a * delta / m >= 0,
{
    assert(a * delta <= a * 255) by (nonlinear_arith)
        requires
            0 <= a,
            delta <= 255,
    ;
    assert(a * delta / m <= a) by (nonlinear_arith)
        requires
            0 <= a,
            0 < delta <= m,
    ;
    assert(a * delta / m >= 0) by (nonlinear_arith)
        requires
            0 <= a,
            0 < delta,
            0 < m,
    ;
}

} // verus!

verus! {

/// No over-claim: a position that has never been paid more than the share of the periods
/// it has been paid for stays so after any successful claim, and in particular its paid
/// amount never exceeds its deposit.
pub proof fn lemma_claim_never_over_claims(user: PoolUser, params: PoolParams, now: i64)
    requires
        user.claims_within(params.max_claim_count),
    ensures
        user.claim_spec(params, now) is Ok ==> user.claim_spec(params, now)->Ok_0.1.claims_within(
            params.max_claim_count,
        ),
        user.claim_spec(params, now) is Ok ==> user.claim_spec(params, now)->Ok_0.1.claimed_amount
            <= user.claim_spec(params, now)->Ok_0.1.deposit_amount,
{
    let elapsed = now - claim_start(user.deposited_at, params.starts_at);
    let unit = params.claim_period_unit as int;
    let m = params.max_claim_count as int;
    if user.claim_spec(params, now) is Ok && fits_i64(elapsed) && fits_i64(
        params.claim_period_spec(),
    ) && elapsed <= params.claim_period_spec() {
        let k = elapsed / unit;
        if elapsed < 0 {
            lemma_neg_div_below(elapsed, unit);
        }
        lemma_periods_bounded(elapsed, unit, m);
        if k <= m {
            let d = user.deposit_amount as int;
            let c = user.claimed_amount as int;
            let delta = k - user.count;
            let share = d * delta / m;
            assert(share * m <= d * delta) by (nonlinear_arith)
                requires
                    share == d * delta / m,
                    m > 0,
            ;
            assert((c + share) * m <= d * k) by (nonlinear_arith)
                requires
                    c * m <= d * user.count,
                    share * m <= d * delta,
                    delta == k - user.count,
            ;
            assert(c + share <= d) by (nonlinear_arith)
                requires
                    (c + share) * m <= d * k,
                    0 <= k <= m,
                    m > 0,
                    d >= 0,
            ;
        }
    }
}

/// A fresh position, and any position right after a deposit, has been paid nothing and
/// so is within its share.
pub proof fn lemma_deposit_restarts_vesting(user: PoolUser, amount: u64, now: i64, max_claim_count: u8)
    ensures
        user.deposit_spec(amount, now) is Ok ==> user.deposit_spec(amount, now)->Ok_0.claims_within(
            max_claim_count,
        ),
        user.deposit_amount == 0 && user.claimed_amount == 0 && user.count == 0
            ==> user.claims_within(max_claim_count),
{
}

/// Period monotonicity: a claim never lowers the number of periods paid out, and within the
/// schedule it fails with `NotClaimable` unless a new period boundary has been crossed.
pub proof fn lemma_claim_needs_new_period(user: PoolUser, params: PoolParams, now: i64)
    requires
        user.count <= params.max_claim_count,
    ensures
        user.claim_spec(params, now) is Ok ==> user.claim_spec(params, now)->Ok_0.1.count
            >= user.count,
        ({
            let elapsed = now - claim_start(user.deposited_at, params.starts_at);
            &&& fits_i64(elapsed)
            &&& fits_i64(params.claim_period_spec())
            &&& params.claim_period_unit > 0
            &&& elapsed <= params.claim_period_spec()
            &&& elapsed / (params.claim_period_unit as int) <= user.count
        }) ==> user.claim_spec(params, now) == Err::<(u64, PoolUser), ProtocolError>(
            ProtocolError::NotClaimable,
        ),
{
    let elapsed = now - claim_start(user.deposited_at, params.starts_at);
    let unit = params.claim_period_unit as int;
    if user.claim_spec(params, now) is Ok && fits_i64(elapsed) && fits_i64(
        params.claim_period_spec(),
    ) && elapsed <= params.claim_period_spec() {
        if elapsed < 0 {
            lemma_neg_div_below(elapsed, unit);
        }
        lemma_periods_bounded(elapsed, unit, params.max_claim_count as int);
    }
}

} // verus!
