//! The locker: the pool of locked tokens, its parameters, and the two release curves,
//! the decaying voting power and the halving NFT reward.
use vstd::prelude::*;
use crate::convert::{i64_to_u64, u128_to_u64};
use crate::pubkey::Pubkey;
use crate::ve_honey::escrow::Escrow;

verus! {

/// A locker: the aggregate of every escrow locked in it.
#[derive(Clone, Copy, Debug, Default)]
pub struct Locker {
    /// Base address the locker's address is derived from.
    pub base: Pubkey,
    /// Bump seed of the locker's address.
    pub bump: u8,
    /// Mint of the token that is locked.
    pub token_mint: Pubkey,
    /// Total number of tokens locked in the locker's escrows.
    pub locked_supply: u64,
    /// Mint of the whitelist token minted against burnt NFTs.
    pub wl_token_mint: Pubkey,
    /// Governor of the locker.
    pub governor: Pubkey,
    pub params: LockerParams,
}

/// The parameters of a locker.
#[derive(Clone, Copy, Debug, Default, PartialEq, Eq, Structural)]
pub struct LockerParams {
    /// Minimum lock duration.
    pub min_stake_duration: u64,
    /// Maximum lock duration; a lock this long or longer has full voting power.
    pub max_stake_duration: u64,
    /// Whether locking is restricted to whitelisted programs.
    pub whitelist_enabled: bool,
    /// Voting power of one token locked for the maximum duration.
    pub multiplier: u8,
    /// Minimum voting power needed to activate a proposal.
    pub proposal_activation_min_votes: u64,
    /// Length of one reward unit of an NFT lock, in seconds.
    pub nft_stake_duration_unit: i64,
    /// Reward of each unit before halving starts.
    pub nft_stake_base_reward: u64,
    /// Number of reward units of an NFT lock.
    pub nft_stake_duration_count: u8,
    /// Index of the first unit whose reward is halved.
    pub nft_reward_halving_starts_at: u8,
}

pub open spec fn fits_i64(x: int) -> bool {
    i64::MIN <= x <= i64::MAX
}

pub open spec fn min_int(a: int, b: int) -> int {
    if a < b {
        a
    } else {
        b
    }
}

/// The reward of unit `k` of the halving curve: `base`, halved (rounding down) at each
/// unit from index `halving_starts_at` on.
pub open spec fn unit_reward(base: int, halving_starts_at: int, k: nat) -> int
    decreases k,
{
    let prev = if k == 0 {
        base
    } else {
        unit_reward(base, halving_starts_at, (k - 1) as nat)
    };
    if k >= halving_starts_at {
        prev / 2
    } else {
        prev
    }
}

/// The total reward of the first `n` units of the halving curve.
pub open spec fn reward_total(base: int, halving_starts_at: int, n: nat) -> int
    decreases n,
{
    if n == 0 {
        0
    } else {
        reward_total(base, halving_starts_at, (n - 1) as nat) + unit_reward(
            base,
            halving_starts_at,
            (n - 1) as nat,
        )
    }
}

pub proof fn lemma_unit_reward_bounds(base: int, h: int, k: nat)
    requires
        base >= 0,
    ensures
        0 <= unit_reward(base, h, k) <= base,
        unit_reward(base, h, k + 1) <= unit_reward(base, h, k),
    decreases k,
{
    if k > 0 {
        lemma_unit_reward_bounds(base, h, (k - 1) as nat);
    }
}

pub proof fn lemma_reward_total_monotonic(base: int, h: int, n1: nat, n2: nat)
    requires
        base >= 0,
        n1 <= n2,
    ensures
        reward_total(base, h, n1) <= reward_total(base, h, n2),
    decreases n2,
{
    if n1 < n2 {
        lemma_reward_total_monotonic(base, h, n1, (n2 - 1) as nat);
        lemma_unit_reward_bounds(base, h, (n2 - 1) as nat);
    }
}

impl LockerParams {
    /// Voting power of `escrow` at `now`: none before the lock starts or from its end
    /// on; otherwise `amount × multiplier` scaled by the locked duration (capped at
    /// the maximum) over the maximum duration. `None` for a clock reading of 0 and on
    /// overflow.
    pub open spec fn voter_power_spec(self, escrow: Escrow, now: i64) -> Option<u64> {
        let lockup = escrow.escrow_ends_at - escrow.escrow_started_at;
        let power_if_max = escrow.amount * self.multiplier;
        if now == 0 {
            None
        } else if escrow.escrow_started_at == 0 {
            Some(0)
        } else if now < escrow.escrow_started_at || now >= escrow.escrow_ends_at {
            Some(0)
        } else if !fits_i64(lockup) || power_if_max > u64::MAX || self.max_stake_duration == 0 {
            None
        } else {
            Some(
                (power_if_max * min_int(lockup, self.max_stake_duration as int)
                    / self.max_stake_duration as int) as u64,
            )
        }
    }

    pub fn calculate_voter_power(&self, escrow: &Escrow, now: i64) -> (r: Option<u64>)
        ensures
            r == self.voter_power_spec(*escrow, now),
    {
        if now == 0 {
            return None;
        }
        if escrow.escrow_started_at == 0 {
            return Some(0);
        }
        if now < escrow.escrow_started_at || now >= escrow.escrow_ends_at {
            return Some(0);
        }
        let lockup_duration = match escrow.escrow_ends_at.checked_sub(escrow.escrow_started_at) {
            Some(d) => d,
            None => return None,
        };
        let lockup_duration = match i64_to_u64(lockup_duration) {
            Some(d) => d,
            None => return None,
        };
        let relevant_lockup_duration = if lockup_duration < self.max_stake_duration {
            lockup_duration
        } else {
            self.max_stake_duration
        };
        let power_if_max_lockup = match escrow.amount.checked_mul(self.multiplier as u64) {
            Some(p) => p,
            None => return None,
        };
        proof {
            let p = power_if_max_lockup as int;
            let d = relevant_lockup_duration as int;
            assert(p * d <= u64::MAX * u64::MAX) by (nonlinear_arith)
                requires
                    0 <= p <= u64::MAX,
                    0 <= d <= u64::MAX,
            ;
        }
        let power = (power_if_max_lockup as u128) * (relevant_lockup_duration as u128);
        let power = match power.checked_div(self.max_stake_duration as u128) {
            Some(p) => p,
            None => return None,
        };
        proof {
            let p = power_if_max_lockup as int;
            let d = relevant_lockup_duration as int;
            let m = self.max_stake_duration as int;
            assert(p * d / m <= p) by (nonlinear_arith)
                requires
                    0 <= p,
                    0 <= d <= m,
                    m > 0,
            ;
        }
        u128_to_u64(power)
    }

    /// Number of whole reward units in `duration`.
    pub open spec fn reward_units(self, duration: int) -> nat {
        if self.nft_stake_duration_unit > 0 && duration >= 0 {
            (duration / self.nft_stake_duration_unit as int) as nat
        } else {
            0
        }
    }

    /// The halving reward earned over `duration`: the curve summed over each whole unit.
    /// `None` for a duration that is not positive, a unit of length 0, or a total that
    /// does not fit in a `u64`.
    pub open spec fn reward_amount_spec(self, duration: int) -> Option<u64> {
        let total = reward_total(
            self.nft_stake_base_reward as int,
            self.nft_reward_halving_starts_at as int,
            self.reward_units(duration),
        );
        if duration <= 0 || self.nft_stake_duration_unit == 0 || total > u64::MAX {
            None
        } else {
            Some(total as u64)
        }
    }

    pub fn calculate_reward_amount(&self, duration: i64) -> (r: Option<u64>)
        ensures
            r == self.reward_amount_spec(duration as int),
    {
        if duration <= 0 || self.nft_stake_duration_unit == 0 {
            return None;
        }
        if self.nft_stake_duration_unit < 0 {
            // a unit of negative length never fits in the duration
            return Some(0);
        }
        let ghost base = self.nft_stake_base_reward as int;
        let ghost h = self.nft_reward_halving_starts_at as int;
        let step: u64 = self.nft_stake_duration_unit as u64;
        let d0: u64 = duration as u64;
        let mut remaining: u64 = d0;
        let mut reward_amount: u64 = 0;
        let mut count: u64 = 0;
        let mut amount_per_unit: u64 = self.nft_stake_base_reward;
        while remaining >= step
            invariant
                step > 0,
                step == self.nft_stake_duration_unit,
                base == self.nft_stake_base_reward,
                h == self.nft_reward_halving_starts_at,
                count * step + remaining == d0,
                count <= d0,
                d0 == duration,
                reward_amount == reward_total(base, h, count as nat),
                count == 0 ==> amount_per_unit == base,
                count > 0 ==> amount_per_unit == unit_reward(base, h, (count - 1) as nat),
            decreases remaining,
        {
            if count >= self.nft_reward_halving_starts_at as u64 {
                amount_per_unit = amount_per_unit / 2;
            }
            proof {
                if count > 0 {
                    assert(unit_reward(base, h, count as nat) == if count >= h {
                        unit_reward(base, h, (count - 1) as nat) / 2
                    } else {
                        unit_reward(base, h, (count - 1) as nat)
                    });
                }
                assert(amount_per_unit == unit_reward(base, h, count as nat));
                lemma_unit_reward_bounds(base, h, count as nat);
            }
            reward_amount = match reward_amount.checked_add(amount_per_unit) {
                Some(v) => v,
                None => {
                    proof {
                        assert(reward_total(base, h, (count + 1) as nat) == reward_total(
                            base,
                            h,
                            count as nat,
                        ) + unit_reward(base, h, count as nat));
                        lemma_units_after_step(d0 as int, step as int, count as int, remaining as int);
                        lemma_reward_total_monotonic(
                            base,
                            h,
                            (count + 1) as nat,
                            self.reward_units(d0 as int),
                        );
                    }
                    return None;
                },
            };
            proof {
                assert(count * step + step <= d0) by (nonlinear_arith)
                    requires
                        count * step + remaining == d0,
                        remaining >= step,
                ;
                assert((count + 1) * step == count * step + step) by (nonlinear_arith);
                assert(count + 1 <= (count + 1) * step) by (nonlinear_arith)
                    requires
                        step >= 1,
                        count >= 0,
                ;
            }
            count = count + 1;
            remaining = remaining - step;
        }
        proof {
            lemma_units_at_end(d0 as int, step as int, count as int, remaining as int);
        }
        Some(reward_amount)
    }

    /// Length of an NFT lock: the unit times the unit count.
    pub open spec fn nft_max_stake_duration_spec(self) -> int {
        self.nft_stake_duration_unit * self.nft_stake_duration_count
    }

    pub fn calculate_nft_max_stake_duration(&self) -> (r: Option<i64>)
        ensures
            fits_i64(self.nft_max_stake_duration_spec()) ==> r == Some(
                self.nft_max_stake_duration_spec() as i64,
            ),
            !fits_i64(self.nft_max_stake_duration_spec()) ==> r is None,
    {
        self.nft_stake_duration_unit.checked_mul(self.nft_stake_duration_count as i64)
    }

    /// The reward of a whole NFT lock, which is minted up front.
    pub open spec fn max_reward_amount_spec(self) -> Option<u64> {
        if fits_i64(self.nft_max_stake_duration_spec()) {
            self.reward_amount_spec(self.nft_max_stake_duration_spec())
        } else {
            None
        }
    }

    pub fn calculate_max_reward_amount(&self) -> (r: Option<u64>)
        ensures
            r == self.max_reward_amount_spec(),
    {
        let d = match self.calculate_nft_max_stake_duration() {
            Some(d) => d,
            None => return None,
        };
        self.calculate_reward_amount(d)
    }
}

proof fn lemma_units_after_step(d0: int, step: int, count: int, duration: int)
    requires
        step > 0,
        count >= 0,
        count * step + duration == d0,
        duration >= step,
    ensures
        count + 1 <= d0 / step,
{
    assert((count + 1) * step <= d0) by (nonlinear_arith)
        requires
            count * step + duration == d0,
            duration >= step,
    ;
    assert(count + 1 <= d0 / step) by (nonlinear_arith)
        requires
            (count + 1) * step <= d0,
            step > 0,
            count >= 0,
    ;
}

proof fn lemma_units_at_end(d0: int, step: int, count: int, duration: int)
    requires
        step > 0,
        count >= 0,
        duration >= 0,
        count * step + duration == d0,
        duration < step,
    ensures
        count == d0 / step,
{
    assert(count == d0 / step) by (nonlinear_arith)
        requires
            count * step + duration == d0,
            0 <= duration < step,
            count >= 0,
    ;
}

/// Each unit of the halving curve is rewarded no more than the one before it.
pub proof fn lemma_unit_reward_non_increasing(params: LockerParams)
    ensures
        forall|k: nat|
            unit_reward(
                params.nft_stake_base_reward as int,
                params.nft_reward_halving_starts_at as int,
                k + 1,
            ) <= #[trigger] unit_reward(
                params.nft_stake_base_reward as int,
                params.nft_reward_halving_starts_at as int,
                k,
            ),
{
    let base = params.nft_stake_base_reward as int;
    let h = params.nft_reward_halving_starts_at as int;
    assert forall|k: nat| unit_reward(base, h, k + 1) <= #[trigger] unit_reward(base, h, k) by {
        lemma_unit_reward_bounds(base, h, k);
    }
}

/// The reward earned over a duration never decreases as the duration grows.
pub proof fn lemma_halving_reward_monotonic(params: LockerParams, d1: int, d2: int)
    requires
        0 < d1 <= d2,
    ensures
        params.reward_amount_spec(d2) is Some ==> params.reward_amount_spec(d1) is Some
            && params.reward_amount_spec(d1)->Some_0 <= params.reward_amount_spec(d2)->Some_0,
{
    let base = params.nft_stake_base_reward as int;
    let h = params.nft_reward_halving_starts_at as int;
    let u = params.nft_stake_duration_unit as int;
    if u > 0 {
        lemma_div_ordered(d1, d2, u);
    }
    lemma_reward_total_monotonic(base, h, params.reward_units(d1), params.reward_units(d2));
    lemma_reward_total_monotonic(base, h, 0, params.reward_units(d1));
}

proof fn lemma_div_ordered(d1: int, d2: int, u: int)
    requires
        0 < d1 <= d2,
        u > 0,
    ensures
        0 <= d1 / u <= d2 / u,
{
    assert(0 <= d1 / u <= d2 / u) by (nonlinear_arith)
        requires
            0 < d1 <= d2,
            u > 0,
    ;
}

/// Voting-power boundaries: no power at the end of the lock or just before its start;
/// full power `amount × multiplier` inside the window of a lock at least as long as the
/// maximum duration, and less than that for a shorter lock with any power to give.
pub proof fn lemma_voting_power_boundaries(params: LockerParams, escrow: Escrow, now: i64)
    ensures
        now != 0 && now == escrow.escrow_ends_at ==> params.voter_power_spec(escrow, now) == Some(
            0u64,
        ),
        now != 0 && now == escrow.escrow_started_at - 1 ==> params.voter_power_spec(escrow, now)
            == Some(0u64),
        ({
            let lockup = escrow.escrow_ends_at - escrow.escrow_started_at;
            &&& now != 0
            &&& escrow.escrow_started_at != 0
            &&& escrow.escrow_started_at <= now < escrow.escrow_ends_at
            &&& fits_i64(lockup)
            &&& params.max_stake_duration > 0
            &&& escrow.amount * params.multiplier <= u64::MAX
        }) ==> {
            let lockup = escrow.escrow_ends_at - escrow.escrow_started_at;
            let full = escrow.amount * params.multiplier;
            &&& lockup >= params.max_stake_duration ==> params.voter_power_spec(escrow, now)
                == Some(full as u64)
            &&& lockup < params.max_stake_duration && full > 0 ==> params.voter_power_spec(
                escrow,
                now,
            )->Some_0 < full
        },
{
    let lockup = escrow.escrow_ends_at - escrow.escrow_started_at;
    let full = escrow.amount * params.multiplier;
    let m = params.max_stake_duration as int;
    if now != 0 && escrow.escrow_started_at != 0 && escrow.escrow_started_at <= now
        < escrow.escrow_ends_at && fits_i64(lockup) && m > 0 && full <= u64::MAX {
        if lockup >= m {
            assert(full * m / m == full) by (nonlinear_arith)
                requires
                    m > 0,
            ;
        } else if full > 0 {
            assert(full * lockup / m < full) by (nonlinear_arith)
                requires
                    0 < lockup < m,
                    full > 0,
            ;
        }
    }
}

} // verus!
