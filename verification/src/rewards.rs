//! The reward distributor.
//!
//! A reward item assigns a fixed amount of motes to one validator.
//! The distributor splits it between the validator and its delegators
//! proportionally to stake, after the validator's delegation-rate cut,
//! with all arithmetic in integers truncated toward zero — and the
//! truncation remainder accrues to the validator, so the distributed
//! shares always sum to the reward amount exactly. Shares are computed
//! in ascending delegator order, so the output is deterministic.

use vstd::prelude::*;

use vstd::arithmetic::div_mod::{
    lemma_div_pos_is_pos, lemma_fundamental_div_mod, lemma_mod_division_less_than_divisor,
};
use vstd::arithmetic::mul::lemma_mul_inequality_converse;

use crate::account::AccountHash;
use crate::error::LedgerError;
use crate::ledger::{
    lemma_sum_nonneg, lemma_sum_prefix, sum_delegations, validator_wf, Delegation, Validator,
};

verus! {

/// One recipient's share of a distributed reward.
#[derive(Clone, Copy, PartialEq, Eq, Structural, Debug)]
pub struct RewardShare {
    /// The receiving account.
    pub account: AccountHash,
    /// The share, in motes.
    pub amount: u128,
}

/// The outcome of distributing one reward item: the validator's own
/// share (including every truncation remainder) and one share per
/// delegator, in ascending delegator order.
#[derive(Clone, PartialEq, Eq, Debug)]
pub struct RewardDistribution {
    /// The validator's share, in motes.
    pub validator_share: u128,
    /// The delegators' shares, one per delegator of the validator, in
    /// the delegator map's (ascending) order.
    pub delegator_shares: Vec<RewardShare>,
}

/// The sum of a sequence of reward shares.
pub open spec fn sum_shares(s: Seq<RewardShare>) -> int
    decreases s.len(),
{
    if s.len() == 0 {
        0
    } else {
        sum_shares(s.drop_last()) + s.last().amount
    }
}

/// One delegator's share of a reward of `amount` motes: its stake's
/// proportion of the total, after the validator's rate cut, truncated
/// toward zero. Zero when the validator's total stake is zero.
pub open spec fn delegator_reward_share(amount: u128, stake: u128, rate: u8, total: u128) -> int {
    if total == 0 {
        0
    } else {
        ((amount as int) * (stake as int) * (100 - rate as int)) / ((total as int) * 100)
    }
}

/// The sum of the shares owed to a sequence of delegators.
pub open spec fn sum_reward_shares(
    s: Seq<Delegation>,
    amount: u128,
    rate: u8,
    total: u128,
) -> int
    decreases s.len(),
{
    if s.len() == 0 {
        0
    } else {
        sum_reward_shares(s.drop_last(), amount, rate, total) + delegator_reward_share(
            amount,
            s.last().amount,
            rate,
            total,
        )
    }
}

/// True if computing one delegator's share overflows the intermediate
/// products, in the order they are computed.
pub open spec fn reward_term_overflows(amount: u128, stake: u128, rate: u8) -> bool {
    ||| (amount as int) * (stake as int) > u128::MAX
    ||| (amount as int) * (stake as int) * (100 - rate as int) > u128::MAX
}

/// True if distributing `amount` over `v` overflows some intermediate
/// product. Distribution over a validator with no delegators or no
/// stake involves no products at all.
pub open spec fn reward_would_overflow(v: Validator, amount: u128) -> bool {
    &&& v.delegators@.len() > 0
    &&& v.total_stake > 0
    &&& {
        ||| (v.total_stake as int) * 100 > u128::MAX
        ||| exists|i: int|
            0 <= i < v.delegators@.len() && reward_term_overflows(
                amount,
                v.delegators@[i].amount,
                v.delegation_rate,
            )
    }
}

/// True if `dist` is exactly the distribution of `amount` over `v`:
/// one share per delegator, in order, each by the proportional
/// formula, and the validator's share is precisely what is left.
pub open spec fn distribution_exact(
    v: Validator,
    amount: u128,
    dist: RewardDistribution,
) -> bool {
    &&& dist.delegator_shares@.len() == v.delegators@.len()
    &&& forall|i: int|
        0 <= i < v.delegators@.len() ==> #[trigger] dist.delegator_shares@[i].account
            == v.delegators@[i].delegator
    &&& forall|i: int|
        0 <= i < v.delegators@.len() ==> #[trigger] dist.delegator_shares@[i].amount
            == delegator_reward_share(amount, v.delegators@[i].amount, v.delegation_rate, v.total_stake)
    &&& dist.validator_share == amount - sum_reward_shares(
        v.delegators@,
        amount,
        v.delegation_rate,
        v.total_stake,
    )
}

/// One share is non-negative, and scaled by the denominator it stays
/// below its numerator.
proof fn lemma_share_bounds(amount: u128, stake: u128, rate: u8, total: u128)
    requires
        rate <= 100,
        total > 0,
    ensures
        0 <= delegator_reward_share(amount, stake, rate, total),
        delegator_reward_share(amount, stake, rate, total) * ((total as int) * 100) <= (amount as int)
            * (stake as int) * (100 - rate as int),
{
    let x = (amount as int) * (stake as int) * (100 - rate as int);
    let d = (total as int) * 100;
    assert((amount as int) * (stake as int) * (100 - rate as int) >= 0) by (nonlinear_arith)
        requires
            amount as int >= 0,
            stake as int >= 0,
            0 <= 100 - rate as int,
    ;
    assert((total as int) * 100 > 0) by (nonlinear_arith)
        requires
            total as int > 0,
    ;
    lemma_div_pos_is_pos(x, d);
    lemma_fundamental_div_mod(x, d);
    lemma_mod_division_less_than_divisor(x, d);
    assert(d * (x / d) == (x / d) * d) by (nonlinear_arith);
}

/// With a zero total stake every share is zero.
proof fn lemma_sum_shares_zero_total(s: Seq<Delegation>, amount: u128, rate: u8)
    ensures
        sum_reward_shares(s, amount, rate, 0) == 0,
    decreases s.len(),
{
    if s.len() > 0 {
        lemma_sum_shares_zero_total(s.drop_last(), amount, rate);
    }
}

/// Scaled by the common denominator, the sum of the delegators'
/// shares stays below the reward scaled by the delegators' stake.
proof fn lemma_sum_shares_scaled(s: Seq<Delegation>, amount: u128, rate: u8, total: u128)
    requires
        rate <= 100,
        total > 0,
    ensures
        0 <= sum_reward_shares(s, amount, rate, total),
        sum_reward_shares(s, amount, rate, total) * ((total as int) * 100) <= (amount as int) * (
        100 - rate as int) * sum_delegations(s),
    decreases s.len(),
{
    let d = (total as int) * 100;
    let a = amount as int;
    let c = 100 - rate as int;
    if s.len() == 0 {
        assert(0 * d == 0) by (nonlinear_arith);
        assert(a * c * 0 == 0) by (nonlinear_arith);
    } else {
        let s0 = s.drop_last();
        let sp = sum_reward_shares(s0, amount, rate, total);
        let sl = s.last().amount as int;
        let sh = delegator_reward_share(amount, s.last().amount, rate, total);
        lemma_sum_shares_scaled(s0, amount, rate, total);
        lemma_share_bounds(amount, s.last().amount, rate, total);
        assert((sp + sh) * d == sp * d + sh * d) by (nonlinear_arith);
        assert(a * sl * c == a * c * sl) by (nonlinear_arith);
        assert(a * c * (sum_delegations(s0) + sl) == a * c * sum_delegations(s0) + a * c * sl)
            by (nonlinear_arith);
    }
}

/// The delegators' shares never sum to more than the reward itself.
pub proof fn lemma_sum_shares_le_amount(s: Seq<Delegation>, amount: u128, rate: u8, total: u128)
    requires
        rate <= 100,
        sum_delegations(s) <= total,
    ensures
        0 <= sum_reward_shares(s, amount, rate, total) <= amount,
{
    if total == 0 {
        lemma_sum_shares_zero_total(s, amount, rate);
    } else {
        let d = (total as int) * 100;
        let a = amount as int;
        let c = 100 - rate as int;
        let sm = sum_reward_shares(s, amount, rate, total);
        lemma_sum_shares_scaled(s, amount, rate, total);
        lemma_sum_nonneg(s);
        assert(a * c * sum_delegations(s) <= a * ((total as int) * 100)) by (nonlinear_arith)
            requires
                0 <= a,
                0 <= c <= 100,
                0 <= sum_delegations(s) <= total as int,
        ;
        assert(a * ((total as int) * 100) == a * d);
        lemma_mul_inequality_converse(sm, a, d);
    }
}

/// Pointwise-matching shares have the matching sum.
proof fn lemma_sum_shares_pointwise(
    shares: Seq<RewardShare>,
    dels: Seq<Delegation>,
    amount: u128,
    rate: u8,
    total: u128,
)
    requires
        shares.len() == dels.len(),
        forall|i: int|
            0 <= i < dels.len() ==> #[trigger] shares[i].amount == delegator_reward_share(
                amount,
                dels[i].amount,
                rate,
                total,
            ),
    ensures
        sum_shares(shares) == sum_reward_shares(dels, amount, rate, total),
    decreases dels.len(),
{
    if dels.len() > 0 {
        lemma_sum_shares_pointwise(shares.drop_last(), dels.drop_last(), amount, rate, total);
    }
}

/// Reward exactness: every exact distribution hands out precisely the
/// reward amount — the validator's share plus the delegators' shares
/// equals the reward, with nothing lost or fabricated, for every rate
/// in range and every mix of stakes, including a validator with no
/// delegators (full amount) and a rate of one hundred (delegators get
/// nothing).
pub proof fn lemma_reward_exactness(v: Validator, amount: u128, dist: RewardDistribution)
    requires
        validator_wf(v),
        distribution_exact(v, amount, dist),
    ensures
        dist.validator_share + sum_shares(dist.delegator_shares@) == amount,
        0 <= sum_shares(dist.delegator_shares@) <= amount,
{
    lemma_sum_shares_pointwise(
        dist.delegator_shares@,
        v.delegators@,
        amount,
        v.delegation_rate,
        v.total_stake,
    );
    lemma_sum_nonneg(v.delegators@);
    lemma_sum_shares_le_amount(v.delegators@, amount, v.delegation_rate, v.total_stake);
}

/// Distributes a reward of `amount` motes over validator `v`.
///
/// A validator with no delegators, or no stake at all, receives the
/// full amount. Otherwise each delegator receives its proportional,
/// rate-cut, truncated share, and the validator receives everything
/// that is left, so the shares sum to `amount` exactly. Fails only
/// when an intermediate product cannot be represented; the ledger is
/// never touched by distribution — the shares are returned for the
/// caller to credit.
pub fn distribute_reward(v: &Validator, amount: u128) -> (r: Result<
    RewardDistribution,
    LedgerError,
>)
    requires
        validator_wf(*v),
    ensures
        match r {
            Ok(dist) => !reward_would_overflow(*v, amount) && distribution_exact(
                *v,
                amount,
                dist,
            ),
            Err(e) => e == LedgerError::ArithmeticOverflow && reward_would_overflow(*v, amount),
        },
{
    let n = v.delegators.len();
    if n == 0 {
        return Ok(RewardDistribution { validator_share: amount, delegator_shares: Vec::new() });
    }
    if v.total_stake == 0 {
        // Every position is zero: each delegator's share is zero and
        // the validator keeps the full amount.
        let mut shares: Vec<RewardShare> = Vec::new();
        let mut i: usize = 0;
        while i < n
            invariant
                n == v.delegators@.len(),
                0 <= i <= n,
                shares@.len() == i,
                v.total_stake == 0,
                forall|k: int|
                    0 <= k < i ==> #[trigger] shares@[k].account == v.delegators@[k].delegator,
                forall|k: int| 0 <= k < i ==> #[trigger] shares@[k].amount == 0,
            decreases n - i,
        {
            shares.push(RewardShare { account: v.delegators[i].delegator, amount: 0 });
            i = i + 1;
        }
        proof {
            lemma_sum_shares_zero_total(v.delegators@, amount, v.delegation_rate);
        }
        return Ok(RewardDistribution { validator_share: amount, delegator_shares: shares });
    }
    let rate_factor: u128 = (100 - v.delegation_rate) as u128;
    let denom = match v.total_stake.checked_mul(100) {
        None => {
            return Err(LedgerError::ArithmeticOverflow);
        },
        Some(d) => d,
    };
    let mut shares: Vec<RewardShare> = Vec::new();
    let mut running: u128 = 0;
    let mut i: usize = 0;
    while i < n
        invariant
            validator_wf(*v),
            n == v.delegators@.len(),
            0 < n,
            0 < v.total_stake,
            denom == (v.total_stake as int) * 100,
            rate_factor == 100 - v.delegation_rate as int,
            0 <= i <= n,
            shares@.len() == i,
            forall|k: int|
                0 <= k < i ==> #[trigger] shares@[k].account == v.delegators@[k].delegator,
            forall|k: int|
                0 <= k < i ==> #[trigger] shares@[k].amount == delegator_reward_share(
                    amount,
                    v.delegators@[k].amount,
                    v.delegation_rate,
                    v.total_stake,
                ),
            forall|k: int|
                0 <= k < i ==> !reward_term_overflows(
                    amount,
                    #[trigger] v.delegators@[k].amount,
                    v.delegation_rate,
                ),
            running == sum_reward_shares(
                v.delegators@.subrange(0, i as int),
                amount,
                v.delegation_rate,
                v.total_stake,
            ),
            running <= amount,
        decreases n - i,
    {
        let stake_i = v.delegators[i].amount;
        let num1 = match amount.checked_mul(stake_i) {
            None => {
                return Err(LedgerError::ArithmeticOverflow);
            },
            Some(x) => x,
        };
        let num2 = match num1.checked_mul(rate_factor) {
            None => {
                return Err(LedgerError::ArithmeticOverflow);
            },
            Some(x) => x,
        };
        let share = num2 / denom;
        proof {
            let ghost dels = v.delegators@;
            let prefix = dels.subrange(0, i as int);
            let longer = dels.subrange(0, i + 1 as int);
            assert(longer.drop_last() =~= prefix);
            assert(longer.last() == dels[i as int]);
            assert(share == delegator_reward_share(
                amount,
                stake_i,
                v.delegation_rate,
                v.total_stake,
            ));
            lemma_sum_prefix(dels, i + 1 as int);
            lemma_sum_nonneg(dels);
            lemma_sum_shares_le_amount(longer, amount, v.delegation_rate, v.total_stake);
        }
        shares.push(RewardShare { account: v.delegators[i].delegator, amount: share });
        running = running + share;
        i = i + 1;
    }
    proof {
        assert(v.delegators@.subrange(0, n as int) =~= v.delegators@);
    }
    let validator_share = amount - running;
    Ok(RewardDistribution { validator_share, delegator_shares: shares })
}

} // verus!
