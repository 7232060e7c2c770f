//! Global laws of the ledger, stated and proved over the same
//! transition relations that the engine's operations are specified
//! with.

use vstd::prelude::*;

use crate::account::AccountHash;
use crate::engine::{
    delegate_applied, matured_entries, remaining_entries, unbond_entry_for, undelegate_applied,
    StakingEngine,
};
use crate::ledger::total_stake_of;

verus! {

/// One stake-moving operation of a trace, together with whether the
/// engine applied it or rejected it.
pub enum StakeOp {
    /// A delegation of `amount` motes from `delegator` to `validator`.
    Delegate {
        /// The delegating account.
        delegator: AccountHash,
        /// The target validator.
        validator: AccountHash,
        /// The delegated amount, in motes.
        amount: u128,
        /// True if the engine applied the operation, false if it
        /// rejected it (a rejected operation has no effect at all).
        applied: bool,
    },
    /// An undelegation of `amount` motes of `delegator`'s position
    /// with `validator`.
    Undelegate {
        /// The withdrawing account.
        delegator: AccountHash,
        /// The validator withdrawn from.
        validator: AccountHash,
        /// The undelegated amount, in motes.
        amount: u128,
        /// True if the engine applied the operation.
        applied: bool,
    },
}

/// True if `op` takes engine state `pre` to `post`: an applied
/// operation moves the ledger exactly as the engine's contracts say,
/// and a rejected one leaves the ledger untouched.
pub open spec fn stake_op_transition(
    pre: StakingEngine,
    post: StakingEngine,
    op: StakeOp,
) -> bool {
    match op {
        StakeOp::Delegate { delegator, validator, amount, applied } => {
            if applied {
                delegate_applied(pre.ledger, post.ledger, delegator, validator, amount)
            } else {
                post.ledger == pre.ledger
            }
        },
        StakeOp::Undelegate { delegator, validator, amount, applied } => {
            if applied {
                undelegate_applied(pre, post, delegator, validator, amount)
            } else {
                post.ledger == pre.ledger
            }
        },
    }
}

/// The net amount `op` moves onto validator `v`'s total stake:
/// positive for an applied delegation, negative for an applied
/// undelegation, zero for anything rejected or aimed elsewhere.
pub open spec fn op_delta(op: StakeOp, v: AccountHash) -> int {
    match op {
        StakeOp::Delegate { delegator, validator, amount, applied } => {
            if applied && validator == v {
                amount as int
            } else {
                0
            }
        },
        StakeOp::Undelegate { delegator, validator, amount, applied } => {
            if applied && validator == v {
                -(amount as int)
            } else {
                0
            }
        },
    }
}

/// The sum of the net amounts a sequence of operations moves onto
/// validator `v`.
pub open spec fn net_delta(ops: Seq<StakeOp>, v: AccountHash) -> int
    decreases ops.len(),
{
    if ops.len() == 0 {
        0
    } else {
        net_delta(ops.drop_last(), v) + op_delta(ops.last(), v)
    }
}

/// Conservation of stake: across any sequence of delegate and
/// undelegate operations, a validator's total stake (its self-stake
/// plus the sum of its delegations) changes by exactly the sum of the
/// net amounts applied to it — no operation creates or destroys
/// stake.
pub proof fn lemma_stake_conservation(
    states: Seq<StakingEngine>,
    ops: Seq<StakeOp>,
    v: AccountHash,
)
    requires
        states.len() == ops.len() + 1,
        forall|i: int|
            0 <= i < ops.len() ==> stake_op_transition(states[i], states[i + 1], #[trigger] ops[i]),
    ensures
        total_stake_of(states.last().ledger, v) == total_stake_of(states[0].ledger, v)
            + net_delta(ops, v),
    decreases ops.len(),
{
    if ops.len() == 0 {
    } else {
        let n = ops.len() as int;
        lemma_stake_conservation(states.drop_last(), ops.drop_last(), v);
        assert(states.drop_last()[0] == states[0]);
        assert(states.drop_last().last() == states[n - 1]);
        assert(stake_op_transition(states[n - 1], states[n], ops[n - 1]));
        lemma_op_delta(states[n - 1], states[n], ops[n - 1], v);
        assert(ops.last() == ops[n - 1]);
        assert(states.last() == states[n]);
    }
}

/// One transition moves validator `v`'s total stake by exactly the
/// operation's net amount for `v`.
proof fn lemma_op_delta(pre: StakingEngine, post: StakingEngine, op: StakeOp, v: AccountHash)
    requires
        stake_op_transition(pre, post, op),
    ensures
        total_stake_of(post.ledger, v) == total_stake_of(pre.ledger, v) + op_delta(op, v),
{
    match op {
        StakeOp::Delegate { delegator, validator, amount, applied } => {
            if applied && validator != v {
                assert(crate::ledger::has_validator(post.ledger, v) <==> crate::ledger::has_validator(
                    pre.ledger,
                    v,
                ));
            }
        },
        StakeOp::Undelegate { delegator, validator, amount, applied } => {
            if applied && validator != v {
                assert(crate::ledger::has_validator(post.ledger, v) <==> crate::ledger::has_validator(
                    pre.ledger,
                    v,
                ));
            }
        },
    }
}

/// Locked funds are honored: after an undelegation made at
/// `pre.current_era`, a step to any era short of the locked-funds
/// boundary releases exactly what was already owed beforehand — the
/// new entry stays pending — while a step to any era at or past the
/// boundary releases exactly the owed entries plus the undelegated
/// amount, once.
///
/// A step's release phase is pinned by its contract to
/// [`matured_entries`] and [`remaining_entries`] of the queue, so the
/// law is stated over those partitions of the queue the undelegation
/// leaves behind.
pub proof fn lemma_locked_funds_honored(
    pre: StakingEngine,
    post: StakingEngine,
    delegator: AccountHash,
    validator: AccountHash,
    amount: u128,
    next_era: u64,
)
    requires
        undelegate_applied(pre, post, delegator, validator, amount),
        pre.current_era + pre.config.locked_funds_period_in_eras <= u64::MAX,
    ensures
        next_era < pre.current_era + pre.config.locked_funds_period_in_eras ==> {
            &&& matured_entries(post.unbonding.entries@, next_era) == matured_entries(
                pre.unbonding.entries@,
                next_era,
            )
            &&& remaining_entries(post.unbonding.entries@, next_era) == remaining_entries(
                pre.unbonding.entries@,
                next_era,
            ).push(unbond_entry_for(pre, delegator, validator, amount))
        },
        next_era >= pre.current_era + pre.config.locked_funds_period_in_eras ==> {
            &&& matured_entries(post.unbonding.entries@, next_era) == matured_entries(
                pre.unbonding.entries@,
                next_era,
            ).push(unbond_entry_for(pre, delegator, validator, amount))
            &&& remaining_entries(post.unbonding.entries@, next_era) == remaining_entries(
                pre.unbonding.entries@,
                next_era,
            )
        },
{
    let entry = unbond_entry_for(pre, delegator, validator, amount);
    assert(post.unbonding.entries@ == pre.unbonding.entries@.push(entry));
    crate::engine::lemma_release_partition_push(pre.unbonding.entries@, entry, next_era);
}

} // verus!
