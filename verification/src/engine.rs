//! The engine: one isolated instance of the staking state machine.
//!
//! A [`StakingEngine`] owns the staking ledger, the unbonding queue,
//! and the era-validator history, and applies contract calls and step
//! requests as atomic transitions: each request is either applied in
//! full or rejected with no effect. Validation always precedes
//! mutation, so no partial-effect state ever survives a failure.

use vstd::prelude::*;

use crate::account::AccountHash;
use crate::config::{config_wf, EngineConfig};
use crate::error::LedgerError;
use crate::ledger::{
    delegated_stake_of, has_delegation, has_validator, ledger_wf, lemma_sum_nonneg,
    lemma_validator_at, stake_position, total_stake_of, validator_index, validator_record,
    validator_wf, validators_sorted, StakingLedger, Validator,
};
use crate::rewards::{
    distribute_reward, distribution_exact, reward_would_overflow, RewardDistribution,
};

verus! {

/// A pending withdrawal: stake already removed from its validator,
/// waiting out the locked-funds period before the funds are released.
#[derive(Clone, Copy, PartialEq, Eq, Structural, Debug)]
pub struct UnbondingEntry {
    /// The account whose funds are pending release.
    pub account: AccountHash,
    /// The validator the stake was withdrawn from.
    pub validator: AccountHash,
    /// The withdrawn amount, in motes.
    pub amount: u128,
    /// The era in which the undelegation was made.
    pub era_of_creation: u64,
    /// The first era in which the funds may be released.
    pub release_era: u64,
}

/// The time-ordered set of pending withdrawals. Entries are held in
/// creation order, so release processing is first-in-first-out per
/// account, as deterministic ledger replay requires.
#[derive(Debug)]
pub struct UnbondingQueue {
    /// The pending entries, in creation order.
    pub entries: Vec<UnbondingEntry>,
}

/// One validator's weight in an era's validator set.
#[derive(Clone, Copy, PartialEq, Eq, Structural, Debug)]
pub struct EraValidatorWeight {
    /// The validator's account.
    pub account: AccountHash,
    /// The validator's total stake at the time the era was entered.
    pub total_stake: u128,
}

/// One era's entry in the append-only era-validator history.
#[derive(Debug)]
pub struct EraEntry {
    /// The era this entry was written for.
    pub era_id: u64,
    /// The validator weights of this era, ascending by account.
    pub validators: Vec<EraValidatorWeight>,
}

/// One isolated instance of the staking state machine.
#[derive(Debug)]
pub struct StakingEngine {
    /// The immutable economic policy this instance runs under.
    pub config: EngineConfig,
    /// The staking ledger.
    pub ledger: StakingLedger,
    /// The unbonding queue.
    pub unbonding: UnbondingQueue,
    /// The append-only era-validator history; entries are never
    /// rewritten once written for a given era.
    pub era_history: Vec<EraEntry>,
    /// The last recorded era id; zero before the first step.
    pub current_era: u64,
}

/// Well-formedness of an engine: valid configuration, well-formed
/// ledger, and an era history whose ids strictly increase up to the
/// current era.
pub open spec fn engine_wf(e: StakingEngine) -> bool {
    &&& config_wf(e.config)
    &&& ledger_wf(e.ledger)
    &&& forall|i: int, j: int|
        0 <= i < j < e.era_history@.len() ==> e.era_history@[i].era_id < e.era_history@[j].era_id
    &&& (e.era_history@.len() > 0 ==> e.current_era == e.era_history@.last().era_id)
    &&& (e.era_history@.len() == 0 ==> e.current_era == 0)
}

/// The error, if any, an `add_bid` request runs into, checked in this
/// order: the network-wide bid switch, the rate bound, then arithmetic
/// bounds.
pub open spec fn add_bid_check(
    e: StakingEngine,
    validator: AccountHash,
    self_stake: u128,
    delegation_rate: u8,
) -> Option<LedgerError> {
    if !e.config.allow_auction_bids {
        Some(LedgerError::AuctionBidsDisabled)
    } else if delegation_rate > 100 {
        Some(LedgerError::InvalidDelegationRate)
    } else if delegated_stake_of(e.ledger, validator) + self_stake > u128::MAX {
        Some(LedgerError::ArithmeticOverflow)
    } else {
        None
    }
}

/// How a successful `add_bid` moves the ledger: the bid's rate and
/// self-stake are replaced atomically, its delegators are untouched,
/// and every other validator is untouched.
pub open spec fn add_bid_applied(
    pre: StakingLedger,
    post: StakingLedger,
    validator: AccountHash,
    self_stake: u128,
    delegation_rate: u8,
) -> bool {
    &&& ledger_wf(post)
    &&& forall|x: AccountHash|
        #[trigger] has_validator(post, x) <==> (has_validator(pre, x) || x == validator)
    &&& forall|x: AccountHash|
        x != validator && has_validator(pre, x) ==> #[trigger] validator_record(post, x)
            == validator_record(pre, x)
    &&& has_validator(post, validator)
    &&& validator_record(post, validator).account == validator
    &&& validator_record(post, validator).self_stake == self_stake
    &&& validator_record(post, validator).delegation_rate == delegation_rate
    &&& validator_record(post, validator).inactive == false
    &&& validator_record(post, validator).delegators@ == (if has_validator(pre, validator) {
        validator_record(pre, validator).delegators@
    } else {
        Seq::<crate::ledger::Delegation>::empty()
    })
    &&& total_stake_of(post, validator) == delegated_stake_of(pre, validator) + self_stake
}

/// The error, if any, a `delegate` request runs into, checked in this
/// order: the bid switch, the first-time minimum, the validator
/// lookup, then arithmetic bounds.
pub open spec fn delegate_check(
    e: StakingEngine,
    delegator: AccountHash,
    validator: AccountHash,
    amount: u128,
) -> Option<LedgerError> {
    if !e.config.allow_auction_bids {
        Some(LedgerError::AuctionBidsDisabled)
    } else if amount < e.config.minimum_delegation_amount && stake_position(
        e.ledger,
        validator,
        delegator,
    ) == 0 {
        Some(LedgerError::BelowMinimumDelegation)
    } else if !has_validator(e.ledger, validator) {
        Some(LedgerError::ValidatorNotFound)
    } else if total_stake_of(e.ledger, validator) + amount > u128::MAX {
        Some(LedgerError::ArithmeticOverflow)
    } else {
        None
    }
}

/// How a successful `delegate` moves the ledger: the delegator's
/// position and the validator's total stake grow by exactly the
/// delegated amount, and nothing else changes.
pub open spec fn delegate_applied(
    pre: StakingLedger,
    post: StakingLedger,
    delegator: AccountHash,
    validator: AccountHash,
    amount: u128,
) -> bool {
    &&& ledger_wf(post)
    &&& forall|x: AccountHash|
        #[trigger] has_validator(post, x) <==> has_validator(pre, x)
    &&& forall|x: AccountHash|
        x != validator && has_validator(pre, x) ==> #[trigger] validator_record(post, x)
            == validator_record(pre, x)
    &&& has_validator(post, validator)
    &&& validator_record(post, validator).account == validator_record(pre, validator).account
    &&& validator_record(post, validator).self_stake == validator_record(
        pre,
        validator,
    ).self_stake
    &&& validator_record(post, validator).delegation_rate == validator_record(
        pre,
        validator,
    ).delegation_rate
    &&& validator_record(post, validator).inactive == validator_record(pre, validator).inactive
    &&& total_stake_of(post, validator) == total_stake_of(pre, validator) + amount
    &&& stake_position(post, validator, delegator) == stake_position(pre, validator, delegator)
        + amount
    &&& forall|x: AccountHash|
        x != delegator ==> #[trigger] stake_position(post, validator, x) == stake_position(
            pre,
            validator,
            x,
        )
}

/// The error, if any, an `undelegate` request runs into, checked in
/// this order: the validator lookup, the position bound, then
/// arithmetic bounds on the release era.
pub open spec fn undelegate_check(
    e: StakingEngine,
    delegator: AccountHash,
    validator: AccountHash,
    amount: u128,
) -> Option<LedgerError> {
    if !has_validator(e.ledger, validator) {
        Some(LedgerError::ValidatorNotFound)
    } else if amount > stake_position(e.ledger, validator, delegator) {
        Some(LedgerError::UndelegateAmountExceedsStake)
    } else if e.current_era + e.config.locked_funds_period_in_eras > u64::MAX {
        Some(LedgerError::ArithmeticOverflow)
    } else {
        None
    }
}

/// The unbonding entry a successful `undelegate` creates.
pub open spec fn unbond_entry_for(
    e: StakingEngine,
    delegator: AccountHash,
    validator: AccountHash,
    amount: u128,
) -> UnbondingEntry {
    UnbondingEntry {
        account: delegator,
        validator,
        amount,
        era_of_creation: e.current_era,
        release_era: (e.current_era + e.config.locked_funds_period_in_eras) as u64,
    }
}

/// How a successful `undelegate` moves the engine: the delegator's
/// position and the validator's total stake shrink by exactly the
/// undelegated amount, the position vanishes when it reaches zero, a
/// matching entry is appended to the unbonding queue, and nothing
/// else changes. Stake removal and fund release are deliberately
/// decoupled: the funds stay locked until a later step releases the
/// queue entry.
pub open spec fn undelegate_applied(
    pre: StakingEngine,
    post: StakingEngine,
    delegator: AccountHash,
    validator: AccountHash,
    amount: u128,
) -> bool {
    &&& ledger_wf(post.ledger)
    &&& forall|x: AccountHash|
        #[trigger] has_validator(post.ledger, x) <==> has_validator(pre.ledger, x)
    &&& forall|x: AccountHash|
        x != validator && has_validator(pre.ledger, x) ==> #[trigger] validator_record(
            post.ledger,
            x,
        ) == validator_record(pre.ledger, x)
    &&& has_validator(post.ledger, validator)
    &&& validator_record(post.ledger, validator).account == validator_record(
        pre.ledger,
        validator,
    ).account
    &&& validator_record(post.ledger, validator).self_stake == validator_record(
        pre.ledger,
        validator,
    ).self_stake
    &&& validator_record(post.ledger, validator).delegation_rate == validator_record(
        pre.ledger,
        validator,
    ).delegation_rate
    &&& validator_record(post.ledger, validator).inactive == validator_record(
        pre.ledger,
        validator,
    ).inactive
    &&& total_stake_of(post.ledger, validator) == total_stake_of(pre.ledger, validator) - amount
    &&& stake_position(post.ledger, validator, delegator) == stake_position(
        pre.ledger,
        validator,
        delegator,
    ) - amount
    &&& (has_delegation(validator_record(post.ledger, validator).delegators@, delegator)
        <==> stake_position(pre.ledger, validator, delegator) - amount > 0)
    &&& forall|x: AccountHash|
        x != delegator ==> #[trigger] stake_position(post.ledger, validator, x) == stake_position(
            pre.ledger,
            validator,
            x,
        )
    &&& post.unbonding.entries@ == pre.unbonding.entries@.push(
        unbond_entry_for(pre, delegator, validator, amount),
    )
}

/// A ledger whose validator sequence is the old one with index `i`
/// replaced by a record of the same account keeps its shape: the same
/// validator set, every other record unchanged, and the new record in
/// place of the old.
pub proof fn lemma_ledger_updated(pre: StakingLedger, post: StakingLedger, i: int, nr: Validator)
    requires
        validators_sorted(pre.validators@),
        0 <= i < pre.validators@.len(),
        post.validators@ == pre.validators@.update(i, nr),
        nr.account == pre.validators@[i].account,
    ensures
        validators_sorted(post.validators@),
        forall|x: AccountHash| #[trigger] has_validator(post, x) <==> has_validator(pre, x),
        forall|x: AccountHash|
            x != nr.account && has_validator(pre, x) ==> #[trigger] validator_record(post, x)
                == validator_record(pre, x),
        has_validator(post, nr.account),
        validator_index(post, nr.account) == i,
        validator_record(post, nr.account) == nr,
{
    let s = pre.validators@;
    let t = post.validators@;
    assert(forall|k: int| 0 <= k < s.len() && k != i ==> t[k] == s[k]);
    assert(t[i] == nr);
    assert forall|p: int, q: int| 0 <= p < q < t.len() implies t[p].account.value
        < t[q].account.value by {
        assert(s[p].account == t[p].account && s[q].account == t[q].account);
    }
    lemma_validator_at(post, i);
    assert forall|x: AccountHash| #[trigger] has_validator(post, x) <==> has_validator(
        pre,
        x,
    ) by {
        if has_validator(pre, x) {
            let k = validator_index(pre, x);
            assert(s[k].account == x);
            assert(t[k].account == x);
        }
        if has_validator(post, x) {
            let k = validator_index(post, x);
            assert(t[k].account == x);
            assert(s[k].account == x);
        }
    }
    assert forall|x: AccountHash|
        x != nr.account && has_validator(pre, x) implies #[trigger] validator_record(post, x)
        == validator_record(pre, x) by {
        let k = validator_index(pre, x);
        assert(s[k].account == x);
        lemma_validator_at(pre, k);
        assert(k != i);
        assert(t[k] == s[k]);
        lemma_validator_at(post, k);
    }
}

/// A ledger whose validator sequence is the old one with a record of
/// a fresh account inserted at its sorted place keeps its shape: the
/// validator set grows by that account, every other record is
/// unchanged, and the new record is in place.
pub proof fn lemma_ledger_inserted(pre: StakingLedger, post: StakingLedger, p: int, nr: Validator)
    requires
        validators_sorted(pre.validators@),
        0 <= p <= pre.validators@.len(),
        post.validators@ == pre.validators@.insert(p, nr),
        forall|k: int| 0 <= k < p ==> pre.validators@[k].account.value < nr.account.value,
        p < pre.validators@.len() ==> pre.validators@[p].account.value > nr.account.value,
    ensures
        validators_sorted(post.validators@),
        forall|x: AccountHash|
            #[trigger] has_validator(post, x) <==> (has_validator(pre, x) || x == nr.account),
        forall|x: AccountHash|
            x != nr.account && has_validator(pre, x) ==> #[trigger] validator_record(post, x)
                == validator_record(pre, x),
        has_validator(post, nr.account),
        validator_record(post, nr.account) == nr,
    decreases 0int,
{
    let s = pre.validators@;
    let t = post.validators@;
    s.insert_ensures(p, nr);
    assert forall|i: int, j: int| 0 <= i < j < t.len() implies t[i].account.value
        < t[j].account.value by {
        if j < p {
            assert(t[i] == s[i] && t[j] == s[j]);
        } else if i < p && j == p {
            assert(t[i] == s[i] && t[j] == nr);
        } else if i < p && j > p {
            assert(t[i] == s[i] && t[j] == s[j - 1]);
        } else if i == p {
            assert(t[i] == nr && t[j] == s[j - 1]);
        } else {
            assert(t[i] == s[i - 1] && t[j] == s[j - 1]);
        }
    }
    lemma_validator_at(post, p);
    assert forall|x: AccountHash| #[trigger] has_validator(post, x) <==> (has_validator(pre, x)
        || x == nr.account) by {
        if has_validator(pre, x) {
            let k = validator_index(pre, x);
            assert(s[k].account == x);
            if k < p {
                assert(t[k].account == x);
            } else {
                assert(t[k + 1].account == x);
            }
        }
        if x == nr.account {
            assert(t[p].account == x);
        }
        if has_validator(post, x) {
            let k = validator_index(post, x);
            assert(t[k].account == x);
            if k < p {
                assert(s[k].account == x);
            } else if k == p {
                assert(x == nr.account);
            } else {
                assert(s[k - 1].account == x);
            }
        }
    }
    assert forall|x: AccountHash|
        x != nr.account && has_validator(pre, x) implies #[trigger] validator_record(post, x)
        == validator_record(pre, x) by {
        let k = validator_index(pre, x);
        assert(s[k].account == x);
        lemma_validator_at(pre, k);
        if k < p {
            assert(t[k] == s[k]);
            lemma_validator_at(post, k);
        } else {
            assert(t[k + 1] == s[k]);
            lemma_validator_at(post, k + 1);
        }
    }
}

impl StakingEngine {
    /// Creates a fresh engine under the given policy: empty ledger,
    /// empty unbonding queue, empty era history, current era zero.
    pub fn new(config: EngineConfig) -> (r: StakingEngine)
        requires
            config_wf(config),
        ensures
            engine_wf(r),
            r.config == config,
            r.ledger.validators@.len() == 0,
            r.unbonding.entries@.len() == 0,
            r.era_history@.len() == 0,
            r.current_era == 0,
    {
        StakingEngine {
            config,
            ledger: StakingLedger::new(),
            unbonding: UnbondingQueue { entries: Vec::new() },
            era_history: Vec::new(),
            current_era: 0,
        }
    }

    /// Creates or replaces a validator's bid.
    ///
    /// Fails when the network-wide bid switch is off (administrators
    /// are not exempt), when the delegation rate is above one hundred,
    /// or when the new total stake cannot be represented. Updating an
    /// existing bid replaces its rate and self-stake atomically and
    /// leaves its delegators untouched.
    pub fn add_bid(
        &mut self,
        validator: AccountHash,
        self_stake: u128,
        delegation_rate: u8,
    ) -> (r: Result<(), LedgerError>)
        requires
            engine_wf(*old(self)),
        ensures
            engine_wf(*final(self)),
            final(self).config == old(self).config,
            final(self).unbonding.entries@ == old(self).unbonding.entries@,
            final(self).era_history@ == old(self).era_history@,
            final(self).current_era == old(self).current_era,
            match r {
                Ok(()) => add_bid_check(*old(self), validator, self_stake, delegation_rate)
                    is None && add_bid_applied(
                    old(self).ledger,
                    final(self).ledger,
                    validator,
                    self_stake,
                    delegation_rate,
                ),
                Err(e) => Some(e) == add_bid_check(
                    *old(self),
                    validator,
                    self_stake,
                    delegation_rate,
                ) && *final(self) == *old(self),
            },
    {
        if !self.config.allow_auction_bids {
            return Err(LedgerError::AuctionBidsDisabled);
        }
        if delegation_rate > 100 {
            return Err(LedgerError::InvalidDelegationRate);
        }
        let p = self.ledger.validator_position(&validator);
        let n = self.ledger.validators.len();
        if p < n && self.ledger.validators[p].account.value == validator.value {
            // Existing bid: replace rate and self-stake atomically.
            proof {
                assert(self.ledger.validators@[p as int].account == validator);
                lemma_validator_at(self.ledger, p as int);
                lemma_sum_nonneg(self.ledger.validators@[p as int].delegators@);
            }
            let delegated = self.ledger.validators[p].total_stake
                - self.ledger.validators[p].self_stake;
            match delegated.checked_add(self_stake) {
                None => Err(LedgerError::ArithmeticOverflow),
                Some(new_total) => {
                    let ghost pre = self.ledger;
                    let vref = &mut self.ledger.validators[p];
                    vref.self_stake = self_stake;
                    vref.delegation_rate = delegation_rate;
                    vref.inactive = false;
                    vref.total_stake = new_total;
                    proof {
                        let nr = self.ledger.validators@[p as int];
                        assert(self.ledger.validators@ =~= pre.validators@.update(p as int, nr));
                        lemma_ledger_updated(pre, self.ledger, p as int, nr);
                        assert(validator_wf(nr));
                    }
                    Ok(())
                },
            }
        } else {
            // Fresh bid: insert a new record at its sorted place.
            proof {
                if has_validator(self.ledger, validator) {
                    let k = validator_index(self.ledger, validator);
                    assert(self.ledger.validators@[k].account == validator);
                    if k < p {
                        assert(self.ledger.validators@[k].account.value < validator.value);
                    }
                }
                assert(!has_validator(self.ledger, validator));
            }
            let nr = Validator {
                account: validator,
                self_stake,
                delegation_rate,
                inactive: false,
                total_stake: self_stake,
                delegators: Vec::new(),
            };
            let ghost pre = self.ledger;
            self.ledger.validators.insert(p, nr);
            proof {
                lemma_ledger_inserted(pre, self.ledger, p as int, nr);
                assert(validator_wf(nr));
                assert(validator_record(self.ledger, validator).delegators@
                    =~= Seq::<crate::ledger::Delegation>::empty());
            }
            Ok(())
        }
    }

    /// Delegates `amount` motes from `delegator` to `validator`.
    ///
    /// Fails when the bid switch is off; when the amount is below the
    /// configured minimum and the delegator has no existing position
    /// with this validator (top-ups below the minimum are allowed);
    /// when the validator has no bid; or when the new total stake
    /// cannot be represented. On success the position and the
    /// validator's total stake grow by exactly `amount`; debiting the
    /// delegator's spendable balance is the caller's business.
    pub fn delegate(
        &mut self,
        delegator: AccountHash,
        validator: AccountHash,
        amount: u128,
    ) -> (r: Result<(), LedgerError>)
        requires
            engine_wf(*old(self)),
        ensures
            engine_wf(*final(self)),
            final(self).config == old(self).config,
            final(self).unbonding.entries@ == old(self).unbonding.entries@,
            final(self).era_history@ == old(self).era_history@,
            final(self).current_era == old(self).current_era,
            match r {
                Ok(()) => delegate_check(*old(self), delegator, validator, amount) is None
                    && delegate_applied(
                    old(self).ledger,
                    final(self).ledger,
                    delegator,
                    validator,
                    amount,
                ),
                Err(e) => Some(e) == delegate_check(*old(self), delegator, validator, amount)
                    && *final(self) == *old(self),
            },
    {
        if !self.config.allow_auction_bids {
            return Err(LedgerError::AuctionBidsDisabled);
        }
        let found = self.ledger.find_validator(&validator);
        let position: u128 = match found {
            Some(i) => {
                proof {
                    assert(validator_wf(self.ledger.validators@[i as int]));
                }
                self.ledger.validators[i].staked_amount(&delegator)
            },
            None => 0,
        };
        if amount < (self.config.minimum_delegation_amount as u128) && position == 0 {
            return Err(LedgerError::BelowMinimumDelegation);
        }
        match found {
            None => Err(LedgerError::ValidatorNotFound),
            Some(i) => {
                let total = self.ledger.validators[i].total_stake;
                match total.checked_add(amount) {
                    None => Err(LedgerError::ArithmeticOverflow),
                    Some(_) => {
                        let ghost pre = self.ledger;
                        let vref = &mut self.ledger.validators[i];
                        vref.credit_delegation(delegator, amount);
                        proof {
                            let nr = self.ledger.validators@[i as int];
                            assert(self.ledger.validators@ =~= pre.validators@.update(
                                i as int,
                                nr,
                            ));
                            lemma_ledger_updated(pre, self.ledger, i as int, nr);
                        }
                        Ok(())
                    },
                }
            },
        }
    }

    /// Undelegates `amount` motes of `delegator`'s position with
    /// `validator`.
    ///
    /// Fails when the validator has no bid or when the amount exceeds
    /// the delegator's current position. On success the position
    /// shrinks immediately — the stake no longer counts toward the
    /// validator's total or future era-validator sets — and an
    /// unbonding entry is queued whose funds are released only by a
    /// step at or past `current_era` plus the locked-funds period.
    pub fn undelegate(
        &mut self,
        delegator: AccountHash,
        validator: AccountHash,
        amount: u128,
    ) -> (r: Result<(), LedgerError>)
        requires
            engine_wf(*old(self)),
        ensures
            engine_wf(*final(self)),
            final(self).config == old(self).config,
            final(self).era_history@ == old(self).era_history@,
            final(self).current_era == old(self).current_era,
            match r {
                Ok(()) => undelegate_check(*old(self), delegator, validator, amount) is None
                    && undelegate_applied(*old(self), *final(self), delegator, validator, amount),
                Err(e) => Some(e) == undelegate_check(*old(self), delegator, validator, amount)
                    && *final(self) == *old(self),
            },
    {
        let found = self.ledger.find_validator(&validator);
        match found {
            None => Err(LedgerError::ValidatorNotFound),
            Some(i) => {
                proof {
                    assert(validator_wf(self.ledger.validators@[i as int]));
                }
                let position = self.ledger.validators[i].staked_amount(&delegator);
                if amount > position {
                    return Err(LedgerError::UndelegateAmountExceedsStake);
                }
                match self.current_era.checked_add(self.config.locked_funds_period_in_eras) {
                    None => Err(LedgerError::ArithmeticOverflow),
                    Some(release_era) => {
                        let ghost pre = *self;
                        let entry = UnbondingEntry {
                            account: delegator,
                            validator,
                            amount,
                            era_of_creation: self.current_era,
                            release_era,
                        };
                        let vref = &mut self.ledger.validators[i];
                        vref.debit_delegation(delegator, amount);
                        self.unbonding.entries.push(entry);
                        proof {
                            let nr = self.ledger.validators@[i as int];
                            assert(self.ledger.validators@ =~= pre.ledger.validators@.update(
                                i as int,
                                nr,
                            ));
                            lemma_ledger_updated(pre.ledger, self.ledger, i as int, nr);
                            assert(entry == unbond_entry_for(pre, delegator, validator, amount));
                        }
                        Ok(())
                    },
                }
            },
        }
    }
}

/// A protocol version, carried through a step request as an opaque
/// tunable.
#[derive(Clone, Copy, PartialEq, Eq, Structural, Debug)]
pub struct ProtocolVersion {
    /// Major version.
    pub major: u32,
    /// Minor version.
    pub minor: u32,
    /// Patch version.
    pub patch: u32,
}

/// One reward assignment: a fixed amount of motes for one validator,
/// to be split between the validator and its delegators.
#[derive(Clone, Copy, PartialEq, Eq, Structural, Debug)]
pub struct RewardItem {
    /// The rewarded validator.
    pub validator: AccountHash,
    /// The reward, in motes.
    pub amount: u128,
}

/// A request to advance the protocol to a new era.
#[derive(Debug)]
pub struct StepRequest {
    /// The state root the request was built against; carried through
    /// opaquely for the storage collaborator.
    pub parent_state_hash: u64,
    /// The protocol version of the requesting node.
    pub protocol_version: ProtocolVersion,
    /// The era to advance to; must exceed the last recorded era.
    pub next_era_id: u64,
    /// The rewards to distribute, processed in order, each item's
    /// outcome independent of the others'.
    pub reward_items: Vec<RewardItem>,
}

/// What one step produced: the matured withdrawals to credit, one
/// outcome per reward item, and the new era's validator set.
#[derive(Debug)]
pub struct StepOutcome {
    /// The matured unbonding entries, in creation order; crediting
    /// each account's spendable balance is the caller's business.
    pub released: Vec<UnbondingEntry>,
    /// One outcome per reward item, in request order; a failed item
    /// does not disturb the others.
    pub reward_results: Vec<Result<RewardDistribution, LedgerError>>,
    /// The new era's validator set, ascending by account.
    pub era_validators: Vec<EraValidatorWeight>,
}

/// The entries of `q` that a step to `era` releases: those whose
/// release era has been reached, in their original (creation) order.
pub open spec fn matured_entries(q: Seq<UnbondingEntry>, era: u64) -> Seq<UnbondingEntry>
    decreases q.len(),
{
    if q.len() == 0 {
        Seq::empty()
    } else if q.last().release_era <= era {
        matured_entries(q.drop_last(), era).push(q.last())
    } else {
        matured_entries(q.drop_last(), era)
    }
}

/// The entries of `q` that a step to `era` keeps pending: those whose
/// release era lies ahead, in their original order.
pub open spec fn remaining_entries(q: Seq<UnbondingEntry>, era: u64) -> Seq<UnbondingEntry>
    decreases q.len(),
{
    if q.len() == 0 {
        Seq::empty()
    } else if q.last().release_era > era {
        remaining_entries(q.drop_last(), era).push(q.last())
    } else {
        remaining_entries(q.drop_last(), era)
    }
}

/// Appending one entry to the queue extends exactly one of the two
/// partitions of a later release scan.
pub proof fn lemma_release_partition_push(q: Seq<UnbondingEntry>, e: UnbondingEntry, era: u64)
    ensures
        matured_entries(q.push(e), era) == (if e.release_era <= era {
            matured_entries(q, era).push(e)
        } else {
            matured_entries(q, era)
        }),
        remaining_entries(q.push(e), era) == (if e.release_era > era {
            remaining_entries(q, era).push(e)
        } else {
            remaining_entries(q, era)
        }),
{
    assert(q.push(e).drop_last() =~= q);
    assert(q.push(e).last() == e);
}

/// The validator weights a step writes for the new era: every
/// validator holding stake, in ledger (ascending account) order, with
/// its total stake.
pub open spec fn era_weights_of(s: Seq<Validator>) -> Seq<EraValidatorWeight>
    decreases s.len(),
{
    if s.len() == 0 {
        Seq::empty()
    } else if s.last().total_stake > 0 {
        era_weights_of(s.drop_last()).push(
            EraValidatorWeight { account: s.last().account, total_stake: s.last().total_stake },
        )
    } else {
        era_weights_of(s.drop_last())
    }
}

/// True if `r` is the correct outcome for distributing `item` against
/// ledger `l`: an exact distribution when the validator exists and the
/// arithmetic fits, and the matching error otherwise.
pub open spec fn reward_result_matches(
    l: StakingLedger,
    item: RewardItem,
    r: Result<RewardDistribution, LedgerError>,
) -> bool {
    match r {
        Ok(dist) => has_validator(l, item.validator) && !reward_would_overflow(
            validator_record(l, item.validator),
            item.amount,
        ) && distribution_exact(validator_record(l, item.validator), item.amount, dist),
        Err(e) => {
            ||| (e == LedgerError::ValidatorNotFound && !has_validator(l, item.validator))
            ||| (e == LedgerError::ArithmeticOverflow && has_validator(l, item.validator)
                && reward_would_overflow(validator_record(l, item.validator), item.amount))
        },
    }
}

/// How `run_auction` moves the ledger: it only refreshes each bid's
/// activity flag — a bid whose total stake has reached zero is
/// dropped from participation — and touches nothing else.
pub open spec fn run_auction_applied(pre: StakingLedger, post: StakingLedger) -> bool {
    &&& post.validators@.len() == pre.validators@.len()
    &&& forall|i: int|
        0 <= i < pre.validators@.len() ==> (#[trigger] post.validators@[i]).account
            == pre.validators@[i].account && post.validators@[i].self_stake
            == pre.validators@[i].self_stake && post.validators@[i].delegation_rate
            == pre.validators@[i].delegation_rate && post.validators@[i].total_stake
            == pre.validators@[i].total_stake && post.validators@[i].delegators@
            == pre.validators@[i].delegators@ && post.validators@[i].inactive == (
        pre.validators@[i].total_stake == 0)
}

/// True if weight `a` is seated strictly ahead of weight `b` in the
/// validator ranking: more stake, or equal stake and the smaller
/// account — the deterministic tie-break.
pub open spec fn ranks_before(a: EraValidatorWeight, b: EraValidatorWeight) -> bool {
    ||| a.total_stake > b.total_stake
    ||| (a.total_stake == b.total_stake && a.account.value < b.account.value)
}

/// Compares two weights of `v` by ranking order.
fn ranks_before_at(v: &Vec<EraValidatorWeight>, i: usize, j: usize) -> (r: bool)
    requires
        i < v@.len(),
        j < v@.len(),
    ensures
        r == ranks_before(v@[i as int], v@[j as int]),
{
    let a = v[i];
    let b = v[j];
    a.total_stake > b.total_stake || (a.total_stake == b.total_stake && a.account.value
        < b.account.value)
}

impl StakingEngine {
    /// The new era's validator weights, as a step at this moment
    /// would write them: an advisory recomputation that persists
    /// nothing.
    pub fn era_validator_weights(&self) -> (r: Vec<EraValidatorWeight>)
        ensures
            r@ == era_weights_of(self.ledger.validators@),
    {
        let s = &self.ledger.validators;
        let n = s.len();
        let mut out: Vec<EraValidatorWeight> = Vec::new();
        let mut i: usize = 0;
        while i < n
            invariant
                n == s@.len(),
                0 <= i <= n,
                out@ == era_weights_of(s@.subrange(0, i as int)),
            decreases n - i,
        {
            let ghost prefix = s@.subrange(0, i as int);
            if s[i].total_stake > 0 {
                out.push(
                    EraValidatorWeight { account: s[i].account, total_stake: s[i].total_stake },
                );
            }
            proof {
                let longer = s@.subrange(0, i + 1 as int);
                assert(longer.drop_last() =~= prefix);
                assert(longer.last() == s@[i as int]);
            }
            i = i + 1;
        }
        proof {
            assert(s@.subrange(0, n as int) =~= s@);
        }
        out
    }

    /// Advances the protocol to the era named in the request: rejects
    /// a non-increasing era id; releases every matured unbonding
    /// entry, in creation order; distributes each reward item, each
    /// item's outcome independent; and writes the new era's validator
    /// set into the append-only history.
    ///
    /// The step is one atomic transition: a rejected request leaves
    /// the engine untouched, and nothing in a step suspends or blocks.
    /// Crediting released funds and reward shares to spendable
    /// balances is the caller's business.
    pub fn step(&mut self, request: StepRequest) -> (r: Result<StepOutcome, LedgerError>)
        requires
            engine_wf(*old(self)),
        ensures
            engine_wf(*final(self)),
            final(self).config == old(self).config,
            final(self).ledger == old(self).ledger,
            match r {
                Err(e) => e == LedgerError::EraRegression && request.next_era_id <= old(
                    self,
                ).current_era && *final(self) == *old(self),
                Ok(outcome) => {
                    &&& request.next_era_id > old(self).current_era
                    &&& final(self).current_era == request.next_era_id
                    &&& outcome.released@ == matured_entries(
                        old(self).unbonding.entries@,
                        request.next_era_id,
                    )
                    &&& final(self).unbonding.entries@ == remaining_entries(
                        old(self).unbonding.entries@,
                        request.next_era_id,
                    )
                    &&& outcome.reward_results@.len() == request.reward_items@.len()
                    &&& forall|i: int|
                        0 <= i < request.reward_items@.len() ==> reward_result_matches(
                            old(self).ledger,
                            request.reward_items@[i],
                            #[trigger] outcome.reward_results@[i],
                        )
                    &&& outcome.era_validators@ == era_weights_of(old(self).ledger.validators@)
                    &&& final(self).era_history@.len() == old(self).era_history@.len() + 1
                    &&& final(self).era_history@.drop_last() == old(self).era_history@
                    &&& final(self).era_history@.last().era_id == request.next_era_id
                    &&& final(self).era_history@.last().validators@ == era_weights_of(
                        old(self).ledger.validators@,
                    )
                },
            },
    {
        if request.next_era_id <= self.current_era {
            return Err(LedgerError::EraRegression);
        }
        let next = request.next_era_id;

        // Release phase: split the queue into matured and pending
        // entries, both in creation order.
        let mut released: Vec<UnbondingEntry> = Vec::new();
        let mut kept: Vec<UnbondingEntry> = Vec::new();
        let n = self.unbonding.entries.len();
        let mut i: usize = 0;
        while i < n
            invariant
                n == self.unbonding.entries@.len(),
                0 <= i <= n,
                released@ == matured_entries(self.unbonding.entries@.subrange(0, i as int), next),
                kept@ == remaining_entries(self.unbonding.entries@.subrange(0, i as int), next),
            decreases n - i,
        {
            let ghost prefix = self.unbonding.entries@.subrange(0, i as int);
            let e = self.unbonding.entries[i];
            if e.release_era <= next {
                released.push(e);
            } else {
                kept.push(e);
            }
            proof {
                let longer = self.unbonding.entries@.subrange(0, i + 1 as int);
                assert(longer =~= prefix.push(e));
                lemma_release_partition_push(prefix, e, next);
            }
            i = i + 1;
        }
        proof {
            assert(self.unbonding.entries@.subrange(0, n as int) =~= self.unbonding.entries@);
        }

        // Reward phase: one independent outcome per item; the ledger
        // itself is not touched.
        let mut reward_results: Vec<Result<RewardDistribution, LedgerError>> = Vec::new();
        let m = request.reward_items.len();
        let mut j: usize = 0;
        while j < m
            invariant
                engine_wf(*self),
                m == request.reward_items@.len(),
                0 <= j <= m,
                reward_results@.len() == j,
                forall|k: int|
                    0 <= k < j ==> reward_result_matches(
                        self.ledger,
                        request.reward_items@[k],
                        #[trigger] reward_results@[k],
                    ),
            decreases m - j,
        {
            let item = request.reward_items[j];
            let res: Result<RewardDistribution, LedgerError> = match self.ledger.find_validator(
                &item.validator,
            ) {
                None => Err(LedgerError::ValidatorNotFound),
                Some(vi) => {
                    proof {
                        assert(validator_wf(self.ledger.validators@[vi as int]));
                    }
                    distribute_reward(&self.ledger.validators[vi], item.amount)
                },
            };
            reward_results.push(res);
            j = j + 1;
        }

        // Validator-set phase: write the new era's weights into the
        // append-only history.
        let era_validators = self.era_validator_weights();
        let history_weights = self.era_validator_weights();
        let ghost old_history = self.era_history@;
        self.unbonding.entries = kept;
        self.era_history.push(EraEntry { era_id: next, validators: history_weights });
        self.current_era = next;
        proof {
            assert(self.era_history@.drop_last() =~= old_history);
        }
        Ok(StepOutcome { released, reward_results, era_validators })
    }

    /// The new era's validator weights in ranking order: by total
    /// stake descending, ties broken by account ascending. Callers
    /// that seat a bounded validator set take a prefix of this
    /// ranking; the ranking holds exactly the weights of
    /// [`Self::era_validator_weights`], reordered.
    pub fn ranked_validator_weights(&self) -> (r: Vec<EraValidatorWeight>)
        ensures
            r@.to_multiset() == era_weights_of(self.ledger.validators@).to_multiset(),
            forall|i: int, j: int| 0 <= i < j < r@.len() ==> !ranks_before(r@[j], r@[i]),
    {
        broadcast use vstd::seq_lib::group_to_multiset_ensures;

        let mut rest = self.era_validator_weights();
        let ghost whole = rest@;
        let mut out: Vec<EraValidatorWeight> = Vec::new();
        while rest.len() > 0
            invariant
                out@.to_multiset().add(rest@.to_multiset()) == whole.to_multiset(),
                forall|i: int, j: int| 0 <= i < j < out@.len() ==> !ranks_before(out@[j], out@[i]),
                forall|i: int, k: int|
                    0 <= i < out@.len() && 0 <= k < rest@.len() ==> !ranks_before(
                        rest@[k],
                        out@[i],
                    ),
            decreases rest@.len(),
        {
            // Find the best-ranked entry still unplaced.
            let n = rest.len();
            let mut m: usize = 0;
            let mut k: usize = 1;
            while k < n
                invariant
                    n == rest@.len(),
                    0 <= m < k <= n,
                    forall|j: int| 0 <= j < k ==> !ranks_before(rest@[j], rest@[m as int]),
                decreases n - k,
            {
                if ranks_before_at(&rest, k, m) {
                    m = k;
                }
                k = k + 1;
            }
            let ghost old_out = out@;
            let ghost old_rest = rest@;
            let w = rest.remove(m);
            out.push(w);
            proof {
                assert(old_rest[m as int] == w);
                assert(old_rest.contains(w));
                vstd::seq_lib::to_multiset_contains(old_rest, w);
                vstd::seq_lib::to_multiset_build(old_out, w);
                vstd::seq_lib::to_multiset_remove(old_rest, m as int);
                assert(old_rest.to_multiset().count(w) > 0);
                assert(out@ == old_out.push(w));
                assert(out@.to_multiset() =~= old_out.to_multiset().insert(w));
                assert(rest@.to_multiset() =~= old_rest.to_multiset().remove(w));
                assert(out@.to_multiset().add(rest@.to_multiset()) =~= old_out.to_multiset().add(
                    old_rest.to_multiset(),
                ));
                assert(forall|k: int|
                    0 <= k < rest@.len() ==> old_rest.contains(#[trigger] rest@[k]));
                assert forall|i: int, k: int|
                    0 <= i < out@.len() && 0 <= k < rest@.len() implies !ranks_before(
                    rest@[k],
                    out@[i],
                ) by {
                    if k < m {
                        assert(rest@[k] == old_rest[k]);
                    } else {
                        assert(rest@[k] == old_rest[k + 1]);
                    }
                    if i < out@.len() - 1 {
                        assert(out@[i] == old_out[i]);
                    } else {
                        assert(out@[i] == old_rest[m as int]);
                    }
                }
                assert forall|i: int, j: int|
                    0 <= i < j < out@.len() implies !ranks_before(out@[j], out@[i]) by {
                    assert(out@[i] == old_out[i]);
                    if j < out@.len() - 1 {
                        assert(out@[j] == old_out[j]);
                    } else {
                        assert(out@[j] == old_rest[m as int]);
                    }
                }
            }
        }
        proof {
            assert forall|x: EraValidatorWeight| rest@.to_multiset().count(x) == 0 by {
                vstd::seq_lib::to_multiset_contains(rest@, x);
                assert(!rest@.contains(x));
            }
            assert(out@.to_multiset() =~= whole.to_multiset());
        }
        out
    }

    /// The lighter-weight housekeeping pass: refreshes each bid's
    /// activity flag — a bid whose total stake has reached zero is
    /// dropped from participation — without advancing the era,
    /// releasing unbonds, or persisting a validator set.
    pub fn run_auction(&mut self)
        requires
            engine_wf(*old(self)),
        ensures
            engine_wf(*final(self)),
            final(self).config == old(self).config,
            final(self).unbonding.entries@ == old(self).unbonding.entries@,
            final(self).era_history@ == old(self).era_history@,
            final(self).current_era == old(self).current_era,
            run_auction_applied(old(self).ledger, final(self).ledger),
    {
        let n = self.ledger.validators.len();
        let mut i: usize = 0;
        while i < n
            invariant
                n == self.ledger.validators@.len(),
                0 <= i <= n,
                forall|k: int|
                    i <= k < n ==> #[trigger] self.ledger.validators@[k] == old(
                        self,
                    ).ledger.validators@[k],
                forall|k: int|
                    0 <= k < i ==> (#[trigger] self.ledger.validators@[k]).account == old(
                        self,
                    ).ledger.validators@[k].account && self.ledger.validators@[k].self_stake
                        == old(self).ledger.validators@[k].self_stake
                        && self.ledger.validators@[k].delegation_rate == old(
                        self,
                    ).ledger.validators@[k].delegation_rate
                        && self.ledger.validators@[k].total_stake == old(
                        self,
                    ).ledger.validators@[k].total_stake && self.ledger.validators@[k].delegators@
                        == old(self).ledger.validators@[k].delegators@
                        && self.ledger.validators@[k].inactive == (old(
                        self,
                    ).ledger.validators@[k].total_stake == 0),
                engine_wf(*old(self)),
                self.config == old(self).config,
                self.unbonding.entries@ == old(self).unbonding.entries@,
                self.era_history@ == old(self).era_history@,
                self.current_era == old(self).current_era,
            decreases n - i,
        {
            let dropped = self.ledger.validators[i].total_stake == 0;
            let vref = &mut self.ledger.validators[i];
            vref.inactive = dropped;
            i = i + 1;
        }
        proof {
            assert forall|p: int, q: int|
                0 <= p < q < self.ledger.validators@.len() implies self.ledger.validators@[p]
                .account.value < self.ledger.validators@[q].account.value by {
                assert(self.ledger.validators@[p].account == old(
                    self,
                ).ledger.validators@[p].account);
                assert(self.ledger.validators@[q].account == old(
                    self,
                ).ledger.validators@[q].account);
            }
            assert forall|k: int| 0 <= k < self.ledger.validators@.len() implies validator_wf(
                #[trigger] self.ledger.validators@[k],
            ) by {
                assert(validator_wf(old(self).ledger.validators@[k]));
            }
        }
    }
}

} // verus!
