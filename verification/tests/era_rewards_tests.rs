use staking_ledger::account::AccountHash;
use staking_ledger::config::EngineConfigBuilder;
use staking_ledger::engine::{ProtocolVersion, RewardItem, StakingEngine, StepRequest};
use staking_ledger::error::LedgerError;
use staking_ledger::ledger::{Delegation, Validator};
use staking_ledger::rewards::distribute_reward;

fn acct(value: u64) -> AccountHash {
    AccountHash { value }
}

fn step_request(next_era_id: u64, reward_items: Vec<RewardItem>) -> StepRequest {
    StepRequest {
        parent_state_hash: 0,
        protocol_version: ProtocolVersion {
            major: 1,
            minor: 0,
            patch: 0,
        },
        next_era_id,
        reward_items,
    }
}

fn plain_validator(account: AccountHash, self_stake: u128, rate: u8) -> Validator {
    Validator {
        account,
        self_stake,
        delegation_rate: rate,
        inactive: false,
        total_stake: self_stake,
        delegators: Vec::new(),
    }
}

fn with_delegators(mut v: Validator, delegators: Vec<Delegation>) -> Validator {
    let delegated: u128 = delegators.iter().map(|d| d.amount).sum();
    v.total_stake = v.self_stake + delegated;
    v.delegators = delegators;
    v
}

#[test]
fn era_ids_must_strictly_increase() {
    let mut engine = StakingEngine::new(EngineConfigBuilder::new().build());
    assert!(matches!(
        engine.step(step_request(0, Vec::new())),
        Err(LedgerError::EraRegression)
    ));
    assert!(engine.step(step_request(3, Vec::new())).is_ok());
    assert!(matches!(
        engine.step(step_request(3, Vec::new())),
        Err(LedgerError::EraRegression)
    ));
    assert!(matches!(
        engine.step(step_request(2, Vec::new())),
        Err(LedgerError::EraRegression)
    ));
    assert!(engine.step(step_request(4, Vec::new())).is_ok());
    assert_eq!(engine.current_era, 4);
    assert_eq!(engine.era_history.len(), 2);
    assert_eq!(engine.era_history[0].era_id, 3);
    assert_eq!(engine.era_history[1].era_id, 4);
}

#[test]
fn era_entry_reflects_stake_at_step_time() {
    let mut engine = StakingEngine::new(
        EngineConfigBuilder::new()
            .with_minimum_delegation_amount(10)
            .build(),
    );
    assert_eq!(engine.add_bid(acct(2), 700, 0), Ok(()));
    assert_eq!(engine.add_bid(acct(1), 900, 0), Ok(()));
    assert_eq!(engine.delegate(acct(9), acct(2), 50), Ok(()));
    let outcome = engine.step(step_request(1, Vec::new())).unwrap();
    // Ascending by account, total stakes exact.
    assert_eq!(outcome.era_validators.len(), 2);
    assert_eq!(outcome.era_validators[0].account, acct(1));
    assert_eq!(outcome.era_validators[0].total_stake, 900);
    assert_eq!(outcome.era_validators[1].account, acct(2));
    assert_eq!(outcome.era_validators[1].total_stake, 750);
    // The history got the same entry.
    assert_eq!(engine.era_history.len(), 1);
    assert_eq!(engine.era_history[0].era_id, 1);
    assert_eq!(engine.era_history[0].validators.len(), 2);
    assert_eq!(engine.era_history[0].validators[1].total_stake, 750);
}

#[test]
fn ranking_orders_by_stake_then_account() {
    let mut engine = StakingEngine::new(
        EngineConfigBuilder::new()
            .with_minimum_delegation_amount(10)
            .build(),
    );
    assert_eq!(engine.add_bid(acct(7), 500, 0), Ok(()));
    assert_eq!(engine.add_bid(acct(3), 900, 0), Ok(()));
    assert_eq!(engine.add_bid(acct(5), 500, 0), Ok(()));
    assert_eq!(engine.add_bid(acct(9), 0, 0), Ok(()));
    let ranked = engine.ranked_validator_weights();
    // Stake descending; the two equal stakes tie-broken by account
    // ascending; the zero-stake bid is not in the era set at all.
    assert_eq!(ranked.len(), 3);
    assert_eq!(ranked[0].account, acct(3));
    assert_eq!(ranked[1].account, acct(5));
    assert_eq!(ranked[2].account, acct(7));
}

#[test]
fn locked_funds_released_only_at_the_boundary() {
    let mut engine = StakingEngine::new(
        EngineConfigBuilder::new()
            .with_minimum_delegation_amount(10)
            .with_locked_funds_period_in_eras(4)
            .build(),
    );
    assert_eq!(engine.add_bid(acct(5), 1_000, 0), Ok(()));
    assert_eq!(engine.delegate(acct(9), acct(5), 600), Ok(()));
    assert_eq!(engine.undelegate(acct(9), acct(5), 600), Ok(()));
    // Created at era 0, locked for 4 eras: released no earlier than 4.
    assert_eq!(engine.unbonding.entries[0].release_era, 4);

    let early = engine.step(step_request(3, Vec::new())).unwrap();
    assert!(early.released.is_empty());
    assert_eq!(engine.unbonding.entries.len(), 1);

    let at_boundary = engine.step(step_request(4, Vec::new())).unwrap();
    assert_eq!(at_boundary.released.len(), 1);
    assert_eq!(at_boundary.released[0].account, acct(9));
    assert_eq!(at_boundary.released[0].amount, 600);
    assert!(engine.unbonding.entries.is_empty());

    // Released once: a later step finds nothing left.
    let after = engine.step(step_request(5, Vec::new())).unwrap();
    assert!(after.released.is_empty());
}

#[test]
fn releases_come_out_in_creation_order() {
    let mut engine = StakingEngine::new(
        EngineConfigBuilder::new()
            .with_minimum_delegation_amount(1)
            .with_locked_funds_period_in_eras(1)
            .build(),
    );
    assert_eq!(engine.add_bid(acct(5), 1_000, 0), Ok(()));
    assert_eq!(engine.delegate(acct(9), acct(5), 300), Ok(()));
    assert_eq!(engine.undelegate(acct(9), acct(5), 100), Ok(()));
    assert_eq!(engine.undelegate(acct(9), acct(5), 150), Ok(()));
    assert_eq!(engine.undelegate(acct(9), acct(5), 50), Ok(()));
    let outcome = engine.step(step_request(1, Vec::new())).unwrap();
    let amounts: Vec<u128> = outcome.released.iter().map(|e| e.amount).collect();
    assert_eq!(amounts, vec![100, 150, 50]);
}

#[test]
fn reward_split_is_proportional_and_exact() {
    // total 1000 = 400 self + 250 + 350, rate 10%: delegators keep 90%
    // of their proportional share, truncated; remainder to validator.
    let v = with_delegators(
        plain_validator(acct(1), 400, 10),
        vec![
            Delegation {
                delegator: acct(2),
                amount: 250,
            },
            Delegation {
                delegator: acct(3),
                amount: 350,
            },
        ],
    );
    let dist = distribute_reward(&v, 1_000).unwrap();
    assert_eq!(dist.delegator_shares.len(), 2);
    assert_eq!(dist.delegator_shares[0].account, acct(2));
    assert_eq!(dist.delegator_shares[0].amount, 225); // 1000*250*90/100000
    assert_eq!(dist.delegator_shares[1].account, acct(3));
    assert_eq!(dist.delegator_shares[1].amount, 315); // 1000*350*90/100000
    assert_eq!(dist.validator_share, 460);
    assert_eq!(dist.validator_share + 225 + 315, 1_000);
}

#[test]
fn reward_truncation_remainder_accrues_to_the_validator() {
    // 7 motes over three equal stakes at rate 0: each delegator gets
    // floor(7/3) == 2, the validator keeps its own share plus the
    // remainder.
    let v = with_delegators(
        plain_validator(acct(1), 1, 0),
        vec![
            Delegation {
                delegator: acct(2),
                amount: 1,
            },
            Delegation {
                delegator: acct(3),
                amount: 1,
            },
        ],
    );
    let dist = distribute_reward(&v, 7).unwrap();
    assert_eq!(dist.delegator_shares[0].amount, 2);
    assert_eq!(dist.delegator_shares[1].amount, 2);
    assert_eq!(dist.validator_share, 3);
}

#[test]
fn reward_with_no_delegators_goes_fully_to_the_validator() {
    let v = plain_validator(acct(1), 500, 0);
    let dist = distribute_reward(&v, 12_345).unwrap();
    assert!(dist.delegator_shares.is_empty());
    assert_eq!(dist.validator_share, 12_345);
}

#[test]
fn reward_at_full_rate_leaves_delegators_nothing() {
    let v = with_delegators(
        plain_validator(acct(1), 100, 100),
        vec![Delegation {
            delegator: acct(2),
            amount: 900,
        }],
    );
    let dist = distribute_reward(&v, 1_000).unwrap();
    assert_eq!(dist.delegator_shares.len(), 1);
    assert_eq!(dist.delegator_shares[0].amount, 0);
    assert_eq!(dist.validator_share, 1_000);
}

#[test]
fn reward_overflow_is_an_error_not_a_wrap() {
    let v = with_delegators(
        plain_validator(acct(1), 0, 0),
        vec![Delegation {
            delegator: acct(2),
            amount: 2,
        }],
    );
    assert_eq!(
        distribute_reward(&v, u128::MAX),
        Err(LedgerError::ArithmeticOverflow)
    );
    // A denominator that cannot be scaled by one hundred fails too.
    let big = with_delegators(
        plain_validator(acct(1), 0, 0),
        vec![Delegation {
            delegator: acct(2),
            amount: u128::MAX,
        }],
    );
    assert_eq!(
        distribute_reward(&big, 1),
        Err(LedgerError::ArithmeticOverflow)
    );
}

#[test]
fn reward_items_fail_independently_within_a_step() {
    let mut engine = StakingEngine::new(
        EngineConfigBuilder::new()
            .with_minimum_delegation_amount(10)
            .build(),
    );
    assert_eq!(engine.add_bid(acct(1), 1_000, 0), Ok(()));
    let outcome = engine
        .step(step_request(
            1,
            vec![
                RewardItem {
                    validator: acct(7),
                    amount: 500,
                },
                RewardItem {
                    validator: acct(1),
                    amount: 500,
                },
            ],
        ))
        .unwrap();
    assert_eq!(outcome.reward_results.len(), 2);
    assert_eq!(
        outcome.reward_results[0],
        Err(LedgerError::ValidatorNotFound)
    );
    let dist = outcome.reward_results[1].as_ref().unwrap();
    assert_eq!(dist.validator_share, 500);
}

#[test]
fn should_run_ee_1152_regression_test() {
    // Two validators bid with equal stake and zero delegation rate; a
    // delegator delegates 1,234,567 motes to the first, undelegates in
    // full before the locked-funds period elapses, and the stake must
    // be gone from the era entries immediately — while the funds wait
    // out the lock and are released exactly once at the boundary.
    let bid_stake: u128 = 1_000_000_000;
    let delegated: u128 = 1_234_567;
    let mut engine = StakingEngine::new(
        EngineConfigBuilder::new()
            .with_minimum_delegation_amount(1_000_000)
            .with_locked_funds_period_in_eras(4)
            .build(),
    );
    let validator_a = acct(1);
    let validator_b = acct(2);
    let delegator = acct(9);
    assert_eq!(engine.add_bid(validator_a, bid_stake, 0), Ok(()));
    assert_eq!(engine.add_bid(validator_b, bid_stake, 0), Ok(()));
    assert_eq!(engine.delegate(delegator, validator_a, delegated), Ok(()));
    assert_eq!(engine.undelegate(delegator, validator_a, delegated), Ok(()));

    // Three steps inside the lock window: the delegated stake is
    // absent from the era entries and nothing is released.
    for era in 1..=3u64 {
        let outcome = engine.step(step_request(era, Vec::new())).unwrap();
        assert!(outcome.released.is_empty());
        assert_eq!(outcome.era_validators.len(), 2);
        assert_eq!(outcome.era_validators[0].account, validator_a);
        assert_eq!(outcome.era_validators[0].total_stake, bid_stake);
        assert_eq!(outcome.era_validators[1].account, validator_b);
        assert_eq!(outcome.era_validators[1].total_stake, bid_stake);
    }

    // The fourth step crosses the boundary: the funds come out, once
    // and exactly, and reward distribution proceeds without error.
    let outcome = engine
        .step(step_request(
            4,
            vec![RewardItem {
                validator: validator_a,
                amount: 1_000_000,
            }],
        ))
        .unwrap();
    let last = outcome.released.last().expect("should have last element");
    assert_eq!(last.account, delegator);
    assert_eq!(last.amount, delegated);
    assert_eq!(outcome.released.len(), 1);
    assert!(engine.unbonding.entries.is_empty());
    let dist = outcome.reward_results[0].as_ref().unwrap();
    assert_eq!(dist.validator_share, 1_000_000);
}
