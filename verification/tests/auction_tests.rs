use staking_ledger::account::AccountHash;
use staking_ledger::config::EngineConfigBuilder;
use staking_ledger::engine::StakingEngine;
use staking_ledger::error::LedgerError;

fn acct(value: u64) -> AccountHash {
    AccountHash { value }
}

fn engine_with_minimum(minimum: u64) -> StakingEngine {
    StakingEngine::new(
        EngineConfigBuilder::new()
            .with_minimum_delegation_amount(minimum)
            .build(),
    )
}

fn total_stake(engine: &StakingEngine, validator: AccountHash) -> u128 {
    let i = engine
        .ledger
        .find_validator(&validator)
        .expect("validator should exist");
    engine.ledger.validators[i].total_stake
}

#[test]
fn add_bid_creates_and_updates_atomically() {
    let mut engine = engine_with_minimum(10);
    let v = acct(5);
    assert_eq!(engine.add_bid(v, 1_000, 10), Ok(()));
    let i = engine.ledger.find_validator(&v).unwrap();
    assert_eq!(engine.ledger.validators[i].self_stake, 1_000);
    assert_eq!(engine.ledger.validators[i].delegation_rate, 10);
    assert_eq!(engine.ledger.validators[i].total_stake, 1_000);

    // A delegation, then a re-bid: rate and self-stake replaced
    // atomically, the delegation untouched.
    assert_eq!(engine.delegate(acct(9), v, 500), Ok(()));
    assert_eq!(engine.add_bid(v, 2_000, 25), Ok(()));
    let i = engine.ledger.find_validator(&v).unwrap();
    assert_eq!(engine.ledger.validators[i].self_stake, 2_000);
    assert_eq!(engine.ledger.validators[i].delegation_rate, 25);
    assert_eq!(engine.ledger.validators[i].total_stake, 2_500);
    assert_eq!(engine.ledger.validators[i].staked_amount(&acct(9)), 500);
}

#[test]
fn add_bid_rejects_invalid_rate() {
    let mut engine = engine_with_minimum(10);
    assert_eq!(
        engine.add_bid(acct(5), 1_000, 101),
        Err(LedgerError::InvalidDelegationRate)
    );
    assert!(engine.ledger.find_validator(&acct(5)).is_none());
}

#[test]
fn bids_kill_switch_blocks_bidding_and_delegating() {
    let mut engine = StakingEngine::new(
        EngineConfigBuilder::new()
            .with_allow_auction_bids(false)
            .with_administrative_accounts(vec![acct(1)])
            .build(),
    );
    // The switch is network-wide: the administrator account is not
    // exempt either.
    assert_eq!(
        engine.add_bid(acct(1), 1_000, 0),
        Err(LedgerError::AuctionBidsDisabled)
    );
    assert_eq!(
        engine.delegate(acct(1), acct(2), 1_000_000_000_000),
        Err(LedgerError::AuctionBidsDisabled)
    );
}

#[test]
fn first_time_minimum_enforced_but_topups_allowed() {
    let mut engine = engine_with_minimum(1_000);
    let v = acct(5);
    let d = acct(9);
    assert_eq!(engine.add_bid(v, 10_000, 0), Ok(()));

    // Below the minimum with no prior position: rejected.
    assert_eq!(
        engine.delegate(d, v, 999),
        Err(LedgerError::BelowMinimumDelegation)
    );
    // At the minimum: accepted.
    assert_eq!(engine.delegate(d, v, 1_000), Ok(()));
    // The same sub-minimum amount as a top-up: accepted.
    assert_eq!(engine.delegate(d, v, 999), Ok(()));
    let i = engine.ledger.find_validator(&v).unwrap();
    assert_eq!(engine.ledger.validators[i].staked_amount(&d), 1_999);
    assert_eq!(total_stake(&engine, v), 11_999);
}

#[test]
fn delegate_to_unknown_validator_fails() {
    let mut engine = engine_with_minimum(10);
    assert_eq!(
        engine.delegate(acct(9), acct(5), 100),
        Err(LedgerError::ValidatorNotFound)
    );
}

#[test]
fn delegate_overflow_is_an_error_not_a_wrap() {
    let mut engine = engine_with_minimum(0);
    let v = acct(5);
    assert_eq!(engine.add_bid(v, u128::MAX, 0), Ok(()));
    assert_eq!(
        engine.delegate(acct(9), v, 1),
        Err(LedgerError::ArithmeticOverflow)
    );
    // Nothing was applied.
    assert_eq!(total_stake(&engine, v), u128::MAX);
}

#[test]
fn undelegate_checks_position_and_decouples_release() {
    let mut engine = engine_with_minimum(10);
    let v = acct(5);
    let d = acct(9);
    assert_eq!(engine.add_bid(v, 1_000, 0), Ok(()));
    assert_eq!(engine.delegate(d, v, 600), Ok(()));

    assert_eq!(
        engine.undelegate(d, v, 601),
        Err(LedgerError::UndelegateAmountExceedsStake)
    );
    assert_eq!(
        engine.undelegate(d, acct(6), 1),
        Err(LedgerError::ValidatorNotFound)
    );

    // A partial undelegation shrinks the position immediately...
    assert_eq!(engine.undelegate(d, v, 200), Ok(()));
    let i = engine.ledger.find_validator(&v).unwrap();
    assert_eq!(engine.ledger.validators[i].staked_amount(&d), 400);
    assert_eq!(total_stake(&engine, v), 1_400);
    // ...and queues the funds instead of releasing them.
    assert_eq!(engine.unbonding.entries.len(), 1);
    let entry = engine.unbonding.entries[0];
    assert_eq!(entry.account, d);
    assert_eq!(entry.validator, v);
    assert_eq!(entry.amount, 200);
    assert_eq!(entry.era_of_creation, 0);
    assert_eq!(
        entry.release_era,
        staking_ledger::config::DEFAULT_LOCKED_FUNDS_PERIOD_ERAS
    );

    // Undelegating the rest removes the position entirely.
    assert_eq!(engine.undelegate(d, v, 400), Ok(()));
    let i = engine.ledger.find_validator(&v).unwrap();
    assert_eq!(engine.ledger.validators[i].staked_amount(&d), 0);
    assert!(engine.ledger.validators[i].delegators.is_empty());
    assert_eq!(total_stake(&engine, v), 1_000);
    assert_eq!(engine.unbonding.entries.len(), 2);
}

#[test]
fn conservation_over_a_mixed_operation_sequence() {
    let mut engine = engine_with_minimum(10);
    let v = acct(5);
    let d1 = acct(9);
    let d2 = acct(11);
    assert_eq!(engine.add_bid(v, 1_000, 0), Ok(()));

    // Applied operations: +300 +500 -100 +40 -640; rejected ones must
    // not move anything.
    assert_eq!(engine.delegate(d1, v, 300), Ok(()));
    assert_eq!(engine.delegate(d2, v, 500), Ok(()));
    assert_eq!(engine.undelegate(d1, v, 100), Ok(()));
    assert_eq!(
        engine.delegate(acct(13), v, 5),
        Err(LedgerError::BelowMinimumDelegation)
    );
    assert_eq!(engine.delegate(d1, v, 40), Ok(()));
    assert_eq!(
        engine.undelegate(d2, v, 501),
        Err(LedgerError::UndelegateAmountExceedsStake)
    );
    assert_eq!(engine.undelegate(d2, v, 500), Ok(()));
    assert_eq!(engine.undelegate(d1, v, 140), Ok(()));

    // Net applied: 300 + 500 - 100 + 40 - 500 - 140 == 100.
    assert_eq!(total_stake(&engine, v), 1_000 + 100);
    // The validator's record adds up exactly.
    let i = engine.ledger.find_validator(&v).unwrap();
    let record = &engine.ledger.validators[i];
    let delegated: u128 = record.delegators.iter().map(|d| d.amount).sum();
    assert_eq!(record.self_stake + delegated, record.total_stake);
}

#[test]
fn run_auction_drops_zero_stake_bids_from_participation() {
    let mut engine = engine_with_minimum(10);
    assert_eq!(engine.add_bid(acct(1), 0, 0), Ok(()));
    assert_eq!(engine.add_bid(acct(2), 500, 0), Ok(()));
    engine.run_auction();
    let i1 = engine.ledger.find_validator(&acct(1)).unwrap();
    let i2 = engine.ledger.find_validator(&acct(2)).unwrap();
    assert!(engine.ledger.validators[i1].inactive);
    assert!(!engine.ledger.validators[i2].inactive);
    // Housekeeping advances no era and releases nothing.
    assert_eq!(engine.current_era, 0);
    assert!(engine.era_history.is_empty());
}
