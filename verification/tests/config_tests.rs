use staking_ledger::account::AccountHash;
use staking_ledger::config::{
    EngineConfig, EngineConfigBuilder, FeeHandling, RefundHandling, RefundRatio, SystemConfig,
    WasmConfig, DEFAULT_ALLOW_AUCTION_BIDS, DEFAULT_ALLOW_UNRESTRICTED_TRANSFERS,
    DEFAULT_LOCKED_FUNDS_PERIOD_ERAS, DEFAULT_MAX_ASSOCIATED_KEYS, DEFAULT_MAX_QUERY_DEPTH,
    DEFAULT_MAX_RUNTIME_CALL_STACK_HEIGHT, DEFAULT_MINIMUM_DELEGATION_AMOUNT,
    DEFAULT_STRICT_ARGUMENT_CHECKING, DEFAULT_WASMLESS_TRANSFER_COST,
    DEFAULT_WASM_MAX_STACK_HEIGHT,
};
use staking_ledger::error::{LedgerError, LedgerErrorKind};

fn acct(value: u64) -> AccountHash {
    AccountHash { value }
}

#[test]
fn default_config_uses_documented_defaults() {
    let config = EngineConfig::default();
    assert_eq!(config.max_query_depth, DEFAULT_MAX_QUERY_DEPTH);
    assert_eq!(config.max_associated_keys(), DEFAULT_MAX_ASSOCIATED_KEYS);
    assert_eq!(
        config.max_runtime_call_stack_height(),
        DEFAULT_MAX_RUNTIME_CALL_STACK_HEIGHT
    );
    assert_eq!(
        config.minimum_delegation_amount(),
        DEFAULT_MINIMUM_DELEGATION_AMOUNT
    );
    assert_eq!(DEFAULT_MINIMUM_DELEGATION_AMOUNT, 500_000_000_000);
    assert_eq!(
        config.strict_argument_checking(),
        DEFAULT_STRICT_ARGUMENT_CHECKING
    );
    assert!(config.administrative_accounts().is_empty());
    assert_eq!(config.allow_auction_bids(), DEFAULT_ALLOW_AUCTION_BIDS);
    assert_eq!(
        config.allow_unrestricted_transfers(),
        DEFAULT_ALLOW_UNRESTRICTED_TRANSFERS
    );
    match config.refund_handling() {
        RefundHandling::Refund { refund_ratio } => {
            assert_eq!(refund_ratio.numer, 0);
            assert_eq!(refund_ratio.denom, 100);
        }
    }
    assert_eq!(config.fee_handling(), FeeHandling::PayToProposer);
    assert_eq!(
        config.locked_funds_period_in_eras(),
        DEFAULT_LOCKED_FUNDS_PERIOD_ERAS
    );
}

#[test]
fn classic_constructor_defaults_newer_flags() {
    let config = EngineConfig::new(
        9,
        50,
        24,
        1_000,
        true,
        WasmConfig {
            max_stack_height: 500,
        },
        SystemConfig {
            wasmless_transfer_cost: 7,
        },
    );
    assert_eq!(config.max_query_depth, 9);
    assert_eq!(config.max_associated_keys(), 50);
    assert_eq!(config.max_runtime_call_stack_height(), 24);
    assert_eq!(config.minimum_delegation_amount(), 1_000);
    assert!(config.strict_argument_checking());
    assert_eq!(config.wasm_config().max_stack_height, 500);
    assert_eq!(config.system_config().wasmless_transfer_cost, 7);
    assert!(config.administrative_accounts().is_empty());
    assert!(config.allow_auction_bids());
    assert!(config.allow_unrestricted_transfers());
}

#[test]
fn builder_applies_every_override() {
    let config = EngineConfigBuilder::new()
        .with_max_query_depth(11)
        .with_max_associated_keys(3)
        .with_max_runtime_call_stack_height(17)
        .with_wasm_config(WasmConfig {
            max_stack_height: 64,
        })
        .with_system_config(SystemConfig {
            wasmless_transfer_cost: 5,
        })
        .with_minimum_delegation_amount(42)
        .with_strict_argument_checking(true)
        .with_administrative_accounts(vec![acct(8), acct(3), acct(8)])
        .with_allow_auction_bids(false)
        .with_allow_unrestricted_transfers(false)
        .with_refund_handling(RefundHandling::Refund {
            refund_ratio: RefundRatio { numer: 1, denom: 2 },
        })
        .with_fee_handling(FeeHandling::Burn)
        .with_locked_funds_period_in_eras(15)
        .build();
    assert_eq!(config.max_query_depth, 11);
    assert_eq!(config.max_associated_keys(), 3);
    assert_eq!(config.max_runtime_call_stack_height(), 17);
    assert_eq!(config.wasm_config().max_stack_height, 64);
    assert_eq!(config.system_config().wasmless_transfer_cost, 5);
    assert_eq!(config.minimum_delegation_amount(), 42);
    assert!(config.strict_argument_checking());
    // The administrative set comes out sorted and deduplicated.
    assert_eq!(config.administrative_accounts().len(), 2);
    assert_eq!(config.administrative_accounts()[0], acct(3));
    assert_eq!(config.administrative_accounts()[1], acct(8));
    assert!(!config.allow_auction_bids());
    assert!(!config.allow_unrestricted_transfers());
    match config.refund_handling() {
        RefundHandling::Refund { refund_ratio } => {
            assert_eq!(refund_ratio.numer, 1);
            assert_eq!(refund_ratio.denom, 2);
        }
    }
    assert_eq!(config.fee_handling(), FeeHandling::Burn);
    assert_eq!(config.locked_funds_period_in_eras(), 15);
}

#[test]
fn builder_wasm_max_stack_height_shortcut() {
    let config = EngineConfigBuilder::new()
        .with_wasm_max_stack_height(77)
        .build();
    assert_eq!(config.wasm_config().max_stack_height, 77);
    let defaulted = EngineConfigBuilder::new().build();
    assert_eq!(
        defaulted.wasm_config().max_stack_height,
        DEFAULT_WASM_MAX_STACK_HEIGHT
    );
    assert_eq!(
        defaulted.system_config().wasmless_transfer_cost,
        DEFAULT_WASMLESS_TRANSFER_COST
    );
}

#[test]
fn administrator_lookup_is_tri_state() {
    // Feature off: nobody resolves, not even the system account.
    let off = EngineConfig::default();
    assert_eq!(off.is_account_administrator(&acct(1)), None);
    assert_eq!(off.is_account_administrator(&AccountHash::system()), None);

    // Feature on: listed accounts and the system account resolve to
    // present, everyone else to absent.
    let on = EngineConfigBuilder::new()
        .with_administrative_accounts(vec![acct(10), acct(20)])
        .build();
    assert_eq!(on.is_account_administrator(&acct(10)), Some(true));
    assert_eq!(on.is_account_administrator(&acct(20)), Some(true));
    assert_eq!(on.is_account_administrator(&acct(30)), Some(false));
    assert_eq!(
        on.is_account_administrator(&AccountHash::system()),
        Some(true)
    );
}

#[test]
fn transfer_gate_requires_an_administrator_side() {
    let restricted = EngineConfigBuilder::new()
        .with_allow_unrestricted_transfers(false)
        .with_administrative_accounts(vec![acct(10)])
        .build();
    assert_eq!(restricted.validate_transfer(&acct(10), &acct(2)), Ok(()));
    assert_eq!(restricted.validate_transfer(&acct(2), &acct(10)), Ok(()));
    assert_eq!(
        restricted.validate_transfer(&acct(2), &acct(3)),
        Err(LedgerError::UnrestrictedTransfersDisabled)
    );

    let open = EngineConfigBuilder::new().build();
    assert_eq!(open.validate_transfer(&acct(2), &acct(3)), Ok(()));
}

#[test]
fn refund_amount_is_the_truncated_fraction() {
    let half = EngineConfigBuilder::new()
        .with_refund_handling(RefundHandling::Refund {
            refund_ratio: RefundRatio { numer: 1, denom: 2 },
        })
        .build();
    assert_eq!(half.refund_amount(101), 50);
    assert_eq!(half.refund_amount(0), 0);

    let zero = EngineConfigBuilder::new().build();
    assert_eq!(zero.refund_amount(1_000_000), 0);

    let full = EngineConfigBuilder::new()
        .with_refund_handling(RefundHandling::Refund {
            refund_ratio: RefundRatio { numer: 3, denom: 3 },
        })
        .build();
    assert_eq!(full.refund_amount(u64::MAX), u64::MAX);
}

#[test]
fn error_kinds_follow_the_taxonomy() {
    assert_eq!(
        LedgerError::AuctionBidsDisabled.kind(),
        LedgerErrorKind::PolicyViolation
    );
    assert_eq!(
        LedgerError::UnrestrictedTransfersDisabled.kind(),
        LedgerErrorKind::PolicyViolation
    );
    assert_eq!(
        LedgerError::InvalidDelegationRate.kind(),
        LedgerErrorKind::PolicyViolation
    );
    assert_eq!(
        LedgerError::BelowMinimumDelegation.kind(),
        LedgerErrorKind::PolicyViolation
    );
    assert_eq!(
        LedgerError::ValidatorNotFound.kind(),
        LedgerErrorKind::StateViolation
    );
    assert_eq!(
        LedgerError::UndelegateAmountExceedsStake.kind(),
        LedgerErrorKind::StateViolation
    );
    assert_eq!(
        LedgerError::EraRegression.kind(),
        LedgerErrorKind::StateViolation
    );
    assert_eq!(
        LedgerError::ArithmeticOverflow.kind(),
        LedgerErrorKind::ArithmeticViolation
    );
}

#[test]
fn sync_config_defaults_and_getters() {
    let config = staking_ledger::sync_config::Config::default();
    assert_eq!(config.timeout(), 600_000);
    assert_eq!(config.max_parallel_trie_fetches(), 5000);
    assert_eq!(config.peer_refresh_interval(), 90_000);

    let custom = staking_ledger::sync_config::Config::new(1_000, 16, 2_000);
    assert_eq!(custom.timeout(), 1_000);
    assert_eq!(custom.max_parallel_trie_fetches(), 16);
    assert_eq!(custom.peer_refresh_interval(), 2_000);
}
