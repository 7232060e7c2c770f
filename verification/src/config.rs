//! The immutable economic policy bundle of the engine, and its builder.
//!
//! An [`EngineConfig`] is built once, validated eagerly, and then only
//! read for the lifetime of one engine instance; replacing policy means
//! building a new configuration, never mutating one in place. The pure
//! policy predicates (administrator lookup, transfer gating, refund
//! computation) live here as well.

use vstd::prelude::*;

use crate::account::{accounts_sorted, AccountHash};
use crate::error::LedgerError;

verus! {

/// Default value for a maximum query depth configuration option.
pub const DEFAULT_MAX_QUERY_DEPTH: u64 = 5;

/// Default value for maximum associated keys configuration option.
pub const DEFAULT_MAX_ASSOCIATED_KEYS: u32 = 100;

/// Default value for maximum runtime call stack height configuration option.
pub const DEFAULT_MAX_RUNTIME_CALL_STACK_HEIGHT: u32 = 12;

/// Default value for minimum delegation amount in motes.
pub const DEFAULT_MINIMUM_DELEGATION_AMOUNT: u64 = 500 * 1_000_000_000;

/// Default value for strict argument checking.
pub const DEFAULT_STRICT_ARGUMENT_CHECKING: bool = false;

/// Default value for allowing auction bids.
pub const DEFAULT_ALLOW_AUCTION_BIDS: bool = true;

/// Default value for allowing unrestricted transfers.
pub const DEFAULT_ALLOW_UNRESTRICTED_TRANSFERS: bool = true;

/// Default number of eras between an undelegation and the release of
/// its funds.
pub const DEFAULT_LOCKED_FUNDS_PERIOD_ERAS: u64 = 7;

/// Default numerator of the gas cost refund ratio.
pub const DEFAULT_REFUND_RATIO_NUMER: u64 = 0;

/// Default denominator of the gas cost refund ratio.
pub const DEFAULT_REFUND_RATIO_DENOM: u64 = 100;

/// Default maximum height of the wasm execution stack.
pub const DEFAULT_WASM_MAX_STACK_HEIGHT: u32 = 188;

/// Default cost of a wasmless transfer in the system cost table.
pub const DEFAULT_WASMLESS_TRANSFER_COST: u32 = 100_000_000;

/// A non-negative rational held as a plain numerator and denominator.
///
/// The ledger only ever reads the two components and compares the
/// fraction against one, so the ratio is held as plain values here.
#[derive(Clone, Copy, PartialEq, Eq, Structural, Debug)]
pub struct RefundRatio {
    /// The numerator of the fraction.
    pub numer: u64,
    /// The denominator of the fraction.
    pub denom: u64,
}

impl RefundRatio {
    /// True if this is a well-formed proper fraction: a positive
    /// denominator and a value of at most one.
    pub open spec fn is_proper(self) -> bool {
        0 < self.denom && self.numer <= self.denom
    }
}

/// How the unspent portion of a gas payment is handled.
///
/// A closed variant set: every consumption site matches exhaustively,
/// so a new policy variant is a compile-time-checked obligation
/// everywhere it is used.
#[derive(Clone, Copy, PartialEq, Eq, Structural, Debug)]
pub enum RefundHandling {
    /// A fraction of the unspent gas cost is returned to the caller.
    Refund {
        /// The fraction of the unspent gas cost that is returned; must
        /// be a proper fraction.
        refund_ratio: RefundRatio,
    },
}

/// Where the spent portion of a gas payment goes.
///
/// A closed variant set, matched exhaustively wherever it is consumed.
#[derive(Clone, Copy, PartialEq, Eq, Structural, Debug)]
pub enum FeeHandling {
    /// Fees are paid to the proposer of the block that includes the
    /// request.
    PayToProposer,
    /// Fees are burned.
    Burn,
    /// Fees accumulate in a treasury purse.
    Accumulate,
}

/// Configuration of the wasm execution environment.
#[derive(Clone, Copy, PartialEq, Eq, Structural, Debug)]
pub struct WasmConfig {
    /// Maximum height of the wasm execution stack.
    pub max_stack_height: u32,
}

impl Default for WasmConfig {
    /// The default wasm configuration.
    fn default() -> (r: Self)
        ensures
            r.max_stack_height == DEFAULT_WASM_MAX_STACK_HEIGHT,
    {
        WasmConfig { max_stack_height: DEFAULT_WASM_MAX_STACK_HEIGHT }
    }
}

/// Configuration of the costs of system contract calls.
#[derive(Clone, Copy, PartialEq, Eq, Structural, Debug)]
pub struct SystemConfig {
    /// Cost of a wasmless transfer.
    pub wasmless_transfer_cost: u32,
}

impl Default for SystemConfig {
    /// The default system configuration.
    fn default() -> (r: Self)
        ensures
            r.wasmless_transfer_cost == DEFAULT_WASMLESS_TRANSFER_COST,
    {
        SystemConfig { wasmless_transfer_cost: DEFAULT_WASMLESS_TRANSFER_COST }
    }
}

/// True if the sequence holds the given account.
pub open spec fn holds_account(s: Seq<AccountHash>, a: AccountHash) -> bool {
    exists|i: int| 0 <= i < s.len() && s[i] == a
}

/// The runtime configuration of the execution engine.
///
/// Immutable once built. The administrative account set is kept in
/// strictly ascending order so that every iteration over it is
/// deterministic.
#[derive(Clone, Debug)]
pub struct EngineConfig {
    /// Max query depth of the engine.
    pub max_query_depth: u64,
    /// Maximum number of associated keys for a single account.
    pub max_associated_keys: u32,
    /// Maximum height of the runtime call stack.
    pub max_runtime_call_stack_height: u32,
    /// Minimum amount of motes a first-time delegation must reach.
    pub minimum_delegation_amount: u64,
    /// Whether arguments passed to contracts are checked against the
    /// declared types.
    pub strict_argument_checking: bool,
    /// Configuration of the wasm execution environment.
    pub wasm_config: WasmConfig,
    /// Configuration of system contract costs.
    pub system_config: SystemConfig,
    /// A private network specifies a list of administrative accounts,
    /// held in strictly ascending order. When the list is empty,
    /// administrative gating is disabled entirely.
    pub administrative_accounts: Vec<AccountHash>,
    /// Auction entry points such as bidding and delegating are rejected
    /// while this flag is false. It is a network-wide kill switch:
    /// administrators are not exempt.
    pub allow_auction_bids: bool,
    /// Allow unrestricted transfers between normal accounts. If false,
    /// a transfer is permitted only when at least one side is an
    /// administrator.
    pub allow_unrestricted_transfers: bool,
    /// How unspent gas cost is handled.
    pub refund_handling: RefundHandling,
    /// How spent fees are handled.
    pub fee_handling: FeeHandling,
    /// Number of eras between an undelegation and the release of its
    /// funds.
    pub locked_funds_period_in_eras: u64,
}

/// Well-formedness of a configuration: the administrative set is
/// strictly ascending and the refund ratio is a proper fraction. Every
/// constructor establishes this.
pub open spec fn config_wf(c: EngineConfig) -> bool {
    &&& accounts_sorted(c.administrative_accounts@)
    &&& match c.refund_handling {
        RefundHandling::Refund { refund_ratio } => refund_ratio.is_proper(),
    }
}

/// The tri-state answer of the administrator lookup: `None` when no
/// administrators are configured at all (the feature is off), otherwise
/// whether the account is the system account or is listed. Callers must
/// treat `None` distinctly from `Some(false)`: an empty set means the
/// gating is disabled, not that everyone is off-list.
pub open spec fn admin_status(c: EngineConfig, account: AccountHash) -> Option<bool> {
    if c.administrative_accounts@.len() == 0 {
        None
    } else if account.is_system() {
        Some(true)
    } else {
        Some(holds_account(c.administrative_accounts@, account))
    }
}

/// True if a token transfer between the two accounts is permitted:
/// either unrestricted transfers are allowed, or at least one side
/// resolves as an administrator.
pub open spec fn transfer_allowed(c: EngineConfig, from: AccountHash, to: AccountHash) -> bool {
    ||| c.allow_unrestricted_transfers
    ||| admin_status(c, from) == Some(true)
    ||| admin_status(c, to) == Some(true)
}

impl Default for EngineConfig {
    /// The default configuration: every field at its documented
    /// default, no administrators configured.
    fn default() -> (r: Self)
        ensures
            config_wf(r),
            r.max_query_depth == DEFAULT_MAX_QUERY_DEPTH,
            r.max_associated_keys == DEFAULT_MAX_ASSOCIATED_KEYS,
            r.max_runtime_call_stack_height == DEFAULT_MAX_RUNTIME_CALL_STACK_HEIGHT,
            r.minimum_delegation_amount == DEFAULT_MINIMUM_DELEGATION_AMOUNT,
            r.strict_argument_checking == DEFAULT_STRICT_ARGUMENT_CHECKING,
            r.wasm_config.max_stack_height == DEFAULT_WASM_MAX_STACK_HEIGHT,
            r.system_config.wasmless_transfer_cost == DEFAULT_WASMLESS_TRANSFER_COST,
            r.administrative_accounts@.len() == 0,
            r.allow_auction_bids == DEFAULT_ALLOW_AUCTION_BIDS,
            r.allow_unrestricted_transfers == DEFAULT_ALLOW_UNRESTRICTED_TRANSFERS,
            r.refund_handling == (RefundHandling::Refund {
                refund_ratio: RefundRatio {
                    numer: DEFAULT_REFUND_RATIO_NUMER,
                    denom: DEFAULT_REFUND_RATIO_DENOM,
                },
            }),
            r.fee_handling == FeeHandling::PayToProposer,
            r.locked_funds_period_in_eras == DEFAULT_LOCKED_FUNDS_PERIOD_ERAS,
    {
        EngineConfig {
            max_query_depth: DEFAULT_MAX_QUERY_DEPTH,
            max_associated_keys: DEFAULT_MAX_ASSOCIATED_KEYS,
            max_runtime_call_stack_height: DEFAULT_MAX_RUNTIME_CALL_STACK_HEIGHT,
            minimum_delegation_amount: DEFAULT_MINIMUM_DELEGATION_AMOUNT,
            strict_argument_checking: DEFAULT_STRICT_ARGUMENT_CHECKING,
            wasm_config: WasmConfig { max_stack_height: DEFAULT_WASM_MAX_STACK_HEIGHT },
            system_config: SystemConfig { wasmless_transfer_cost: DEFAULT_WASMLESS_TRANSFER_COST },
            administrative_accounts: Vec::new(),
            allow_auction_bids: DEFAULT_ALLOW_AUCTION_BIDS,
            allow_unrestricted_transfers: DEFAULT_ALLOW_UNRESTRICTED_TRANSFERS,
            refund_handling: RefundHandling::Refund {
                refund_ratio: RefundRatio {
                    numer: DEFAULT_REFUND_RATIO_NUMER,
                    denom: DEFAULT_REFUND_RATIO_DENOM,
                },
            },
            fee_handling: FeeHandling::PayToProposer,
            locked_funds_period_in_eras: DEFAULT_LOCKED_FUNDS_PERIOD_ERAS,
        }
    }
}

impl EngineConfig {
    /// Creates a new configuration from the classic argument list; the
    /// newer policy switches take their documented defaults. New code
    /// should prefer [`EngineConfigBuilder`].
    pub fn new(
        max_query_depth: u64,
        max_associated_keys: u32,
        max_runtime_call_stack_height: u32,
        minimum_delegation_amount: u64,
        strict_argument_checking: bool,
        wasm_config: WasmConfig,
        system_config: SystemConfig,
    ) -> (r: EngineConfig)
        ensures
            config_wf(r),
            r.max_query_depth == max_query_depth,
            r.max_associated_keys == max_associated_keys,
            r.max_runtime_call_stack_height == max_runtime_call_stack_height,
            r.minimum_delegation_amount == minimum_delegation_amount,
            r.strict_argument_checking == strict_argument_checking,
            r.wasm_config == wasm_config,
            r.system_config == system_config,
            r.administrative_accounts@.len() == 0,
            r.allow_auction_bids == DEFAULT_ALLOW_AUCTION_BIDS,
            r.allow_unrestricted_transfers == DEFAULT_ALLOW_UNRESTRICTED_TRANSFERS,
            r.refund_handling == (RefundHandling::Refund {
                refund_ratio: RefundRatio {
                    numer: DEFAULT_REFUND_RATIO_NUMER,
                    denom: DEFAULT_REFUND_RATIO_DENOM,
                },
            }),
            r.fee_handling == FeeHandling::PayToProposer,
            r.locked_funds_period_in_eras == DEFAULT_LOCKED_FUNDS_PERIOD_ERAS,
    {
        EngineConfig {
            max_query_depth,
            max_associated_keys,
            max_runtime_call_stack_height,
            minimum_delegation_amount,
            strict_argument_checking,
            wasm_config,
            system_config,
            administrative_accounts: Vec::new(),
            allow_auction_bids: DEFAULT_ALLOW_AUCTION_BIDS,
            allow_unrestricted_transfers: DEFAULT_ALLOW_UNRESTRICTED_TRANSFERS,
            refund_handling: RefundHandling::Refund {
                refund_ratio: RefundRatio {
                    numer: DEFAULT_REFUND_RATIO_NUMER,
                    denom: DEFAULT_REFUND_RATIO_DENOM,
                },
            },
            fee_handling: FeeHandling::PayToProposer,
            locked_funds_period_in_eras: DEFAULT_LOCKED_FUNDS_PERIOD_ERAS,
        }
    }

    /// Returns the current max associated keys config.
    pub fn max_associated_keys(&self) -> (r: u32)
        ensures
            r == self.max_associated_keys,
    {
        self.max_associated_keys
    }

    /// Returns the current max runtime call stack height config.
    pub fn max_runtime_call_stack_height(&self) -> (r: u32)
        ensures
            r == self.max_runtime_call_stack_height,
    {
        self.max_runtime_call_stack_height
    }

    /// Returns the current wasm config.
    pub fn wasm_config(&self) -> (r: &WasmConfig)
        ensures
            r == self.wasm_config,
    {
        &self.wasm_config
    }

    /// Returns the current system config.
    pub fn system_config(&self) -> (r: &SystemConfig)
        ensures
            r == self.system_config,
    {
        &self.system_config
    }

    /// Returns the minimum delegation amount in motes.
    pub fn minimum_delegation_amount(&self) -> (r: u64)
        ensures
            r == self.minimum_delegation_amount,
    {
        self.minimum_delegation_amount
    }

    /// Returns the strict argument checking flag.
    pub fn strict_argument_checking(&self) -> (r: bool)
        ensures
            r == self.strict_argument_checking,
    {
        self.strict_argument_checking
    }

    /// Returns the administrative accounts, in ascending order.
    pub fn administrative_accounts(&self) -> (r: &Vec<AccountHash>)
        ensures
            r == self.administrative_accounts,
    {
        &self.administrative_accounts
    }

    /// Returns the allow auction bids flag.
    pub fn allow_auction_bids(&self) -> (r: bool)
        ensures
            r == self.allow_auction_bids,
    {
        self.allow_auction_bids
    }

    /// Returns the allow unrestricted transfers flag.
    pub fn allow_unrestricted_transfers(&self) -> (r: bool)
        ensures
            r == self.allow_unrestricted_transfers,
    {
        self.allow_unrestricted_transfers
    }

    /// Returns the refund handling policy.
    pub fn refund_handling(&self) -> (r: &RefundHandling)
        ensures
            r == self.refund_handling,
    {
        &self.refund_handling
    }

    /// Returns the fee handling policy.
    pub fn fee_handling(&self) -> (r: FeeHandling)
        ensures
            r == self.fee_handling,
    {
        self.fee_handling
    }

    /// Returns the number of eras between an undelegation and the
    /// release of its funds.
    pub fn locked_funds_period_in_eras(&self) -> (r: u64)
        ensures
            r == self.locked_funds_period_in_eras,
    {
        self.locked_funds_period_in_eras
    }

    /// Checks if an account is an administrator.
    ///
    /// Returns `None` when no administrators are configured at all, so
    /// that callers can tell "the feature is off" from "the account is
    /// off-list". Otherwise the designated system account and every
    /// listed account resolve to `Some(true)`, all others to
    /// `Some(false)`.
    pub fn is_account_administrator(&self, account: &AccountHash) -> (r: Option<bool>)
        ensures
            r == admin_status(*self, *account),
    {
        if self.administrative_accounts.len() == 0 {
            return None;
        }
        if account.value == crate::account::SYSTEM_ACCOUNT_ID {
            return Some(true);
        }
        let n = self.administrative_accounts.len();
        let mut i: usize = 0;
        while i < n
            invariant
                n == self.administrative_accounts@.len(),
                0 <= i <= n,
                forall|k: int| 0 <= k < i ==> self.administrative_accounts@[k] != *account,
            decreases n - i,
        {
            if self.administrative_accounts[i].value == account.value {
                return Some(true);
            }
            i = i + 1;
        }
        Some(false)
    }

    /// The transfer policy gate, consulted before any token movement
    /// between two normal accounts. When unrestricted transfers are
    /// disabled, a transfer is permitted only if at least one side is
    /// an administrator.
    pub fn validate_transfer(
        &self,
        from: &AccountHash,
        to: &AccountHash,
    ) -> (r: Result<(), LedgerError>)
        ensures
            r is Ok <==> transfer_allowed(*self, *from, *to),
            r is Err ==> r == Result::<(), LedgerError>::Err(
                LedgerError::UnrestrictedTransfersDisabled,
            ),
    {
        if self.allow_unrestricted_transfers {
            return Ok(());
        }
        if self.is_account_administrator(from) == Some(true) {
            return Ok(());
        }
        if self.is_account_administrator(to) == Some(true) {
            return Ok(());
        }
        Err(LedgerError::UnrestrictedTransfersDisabled)
    }

    /// The refund owed for an unspent gas cost under the configured
    /// refund handling: the configured fraction of the unspent amount,
    /// truncated toward zero. Never more than the unspent amount
    /// itself.
    pub fn refund_amount(&self, unspent_gas_cost: u64) -> (r: u64)
        requires
            config_wf(*self),
        ensures
            match self.refund_handling {
                RefundHandling::Refund { refund_ratio } => r == (unspent_gas_cost as int
                    * refund_ratio.numer as int) / (refund_ratio.denom as int),
            },
            r <= unspent_gas_cost,
    {
        match self.refund_handling {
            RefundHandling::Refund { refund_ratio } => {
                proof {
                    let u = unspent_gas_cost as int;
                    let n = refund_ratio.numer as int;
                    assert(u * n <= u128::MAX as int) by (nonlinear_arith)
                        requires
                            0 <= u <= u64::MAX as int,
                            0 <= n <= u64::MAX as int,
                    ;
                }
                let wide: u128 = (unspent_gas_cost as u128) * (refund_ratio.numer as u128)
                    / (refund_ratio.denom as u128);
                proof {
                    let u = unspent_gas_cost as int;
                    let n = refund_ratio.numer as int;
                    let d = refund_ratio.denom as int;
                    vstd::arithmetic::mul::lemma_mul_inequality(n, d, u);
                    assert(u * n == n * u && u * d == d * u) by (nonlinear_arith);
                    vstd::arithmetic::div_mod::lemma_div_is_ordered(u * n, u * d, d);
                    vstd::arithmetic::div_mod::lemma_div_multiples_vanish(u, d);
                    assert((u * n) / d <= u);
                }
                wide as u64
            },
        }
    }
}

/// A builder for [`EngineConfig`]: accumulates optional overrides, and
/// `build` resolves every unset field to its documented default.
#[derive(Debug)]
pub struct EngineConfigBuilder {
    /// Override for the max query depth.
    pub max_query_depth: Option<u64>,
    /// Override for the max associated keys.
    pub max_associated_keys: Option<u32>,
    /// Override for the max runtime call stack height.
    pub max_runtime_call_stack_height: Option<u32>,
    /// Override for the wasm configuration.
    pub wasm_config: Option<WasmConfig>,
    /// Override for the system configuration.
    pub system_config: Option<SystemConfig>,
    /// Override for the minimum delegation amount.
    pub minimum_delegation_amount: Option<u64>,
    /// Override for the strict argument checking flag.
    pub strict_argument_checking: Option<bool>,
    /// Override for the administrative account set, in any order.
    pub administrative_accounts: Option<Vec<AccountHash>>,
    /// Override for the allow auction bids flag.
    pub allow_auction_bids: Option<bool>,
    /// Override for the allow unrestricted transfers flag.
    pub allow_unrestricted_transfers: Option<bool>,
    /// Override for the refund handling policy.
    pub refund_handling: Option<RefundHandling>,
    /// Override for the fee handling policy.
    pub fee_handling: Option<FeeHandling>,
    /// Override for the locked funds period.
    pub locked_funds_period_in_eras: Option<u64>,
}

/// True if the builder's refund handling override, if any, holds a
/// proper fraction. Setting an improper fraction is a programmer
/// error, ruled out before construction rather than surfaced at
/// runtime.
pub open spec fn builder_refund_wf(b: EngineConfigBuilder) -> bool {
    match b.refund_handling {
        Some(RefundHandling::Refund { refund_ratio }) => refund_ratio.is_proper(),
        None => true,
    }
}

impl Default for EngineConfigBuilder {
    /// A builder with no overrides set.
    fn default() -> (r: Self)
        ensures
            r.max_query_depth is None,
            r.max_associated_keys is None,
            r.max_runtime_call_stack_height is None,
            r.wasm_config is None,
            r.system_config is None,
            r.minimum_delegation_amount is None,
            r.strict_argument_checking is None,
            r.administrative_accounts is None,
            r.allow_auction_bids is None,
            r.allow_unrestricted_transfers is None,
            r.refund_handling is None,
            r.fee_handling is None,
            r.locked_funds_period_in_eras is None,
    {
        EngineConfigBuilder {
            max_query_depth: None,
            max_associated_keys: None,
            max_runtime_call_stack_height: None,
            wasm_config: None,
            system_config: None,
            minimum_delegation_amount: None,
            strict_argument_checking: None,
            administrative_accounts: None,
            allow_auction_bids: None,
            allow_unrestricted_transfers: None,
            refund_handling: None,
            fee_handling: None,
            locked_funds_period_in_eras: None,
        }
    }
}

impl EngineConfigBuilder {
    /// Creates a builder with no overrides set.
    pub fn new() -> (r: Self)
        ensures
            r.max_query_depth is None,
            r.max_associated_keys is None,
            r.max_runtime_call_stack_height is None,
            r.wasm_config is None,
            r.system_config is None,
            r.minimum_delegation_amount is None,
            r.strict_argument_checking is None,
            r.administrative_accounts is None,
            r.allow_auction_bids is None,
            r.allow_unrestricted_transfers is None,
            r.refund_handling is None,
            r.fee_handling is None,
            r.locked_funds_period_in_eras is None,
    {
        EngineConfigBuilder::default()
    }

    /// Set a max query depth config option.
    pub fn with_max_query_depth(self, max_query_depth: u64) -> (r: Self)
        ensures
            r == (EngineConfigBuilder { max_query_depth: Some(max_query_depth), ..self }),
    {
        EngineConfigBuilder { max_query_depth: Some(max_query_depth), ..self }
    }

    /// Set a max associated keys config option.
    pub fn with_max_associated_keys(self, max_associated_keys: u32) -> (r: Self)
        ensures
            r == (EngineConfigBuilder { max_associated_keys: Some(max_associated_keys), ..self }),
    {
        EngineConfigBuilder { max_associated_keys: Some(max_associated_keys), ..self }
    }

    /// Set a max runtime call stack height option.
    pub fn with_max_runtime_call_stack_height(
        self,
        max_runtime_call_stack_height: u32,
    ) -> (r: Self)
        ensures
            r == (EngineConfigBuilder {
                max_runtime_call_stack_height: Some(max_runtime_call_stack_height),
                ..self
            }),
    {
        EngineConfigBuilder {
            max_runtime_call_stack_height: Some(max_runtime_call_stack_height),
            ..self
        }
    }

    /// Set a new wasm config configuration option.
    pub fn with_wasm_config(self, wasm_config: WasmConfig) -> (r: Self)
        ensures
            r == (EngineConfigBuilder { wasm_config: Some(wasm_config), ..self }),
    {
        EngineConfigBuilder { wasm_config: Some(wasm_config), ..self }
    }

    /// Set a new system config configuration option.
    pub fn with_system_config(self, system_config: SystemConfig) -> (r: Self)
        ensures
            r == (EngineConfigBuilder { system_config: Some(system_config), ..self }),
    {
        EngineConfigBuilder { system_config: Some(system_config), ..self }
    }

    /// Sets the maximum wasm stack height, starting from the default
    /// wasm configuration if none was set yet.
    pub fn with_wasm_max_stack_height(self, wasm_stack_height: u32) -> (r: Self)
        ensures
            r == (EngineConfigBuilder {
                wasm_config: Some(WasmConfig { max_stack_height: wasm_stack_height }),
                ..self
            }),
    {
        EngineConfigBuilder {
            wasm_config: Some(WasmConfig { max_stack_height: wasm_stack_height }),
            ..self
        }
    }

    /// Set a minimum delegation amount config option.
    pub fn with_minimum_delegation_amount(self, minimum_delegation_amount: u64) -> (r: Self)
        ensures
            r == (EngineConfigBuilder {
                minimum_delegation_amount: Some(minimum_delegation_amount),
                ..self
            }),
    {
        EngineConfigBuilder {
            minimum_delegation_amount: Some(minimum_delegation_amount),
            ..self
        }
    }

    /// Set a strict argument checking config option.
    pub fn with_strict_argument_checking(self, strict_argument_checking: bool) -> (r: Self)
        ensures
            r == (EngineConfigBuilder {
                strict_argument_checking: Some(strict_argument_checking),
                ..self
            }),
    {
        EngineConfigBuilder {
            strict_argument_checking: Some(strict_argument_checking),
            ..self
        }
    }

    /// Set the administrative account set, in any order; `build` sorts
    /// and deduplicates it.
    pub fn with_administrative_accounts(self, administrator_accounts: Vec<AccountHash>) -> (r:
        Self)
        ensures
            r == (EngineConfigBuilder {
                administrative_accounts: Some(administrator_accounts),
                ..self
            }),
    {
        EngineConfigBuilder {
            administrative_accounts: Some(administrator_accounts),
            ..self
        }
    }

    /// Set the allow auction bids flag.
    pub fn with_allow_auction_bids(self, allow_auction_bids: bool) -> (r: Self)
        ensures
            r == (EngineConfigBuilder { allow_auction_bids: Some(allow_auction_bids), ..self }),
    {
        EngineConfigBuilder { allow_auction_bids: Some(allow_auction_bids), ..self }
    }

    /// Set the allow unrestricted transfers flag.
    pub fn with_allow_unrestricted_transfers(self, allow_unrestricted_transfers: bool) -> (r: Self)
        ensures
            r == (EngineConfigBuilder {
                allow_unrestricted_transfers: Some(allow_unrestricted_transfers),
                ..self
            }),
    {
        EngineConfigBuilder {
            allow_unrestricted_transfers: Some(allow_unrestricted_transfers),
            ..self
        }
    }

    /// Set the refund handling policy. The refund ratio must be a
    /// proper fraction; anything else is a programmer error, ruled out
    /// here rather than surfaced at runtime.
    pub fn with_refund_handling(self, refund_handling: RefundHandling) -> (r: Self)
        requires
            match refund_handling {
                RefundHandling::Refund { refund_ratio } => refund_ratio.is_proper(),
            },
        ensures
            r == (EngineConfigBuilder { refund_handling: Some(refund_handling), ..self }),
    {
        EngineConfigBuilder { refund_handling: Some(refund_handling), ..self }
    }

    /// Set the fee handling policy.
    pub fn with_fee_handling(self, fee_handling: FeeHandling) -> (r: Self)
        ensures
            r == (EngineConfigBuilder { fee_handling: Some(fee_handling), ..self }),
    {
        EngineConfigBuilder { fee_handling: Some(fee_handling), ..self }
    }

    /// Set the locked funds period, in eras.
    pub fn with_locked_funds_period_in_eras(self, locked_funds_period_in_eras: u64) -> (r: Self)
        ensures
            r == (EngineConfigBuilder {
                locked_funds_period_in_eras: Some(locked_funds_period_in_eras),
                ..self
            }),
    {
        EngineConfigBuilder {
            locked_funds_period_in_eras: Some(locked_funds_period_in_eras),
            ..self
        }
    }

    /// Build the configuration: every unset field resolves to its
    /// documented default, the administrative set is sorted and
    /// deduplicated, and the result is well-formed.
    pub fn build(self) -> (r: EngineConfig)
        requires
            builder_refund_wf(self),
        ensures
            config_wf(r),
            r.max_query_depth == self.max_query_depth.unwrap_or(DEFAULT_MAX_QUERY_DEPTH),
            r.max_associated_keys == self.max_associated_keys.unwrap_or(
                DEFAULT_MAX_ASSOCIATED_KEYS,
            ),
            r.max_runtime_call_stack_height == self.max_runtime_call_stack_height.unwrap_or(
                DEFAULT_MAX_RUNTIME_CALL_STACK_HEIGHT,
            ),
            r.minimum_delegation_amount == self.minimum_delegation_amount.unwrap_or(
                DEFAULT_MINIMUM_DELEGATION_AMOUNT,
            ),
            r.strict_argument_checking == self.strict_argument_checking.unwrap_or(
                DEFAULT_STRICT_ARGUMENT_CHECKING,
            ),
            r.wasm_config == self.wasm_config.unwrap_or(
                WasmConfig { max_stack_height: DEFAULT_WASM_MAX_STACK_HEIGHT },
            ),
            r.system_config == self.system_config.unwrap_or(
                SystemConfig { wasmless_transfer_cost: DEFAULT_WASMLESS_TRANSFER_COST },
            ),
            forall|a: AccountHash|
                holds_account(r.administrative_accounts@, a) <==> match self
                    .administrative_accounts {
                    Some(v) => holds_account(v@, a),
                    None => false,
                },
            r.allow_auction_bids == self.allow_auction_bids.unwrap_or(DEFAULT_ALLOW_AUCTION_BIDS),
            r.allow_unrestricted_transfers == self.allow_unrestricted_transfers.unwrap_or(
                DEFAULT_ALLOW_UNRESTRICTED_TRANSFERS,
            ),
            r.refund_handling == self.refund_handling.unwrap_or(
                RefundHandling::Refund {
                    refund_ratio: RefundRatio {
                        numer: DEFAULT_REFUND_RATIO_NUMER,
                        denom: DEFAULT_REFUND_RATIO_DENOM,
                    },
                },
            ),
            r.fee_handling == self.fee_handling.unwrap_or(FeeHandling::PayToProposer),
            r.locked_funds_period_in_eras == self.locked_funds_period_in_eras.unwrap_or(
                DEFAULT_LOCKED_FUNDS_PERIOD_ERAS,
            ),
    {
        let max_query_depth = self.max_query_depth.unwrap_or(DEFAULT_MAX_QUERY_DEPTH);
        let max_associated_keys = self.max_associated_keys.unwrap_or(DEFAULT_MAX_ASSOCIATED_KEYS);
        let max_runtime_call_stack_height = self.max_runtime_call_stack_height.unwrap_or(
            DEFAULT_MAX_RUNTIME_CALL_STACK_HEIGHT,
        );
        let minimum_delegation_amount = self.minimum_delegation_amount.unwrap_or(
            DEFAULT_MINIMUM_DELEGATION_AMOUNT,
        );
        let strict_argument_checking = self.strict_argument_checking.unwrap_or(
            DEFAULT_STRICT_ARGUMENT_CHECKING,
        );
        let wasm_config = self.wasm_config.unwrap_or(
            WasmConfig { max_stack_height: DEFAULT_WASM_MAX_STACK_HEIGHT },
        );
        let system_config = self.system_config.unwrap_or(
            SystemConfig { wasmless_transfer_cost: DEFAULT_WASMLESS_TRANSFER_COST },
        );
        let administrative_accounts = match self.administrative_accounts {
            Some(accounts) => sorted_account_set(&accounts),
            None => Vec::new(),
        };
        let allow_auction_bids = self.allow_auction_bids.unwrap_or(DEFAULT_ALLOW_AUCTION_BIDS);
        let allow_unrestricted_transfers = self.allow_unrestricted_transfers.unwrap_or(
            DEFAULT_ALLOW_UNRESTRICTED_TRANSFERS,
        );
        let refund_handling = self.refund_handling.unwrap_or(
            RefundHandling::Refund {
                refund_ratio: RefundRatio {
                    numer: DEFAULT_REFUND_RATIO_NUMER,
                    denom: DEFAULT_REFUND_RATIO_DENOM,
                },
            },
        );
        let fee_handling = self.fee_handling.unwrap_or(FeeHandling::PayToProposer);
        let locked_funds_period_in_eras = self.locked_funds_period_in_eras.unwrap_or(
            DEFAULT_LOCKED_FUNDS_PERIOD_ERAS,
        );

        EngineConfig {
            max_query_depth,
            max_associated_keys,
            max_runtime_call_stack_height,
            minimum_delegation_amount,
            strict_argument_checking,
            wasm_config,
            system_config,
            administrative_accounts,
            allow_auction_bids,
            allow_unrestricted_transfers,
            refund_handling,
            fee_handling,
            locked_funds_period_in_eras,
        }
    }
}

/// Inserts an account into a strictly ascending account vector, keeping
/// it strictly ascending; inserting an account already present changes
/// nothing.
fn insert_account_sorted(accounts: &mut Vec<AccountHash>, account: AccountHash)
    requires
        accounts_sorted(old(accounts)@),
    ensures
        accounts_sorted(final(accounts)@),
        forall|a: AccountHash|
            holds_account(final(accounts)@, a) <==> (holds_account(old(accounts)@, a) || a
                == account),
{
    let n = accounts.len();
    let mut i: usize = 0;
    while i < n && accounts[i].value < account.value
        invariant
            n == accounts@.len(),
            0 <= i <= n,
            accounts_sorted(accounts@),
            forall|k: int| 0 <= k < i ==> accounts@[k].value < account.value,
        decreases n - i,
    {
        i = i + 1;
    }
    if i < n && accounts[i].value == account.value {
        // Already present: the set is unchanged.
        assert(accounts@[i as int] == account);
        return ;
    }
    let ghost t = accounts@;
    accounts.insert(i, account);
    proof {
        let s = accounts@;
        t.insert_ensures(i as int, account);
        assert forall|p: int, q: int| 0 <= p < q < s.len() implies s[p].value < s[q].value by {
            if q < i {
                assert(s[p] == t[p] && s[q] == t[q]);
            } else if p < i && q == i {
                assert(s[p] == t[p] && s[q] == account);
            } else if p < i && q > i {
                assert(s[p] == t[p] && s[q] == t[q - 1]);
            } else if p == i {
                assert(s[p] == account && s[q] == t[q - 1]);
            } else {
                assert(s[p] == t[p - 1] && s[q] == t[q - 1]);
            }
        }
        assert forall|a: AccountHash|
            holds_account(s, a) <==> (holds_account(t, a) || a == account) by {
            if holds_account(t, a) {
                let k = choose|k: int| 0 <= k < t.len() && t[k] == a;
                if k < i {
                    assert(s[k] == a);
                } else {
                    assert(s[k + 1] == a);
                }
            }
            if a == account {
                assert(s[i as int] == a);
            }
            if holds_account(s, a) {
                let k = choose|k: int| 0 <= k < s.len() && s[k] == a;
                if k < i {
                    assert(t[k] == a);
                } else if k == i {
                    assert(a == account);
                } else {
                    assert(t[k - 1] == a);
                }
            }
        }
    }
}

/// Sorts and deduplicates a vector of accounts into a strictly
/// ascending account set holding exactly the accounts of the input.
pub fn sorted_account_set(accounts: &Vec<AccountHash>) -> (r: Vec<AccountHash>)
    ensures
        accounts_sorted(r@),
        forall|a: AccountHash| holds_account(r@, a) <==> holds_account(accounts@, a),
{
    let mut out: Vec<AccountHash> = Vec::new();
    let n = accounts.len();
    let mut i: usize = 0;
    while i < n
        invariant
            n == accounts@.len(),
            0 <= i <= n,
            accounts_sorted(out@),
            forall|a: AccountHash|
                holds_account(out@, a) <==> holds_account(accounts@.subrange(0, i as int), a),
        decreases n - i,
    {
        let ghost prefix = accounts@.subrange(0, i as int);
        insert_account_sorted(&mut out, accounts[i]);
        proof {
            let next = accounts@.subrange(0, i + 1 as int);
            assert(next =~= prefix.push(accounts@[i as int]));
            assert forall|a: AccountHash|
                holds_account(next, a) <==> (holds_account(prefix, a) || a
                    == accounts@[i as int]) by {
                if holds_account(next, a) {
                    let k = choose|k: int| 0 <= k < next.len() && next[k] == a;
                    if k < prefix.len() {
                        assert(prefix[k] == a);
                    }
                }
                if holds_account(prefix, a) {
                    let k = choose|k: int| 0 <= k < prefix.len() && prefix[k] == a;
                    assert(next[k] == a);
                }
                if a == accounts@[i as int] {
                    assert(next[next.len() - 1] == a);
                }
            }
        }
        i = i + 1;
    }
    proof {
        assert(accounts@.subrange(0, n as int) =~= accounts@);
    }
    out
}

} // verus!
