//! The staking ledger: the authoritative record of validators, their
//! self-stake, their delegators, and their delegation rates.
//!
//! The ledger is an ordered map from validator account to validator
//! record, and each record holds an ordered map from delegator account
//! to staked amount; both are kept strictly ascending by account so
//! that every iteration, and with it every consensus-relevant output,
//! is deterministic. A validator's `total_stake` is maintained as the
//! exact sum of its self-stake and all of its delegations; every
//! mutation states precisely how it moves stake, so no operation can
//! create or destroy stake unaccounted.

use vstd::prelude::*;

use crate::account::AccountHash;

verus! {

/// A single delegator's position with one validator, in motes.
#[derive(Clone, Copy, PartialEq, Eq, Structural, Debug)]
pub struct Delegation {
    /// The delegating account.
    pub delegator: AccountHash,
    /// The staked amount, in motes.
    pub amount: u128,
}

/// The sum of the staked amounts of a sequence of delegations.
pub open spec fn sum_delegations(s: Seq<Delegation>) -> int
    decreases s.len(),
{
    if s.len() == 0 {
        0
    } else {
        sum_delegations(s.drop_last()) + s.last().amount
    }
}

/// The sum of delegations is never negative.
pub proof fn lemma_sum_nonneg(s: Seq<Delegation>)
    ensures
        sum_delegations(s) >= 0,
    decreases s.len(),
{
    if s.len() > 0 {
        lemma_sum_nonneg(s.drop_last());
    }
}

/// Each delegation is bounded by the sum of all of them.
pub proof fn lemma_sum_element(s: Seq<Delegation>, i: int)
    requires
        0 <= i < s.len(),
    ensures
        s[i].amount <= sum_delegations(s),
    decreases s.len(),
{
    lemma_sum_nonneg(s.drop_last());
    if i < s.len() - 1 {
        lemma_sum_element(s.drop_last(), i);
    }
}

/// Splitting a concatenation splits the sum.
pub proof fn lemma_sum_concat(a: Seq<Delegation>, b: Seq<Delegation>)
    ensures
        sum_delegations(a + b) == sum_delegations(a) + sum_delegations(b),
    decreases b.len(),
{
    if b.len() == 0 {
        assert(a + b =~= a);
    } else {
        assert((a + b).drop_last() =~= a + b.drop_last());
        lemma_sum_concat(a, b.drop_last());
    }
}

/// A prefix never sums to more than the whole sequence.
pub proof fn lemma_sum_prefix(s: Seq<Delegation>, i: int)
    requires
        0 <= i <= s.len(),
    ensures
        sum_delegations(s.subrange(0, i)) <= sum_delegations(s),
{
    assert(s =~= s.subrange(0, i) + s.subrange(i, s.len() as int));
    lemma_sum_concat(s.subrange(0, i), s.subrange(i, s.len() as int));
    lemma_sum_nonneg(s.subrange(i, s.len() as int));
}

/// Replacing one delegation adjusts the sum by the difference.
pub proof fn lemma_sum_update(s: Seq<Delegation>, i: int, d: Delegation)
    requires
        0 <= i < s.len(),
    ensures
        sum_delegations(s.update(i, d)) == sum_delegations(s) - s[i].amount + d.amount,
    decreases s.len(),
{
    let t = s.update(i, d);
    if i == s.len() - 1 {
        assert(t.drop_last() =~= s.drop_last());
        assert(t.last() == d);
    } else {
        assert(t.drop_last() =~= s.drop_last().update(i, d));
        assert(t.last() == s.last());
        lemma_sum_update(s.drop_last(), i, d);
    }
}

/// Inserting a delegation adds its amount to the sum.
pub proof fn lemma_sum_insert(s: Seq<Delegation>, i: int, d: Delegation)
    requires
        0 <= i <= s.len(),
    ensures
        sum_delegations(s.insert(i, d)) == sum_delegations(s) + d.amount,
    decreases s.len(),
{
    let t = s.insert(i, d);
    s.insert_ensures(i, d);
    if i == s.len() {
        assert(t.drop_last() =~= s);
        assert(t.last() == d);
    } else {
        assert(t.drop_last() =~= s.drop_last().insert(i, d));
        assert(t.last() == s.last());
        lemma_sum_insert(s.drop_last(), i, d);
    }
}

/// Removing a delegation subtracts its amount from the sum.
pub proof fn lemma_sum_remove(s: Seq<Delegation>, i: int)
    requires
        0 <= i < s.len(),
    ensures
        sum_delegations(s.remove(i)) == sum_delegations(s) - s[i].amount,
    decreases s.len(),
{
    let t = s.remove(i);
    s.remove_ensures(i);
    if i == s.len() - 1 {
        assert(t =~= s.drop_last());
    } else {
        assert(t.drop_last() =~= s.drop_last().remove(i));
        assert(t.last() == s.last());
        lemma_sum_remove(s.drop_last(), i);
    }
}

/// True if the delegations are strictly ascending by delegator, the
/// canonical shape of an ordered delegator map.
pub open spec fn delegators_sorted(s: Seq<Delegation>) -> bool {
    forall|i: int, j: int|
        0 <= i < j < s.len() ==> s[i].delegator.value < s[j].delegator.value
}

/// True if some delegation of `s` belongs to `d`.
pub open spec fn has_delegation(s: Seq<Delegation>, d: AccountHash) -> bool {
    exists|i: int| 0 <= i < s.len() && s[i].delegator == d
}

/// The index of `d`'s delegation in `s` (meaningful only when present).
pub open spec fn delegation_index(s: Seq<Delegation>, d: AccountHash) -> int {
    choose|i: int| 0 <= i < s.len() && s[i].delegator == d
}

/// The amount `d` has staked in `s`: zero when `d` has no delegation.
pub open spec fn delegation_amount(s: Seq<Delegation>, d: AccountHash) -> int {
    if has_delegation(s, d) {
        s[delegation_index(s, d)].amount as int
    } else {
        0
    }
}

/// In a sorted delegator map, the delegation at any index is the one
/// and only delegation of its delegator.
pub proof fn lemma_delegation_at(s: Seq<Delegation>, i: int)
    requires
        delegators_sorted(s),
        0 <= i < s.len(),
    ensures
        has_delegation(s, s[i].delegator),
        delegation_index(s, s[i].delegator) == i,
        delegation_amount(s, s[i].delegator) == s[i].amount,
{
    assert(has_delegation(s, s[i].delegator));
    let j = delegation_index(s, s[i].delegator);
    assert(0 <= j < s.len() && s[j].delegator == s[i].delegator);
    if j < i {
        assert(s[j].delegator.value < s[i].delegator.value);
    } else if j > i {
        assert(s[i].delegator.value < s[j].delegator.value);
    }
}

/// A validator's record in the ledger: its bid (self-stake, delegation
/// rate, activity flag) together with its ordered delegator map and
/// the maintained total stake.
#[derive(Clone, Debug)]
pub struct Validator {
    /// The validator's account.
    pub account: AccountHash,
    /// The validator's own bonded stake, in motes.
    pub self_stake: u128,
    /// The validator's cut of delegator rewards, in percent; at most
    /// one hundred. Zero means full reward passthrough.
    pub delegation_rate: u8,
    /// True once housekeeping has marked this bid as dropped from
    /// participation (its total stake reached zero).
    pub inactive: bool,
    /// The validator's total stake: exactly its self-stake plus the
    /// sum of all delegations.
    pub total_stake: u128,
    /// The delegator map, strictly ascending by delegator account.
    pub delegators: Vec<Delegation>,
}

/// Well-formedness of a validator record: the rate is a percentage,
/// the delegator map is sorted, and the total is exact.
pub open spec fn validator_wf(v: Validator) -> bool {
    &&& v.delegation_rate <= 100
    &&& delegators_sorted(v.delegators@)
    &&& v.total_stake == v.self_stake + sum_delegations(v.delegators@)
}

impl Validator {
    /// The amount `delegator` currently has staked with this
    /// validator; zero if it has no position.
    pub open spec fn delegator_stake(self, delegator: AccountHash) -> int {
        delegation_amount(self.delegators@, delegator)
    }

    /// Returns the first position whose delegator is not below
    /// `delegator`: the place where `delegator`'s entry is or would be.
    fn delegation_position(&self, delegator: &AccountHash) -> (p: usize)
        requires
            delegators_sorted(self.delegators@),
        ensures
            p <= self.delegators@.len(),
            forall|k: int| 0 <= k < p ==> self.delegators@[k].delegator.value < delegator.value,
            p < self.delegators@.len() ==> self.delegators@[p as int].delegator.value
                >= delegator.value,
    {
        let n = self.delegators.len();
        let mut p: usize = 0;
        while p < n && self.delegators[p].delegator.value < delegator.value
            invariant
                n == self.delegators@.len(),
                0 <= p <= n,
                forall|k: int| 0 <= k < p ==> self.delegators@[k].delegator.value < delegator.value,
            decreases n - p,
        {
            p = p + 1;
        }
        p
    }

    /// The amount `delegator` currently has staked with this
    /// validator; zero if it has no position.
    pub fn staked_amount(&self, delegator: &AccountHash) -> (r: u128)
        requires
            delegators_sorted(self.delegators@),
        ensures
            r == self.delegator_stake(*delegator),
    {
        let p = self.delegation_position(delegator);
        if p < self.delegators.len() && self.delegators[p].delegator.value == delegator.value {
            proof {
                assert(self.delegators@[p as int].delegator == *delegator);
                lemma_delegation_at(self.delegators@, p as int);
            }
            self.delegators[p].amount
        } else {
            proof {
                if has_delegation(self.delegators@, *delegator) {
                    let k = delegation_index(self.delegators@, *delegator);
                    assert(self.delegators@[k].delegator == *delegator);
                    if k < p {
                        assert(self.delegators@[k].delegator.value < delegator.value);
                    }
                }
            }
            0
        }
    }

    /// Adds `amount` to `delegator`'s position, creating the position
    /// if there is none, and grows the total stake by the same amount.
    /// No other position changes.
    pub fn credit_delegation(&mut self, delegator: AccountHash, amount: u128)
        requires
            validator_wf(*old(self)),
            old(self).total_stake + amount <= u128::MAX,
        ensures
            validator_wf(*final(self)),
            final(self).account == old(self).account,
            final(self).self_stake == old(self).self_stake,
            final(self).delegation_rate == old(self).delegation_rate,
            final(self).inactive == old(self).inactive,
            final(self).total_stake == old(self).total_stake + amount,
            has_delegation(final(self).delegators@, delegator),
            final(self).delegator_stake(delegator) == old(self).delegator_stake(delegator)
                + amount,
            forall|x: AccountHash|
                x != delegator ==> #[trigger] final(self).delegator_stake(x) == old(
                    self,
                ).delegator_stake(x),
            forall|x: AccountHash|
                x != delegator ==> (has_delegation(final(self).delegators@, x) <==> has_delegation(
                    old(self).delegators@,
                    x,
                )),
    {
        let ghost s = self.delegators@;
        let p = self.delegation_position(&delegator);
        if p < self.delegators.len() && self.delegators[p].delegator.value == delegator.value {
            // Existing position: top it up in place.
            proof {
                assert(s[p as int].delegator == delegator);
                lemma_delegation_at(s, p as int);
                lemma_sum_element(s, p as int);
            }
            let cur = self.delegators[p].amount;
            self.delegators[p] = Delegation { delegator, amount: cur + amount };
            self.total_stake = self.total_stake + amount;
            proof {
                let t = self.delegators@;
                let nd = Delegation { delegator, amount: (cur + amount) as u128 };
                assert(t =~= s.update(p as int, nd));
                lemma_sum_update(s, p as int, nd);
                assert(delegators_sorted(t));
                lemma_delegation_at(t, p as int);
                assert forall|x: AccountHash| x != delegator implies delegation_amount(t, x)
                    == delegation_amount(s, x) && (has_delegation(t, x) <==> has_delegation(
                    s,
                    x,
                )) by {
                    if has_delegation(s, x) {
                        let k = delegation_index(s, x);
                        assert(s[k].delegator == x);
                        assert(k != p);
                        assert(t[k] == s[k]);
                        lemma_delegation_at(s, k);
                        lemma_delegation_at(t, k);
                    }
                    if has_delegation(t, x) {
                        let k = delegation_index(t, x);
                        assert(t[k].delegator == x);
                        assert(k != p);
                        assert(s[k] == t[k]);
                        lemma_delegation_at(s, k);
                    }
                }
            }
        } else {
            // New position: insert it at its sorted place.
            proof {
                if has_delegation(s, delegator) {
                    let k = delegation_index(s, delegator);
                    assert(s[k].delegator == delegator);
                    if k < p {
                        assert(s[k].delegator.value < delegator.value);
                    }
                }
                assert(!has_delegation(s, delegator));
            }
            let nd = Delegation { delegator, amount };
            self.delegators.insert(p, nd);
            self.total_stake = self.total_stake + amount;
            proof {
                let t = self.delegators@;
                s.insert_ensures(p as int, nd);
                lemma_sum_insert(s, p as int, nd);
                assert forall|i: int, j: int| 0 <= i < j < t.len() implies t[i].delegator.value
                    < t[j].delegator.value by {
                    if j < p {
                        assert(t[i] == s[i] && t[j] == s[j]);
                    } else if i < p && j == p {
                        assert(t[i] == s[i] && t[j] == nd);
                    } else if i < p && j > p {
                        assert(t[i] == s[i] && t[j] == s[j - 1]);
                        assert(s[j - 1].delegator.value >= delegator.value);
                        assert(s[j - 1].delegator != delegator);
                    } else if i == p {
                        assert(t[i] == nd && t[j] == s[j - 1]);
                        assert(s[j - 1].delegator.value >= delegator.value);
                        assert(s[j - 1].delegator != delegator);
                    } else {
                        assert(t[i] == s[i - 1] && t[j] == s[j - 1]);
                    }
                }
                lemma_delegation_at(t, p as int);
                assert forall|x: AccountHash| x != delegator implies delegation_amount(t, x)
                    == delegation_amount(s, x) && (has_delegation(t, x) <==> has_delegation(
                    s,
                    x,
                )) by {
                    if has_delegation(s, x) {
                        let k = delegation_index(s, x);
                        assert(s[k].delegator == x);
                        lemma_delegation_at(s, k);
                        if k < p {
                            assert(t[k] == s[k]);
                            lemma_delegation_at(t, k);
                        } else {
                            assert(t[k + 1] == s[k]);
                            lemma_delegation_at(t, k + 1);
                        }
                    }
                    if has_delegation(t, x) {
                        let k = delegation_index(t, x);
                        assert(t[k].delegator == x);
                        if k < p {
                            assert(s[k] == t[k]);
                            assert(has_delegation(s, x));
                        } else if k == p {
                            assert(t[k] == nd);
                        } else {
                            assert(s[k - 1] == t[k]);
                            assert(has_delegation(s, x));
                        }
                    }
                }
            }
        }
    }

    /// Removes `amount` from `delegator`'s position and shrinks the
    /// total stake by the same amount; a position that reaches zero is
    /// removed from the map. No other position changes.
    pub fn debit_delegation(&mut self, delegator: AccountHash, amount: u128)
        requires
            validator_wf(*old(self)),
            amount <= old(self).delegator_stake(delegator),
        ensures
            validator_wf(*final(self)),
            final(self).account == old(self).account,
            final(self).self_stake == old(self).self_stake,
            final(self).delegation_rate == old(self).delegation_rate,
            final(self).inactive == old(self).inactive,
            final(self).total_stake == old(self).total_stake - amount,
            final(self).delegator_stake(delegator) == old(self).delegator_stake(delegator)
                - amount,
            has_delegation(final(self).delegators@, delegator) <==> old(self).delegator_stake(
                delegator,
            ) - amount > 0,
            forall|x: AccountHash|
                x != delegator ==> #[trigger] final(self).delegator_stake(x) == old(
                    self,
                ).delegator_stake(x),
            forall|x: AccountHash|
                x != delegator ==> (has_delegation(final(self).delegators@, x) <==> has_delegation(
                    old(self).delegators@,
                    x,
                )),
    {
        let ghost s = self.delegators@;
        let p = self.delegation_position(&delegator);
        if p < self.delegators.len() && self.delegators[p].delegator.value == delegator.value {
            proof {
                assert(s[p as int].delegator == delegator);
                lemma_delegation_at(s, p as int);
                lemma_sum_element(s, p as int);
            }
            let cur = self.delegators[p].amount;
            if amount == cur {
                // The position reaches zero: drop the entry.
                self.delegators.remove(p);
                self.total_stake = self.total_stake - amount;
                proof {
                    let t = self.delegators@;
                    s.remove_ensures(p as int);
                    assert(t =~= s.remove(p as int));
                    lemma_sum_remove(s, p as int);
                    assert forall|i: int, j: int| 0 <= i < j < t.len() implies t[i].delegator.value
                        < t[j].delegator.value by {
                        if j < p {
                        } else if i < p {
                            assert(t[i] == s[i] && t[j] == s[j + 1]);
                        } else {
                            assert(t[i] == s[i + 1] && t[j] == s[j + 1]);
                        }
                    }
                    assert forall|x: AccountHash| x != delegator implies delegation_amount(t, x)
                        == delegation_amount(s, x) && (has_delegation(t, x)
                        <==> has_delegation(s, x)) by {
                        if has_delegation(s, x) {
                            let k = delegation_index(s, x);
                            assert(s[k].delegator == x);
                            lemma_delegation_at(s, k);
                            if k < p {
                                assert(t[k] == s[k]);
                                lemma_delegation_at(t, k);
                            } else {
                                assert(k > p);
                                assert(t[k - 1] == s[k]);
                                lemma_delegation_at(t, k - 1);
                            }
                        }
                        if has_delegation(t, x) {
                            let k = delegation_index(t, x);
                            assert(t[k].delegator == x);
                            if k < p {
                                assert(s[k] == t[k]);
                                assert(has_delegation(s, x));
                            } else {
                                assert(s[k + 1] == t[k]);
                                assert(has_delegation(s, x));
                            }
                        }
                    }
                    if has_delegation(t, delegator) {
                        let k = delegation_index(t, delegator);
                        assert(t[k].delegator == delegator);
                        if k < p {
                            assert(s[k].delegator.value < delegator.value);
                        } else {
                            assert(s[k + 1] == t[k]);
                            lemma_delegation_at(s, k + 1);
                        }
                    }
                }
            } else {
                // Partial withdrawal: shrink the entry in place.
                let nd = Delegation { delegator, amount: cur - amount };
                self.delegators[p] = nd;
                self.total_stake = self.total_stake - amount;
                proof {
                    let t = self.delegators@;
                    assert(t =~= s.update(p as int, nd));
                    lemma_sum_update(s, p as int, nd);
                    assert(delegators_sorted(t));
                    lemma_delegation_at(t, p as int);
                    assert forall|x: AccountHash| x != delegator implies delegation_amount(t, x)
                        == delegation_amount(s, x) && (has_delegation(t, x)
                        <==> has_delegation(s, x)) by {
                        if has_delegation(s, x) {
                            let k = delegation_index(s, x);
                            assert(s[k].delegator == x);
                            assert(k != p);
                            assert(t[k] == s[k]);
                            lemma_delegation_at(s, k);
                            lemma_delegation_at(t, k);
                        }
                        if has_delegation(t, x) {
                            let k = delegation_index(t, x);
                            assert(t[k].delegator == x);
                            assert(k != p);
                            assert(s[k] == t[k]);
                            lemma_delegation_at(s, k);
                        }
                    }
                }
            }
        } else {
            // No position: the precondition forces a zero amount, and
            // the record is unchanged.
            proof {
                if has_delegation(s, delegator) {
                    let k = delegation_index(s, delegator);
                    assert(s[k].delegator == delegator);
                    if k < p {
                        assert(s[k].delegator.value < delegator.value);
                    }
                }
                assert(!has_delegation(s, delegator));
                assert(amount == 0);
            }
        }
    }
}

/// True if the validators are strictly ascending by account, the
/// canonical shape of the ledger's ordered validator map.
pub open spec fn validators_sorted(s: Seq<Validator>) -> bool {
    forall|i: int, j: int| 0 <= i < j < s.len() ==> s[i].account.value < s[j].account.value
}

/// The authoritative mapping of validators, mutated only through
/// delegate, undelegate, and bid operations.
#[derive(Debug)]
pub struct StakingLedger {
    /// The validator records, strictly ascending by account, each
    /// keyed by its own `account` field.
    pub validators: Vec<Validator>,
}

/// Well-formedness of the ledger: sorted validator map, every record
/// well-formed.
pub open spec fn ledger_wf(l: StakingLedger) -> bool {
    &&& validators_sorted(l.validators@)
    &&& forall|i: int| 0 <= i < l.validators@.len() ==> validator_wf(#[trigger] l.validators@[i])
}

/// True if the ledger holds a validator record for `a`.
pub open spec fn has_validator(l: StakingLedger, a: AccountHash) -> bool {
    exists|i: int| 0 <= i < l.validators@.len() && l.validators@[i].account == a
}

/// The index of `a`'s validator record (meaningful only when present).
pub open spec fn validator_index(l: StakingLedger, a: AccountHash) -> int {
    choose|i: int| 0 <= i < l.validators@.len() && l.validators@[i].account == a
}

/// The validator record of `a` (meaningful only when present).
pub open spec fn validator_record(l: StakingLedger, a: AccountHash) -> Validator {
    l.validators@[validator_index(l, a)]
}

/// The total stake bonded behind validator `a`: zero if it has no bid.
pub open spec fn total_stake_of(l: StakingLedger, a: AccountHash) -> int {
    if has_validator(l, a) {
        validator_record(l, a).total_stake as int
    } else {
        0
    }
}

/// The stake delegated to validator `v` by everyone but the validator
/// itself: zero if it has no bid.
pub open spec fn delegated_stake_of(l: StakingLedger, v: AccountHash) -> int {
    if has_validator(l, v) {
        total_stake_of(l, v) - validator_record(l, v).self_stake
    } else {
        0
    }
}

/// The amount `d` has staked with validator `v`: zero if either side
/// is absent.
pub open spec fn stake_position(l: StakingLedger, v: AccountHash, d: AccountHash) -> int {
    if has_validator(l, v) {
        validator_record(l, v).delegator_stake(d)
    } else {
        0
    }
}

/// In a sorted ledger, the record at any index is the one and only
/// record of its account.
pub proof fn lemma_validator_at(l: StakingLedger, i: int)
    requires
        validators_sorted(l.validators@),
        0 <= i < l.validators@.len(),
    ensures
        has_validator(l, l.validators@[i].account),
        validator_index(l, l.validators@[i].account) == i,
        validator_record(l, l.validators@[i].account) == l.validators@[i],
{
    let s = l.validators@;
    assert(has_validator(l, s[i].account));
    let j = validator_index(l, s[i].account);
    assert(0 <= j < s.len() && s[j].account == s[i].account);
    if j < i {
        assert(s[j].account.value < s[i].account.value);
    } else if j > i {
        assert(s[i].account.value < s[j].account.value);
    }
}

impl StakingLedger {
    /// An empty ledger.
    pub fn new() -> (r: StakingLedger)
        ensures
            ledger_wf(r),
            r.validators@.len() == 0,
    {
        StakingLedger { validators: Vec::new() }
    }

    /// Returns the first position whose account is not below `a`: the
    /// place where `a`'s record is or would be.
    pub(crate) fn validator_position(&self, a: &AccountHash) -> (p: usize)
        requires
            validators_sorted(self.validators@),
        ensures
            p <= self.validators@.len(),
            forall|k: int| 0 <= k < p ==> self.validators@[k].account.value < a.value,
            p < self.validators@.len() ==> self.validators@[p as int].account.value >= a.value,
    {
        let n = self.validators.len();
        let mut p: usize = 0;
        while p < n && self.validators[p].account.value < a.value
            invariant
                n == self.validators@.len(),
                0 <= p <= n,
                forall|k: int| 0 <= k < p ==> self.validators@[k].account.value < a.value,
            decreases n - p,
        {
            p = p + 1;
        }
        p
    }

    /// Finds the index of `a`'s validator record, if any.
    pub fn find_validator(&self, a: &AccountHash) -> (r: Option<usize>)
        requires
            validators_sorted(self.validators@),
        ensures
            match r {
                Some(i) => i < self.validators@.len() && self.validators@[i as int].account == *a
                    && validator_index(*self, *a) == i,
                None => !has_validator(*self, *a),
            },
    {
        let p = self.validator_position(a);
        if p < self.validators.len() && self.validators[p].account.value == a.value {
            proof {
                assert(self.validators@[p as int].account == *a);
                lemma_validator_at(*self, p as int);
            }
            Some(p)
        } else {
            proof {
                if has_validator(*self, *a) {
                    let k = validator_index(*self, *a);
                    assert(self.validators@[k].account == *a);
                    if k < p {
                        assert(self.validators@[k].account.value < a.value);
                    }
                }
            }
            None
        }
    }
}

} // verus!
