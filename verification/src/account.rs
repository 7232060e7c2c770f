//! Account identifiers.
//!
//! The ledger keys every map by an [`AccountHash`]: a fixed-size opaque
//! identifier derived (outside this crate) from a public key. The ledger
//! itself only ever compares identifiers and orders them, so the
//! identifier is held here as a plain unsigned integer; the embedding
//! code is responsible for deriving it from real key material.

use vstd::prelude::*;

verus! {

/// The identifier of the designated system account. The system account
/// always resolves as an administrator whenever administrative gating is
/// enabled at all.
pub const SYSTEM_ACCOUNT_ID: u64 = 0;

/// A fixed-size opaque account identifier with a total order.
///
/// Ledger maps are ordered by this key so that iteration order, and with
/// it every consensus-relevant output, is deterministic.
#[derive(Clone, Copy, PartialEq, Eq, Structural, Debug, Hash)]
pub struct AccountHash {
    /// The identifier value; ordering of accounts is the ordering of
    /// these values.
    pub value: u64,
}

impl AccountHash {
    /// True if this is the designated system account.
    pub open spec fn is_system(self) -> bool {
        self.value == SYSTEM_ACCOUNT_ID
    }

    /// Returns the designated system account.
    pub fn system() -> (r: AccountHash)
        ensures
            r.is_system(),
    {
        AccountHash { value: SYSTEM_ACCOUNT_ID }
    }
}

/// True if the sequence of accounts is strictly ascending (so also free
/// of duplicates): the canonical shape of an ordered account set.
pub open spec fn accounts_sorted(s: Seq<AccountHash>) -> bool {
    forall|i: int, j: int| 0 <= i < j < s.len() ==> s[i].value < s[j].value
}

} // verus!
