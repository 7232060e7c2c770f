//! Configuration of the block-synchronizer's fetch policy.
//!
//! The synchronizer itself is an external collaborator: the ledger core
//! only carries these tunables through as plain values. Durations are
//! held in milliseconds; the embedding code converts them to its own
//! duration type at the edge.

use vstd::prelude::*;

verus! {

/// Default fetch timeout, in milliseconds (ten minutes).
pub const DEFAULT_TIMEOUT_MILLIS: u64 = 600_000;

/// Default maximum number of parallel trie fetches.
pub const DEFAULT_MAX_PARALLEL_TRIE_FETCHES: u32 = 5000;

/// Default peer refresh interval, in milliseconds (ninety seconds).
pub const DEFAULT_PEER_REFRESH_INTERVAL_MILLIS: u64 = 90_000;

/// Configuration options for fetching.
#[derive(Clone, Copy, PartialEq, Eq, Structural, Debug)]
pub struct Config {
    /// Timeout of a fetch, in milliseconds.
    pub timeout_millis: u64,
    /// Maximum number of trie nodes to fetch in parallel.
    pub max_parallel_trie_fetches: u32,
    /// Interval between peer refreshes, in milliseconds.
    pub peer_refresh_interval_millis: u64,
}

impl Config {
    /// Creates a configuration from explicit values.
    pub fn new(
        timeout_millis: u64,
        max_parallel_trie_fetches: u32,
        peer_refresh_interval_millis: u64,
    ) -> (r: Config)
        ensures
            r.timeout_millis == timeout_millis,
            r.max_parallel_trie_fetches == max_parallel_trie_fetches,
            r.peer_refresh_interval_millis == peer_refresh_interval_millis,
    {
        Config { timeout_millis, max_parallel_trie_fetches, peer_refresh_interval_millis }
    }

    /// Returns the fetch timeout, in milliseconds.
    pub fn timeout(&self) -> (r: u64)
        ensures
            r == self.timeout_millis,
    {
        self.timeout_millis
    }

    /// Returns the maximum number of parallel trie fetches.
    pub fn max_parallel_trie_fetches(&self) -> (r: u32)
        ensures
            r == self.max_parallel_trie_fetches,
    {
        self.max_parallel_trie_fetches
    }

    /// Returns the peer refresh interval, in milliseconds.
    pub fn peer_refresh_interval(&self) -> (r: u64)
        ensures
            r == self.peer_refresh_interval_millis,
    {
        self.peer_refresh_interval_millis
    }
}

impl Default for Config {
    /// The default fetch configuration.
    fn default() -> (r: Self)
        ensures
            r.timeout_millis == DEFAULT_TIMEOUT_MILLIS,
            r.max_parallel_trie_fetches == DEFAULT_MAX_PARALLEL_TRIE_FETCHES,
            r.peer_refresh_interval_millis == DEFAULT_PEER_REFRESH_INTERVAL_MILLIS,
    {
        Config {
            timeout_millis: DEFAULT_TIMEOUT_MILLIS,
            max_parallel_trie_fetches: DEFAULT_MAX_PARALLEL_TRIE_FETCHES,
            peer_refresh_interval_millis: DEFAULT_PEER_REFRESH_INTERVAL_MILLIS,
        }
    }
}

} // verus!
