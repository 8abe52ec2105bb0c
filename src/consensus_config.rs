//! Consensus configuration.

use vstd::prelude::*;

verus! {

/// A span of time, in milliseconds.
#[derive(Clone, Copy, Debug, PartialEq, Eq, Structural, Hash)]
pub struct TimeDiff {
    pub millis: u64,
}

impl TimeDiff {
    pub fn from_millis(millis: u64) -> (r: TimeDiff)
        ensures
            r.millis == millis,
    {
        TimeDiff { millis }
    }
}

/// A value that is given inline, loaded from a file at a path, or not given.
#[derive(Debug)]
pub enum External<T> {
    Loaded(T),
    Path(String),
    Missing,
}

/// Consensus configuration; `K` is the type of a loaded secret key.
#[derive(Debug)]
pub struct Config<K> {
    /// Path to secret key file.
    pub secret_key_path: External<K>,
    /// Path to the folder where unit hash files will be stored.
    pub unit_hashes_folder: String,
    /// The duration for which incoming vertices with missing dependencies are kept in a queue.
    pub pending_vertex_timeout: TimeDiff,
}

impl<K> Default for Config<K> {
    /// No secret key, no unit hash folder, and a pending vertex timeout of ten seconds.
    fn default() -> (r: Self)
        ensures
            r.secret_key_path is Missing,
            r.unit_hashes_folder@.len() == 0,
            r.pending_vertex_timeout.millis == 10000,
    {
        Config {
            secret_key_path: External::Missing,
            unit_hashes_folder: String::new(),
            pending_vertex_timeout: TimeDiff::from_millis(10000),
        }
    }
}

} // verus!
