//! The ways a request of this library can fail.

use vstd::prelude::*;

verus! {

/// Why an operation failed.
#[derive(Debug, Clone)]
pub enum ChatError {
    /// Startup configuration is missing or invalid.
    Config(String),
    /// The provider answered with a status outside 200..=299.
    Upstream { status: u16, body: String },
    /// The provider's answer lacks a field that it must carry.
    Protocol(String),
    /// The store failed.
    Storage(String),
    /// The provider did not answer in time.
    Timeout,
}

} // verus!
