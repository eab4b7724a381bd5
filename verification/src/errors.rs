//! Fatal error taxonomy of the prover core.
//!
//! Every category is fatal: each one means the enclave and the ground-truth
//! machine can no longer be trusted to agree, so the pipeline terminates
//! instead of retrying.  No category is ever downgraded to a warning.

use vstd::prelude::*;

verus! {

/// The reasons the prover core aborts.
#[derive(Debug)]
pub enum Error {
    /// A page-oracle round trip failed or returned a response whose length
    /// does not match the requested length.
    OracleFailure,
    /// The interpreter asked to dirty an address that was never fetched in
    /// this chunk.
    CacheInvariantViolation { paddr: u64 },
    /// The machine's cycle register disagrees with the cycle count the
    /// journal (or the start of the run) claims.
    CycleMismatch { expected: u64, actual: u64 },
    /// A dirty page's bytes on the real machine do not hash to the journal's
    /// claimed `after_hash`.
    ConsistencyFailure { paddr: u64, claimed: Vec<u8>, observed: Vec<u8> },
    /// The cryptographic proving step failed.
    ProvingFailure,
    /// Serializing or persisting a receipt failed.
    StorageFailure,
}

impl Error {
    /// A short stable label for each category, for host-side reporting.
    pub fn label(&self) -> (r: &'static str)
        ensures
            r@ == match self {
                Error::OracleFailure => "oracle failure"@,
                Error::CacheInvariantViolation { .. } => "cache invariant violation"@,
                Error::CycleMismatch { .. } => "cycle mismatch"@,
                Error::ConsistencyFailure { .. } => "consistency failure"@,
                Error::ProvingFailure => "proving failure"@,
                Error::StorageFailure => "storage failure"@,
            },
    {
        match self {
            Error::OracleFailure => "oracle failure",
            Error::CacheInvariantViolation { .. } => "cache invariant violation",
            Error::CycleMismatch { .. } => "cycle mismatch",
            Error::ConsistencyFailure { .. } => "consistency failure",
            Error::ProvingFailure => "proving failure",
            Error::StorageFailure => "storage failure",
        }
    }
}

} // verus!
