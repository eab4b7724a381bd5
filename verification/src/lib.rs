//! Core of a chunked machine-cycle prover.
//!
//! A reference RISC-V machine is re-executed inside an isolated enclave, one
//! bounded cycle range ("chunk") at a time.  The enclave pulls memory pages on
//! demand through a 16-byte oracle request, caches them, tracks which pages
//! the interpreter dirtied, and commits a journal of page hashes.  The host
//! drives the real machine in lock-step, independently re-checks every dirty
//! page against the journal, and hands the work to a bounded proving pipeline.

use vstd::prelude::*;

pub mod consistency;
pub mod digest;
pub mod driver;
pub mod enclave;
pub mod errors;
pub mod naming;
pub mod pipeline;
pub mod wire;

verus! {

/// One cached memory page inside the enclave: the fetched bytes, their
/// identity, the hash taken at fetch time, and whether the interpreter
/// reported a write to it.
pub struct PageIn {
    pub paddr: u64,
    pub length: u64,
    pub page: Vec<u8>,
    pub initial_hash: Vec<u8>,
    pub dirty: bool,
}

/// A journal entry for one cached page: `after_hash` is non-empty exactly
/// when the page was dirtied, and then holds the hash of the page's bytes at
/// finalization time.
#[derive(Debug, Clone)]
pub struct PageResult {
    pub paddr: u64,
    pub length: u64,
    pub initial_hash: Vec<u8>,
    pub after_hash: Vec<u8>,
    pub dirty: bool,
}

/// The cycle range one enclave instantiation is asked to execute.
#[derive(Debug, Clone, Copy, PartialEq, Eq, Structural)]
pub struct CartesiInput {
    pub begin_mcycle: u64,
    pub end_mcycle: u64,
}

/// The enclave's committed journal for one chunk.  `end_mcycle` is the cycle
/// actually reached, which may fall short of the requested end on an early
/// halt but never exceeds it.
#[derive(Debug, Clone)]
pub struct CartesiResult {
    pub begin_mcycle: u64,
    pub end_mcycle: u64,
    pub page_results: Vec<PageResult>,
    pub tty: Vec<u8>,
}

} // verus!
