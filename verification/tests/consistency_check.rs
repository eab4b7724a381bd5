use project_core::consistency::{check_journal, check_page};
use project_core::enclave::{Enclave, FetchOutcome};
use project_core::errors::Error;
use project_core::{CartesiInput, PageResult};
use sha2::{Digest, Sha256};

/// Run one chunk in which the interpreter rewrites a fetched page, and
/// return its committed journal.
fn journal_with_dirty_page(paddr: u64, fetched: Vec<u8>, rewritten: Vec<u8>) -> PageResult {
    let length = fetched.len() as u64;
    let mut e = Enclave::new(&CartesiInput { begin_mcycle: 0, end_mcycle: 50 });
    match e.page_in_with_length(paddr, length) {
        FetchOutcome::Miss(_) => {}
        FetchOutcome::Hit(_) => panic!("fresh cache cannot hit"),
    }
    e.insert_fetched(paddr, length, fetched).unwrap();
    e.page_update(paddr, length, rewritten).unwrap();
    e.page_dirty(paddr).unwrap();
    let journal = e.finalize(50);
    journal.page_results.into_iter().next().unwrap()
}

#[test]
fn matching_post_state_passes() {
    let commitment = journal_with_dirty_page(0x1000, vec![1, 2, 3, 4], vec![9, 9, 9, 9]);
    // The real machine, read back after the chunk, shows the rewritten bytes.
    let observed = vec![9, 9, 9, 9];
    assert!(check_page(&commitment, &observed).is_ok());
}

#[test]
fn corrupted_after_hash_is_detected_with_the_address() {
    let mut commitment = journal_with_dirty_page(0x1000, vec![1, 2, 3, 4], vec![9, 9, 9, 9]);
    commitment.after_hash[0] ^= 1;
    let observed = vec![9, 9, 9, 9];
    match check_page(&commitment, &observed) {
        Err(Error::ConsistencyFailure { paddr, claimed, observed }) => {
            assert_eq!(paddr, 0x1000);
            assert_eq!(claimed, commitment.after_hash);
            assert_eq!(observed, Sha256::digest([9u8, 9, 9, 9]).to_vec());
            assert_ne!(claimed, observed);
        }
        other => panic!("expected a consistency failure, got {:?}", other),
    }
}

#[test]
fn changed_machine_memory_is_detected() {
    let commitment = journal_with_dirty_page(0x1000, vec![1, 2, 3, 4], vec![9, 9, 9, 9]);
    // The real machine disagrees with what the enclave claims it wrote.
    let observed = vec![9, 9, 9, 8];
    assert!(matches!(
        check_page(&commitment, &observed),
        Err(Error::ConsistencyFailure { paddr: 0x1000, .. })
    ));
}

#[test]
fn clean_pages_are_not_rechecked() {
    let mut e = Enclave::new(&CartesiInput { begin_mcycle: 0, end_mcycle: 50 });
    match e.page_in_with_length(0x2000, 4) {
        FetchOutcome::Miss(_) => {}
        FetchOutcome::Hit(_) => panic!("fresh cache cannot hit"),
    }
    e.insert_fetched(0x2000, 4, vec![1, 2, 3, 4]).unwrap();
    let journal = e.finalize(50);
    // A clean commitment passes without any bytes being read back.
    assert!(check_page(&journal.page_results[0], &Vec::new()).is_ok());
}

#[test]
fn journal_check_reports_the_first_failing_page() {
    let good = journal_with_dirty_page(0x1000, vec![1, 1, 1, 1], vec![2, 2, 2, 2]);
    let mut bad = journal_with_dirty_page(0x3000, vec![3, 3, 3, 3], vec![4, 4, 4, 4]);
    bad.after_hash[0] ^= 1;
    let mut also_bad = journal_with_dirty_page(0x5000, vec![5, 5, 5, 5], vec![6, 6, 6, 6]);
    also_bad.after_hash[0] ^= 1;

    let commitments = vec![good, bad, also_bad];
    let observed = vec![vec![2, 2, 2, 2], vec![4, 4, 4, 4], vec![6, 6, 6, 6]];
    match check_journal(&commitments, &observed) {
        Err(Error::ConsistencyFailure { paddr, .. }) => assert_eq!(paddr, 0x3000),
        other => panic!("expected a consistency failure, got {:?}", other),
    }
}

#[test]
fn journal_check_passes_when_every_dirty_page_matches() {
    let a = journal_with_dirty_page(0x1000, vec![1, 1, 1, 1], vec![2, 2, 2, 2]);
    let b = journal_with_dirty_page(0x3000, vec![3, 3, 3, 3], vec![4, 4, 4, 4]);
    let commitments = vec![a, b];
    let observed = vec![vec![2, 2, 2, 2], vec![4, 4, 4, 4]];
    assert!(check_journal(&commitments, &observed).is_ok());
}
