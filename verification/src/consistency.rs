//! The consistency verifier: the host-side soundness check.
//!
//! After the real machine has been advanced past a chunk, every page the
//! journal marked dirty is read back from the real machine and re-hashed;
//! the hash must equal the journal's claimed `after_hash`.  This confirms,
//! against ground truth outside the proving system, that the attested
//! post-execution memory claims are actually true of the real machine.
//! Clean pages are not re-checked: their content is asserted unchanged by
//! omission.

use vstd::prelude::*;
use vstd::slice::slice_to_vec;

use crate::digest::{bytes_eq, sha256, sha256_of};
use crate::errors::Error;
use crate::PageResult;

verus! {

/// One commitment passes the consistency check when it is clean, or when the
/// bytes observed on the real machine hash to its claimed `after_hash`.
pub open spec fn commitment_consistent(c: PageResult, observed: Seq<u8>) -> bool {
    c.dirty ==> sha256_of(observed) == c.after_hash@
}

/// Re-check one page commitment against the bytes read back from the real
/// machine.  A clean commitment passes without looking at the bytes; a dirty
/// one passes exactly when the observed bytes hash to the claimed
/// `after_hash`, and otherwise aborts with the offending address and both
/// hash values.
pub fn check_page(c: &PageResult, observed: &Vec<u8>) -> (r: Result<(), Error>)
    ensures
        r is Ok <==> commitment_consistent(*c, observed@),
        match r {
            Ok(_) => true,
            Err(e) => {
                e matches Error::ConsistencyFailure { paddr: ep, claimed: ec, observed: eo }
                    && ep == c.paddr && ec@ == c.after_hash@ && eo@ == sha256_of(observed@)
            },
        },
{
    if !c.dirty {
        return Ok(());
    }
    let actual = sha256(observed);
    if bytes_eq(&actual, &c.after_hash) {
        Ok(())
    } else {
        Err(
            Error::ConsistencyFailure {
                paddr: c.paddr,
                claimed: slice_to_vec(c.after_hash.as_slice()),
                observed: actual,
            },
        )
    }
}

/// Re-check a whole journal's commitments, in journal order, against the
/// per-page bytes read back from the real machine.  Entries for clean pages
/// are never consulted.  The first dirty page that fails the check aborts
/// the run with its address and both hash values.
pub fn check_journal(commitments: &Vec<PageResult>, observed: &Vec<Vec<u8>>) -> (r: Result<
    (),
    Error,
>)
    requires
        observed@.len() == commitments@.len(),
    ensures
        r is Ok <==> (forall|i: int|
            0 <= i < commitments@.len() ==> commitment_consistent(
                #[trigger] commitments@[i],
                observed@[i]@,
            )),
        match r {
            Ok(_) => true,
            Err(e) => exists|i: int|
                {
                    &&& 0 <= i < commitments@.len()
                    &&& !commitment_consistent(#[trigger] commitments@[i], observed@[i]@)
                    &&& forall|k: int|
                        0 <= k < i ==> commitment_consistent(
                            #[trigger] commitments@[k],
                            observed@[k]@,
                        )
                    &&& e matches Error::ConsistencyFailure { paddr: ep, claimed: ec, observed: eo }
                        && ep == commitments@[i].paddr && ec@ == commitments@[i].after_hash@
                        && eo@ == sha256_of(observed@[i]@)
                },
        },
{
    let n = commitments.len();
    let mut i: usize = 0;
    while i < n
        invariant
            n == commitments@.len() == observed@.len(),
            i <= n,
            forall|k: int|
                0 <= k < i ==> commitment_consistent(#[trigger] commitments@[k], observed@[k]@),
        decreases n - i,
    {
        match check_page(&commitments[i], &observed[i]) {
            Ok(_) => {},
            Err(e) => {
                return Err(e);
            },
        }
        i = i + 1;
    }
    Ok(())
}

} // verus!
