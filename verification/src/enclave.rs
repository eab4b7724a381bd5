//! The enclave execution unit: a per-chunk page cache, dirty tracking, tty
//! buffer, and journal assembly.
//!
//! One `Enclave` value lives for exactly one chunk.  While the interpreter
//! runs, it calls out to fetch pages (`page_in_with_length`), to report
//! writes (`page_dirty`) and to emit tty bytes (`putchar`).  A fetch of a key
//! already cached returns the cached record and issues no oracle request; a
//! miss hands back the encoded oracle request, and the caller feeds the
//! response to `insert_fetched`, which hashes it at fetch time.  At the end,
//! `finalize` assembles the committed journal in first-fetch order.

use vstd::prelude::*;
use vstd::slice::slice_to_vec;

use crate::digest::{sha256, sha256_of, DIGEST_LEN};
use crate::errors::Error;
use crate::wire::{encode_page_request, spec_page_request};
use crate::{CartesiInput, CartesiResult, PageIn, PageResult};

verus! {

/// Page length the interpreter uses when it does not say otherwise.
pub const PAGE_LENGTH: u64 = 4096;

/// What one cache probe decided: reuse a cached record, or send the enclosed
/// oracle request and insert the response.
pub enum FetchOutcome {
    /// The key is cached at this index; no oracle request is issued.
    Hit(usize),
    /// The key is not cached; these are the 16 request bytes to send.
    Miss(Vec<u8>),
}

/// How a journal entry must relate to the cached record it commits to: the
/// `after_hash` is present exactly for a dirty page, and then holds the
/// digest of the page's bytes as they stand at finalization.
pub open spec fn commitment_matches(p: PageIn, c: PageResult) -> bool {
    &&& c.paddr == p.paddr
    &&& c.length == p.length
    &&& c.initial_hash@ == p.initial_hash@
    &&& c.dirty == p.dirty
    &&& c.after_hash@ == if p.dirty {
        sha256_of(p.page@)
    } else {
        Seq::<u8>::empty()
    }
    &&& c.after_hash@.len() == if p.dirty {
        DIGEST_LEN as nat
    } else {
        0
    }
}

/// A page record with its dirty flag raised and everything else unchanged.
pub open spec fn dirtied(p: PageIn) -> PageIn {
    PageIn { dirty: true, ..p }
}

/// Per-chunk enclave state: the requested cycle range, the page cache in
/// first-fetch order, and the tty output buffer.
pub struct Enclave {
    pub begin_mcycle: u64,
    pub end_mcycle: u64,
    pub pages: Vec<PageIn>,
    pub tty: Vec<u8>,
}

impl Enclave {
    /// The record at index `i` caches exactly the key `(paddr, length)`.
    pub open spec fn key_at(self, i: int, paddr: u64, length: u64) -> bool {
        &&& 0 <= i < self.pages@.len()
        &&& self.pages@[i].paddr == paddr
        &&& self.pages@[i].length == length
    }

    /// Some record caches the key `(paddr, length)`.
    pub open spec fn has_key(self, paddr: u64, length: u64) -> bool {
        exists|i: int| self.key_at(i, paddr, length)
    }

    /// Some record caches `paddr`, at any length.
    pub open spec fn has_paddr(self, paddr: u64) -> bool {
        exists|i: int| 0 <= i < self.pages@.len() && (#[trigger] self.pages@[i]).paddr == paddr
    }

    /// Cache well-formedness: a valid requested range, every record holding
    /// exactly `length` bytes and a full-size fetch-time digest, and no two
    /// records caching the same key.
    pub open spec fn wf(self) -> bool {
        &&& self.begin_mcycle < self.end_mcycle
        &&& forall|i: int|
            0 <= i < self.pages@.len() ==> (#[trigger] self.pages@[i]).page@.len()
                == self.pages@[i].length as nat
        &&& forall|i: int|
            0 <= i < self.pages@.len() ==> (#[trigger] self.pages@[i]).initial_hash@.len()
                == DIGEST_LEN as nat
        &&& forall|i: int, j: int|
            #![trigger self.pages@[i].paddr, self.pages@[j].paddr]
            (0 <= i < self.pages@.len() && 0 <= j < self.pages@.len()
                && self.pages@[i].paddr == self.pages@[j].paddr && self.pages@[i].length
                == self.pages@[j].length) ==> i == j
    }

    /// Fresh enclave state for one chunk: empty cache, empty tty buffer.
    pub fn new(input: &CartesiInput) -> (r: Enclave)
        requires
            input.begin_mcycle < input.end_mcycle,
        ensures
            r.wf(),
            r.begin_mcycle == input.begin_mcycle,
            r.end_mcycle == input.end_mcycle,
            r.pages@.len() == 0,
            r.tty@.len() == 0,
    {
        Enclave {
            begin_mcycle: input.begin_mcycle,
            end_mcycle: input.end_mcycle,
            pages: Vec::new(),
            tty: Vec::new(),
        }
    }

    /// Index of the record caching `(paddr, length)`, if any.
    pub fn lookup(&self, paddr: u64, length: u64) -> (r: Option<usize>)
        ensures
            match r {
                Some(i) => self.key_at(i as int, paddr, length),
                None => !self.has_key(paddr, length),
            },
            r is Some <==> self.has_key(paddr, length),
    {
        let n = self.pages.len();
        let mut i: usize = 0;
        while i < n
            invariant
                n == self.pages@.len(),
                i <= n,
                forall|k: int|
                    0 <= k < i ==> !((#[trigger] self.pages@[k]).paddr == paddr
                        && self.pages@[k].length == length),
            decreases n - i,
        {
            if self.pages[i].paddr == paddr && self.pages[i].length == length {
                proof {
                    assert(self.key_at(i as int, paddr, length));
                }
                return Some(i);
            }
            i = i + 1;
        }
        proof {
            assert forall|k: int| !self.key_at(k, paddr, length) by {
                if self.key_at(k, paddr, length) {
                    assert(self.pages@[k].paddr == paddr && self.pages@[k].length == length);
                }
            }
        }
        None
    }

    /// One interpreter fetch call-out: a cached key is served from the cache
    /// with no oracle request; an uncached key yields the oracle request to
    /// send for it.
    pub fn page_in_with_length(&self, paddr: u64, length: u64) -> (r: FetchOutcome)
        ensures
            match r {
                FetchOutcome::Hit(i) => self.key_at(i as int, paddr, length),
                FetchOutcome::Miss(req) => req@ == spec_page_request(paddr, length),
            },
            r is Hit <==> self.has_key(paddr, length),
    {
        match self.lookup(paddr, length) {
            Some(i) => FetchOutcome::Hit(i),
            None => FetchOutcome::Miss(encode_page_request(paddr, length)),
        }
    }

    /// Fetch with the interpreter's default page length.
    pub fn page_in(&self, paddr: u64) -> (r: FetchOutcome)
        ensures
            match r {
                FetchOutcome::Hit(i) => self.key_at(i as int, paddr, PAGE_LENGTH),
                FetchOutcome::Miss(req) => req@ == spec_page_request(paddr, PAGE_LENGTH),
            },
            r is Hit <==> self.has_key(paddr, PAGE_LENGTH),
    {
        self.page_in_with_length(paddr, PAGE_LENGTH)
    }

    /// Insert the oracle's response for a missed key, hashing the bytes at
    /// fetch time.  A response whose length does not match the request is a
    /// malformed oracle round trip and is rejected.
    pub fn insert_fetched(&mut self, paddr: u64, length: u64, bytes: Vec<u8>) -> (r: Result<
        usize,
        Error,
    >)
        requires
            old(self).wf(),
            !old(self).has_key(paddr, length),
        ensures
            final(self).wf(),
            final(self).begin_mcycle == old(self).begin_mcycle,
            final(self).end_mcycle == old(self).end_mcycle,
            final(self).tty@ == old(self).tty@,
            r is Ok <==> bytes@.len() == length as nat,
            match r {
                Ok(i) => {
                    &&& i as int == old(self).pages@.len()
                    &&& final(self).pages@.len() == old(self).pages@.len() + 1
                    &&& forall|k: int|
                        0 <= k < old(self).pages@.len() ==> final(self).pages@[k] == old(
                            self,
                        ).pages@[k]
                    &&& final(self).key_at(i as int, paddr, length)
                    &&& final(self).pages@[i as int].page@ == bytes@
                    &&& final(self).pages@[i as int].initial_hash@ == sha256_of(bytes@)
                    &&& final(self).pages@[i as int].dirty == false
                },
                Err(e) => {
                    &&& *final(self) == *old(self)
                    &&& e is OracleFailure
                },
            },
    {
        if bytes.len() as u64 != length {
            return Err(Error::OracleFailure);
        }
        let initial_hash = sha256(&bytes);
        let i = self.pages.len();
        self.pages.push(
            PageIn { paddr, length, page: bytes, initial_hash, dirty: false },
        );
        proof {
            let oldp = old(self).pages@;
            let newp = self.pages@;
            assert forall|k: int|
                0 <= k < oldp.len() implies !(oldp[k].paddr == paddr && oldp[k].length
                == length) by {
                if oldp[k].paddr == paddr && oldp[k].length == length {
                    assert(old(self).key_at(k, paddr, length));
                }
            }
            assert forall|a: int, b: int|
                (0 <= a < newp.len() && 0 <= b < newp.len() && newp[a].paddr == newp[b].paddr
                    && newp[a].length == newp[b].length) implies a == b by {
                if a < oldp.len() && b < oldp.len() {
                    assert(oldp[a].paddr == oldp[b].paddr && oldp[a].length == oldp[b].length);
                }
            }
            assert(self.key_at(i as int, paddr, length));
        }
        Ok(i)
    }

    /// One interpreter dirty call-out: raise the dirty flag of the first
    /// record caching `paddr`.  Dirtying an address never fetched in this
    /// chunk is a cache invariant violation and must abort the chunk.
    pub fn page_dirty(&mut self, paddr: u64) -> (r: Result<(), Error>)
        requires
            old(self).wf(),
        ensures
            final(self).wf(),
            final(self).begin_mcycle == old(self).begin_mcycle,
            final(self).end_mcycle == old(self).end_mcycle,
            final(self).tty@ == old(self).tty@,
            r is Ok <==> old(self).has_paddr(paddr),
            match r {
                Ok(_) => exists|j: int|
                    {
                        &&& 0 <= j < old(self).pages@.len()
                        &&& (#[trigger] old(self).pages@[j]).paddr == paddr
                        &&& forall|k: int| 0 <= k < j ==> old(self).pages@[k].paddr != paddr
                        &&& final(self).pages@ =~= old(self).pages@.update(
                            j,
                            dirtied(old(self).pages@[j]),
                        )
                    },
                Err(e) => {
                    &&& *final(self) == *old(self)
                    &&& e matches Error::CacheInvariantViolation { paddr: p } && p == paddr
                },
            },
    {
        let n = self.pages.len();
        let mut i: usize = 0;
        while i < n
            invariant
                *self == *old(self),
                old(self).wf(),
                n == self.pages@.len(),
                i <= n,
                forall|k: int| 0 <= k < i ==> (#[trigger] self.pages@[k]).paddr != paddr,
            decreases n - i,
        {
            if self.pages[i].paddr == paddr {
                self.pages[i].dirty = true;
                proof {
                    let oldp = old(self).pages@;
                    let newp = self.pages@;
                    assert(newp =~= oldp.update(i as int, dirtied(oldp[i as int])));
                    assert forall|a: int|
                        0 <= a < newp.len() implies (#[trigger] newp[a]).paddr == oldp[a].paddr
                        && newp[a].length == oldp[a].length && newp[a].page@ == oldp[a].page@
                        && newp[a].initial_hash@ == oldp[a].initial_hash@ by {
                        if a != i as int {
                            assert(newp[a] == oldp[a]);
                        }
                    }
                    assert(0 <= (i as int) < oldp.len() && oldp[i as int].paddr == paddr);
                }
                return Ok(());
            }
            i = i + 1;
        }
        proof {
            assert forall|k: int|
                !(0 <= k < self.pages@.len() && (#[trigger] self.pages@[k]).paddr == paddr) by {
            }
        }
        Err(Error::CacheInvariantViolation { paddr })
    }

    /// One interpreter tty call-out: append a byte, preserving order.
    pub fn putchar(&mut self, x: u8)
        ensures
            final(self).tty@ == old(self).tty@.push(x),
            final(self).pages@ == old(self).pages@,
            final(self).begin_mcycle == old(self).begin_mcycle,
            final(self).end_mcycle == old(self).end_mcycle,
    {
        self.tty.push(x);
    }

    /// Borrow the cached bytes of the record at `i`, the location a cache
    /// hit points the interpreter at.
    pub fn page_bytes(&self, i: usize) -> (r: &Vec<u8>)
        requires
            i < self.pages@.len(),
        ensures
            r@ == self.pages@[i as int].page@,
    {
        &self.pages[i].page
    }

    /// Overwrite the cached bytes of the first record caching
    /// `(paddr, length)`, modelling the interpreter writing into the page it
    /// was handed.  Writing a key never fetched violates the cache
    /// invariant.
    pub fn page_update(&mut self, paddr: u64, length: u64, bytes: Vec<u8>) -> (r: Result<
        (),
        Error,
    >)
        requires
            old(self).wf(),
            bytes@.len() == length as nat,
        ensures
            final(self).wf(),
            final(self).begin_mcycle == old(self).begin_mcycle,
            final(self).end_mcycle == old(self).end_mcycle,
            final(self).tty@ == old(self).tty@,
            r is Ok <==> old(self).has_key(paddr, length),
            match r {
                Ok(_) => exists|j: int|
                    {
                        &&& old(self).key_at(j, paddr, length)
                        &&& final(self).pages@.len() == old(self).pages@.len()
                        &&& forall|k: int|
                            0 <= k < old(self).pages@.len() && k != j ==> final(self).pages@[k]
                                == old(self).pages@[k]
                        &&& (#[trigger] final(self).pages@[j]).paddr == paddr
                        &&& final(self).pages@[j].length == length
                        &&& final(self).pages@[j].page@ == bytes@
                        &&& final(self).pages@[j].initial_hash@ == old(
                            self,
                        ).pages@[j].initial_hash@
                        &&& final(self).pages@[j].dirty == old(self).pages@[j].dirty
                    },
                Err(e) => {
                    &&& *final(self) == *old(self)
                    &&& e matches Error::CacheInvariantViolation { paddr: p } && p == paddr
                },
            },
    {
        match self.lookup(paddr, length) {
            Some(j) => {
                self.pages[j].page = bytes;
                proof {
                    let oldp = old(self).pages@;
                    let newp = self.pages@;
                    assert forall|a: int|
                        0 <= a < newp.len() implies (#[trigger] newp[a]).paddr == oldp[a].paddr
                        && newp[a].length == oldp[a].length && newp[a].initial_hash@
                        == oldp[a].initial_hash@ && newp[a].dirty == oldp[a].dirty by {
                        if a != j as int {
                            assert(newp[a] == oldp[a]);
                        }
                    }
                }
                Ok(())
            },
            None => Err(Error::CacheInvariantViolation { paddr }),
        }
    }

    /// Assemble the committed journal: commitments in first-fetch order,
    /// each dirty page hashed now (its `after_hash`), each clean page left
    /// with an empty `after_hash`.  `reached_mcycle` is the cycle the
    /// interpreter actually reached, never beyond the requested end.
    pub fn finalize(&self, reached_mcycle: u64) -> (r: CartesiResult)
        requires
            self.wf(),
            self.begin_mcycle <= reached_mcycle <= self.end_mcycle,
        ensures
            r.begin_mcycle == self.begin_mcycle,
            r.end_mcycle == reached_mcycle,
            r.tty@ == self.tty@,
            r.page_results@.len() == self.pages@.len(),
            forall|i: int|
                0 <= i < self.pages@.len() ==> commitment_matches(
                    self.pages@[i],
                    #[trigger] r.page_results@[i],
                ),
    {
        let n = self.pages.len();
        let mut page_results: Vec<PageResult> = Vec::new();
        let mut i: usize = 0;
        while i < n
            invariant
                n == self.pages@.len(),
                i <= n,
                page_results@.len() == i as nat,
                forall|k: int|
                    0 <= k < i ==> commitment_matches(
                        self.pages@[k],
                        #[trigger] page_results@[k],
                    ),
            decreases n - i,
        {
            let after_hash: Vec<u8> = if self.pages[i].dirty {
                sha256(&self.pages[i].page)
            } else {
                Vec::new()
            };
            page_results.push(
                PageResult {
                    paddr: self.pages[i].paddr,
                    length: self.pages[i].length,
                    initial_hash: slice_to_vec(self.pages[i].initial_hash.as_slice()),
                    after_hash,
                    dirty: self.pages[i].dirty,
                },
            );
            i = i + 1;
        }
        CartesiResult {
            begin_mcycle: self.begin_mcycle,
            end_mcycle: reached_mcycle,
            page_results,
            tty: slice_to_vec(self.tty.as_slice()),
        }
    }
}

/// Cache determinism law: a key is cached by at most one record, so every
/// fetch of a cached key is served from the same record — the bytes the
/// first fetch inserted — and issues no oracle request.
pub proof fn lemma_cache_hit_unique(e: Enclave, paddr: u64, length: u64, i: int, j: int)
    requires
        e.wf(),
        e.key_at(i, paddr, length),
        e.key_at(j, paddr, length),
    ensures
        i == j,
{
}

} // verus!
