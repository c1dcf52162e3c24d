//! The registry of request debits: each one under its reference, and the
//! references under the status that each one has.
use crate::error::LedgerError;
use crate::ob_io::{RequestDebit, RequestDebitStatus, RequestDebitView};
use crate::status_index::{index_with, StatusIndex};
use std::collections::HashMap;
use vstd::prelude::*;

verus! {

/// The request debits by reference, which is where each one is kept, and the
/// index by status, which follows from it.
pub struct RequestDebitRegistry {
    request_debit_by_reference: HashMap<u64, RequestDebit>,
    request_debits_by_status: StatusIndex,
}

/// The index says what the request debits say: each request debit is kept
/// under its own reference and stands in the bucket of its status, and a
/// bucket holds nothing else.
pub open spec fn index_consistent(
    debits: Map<u64, RequestDebitView>,
    index: Map<RequestDebitStatus, Set<u64>>,
) -> bool {
    &&& forall|r: u64| #[trigger]
        debits.contains_key(r) ==> debits[r].reference == r && index.contains_key(
            debits[r].status,
        ) && index[debits[r].status].contains(r)
    &&& forall|s: RequestDebitStatus, r: u64|
        index.contains_key(s) && #[trigger] index[s].contains(r) ==> debits.contains_key(r)
            && debits[r].status == s
}

/// In a consistent index, to take a reference out of every bucket is to take
/// it out of the bucket of its status.
proof fn lemma_cleared(
    debits: Map<u64, RequestDebitView>,
    index: Map<RequestDebitStatus, Set<u64>>,
    reference: u64,
)
    requires
        index_consistent(debits, index),
    ensures
        index.map_values(|bucket: Set<u64>| bucket.remove(reference)) == if debits.contains_key(
            reference,
        ) {
            index.insert(
                debits[reference].status,
                index[debits[reference].status].remove(reference),
            )
        } else {
            index
        },
{
    let cleared = index.map_values(|bucket: Set<u64>| bucket.remove(reference));
    let target = if debits.contains_key(reference) {
        index.insert(debits[reference].status, index[debits[reference].status].remove(reference))
    } else {
        index
    };
    assert forall|s: RequestDebitStatus| #[trigger] cleared.contains_key(s) implies cleared[s]
        == target[s] by {}
}

/// To file a request debit again under the status that it has changes
/// nothing in a consistent index.
pub proof fn lemma_refile_same(
    debits: Map<u64, RequestDebitView>,
    index: Map<RequestDebitStatus, Set<u64>>,
    reference: u64,
)
    requires
        index_consistent(debits, index),
        debits.contains_key(reference),
    ensures
        index_with(index, reference, debits[reference].status) == index,
{
    lemma_cleared(debits, index, reference);
}

impl RequestDebitRegistry {
    /// The request debit that each reference leads to.
    pub closed spec fn by_reference(&self) -> Map<u64, RequestDebitView> {
        self.request_debit_by_reference@.map_values(|rd: RequestDebit| rd@)
    }

    /// The references under each status that has a bucket.
    pub closed spec fn by_status(&self) -> Map<RequestDebitStatus, Set<u64>> {
        self.request_debits_by_status@
    }

    /// The index is sound and says what the request debits say.
    pub closed spec fn wf(&self) -> bool {
        &&& self.request_debits_by_status.wf()
        &&& index_consistent(self.by_reference(), self.by_status())
    }

    /// What well-formedness means to a caller.
    pub proof fn lemma_consistent(&self)
        requires
            self.wf(),
        ensures
            index_consistent(self.by_reference(), self.by_status()),
    {
    }

    /// A registry without request debits and without buckets.
    pub fn new() -> (registry: RequestDebitRegistry)
        ensures
            registry.wf(),
            registry.by_reference() == Map::<u64, RequestDebitView>::empty(),
            registry.by_status() == Map::<RequestDebitStatus, Set<u64>>::empty(),
    {
        let registry = RequestDebitRegistry {
            request_debit_by_reference: HashMap::new(),
            request_debits_by_status: StatusIndex::new(),
        };
        registry
    }

    /// The request debit that is kept under the reference.
    pub fn find(&self, reference: u64) -> (found: Result<RequestDebit, LedgerError>)
        ensures
            match found {
                Ok(rd) => self.by_reference().contains_key(reference) && rd@
                    == self.by_reference()[reference],
                Err(e) => e == LedgerError::NotFound && !self.by_reference().contains_key(
                    reference,
                ),
            },
    {
        match self.request_debit_by_reference.get(&reference) {
            Some(rd) => Ok(rd.clone()),
            None => Err(LedgerError::NotFound),
        }
    }

    /// Whether a request debit is kept under the reference.
    pub fn contains(&self, reference: u64) -> (known: bool)
        ensures
            known == self.by_reference().contains_key(reference),
    {
        self.request_debit_by_reference.contains_key(&reference)
    }

    /// The request debits that have the status now, each once and in no
    /// order that means anything. A status that no request debit ever had has
    /// no bucket, and is not found.
    pub fn find_by_status(&self, status: RequestDebitStatus) -> (found: Result<
        Vec<RequestDebit>,
        LedgerError,
    >)
        requires
            self.wf(),
        ensures
            match found {
                Ok(list) => {
                    &&& self.by_status().contains_key(status)
                    &&& list@.map_values(|rd: RequestDebit| rd.reference).no_duplicates()
                    &&& list@.map_values(|rd: RequestDebit| rd.reference).to_set()
                        == self.by_status()[status]
                    &&& forall|i: int|
                        0 <= i < list@.len() ==> self.by_reference().contains_key(
                            (#[trigger] list@[i]).reference,
                        ) && list@[i]@ == self.by_reference()[list@[i].reference]
                },
                Err(e) => e == LedgerError::NotFound && !self.by_status().contains_key(status),
            },
    {
        let bucket = match self.request_debits_by_status.bucket(status) {
            Some(bucket) => bucket,
            None => {
                return Err(LedgerError::NotFound);
            },
        };
        let mut list: Vec<RequestDebit> = Vec::new();
        let mut i: usize = 0;
        while i < bucket.len()
            invariant
                i <= bucket@.len(),
                self.wf(),
                self.by_status().contains_key(status),
                bucket@.to_set() == self.by_status()[status],
                list@.len() == i,
                forall|k: int|
                    0 <= k < i ==> (#[trigger] list@[k]).reference == bucket@[k]
                        && self.by_reference().contains_key(bucket@[k]) && list@[k]@
                        == self.by_reference()[bucket@[k]],
            decreases bucket@.len() - i,
        {
            let reference = bucket[i];
            proof {
                assert(self.by_status()[status].contains(reference));
            }
            match self.request_debit_by_reference.get(&reference) {
                Some(rd) => {
                    list.push(rd.clone());
                },
                None => {},
            }
            i += 1;
        }
        proof {
            let refs = list@.map_values(|rd: RequestDebit| rd.reference);
            assert(refs =~= bucket@);
        }
        Ok(list)
    }

    /// Keeps a request debit under its reference, in place of whatever was
    /// kept there, and files the reference under the status that the request
    /// debit has, and under no other. Both happen in this one step.
    pub fn store(&mut self, rd: RequestDebit)
        requires
            old(self).wf(),
        ensures
            final(self).wf(),
            final(self).by_reference() == old(self).by_reference().insert(rd.reference, rd@),
            final(self).by_status() == index_with(old(self).by_status(), rd.reference, rd.status),
    {
        let reference = rd.reference;
        let to = rd.status;
        let ghost debits = self.by_reference();
        let ghost index = self.by_status();
        proof {
            lemma_cleared(debits, index, reference);
        }
        match self.request_debit_by_reference.get(&reference) {
            Some(existing) => {
                let from = existing.status;
                self.request_debits_by_status.remove(from, reference);
            },
            None => {},
        }
        self.request_debits_by_status.add(to, reference);
        self.request_debit_by_reference.insert(reference, rd);
        proof {
            let debits2 = self.by_reference();
            let index2 = self.by_status();
            assert forall|r: u64| #[trigger] debits2.contains_key(r) implies debits2[r].reference
                == r && index2.contains_key(debits2[r].status) && index2[debits2[r].status].contains(
                r,
            ) by {
                if r != reference {
                    assert(debits.contains_key(r));
                }
            }
        }
    }
}

} // verus!
