//! The index of request debits by status: for each status that any request
//! debit ever had, the references of those that have it now.
use crate::ob_io::RequestDebitStatus;
use vstd::prelude::*;

verus! {

/// One bucket of references for each status. A bucket comes into being when
/// the first reference is filed under its status, and stays from then on,
/// empty or not.
pub struct StatusIndex {
    pending: Option<Vec<u64>>,
    approved: Option<Vec<u64>>,
    cancelled: Option<Vec<u64>>,
}

/// The index in which `reference` stands under `to` and under no other
/// status. The bucket of `to` is made if it is not there; no bucket is taken
/// away.
pub open spec fn index_with(
    index: Map<RequestDebitStatus, Set<u64>>,
    reference: u64,
    to: RequestDebitStatus,
) -> Map<RequestDebitStatus, Set<u64>> {
    let cleared = index.map_values(|bucket: Set<u64>| bucket.remove(reference));
    let target = if cleared.contains_key(to) {
        cleared[to]
    } else {
        Set::<u64>::empty()
    };
    cleared.insert(to, target.insert(reference))
}

impl StatusIndex {
    /// The bucket of a status, if it has been made.
    pub closed spec fn slot(&self, status: RequestDebitStatus) -> Option<Vec<u64>> {
        match status {
            RequestDebitStatus::Pending => self.pending,
            RequestDebitStatus::Approved => self.approved,
            RequestDebitStatus::Cancelled => self.cancelled,
        }
    }

    /// No bucket holds a reference twice.
    pub closed spec fn wf(&self) -> bool {
        forall|status: RequestDebitStatus|
            (#[trigger] self.slot(status)) is Some ==> self.slot(status).unwrap()@.no_duplicates()
    }

    /// An index without buckets.
    pub fn new() -> (index: StatusIndex)
        ensures
            index.wf(),
            index@ == Map::<RequestDebitStatus, Set<u64>>::empty(),
    {
        let index = StatusIndex { pending: None, approved: None, cancelled: None };
        assert(index@ =~= Map::<RequestDebitStatus, Set<u64>>::empty());
        index
    }

    fn take_slot(&mut self, status: RequestDebitStatus) -> (bucket: Option<Vec<u64>>)
        ensures
            bucket == old(self).slot(status),
            final(self).slot(status) is None,
            forall|other: RequestDebitStatus|
                other != status ==> final(self).slot(other) == old(self).slot(other),
    {
        match status {
            RequestDebitStatus::Pending => self.pending.take(),
            RequestDebitStatus::Approved => self.approved.take(),
            RequestDebitStatus::Cancelled => self.cancelled.take(),
        }
    }

    fn set_slot(&mut self, status: RequestDebitStatus, bucket: Option<Vec<u64>>)
        ensures
            final(self).slot(status) == bucket,
            forall|other: RequestDebitStatus|
                other != status ==> final(self).slot(other) == old(self).slot(other),
    {
        match status {
            RequestDebitStatus::Pending => {
                self.pending = bucket;
            },
            RequestDebitStatus::Approved => {
                self.approved = bucket;
            },
            RequestDebitStatus::Cancelled => {
                self.cancelled = bucket;
            },
        }
    }

    /// The references that stand under a status, each once, if the bucket has
    /// been made.
    pub fn bucket(&self, status: RequestDebitStatus) -> (found: Option<&Vec<u64>>)
        requires
            self.wf(),
        ensures
            match found {
                Some(bucket) => self@.contains_key(status) && bucket@.no_duplicates()
                    && bucket@.to_set() == self@[status],
                None => !self@.contains_key(status),
            },
    {
        match status {
            RequestDebitStatus::Pending => self.pending.as_ref(),
            RequestDebitStatus::Approved => self.approved.as_ref(),
            RequestDebitStatus::Cancelled => self.cancelled.as_ref(),
        }
    }

    /// Takes a reference out of the bucket of a status. Nothing changes if the
    /// bucket has not been made or does not hold the reference.
    pub fn remove(&mut self, status: RequestDebitStatus, reference: u64)
        requires
            old(self).wf(),
        ensures
            final(self).wf(),
            final(self)@ == if old(self)@.contains_key(status) {
                old(self)@.insert(status, old(self)@[status].remove(reference))
            } else {
                old(self)@
            },
    {
        let taken = self.take_slot(status);
        match taken {
            Some(mut bucket) => {
                remove_value(&mut bucket, reference);
                self.set_slot(status, Some(bucket));
            },
            None => {
                self.set_slot(status, None);
            },
        }
    }

    /// Files a reference under a status, in a new bucket if the status has
    /// none yet.
    pub fn add(&mut self, status: RequestDebitStatus, reference: u64)
        requires
            old(self).wf(),
            old(self)@.contains_key(status) ==> !old(self)@[status].contains(reference),
        ensures
            final(self).wf(),
            final(self)@ == old(self)@.insert(
                status,
                (if old(self)@.contains_key(status) {
                    old(self)@[status]
                } else {
                    Set::<u64>::empty()
                }).insert(reference),
            ),
    {
        let taken = self.take_slot(status);
        let mut bucket = match taken {
            Some(bucket) => bucket,
            None => Vec::new(),
        };
        let ghost before = bucket@;
        bucket.push(reference);
        proof {
            before.lemma_push_to_set_commute(reference);
            assert(taken is None ==> before.to_set() =~= Set::<u64>::empty());
        }
        self.set_slot(status, Some(bucket));
    }
}

impl View for StatusIndex {
    type V = Map<RequestDebitStatus, Set<u64>>;

    /// The references under each status that has a bucket.
    closed spec fn view(&self) -> Map<RequestDebitStatus, Set<u64>> {
        Map::new(
            |status: RequestDebitStatus| self.slot(status) is Some,
            |status: RequestDebitStatus| self.slot(status).unwrap()@.to_set(),
        )
    }
}

/// Takes a value out of a list that holds nothing twice.
fn remove_value(list: &mut Vec<u64>, value: u64)
    requires
        old(list)@.no_duplicates(),
    ensures
        final(list)@.no_duplicates(),
        final(list)@.to_set() == old(list)@.to_set().remove(value),
{
    let mut i: usize = 0;
    while i < list.len()
        invariant
            i <= list@.len(),
            list@ == old(list)@,
            list@.no_duplicates(),
            forall|k: int| 0 <= k < i ==> list@[k] != value,
        decreases list@.len() - i,
    {
        if list[i] == value {
            let ghost before = list@;
            list.remove(i);
            proof {
                let after = list@;
                assert forall|a: int, b: int| 0 <= a < b < after.len() implies after[a]
                    != after[b] by {
                    let a0 = if a < i { a } else { a + 1 };
                    assert(after[a] == before[a0]);
                }
                assert forall|x: u64| after.to_set().contains(x) <==> before.to_set().remove(
                    value,
                ).contains(x) by {
                    if after.contains(x) {
                        let a = choose|a: int| 0 <= a < after.len() && after[a] == x;
                        let a0 = if a < i { a } else { a + 1 };
                        assert(before[a0] == x);
                    }
                    if before.contains(x) && x != value {
                        let b = choose|b: int| 0 <= b < before.len() && before[b] == x;
                        let b1 = if b < i { b } else { b - 1 };
                        assert(after[b1] == x);
                    }
                }
            }
            return ;
        }
        i += 1;
    }
    proof {
        assert(list@.to_set() =~= old(list)@.to_set().remove(value));
    }
}

} // verus!
