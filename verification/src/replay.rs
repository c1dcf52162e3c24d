//! The replay guard: no caller uses a nonce twice.
use crate::error::LedgerError;
use std::collections::HashSet;
use vstd::prelude::*;

verus! {

/// The nonces that one caller has used.
pub struct NonceHistory {
    account: String,
    nonces: HashSet<u64>,
}

/// The register of every nonce that every caller has used. Nothing ever
/// leaves it.
pub struct ReplayGuard {
    register: Vec<NonceHistory>,
}

/// Whether some history of the register holds the nonce under the caller's
/// name.
spec fn used(register: Seq<NonceHistory>, caller: Seq<char>, nonce: u64) -> bool {
    exists|i: int| #[trigger] holds(register, i, caller, nonce)
}

/// Whether the history at `i` is the caller's and holds the nonce.
spec fn holds(register: Seq<NonceHistory>, i: int, caller: Seq<char>, nonce: u64) -> bool {
    0 <= i < register.len() && register[i].account@ == caller && register[i].nonces@.contains(
        nonce,
    )
}

impl View for ReplayGuard {
    type V = Set<(Seq<char>, u64)>;

    /// The pairs of caller and nonce that have been used.
    closed spec fn view(&self) -> Set<(Seq<char>, u64)> {
        Set::new(|pair: (Seq<char>, u64)| used(self.register@, pair.0, pair.1))
    }
}

impl ReplayGuard {
    /// No caller has two histories.
    pub closed spec fn wf(&self) -> bool {
        forall|i: int, j: int|
            0 <= i < j < self.register@.len() ==> (#[trigger] self.register@[i]).account@ != (
            #[trigger] self.register@[j]).account@
    }

    /// A guard that has seen nothing.
    pub fn new() -> (guard: ReplayGuard)
        ensures
            guard.wf(),
            guard@ == Set::<(Seq<char>, u64)>::empty(),
    {
        let guard = ReplayGuard { register: Vec::new() };
        assert(guard@ =~= Set::<(Seq<char>, u64)>::empty());
        guard
    }

    /// Where the caller's history stands in the register.
    fn position(&self, caller: &String) -> (at: Option<usize>)
        ensures
            match at {
                Some(i) => i < self.register@.len() && self.register@[i as int].account@
                    == caller@,
                None => forall|i: int|
                    0 <= i < self.register@.len() ==> (#[trigger] self.register@[i]).account@
                        != caller@,
            },
    {
        let mut i: usize = 0;
        while i < self.register.len()
            invariant
                i <= self.register@.len(),
                forall|k: int| 0 <= k < i ==> (#[trigger] self.register@[k]).account@ != caller@,
            decreases self.register@.len() - i,
        {
            if self.register[i].account == *caller {
                return Some(i);
            }
            i += 1;
        }
        None
    }

    /// Whether the caller has used the nonce before.
    pub fn has_seen(&self, caller: &String, nonce: u64) -> (seen: bool)
        requires
            self.wf(),
        ensures
            seen == self@.contains((caller@, nonce)),
    {
        match self.position(caller) {
            Some(i) => {
                let seen = self.register[i].nonces.contains(&nonce);
                proof {
                    if seen {
                        assert(holds(self.register@, i as int, caller@, nonce));
                    }
                    if used(self.register@, caller@, nonce) {
                        let k = choose|k: int| #[trigger] holds(self.register@, k, caller@, nonce);
                        assert(k == i);
                    }
                }
                seen
            },
            None => {
                proof {
                    if used(self.register@, caller@, nonce) {
                        let k = choose|k: int| #[trigger] holds(self.register@, k, caller@, nonce);
                        assert(self.register@[k].account@ != caller@);
                    }
                }
                false
            },
        }
    }

    /// Takes one use of a nonce: it is refused if the caller has used the
    /// nonce before, and remembered otherwise. Nonces need not come in any
    /// order.
    pub fn check(&mut self, caller: &String, nonce: u64) -> (outcome: Result<(), LedgerError>)
        requires
            old(self).wf(),
        ensures
            final(self).wf(),
            match outcome {
                Ok(_) => !old(self)@.contains((caller@, nonce)) && final(self)@ == old(self)@.insert(
                    (caller@, nonce),
                ),
                Err(e) => e == LedgerError::ReplayedNonce && old(self)@.contains((caller@, nonce))
                    && final(self)@ == old(self)@,
            },
    {
        if self.has_seen(caller, nonce) {
            return Err(LedgerError::ReplayedNonce);
        }
        match self.position(caller) {
            Some(i) => {
                self.register[i].nonces.insert(nonce);
                proof {
                    let before = old(self).register@;
                    let after = self.register@;
                    assert(after.len() == before.len());
                    lemma_history_grew(before, after, i as int, caller@, nonce);
                }
            },
            None => {
                let mut nonces: HashSet<u64> = HashSet::new();
                nonces.insert(nonce);
                self.register.push(NonceHistory { account: caller.clone(), nonces });
                proof {
                    let before = old(self).register@;
                    let after = self.register@;
                    let last = before.len() as int;
                    assert(after[last].account@ == caller@);
                    lemma_history_added(before, after, caller@, nonce);
                }
            },
        }
        Ok(())
    }
}

/// One history takes one more nonce: the pairs in use are those of before and
/// the new one.
proof fn lemma_history_grew(
    before: Seq<NonceHistory>,
    after: Seq<NonceHistory>,
    at: int,
    caller: Seq<char>,
    nonce: u64,
)
    requires
        0 <= at < before.len(),
        after.len() == before.len(),
        before[at].account@ == caller,
        after[at].account@ == caller,
        after[at].nonces@ == before[at].nonces@.insert(nonce),
        forall|k: int| 0 <= k < after.len() && k != at ==> #[trigger] after[k] == before[k],
    ensures
        forall|c: Seq<char>, n: u64|
            used(after, c, n) <==> used(before, c, n) || (c == caller && n == nonce),
{
    assert forall|c: Seq<char>, n: u64|
        used(after, c, n) <==> used(before, c, n) || (c == caller && n == nonce) by {
        if used(after, c, n) {
            let k = choose|k: int| #[trigger] holds(after, k, c, n);
            if !(c == caller && n == nonce) {
                assert(holds(before, k, c, n));
            }
        }
        if used(before, c, n) {
            let k = choose|k: int| #[trigger] holds(before, k, c, n);
            assert(holds(after, k, c, n));
        }
        if c == caller && n == nonce {
            assert(holds(after, at, c, n));
        }
    }
}

/// A new caller's history is added with one nonce: the pairs in use are those
/// of before and the new one.
proof fn lemma_history_added(
    before: Seq<NonceHistory>,
    after: Seq<NonceHistory>,
    caller: Seq<char>,
    nonce: u64,
)
    requires
        after.len() == before.len() + 1,
        after[before.len() as int].account@ == caller,
        after[before.len() as int].nonces@ == Set::<u64>::empty().insert(nonce),
        forall|k: int| 0 <= k < before.len() ==> #[trigger] after[k] == before[k],
    ensures
        forall|c: Seq<char>, n: u64|
            used(after, c, n) <==> used(before, c, n) || (c == caller && n == nonce),
{
    let last = before.len() as int;
    assert forall|c: Seq<char>, n: u64|
        used(after, c, n) <==> used(before, c, n) || (c == caller && n == nonce) by {
        if used(after, c, n) {
            let k = choose|k: int| #[trigger] holds(after, k, c, n);
            if k != last {
                assert(holds(before, k, c, n));
            }
        }
        if used(before, c, n) {
            let k = choose|k: int| #[trigger] holds(before, k, c, n);
            assert(holds(after, k, c, n));
        }
        if c == caller && n == nonce {
            assert(holds(after, last, c, n));
        }
    }
}

} // verus!
