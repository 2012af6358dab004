//! The testcase ledger: an append-only record of completed testcases,
//! queryable for reporting.  The boundary layer guards one ledger with a
//! lock; the critical section is the minimal append, never held across the
//! upstream call.

use vstd::prelude::*;

use crate::record::Testcase;

verus! {

/// The append-only collection of completed testcases.  No operation removes
/// or changes an entry; the ledger only grows.
pub struct Ledger {
    cases: Vec<Testcase>,
}

impl View for Ledger {
    type V = Seq<Testcase>;

    closed spec fn view(&self) -> Seq<Testcase> {
        self.cases@
    }
}

/// The number of testcases holding at least one failure.
pub open spec fn spec_failed_count(s: Seq<Testcase>) -> nat
    decreases s.len(),
{
    if s.len() == 0 {
        0
    } else {
        spec_failed_count(s.drop_first()) + if s[0].failures@.len() > 0 {
            1nat
        } else {
            0nat
        }
    }
}

impl Ledger {
    /// An empty ledger.
    pub fn new() -> (r: Ledger)
        ensures
            r@ == Seq::<Testcase>::empty(),
    {
        Ledger { cases: Vec::new() }
    }

    /// Appends one completed testcase, preserving insertion order.
    pub fn append(&mut self, tc: Testcase)
        ensures
            final(self)@ == old(self)@.push(tc),
    {
        self.cases.push(tc);
    }

    /// The current contents, in insertion order.
    pub fn snapshot(&self) -> (r: &Vec<Testcase>)
        ensures
            r@ == self@,
    {
        &self.cases
    }

    /// The number of recorded testcases.
    pub fn len(&self) -> (n: usize)
        ensures
            n == self@.len(),
    {
        self.cases.len()
    }

    /// How many recorded testcases hold at least one failure.
    pub fn failed_count(&self) -> (n: usize)
        ensures
            n as nat == spec_failed_count(self@),
    {
        let mut n: usize = 0;
        let mut i: usize = 0;
        proof {
            assert(self@.skip(0) =~= self@);
        }
        while i < self.cases.len()
            invariant
                i <= self@.len(),
                n <= i,
                spec_failed_count(self@) == n + spec_failed_count(self@.skip(i as int)),
            decreases self@.len() - i,
        {
            proof {
                assert(self@.skip(i as int)[0] == self@[i as int]);
                assert(self@.skip(i as int).drop_first() =~= self@.skip(i as int + 1));
            }
            if self.cases[i].failures.len() > 0 {
                n = n + 1;
            }
            i = i + 1;
        }
        n
    }
}

} // verus!
