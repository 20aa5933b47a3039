//! The script of a wrapper: planned outcomes, consumed one per call.

use vstd::prelude::*;
use crate::op::PartialOp;

verus! {

/// The first entry of a script, or `Unlimited` where the script has run out.
pub open spec fn head_of(script: Seq<PartialOp>) -> PartialOp {
    if script.len() > 0 {
        script[0]
    } else {
        PartialOp::Unlimited
    }
}

/// A script without its first entry; an empty script stays empty.
pub open spec fn rest_of(script: Seq<PartialOp>) -> Seq<PartialOp> {
    if script.len() > 0 {
        script.subrange(1, script.len() as int)
    } else {
        script
    }
}

/// The entry of a script that the call with index `i` consumes: the entry at
/// that place, or `Unlimited` behind the script's end.
pub open spec fn planned(script: Seq<PartialOp>, i: int) -> PartialOp {
    if 0 <= i < script.len() {
        script[i]
    } else {
        PartialOp::Unlimited
    }
}

/// An ordered script of planned outcomes, each handed out once. When it has
/// run out, every further pull gives `Unlimited`.
#[derive(Debug)]
pub struct OpQueue {
    ops: Vec<PartialOp>,
    taken: usize,
}

impl OpQueue {
    #[verifier::type_invariant]
    spec fn well_formed(self) -> bool {
        self.taken <= self.ops.len()
    }

    /// The entries that have not been handed out yet, next one first.
    pub closed spec fn pending(self) -> Seq<PartialOp> {
        self.ops@.subrange(self.taken as int, self.ops.len() as int)
    }

    /// A queue that will hand out `ops` in order.
    pub fn new(ops: Vec<PartialOp>) -> (queue: Self)
        ensures
            queue.pending() == ops@,
    {
        let queue = OpQueue { ops, taken: 0 };
        assert(queue.pending() =~= ops@);
        queue
    }

    /// Hands out the next entry and advances past it.
    pub fn next(&mut self) -> (op: PartialOp)
        ensures
            op == head_of(old(self).pending()),
            final(self).pending() == rest_of(old(self).pending()),
    {
        proof {
            use_type_invariant(&*self);
        }
        if self.taken < self.ops.len() {
            let op = self.ops[self.taken];
            self.taken = self.taken + 1;
            assert(self.pending() =~= rest_of(old(self).pending()));
            op
        } else {
            PartialOp::Unlimited
        }
    }

    /// Drops every entry that is still pending and installs `ops` instead.
    pub fn replace(&mut self, ops: Vec<PartialOp>)
        ensures
            final(self).pending() == ops@,
    {
        self.taken = 0;
        self.ops = ops;
        assert(self.pending() =~= ops@);
    }

    /// The number of entries that are still pending.
    pub fn remaining(&self) -> (n: usize)
        ensures
            n == self.pending().len(),
    {
        proof {
            use_type_invariant(self);
        }
        self.ops.len() - self.taken
    }
}

} // verus!
