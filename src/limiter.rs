use vstd::prelude::*;

verus! {

/// Admission control for one kind of operation: at most `limit` of them may
/// hold a permit at once. Lowering the limit leaves permits already held alone.
pub struct Limiter {
    pub limit: usize,
    pub in_flight: usize,
}

/// One operation on a limiter.
pub enum LimiterOp {
    Acquire,
    Release,
}

impl Limiter {
    /// The limiter after an attempt to take a permit.
    pub open spec fn after_acquire(self) -> Limiter {
        if self.in_flight < self.limit {
            Limiter { in_flight: (self.in_flight + 1) as usize, ..self }
        } else {
            self
        }
    }

    /// The limiter after a held permit is given back.
    pub open spec fn after_release(self) -> Limiter {
        if self.in_flight > 0 {
            Limiter { in_flight: (self.in_flight - 1) as usize, ..self }
        } else {
            self
        }
    }

    pub open spec fn step(self, op: LimiterOp) -> Limiter {
        match op {
            LimiterOp::Acquire => self.after_acquire(),
            LimiterOp::Release => self.after_release(),
        }
    }

    /// The limiter after a sequence of operations, first to last.
    pub open spec fn run(self, ops: Seq<LimiterOp>) -> Limiter
        decreases ops.len(),
    {
        if ops.len() == 0 {
            self
        } else {
            self.run(ops.drop_last()).step(ops.last())
        }
    }

    pub open spec fn new_spec(limit: usize) -> Limiter {
        Limiter { limit, in_flight: 0 }
    }

    /// A limiter with the given ceiling and no permit held.
    pub fn new(limit: usize) -> (r: Limiter)
        ensures
            r == Limiter::new_spec(limit),
    {
        Limiter { limit, in_flight: 0 }
    }

    /// Takes a permit if one is free.
    pub fn try_acquire(&mut self) -> (r: bool)
        ensures
            r == (old(self).in_flight < old(self).limit),
            *final(self) == old(self).after_acquire(),
    {
        if self.in_flight < self.limit {
            self.in_flight = self.in_flight + 1;
            true
        } else {
            false
        }
    }

    /// Gives a held permit back.
    pub fn release(&mut self)
        requires
            old(self).in_flight > 0,
        ensures
            *final(self) == old(self).after_release(),
    {
        self.in_flight = self.in_flight - 1;
    }

    /// Replaces the ceiling; permits already held stay held.
    pub fn set_limit(&mut self, limit: usize)
        ensures
            final(self).limit == limit,
            final(self).in_flight == old(self).in_flight,
    {
        self.limit = limit;
    }
}

/// Whatever sequence of acquisitions and releases is made, a limiter that
/// starts within its ceiling never has more than `limit` permits out.
pub proof fn lemma_never_over_limit(l: Limiter, ops: Seq<LimiterOp>)
    requires
        l.in_flight <= l.limit,
    ensures
        forall|i: int| 0 <= i <= ops.len() ==> (#[trigger] l.run(ops.take(i))).in_flight <= l.limit
            && l.run(ops.take(i)).limit == l.limit,
    decreases ops.len(),
{
    if ops.len() > 0 {
        lemma_never_over_limit(l, ops.drop_last());
        assert forall|i: int| 0 <= i <= ops.len() implies (#[trigger] l.run(
            ops.take(i),
        )).in_flight <= l.limit && l.run(ops.take(i)).limit == l.limit by {
            if i < ops.len() {
                assert(ops.take(i) =~= ops.drop_last().take(i));
                assert(l.run(ops.drop_last().take(i)).in_flight <= l.limit);
            } else {
                let prev = ops.drop_last();
                assert(ops.take(i) =~= ops);
                assert(prev.take(prev.len() as int) =~= prev);
                assert(l.run(prev.take(prev.len() as int)).in_flight <= l.limit);
            }
        }
    }
}

} // verus!
