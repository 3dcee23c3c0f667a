use vstd::prelude::*;

verus! {

/// Issued and completed jobs of the current batch.
pub struct Progress {
    pub total: usize,
    pub done: usize,
}

/// One step of progress accounting.
pub enum ProgressOp {
    /// The reset attempted at the start of each loop iteration.
    Reset,
    /// Some more jobs issued.
    Issue(usize),
    /// One job completed.
    Complete,
}

impl Progress {
    pub open spec fn wf(&self) -> bool {
        self.done <= self.total
    }

    /// The counters after one step; a step that cannot apply changes nothing.
    pub open spec fn step(self, op: ProgressOp) -> Progress {
        match op {
            ProgressOp::Reset => if self.done == self.total {
                Progress { total: 0, done: 0 }
            } else {
                self
            },
            ProgressOp::Issue(n) => {
                let base = if self.done == self.total {
                    Progress { total: 0, done: 0 }
                } else {
                    self
                };
                if base.total + n <= usize::MAX {
                    Progress { total: (base.total + n) as usize, ..base }
                } else {
                    self
                }
            },
            ProgressOp::Complete => if self.done < self.total {
                Progress { done: (self.done + 1) as usize, ..self }
            } else {
                self
            },
        }
    }

    /// The counters after a sequence of steps, first to last.
    pub open spec fn run(self, ops: Seq<ProgressOp>) -> Progress
        decreases ops.len(),
    {
        if ops.len() == 0 {
            self
        } else {
            self.run(ops.drop_last()).step(ops.last())
        }
    }

    /// No job issued, none done.
    pub fn new() -> (r: Progress)
        ensures
            r.total == 0,
            r.done == 0,
    {
        Progress { total: 0, done: 0 }
    }

    /// Whether every issued job has completed.
    pub fn is_idle(&self) -> (r: bool)
        ensures
            r == (self.done == self.total),
    {
        self.done == self.total
    }

    /// Starts a new batch once the current one is complete: both counters go
    /// back to zero exactly when `done` has caught up with `total`.
    pub fn idle_reset(&mut self) -> (r: bool)
        requires
            old(self).wf(),
        ensures
            final(self).wf(),
            r == (old(self).done == old(self).total),
            r ==> final(self).total == 0 && final(self).done == 0,
            !r ==> *final(self) == *old(self),
            *final(self) == old(self).step(ProgressOp::Reset),
    {
        if self.done == self.total {
            self.total = 0;
            self.done = 0;
            true
        } else {
            false
        }
    }

    /// Counts `n` more issued jobs. A complete batch is first reset, so the
    /// new jobs start a batch of their own. When `total` would overflow,
    /// nothing changes.
    pub fn issue(&mut self, n: usize) -> (r: bool)
        requires
            old(self).wf(),
        ensures
            final(self).wf(),
            old(self).done == old(self).total ==> r && final(self).total == n && final(self).done
                == 0,
            old(self).done != old(self).total ==> {
                &&& r == (old(self).total + n <= usize::MAX)
                &&& r ==> final(self).total == old(self).total + n && final(self).done
                    == old(self).done
                &&& !r ==> *final(self) == *old(self)
            },
            *final(self) == old(self).step(ProgressOp::Issue(n)),
    {
        self.idle_reset();
        if n <= usize::MAX - self.total {
            self.total = self.total + n;
            true
        } else {
            false
        }
    }

    /// Counts one completed job.
    pub fn complete(&mut self)
        requires
            old(self).done < old(self).total,
        ensures
            final(self).wf(),
            final(self).done == old(self).done + 1,
            final(self).total == old(self).total,
            *final(self) == old(self).step(ProgressOp::Complete),
    {
        self.done = self.done + 1;
    }
}

/// Whatever sequence of resets, issues and completions is applied to
/// well-formed counters, `done` never exceeds `total`; each reset brings the
/// pair to zero exactly when `done` had caught up with `total`; and jobs
/// issued while `done` equals `total` start again from zero.
pub proof fn lemma_progress_run(p: Progress, ops: Seq<ProgressOp>)
    requires
        p.wf(),
    ensures
        forall|i: int| 0 <= i <= ops.len() ==> (#[trigger] p.run(ops.take(i))).wf(),
        forall|i: int|
            0 <= i < ops.len() && ops[i] is Reset ==> ({
                let before = p.run(ops.take(i));
                let after = #[trigger] p.run(ops.take(i + 1));
                (after.total == 0 && after.done == 0) <==> before.done == before.total
            }),
        forall|i: int|
            0 <= i < ops.len() && ops[i] is Issue ==> ({
                let before = p.run(ops.take(i));
                let after = #[trigger] p.run(ops.take(i + 1));
                before.done == before.total ==> after.total == ops[i]->Issue_0 && after.done == 0
            }),
    decreases ops.len(),
{
    if ops.len() > 0 {
        let prev = ops.drop_last();
        lemma_progress_run(p, prev);
        assert forall|i: int| 0 <= i <= ops.len() implies (#[trigger] p.run(ops.take(i))).wf() by {
            if i < ops.len() {
                assert(ops.take(i) =~= prev.take(i));
                assert(p.run(prev.take(i)).wf());
            } else {
                assert(ops.take(i) =~= ops);
                assert(prev.take(prev.len() as int) =~= prev);
                assert(p.run(prev.take(prev.len() as int)).wf());
            }
        }
        assert forall|i: int| 0 <= i < ops.len() && ops[i] is Reset implies ({
            let before = p.run(ops.take(i));
            let after = #[trigger] p.run(ops.take(i + 1));
            (after.total == 0 && after.done == 0) <==> before.done == before.total
        }) by {
            assert(ops.take(i + 1).drop_last() =~= ops.take(i));
            assert(ops.take(i + 1).last() == ops[i]);
        }
        assert forall|i: int| 0 <= i < ops.len() && ops[i] is Issue implies ({
            let before = p.run(ops.take(i));
            let after = #[trigger] p.run(ops.take(i + 1));
            before.done == before.total ==> after.total == ops[i]->Issue_0 && after.done == 0
        }) by {
            assert(ops.take(i + 1).drop_last() =~= ops.take(i));
            assert(ops.take(i + 1).last() == ops[i]);
            assert(p.run(ops.take(i)).wf());
        }
    }
}

} // verus!
