//! A shared work ledger for a synthetic workload: progress accumulates
//! toward a fixed amount of work, and completion latches once the target is
//! reached. The workers that produce the progress live outside the library;
//! the ledger itself is plain bookkeeping.

use vstd::prelude::*;

verus! {

/// Progress toward building a fixed number of gizmos. `completed` latches on
/// the `add_work` call that first reaches the target; a ledger created with
/// a target of zero never latches, because no work is ever accepted for it.
pub struct GeometryMachinery {
    pub gizmo_progress: u64,
    pub gizmo_count: u64,
    pub completed: bool,
}

impl GeometryMachinery {
    /// A fresh ledger: no progress yet toward `gizmo_count` gizmos.
    pub fn new(gizmo_count: u64) -> (r: GeometryMachinery)
        ensures
            r.gizmo_progress == 0,
            r.gizmo_count == gizmo_count,
            !r.completed,
    {
        GeometryMachinery { gizmo_progress: 0, gizmo_count, completed: false }
    }

    /// Whether completion has latched.
    pub fn is_complete(&self) -> (r: bool)
        ensures
            r == self.completed,
    {
        self.completed
    }

    /// Books `work_amount` finished units. Work arriving once the target is
    /// already covered is discarded; otherwise progress advances and
    /// completion latches as soon as the target is reached.
    pub fn add_work(&mut self, work_amount: u64)
        requires
            old(self).gizmo_count <= old(self).gizmo_progress || old(self).gizmo_progress
                + work_amount <= u64::MAX,
        ensures
            final(self).gizmo_count == old(self).gizmo_count,
            old(self).gizmo_count <= old(self).gizmo_progress ==> *final(self) == *old(self),
            old(self).gizmo_progress < old(self).gizmo_count ==> {
                &&& final(self).gizmo_progress == old(self).gizmo_progress + work_amount
                &&& final(self).completed == (old(self).completed || old(self).gizmo_count <= old(
                    self,
                ).gizmo_progress + work_amount)
            },
    {
        if self.gizmo_count <= self.gizmo_progress {
            return ;
        }
        self.gizmo_progress = self.gizmo_progress + work_amount;
        if self.gizmo_count <= self.gizmo_progress {
            self.completed = true;
        }
    }
}

} // verus!
