use vstd::prelude::*;

use crate::win_ffi::HRESULT;

verus! {

/// How far an operation has got: work completed out of the total.
#[derive(Clone, Copy, Debug, PartialEq, Eq, Structural)]
pub struct ProgressStatus {
    completed: u64,
    total: u64,
}

impl ProgressStatus {
    pub closed spec fn spec_completed(self) -> u64 {
        self.completed
    }

    pub closed spec fn spec_total(self) -> u64 {
        self.total
    }

    /// The amount of work completed so far.
    pub fn completed(&self) -> (r: u64)
        ensures
            r == self.spec_completed(),
    {
        self.completed
    }

    /// The total amount of work.
    pub fn total(&self) -> (r: u64)
        ensures
            r == self.spec_total(),
    {
        self.total
    }
}

impl Default for ProgressStatus {
    fn default() -> (r: ProgressStatus)
        ensures
            r.spec_completed() == 0,
            r.spec_total() == 0,
    {
        ProgressStatus { completed: 0, total: 0 }
    }
}

/// The state behind a progress callback: it records the totals and
/// completion counts that 7-Zip reports.
pub struct Progress {
    status: ProgressStatus,
}

impl Progress {
    pub closed spec fn spec_status(&self) -> ProgressStatus {
        self.status
    }

    pub fn new() -> (r: Progress)
        ensures
            r.spec_status().spec_completed() == 0,
            r.spec_status().spec_total() == 0,
    {
        Progress { status: ProgressStatus::default() }
    }

    /// The recorded status.
    pub fn status(&self) -> (r: ProgressStatus)
        ensures
            r == self.spec_status(),
    {
        self.status
    }

    /// Records the total amount of work; always succeeds.
    pub fn SetTotal(&mut self, total: u64) -> (r: HRESULT)
        ensures
            r == HRESULT(0),
            final(self).spec_status().spec_total() == total,
            final(self).spec_status().spec_completed() == old(self).spec_status().spec_completed(),
    {
        let mut s = self.status;
        s.total = total;
        self.status = s;
        HRESULT::S_OK()
    }

    /// Records the amount of work completed; always succeeds.
    pub fn SetCompleted(&mut self, complete_value: u64) -> (r: HRESULT)
        ensures
            r == HRESULT(0),
            final(self).spec_status().spec_completed() == complete_value,
            final(self).spec_status().spec_total() == old(self).spec_status().spec_total(),
    {
        let mut s = self.status;
        s.completed = complete_value;
        self.status = s;
        HRESULT::S_OK()
    }
}

impl Default for Progress {
    fn default() -> (r: Progress)
        ensures
            r.spec_status().spec_completed() == 0,
            r.spec_status().spec_total() == 0,
    {
        Progress::new()
    }
}

} // verus!
