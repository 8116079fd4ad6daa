use vstd::prelude::*;

verus! {

/// What the backend reports of its queue.
#[derive(Debug)]
pub struct ExecInfo {
    /// How many graphs wait to be run.
    pub queue_remaining: usize,
}

/// The backend's status.
#[derive(Debug)]
pub struct Status {
    pub exec_info: ExecInfo,
}

/// A status event of the backend.
#[derive(Debug)]
pub struct StatusMsg {
    pub status: Status,
}

impl StatusMsg {
    /// Whether the backend is idle: its queue is empty.
    pub open spec fn spec_idle(&self) -> bool {
        self.status.exec_info.queue_remaining == 0
    }

    /// Whether the backend is idle: its queue is empty.
    #[verifier::when_used_as_spec(spec_idle)]
    pub fn idle(&self) -> (r: bool)
        ensures
            r == self.spec_idle(),
    {
        self.status.exec_info.queue_remaining == 0
    }
}

} // verus!
