//! The kill-on-close process group, where the platform has none: creating one
//! yields nothing and assigning a process to it fails, which callers tolerate.

use vstd::prelude::*;

verus! {

pub struct JobHandle;

pub fn create_kill_on_close_job() -> (r: Option<JobHandle>)
    ensures
        r.is_none(),
{
    None
}

pub fn assign_pid_to_job(job: &JobHandle, pid: u32) -> (r: bool)
    ensures
        !r,
{
    false
}

} // verus!
