//! The dispatcher's share of the decisions: how many workers a pool gets and
//! which jobs are handed to it. Running the pool is left to the caller.

use crate::job::{Job, fresh};
use crate::request::RequestSpec;
use vstd::prelude::*;

verus! {

/// The size of the worker pool where the caller names none: twice the number
/// of logical cores, or the largest count there is where that does not fit.
pub open spec fn default_parallelism_spec(cores: nat) -> nat {
    if 2 * cores <= usize::MAX {
        2 * cores
    } else {
        usize::MAX as nat
    }
}

/// The default size of the worker pool on a machine with `cores` logical
/// cores.
pub fn default_parallelism(cores: usize) -> (r: usize)
    ensures
        r == default_parallelism_spec(cores as nat),
{
    if cores <= usize::MAX / 2 {
        2 * cores
    } else {
        usize::MAX
    }
}

/// The jobs of a dispatch: `count` of them, each on a copy of the request
/// that is its own, none started.
pub fn replicate(spec: &RequestSpec, count: usize) -> (jobs: Vec<Job>)
    ensures
        jobs.len() == count,
        forall|i: int| 0 <= i < count ==> (#[trigger] jobs[i])@ == fresh(spec@),
{
    let mut jobs: Vec<Job> = Vec::new();
    let mut i: usize = 0;
    while i < count
        invariant
            i <= count,
            jobs.len() == i,
            forall|k: int| 0 <= k < i ==> (#[trigger] jobs[k])@ == fresh(spec@),
        decreases count - i,
    {
        jobs.push(Job::new(spec.duplicate()));
        i += 1;
    }
    jobs
}

} // verus!
