//! What the joiner of a pool of workers concludes from their outcomes.
use vstd::prelude::*;

verus! {

/// The verdict on a joined pool.
#[derive(Clone, Copy, Debug, PartialEq, Eq, Structural)]
pub enum PoolVerdict {
    /// Every worker ran to completion.
    AllCompleted,
    /// The worker at this index, the first in spawn order, failed.
    WorkerFailed(usize),
}

/// Reports the first failed worker, so that no failure goes unnoticed.
pub fn join_verdict(outcomes: &[bool]) -> (r: PoolVerdict)
    ensures
        r == PoolVerdict::AllCompleted <==> forall|i: int| 0 <= i < outcomes@.len() ==> outcomes@[i],
        r matches PoolVerdict::WorkerFailed(k) ==> k < outcomes@.len() && !outcomes@[k as int]
            && forall|j: int| 0 <= j < k ==> outcomes@[j],
{
    let mut i: usize = 0;
    while i < outcomes.len()
        invariant
            i <= outcomes@.len(),
            forall|j: int| 0 <= j < i ==> outcomes@[j],
        decreases outcomes.len() - i,
    {
        if !outcomes[i] {
            return PoolVerdict::WorkerFailed(i);
        }
        i = i + 1;
    }
    PoolVerdict::AllCompleted
}

} // verus!
