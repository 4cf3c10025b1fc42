//! Choosing the processes to terminate.
use crate::lock_checker::ProcessInfo;
use vstd::prelude::*;

verus! {

/// The ids among `processes` other than `own_id`, in order.
pub open spec fn kill_target_ids(processes: Seq<ProcessInfo>, own_id: u32) -> Seq<u32>
    decreases processes.len(),
{
    if processes.len() == 0 {
        Seq::empty()
    } else {
        let earlier = kill_target_ids(processes.drop_last(), own_id);
        if processes.last().process_id != own_id {
            earlier.push(processes.last().process_id)
        } else {
            earlier
        }
    }
}

/// The processes to terminate among the holders: all but the caller's own
/// process `own_id`, in order.
pub fn kill_targets(processes: &Vec<ProcessInfo>, own_id: u32) -> (r: Vec<u32>)
    ensures
        r@ == kill_target_ids(processes@, own_id),
        forall|i: int| 0 <= i < r@.len() ==> r@[i] != own_id,
{
    let mut r: Vec<u32> = Vec::new();
    let mut i: usize = 0;
    while i < processes.len()
        invariant
            i <= processes@.len(),
            r@ == kill_target_ids(processes@.subrange(0, i as int), own_id),
            forall|k: int| 0 <= k < r@.len() ==> r@[k] != own_id,
        decreases processes@.len() - i,
    {
        proof {
            let next = processes@.subrange(0, i + 1);
            assert(next.drop_last() =~= processes@.subrange(0, i as int));
        }
        if processes[i].process_id != own_id {
            r.push(processes[i].process_id);
        }
        i = i + 1;
    }
    assert(processes@.subrange(0, processes@.len() as int) =~= processes@);
    r
}

} // verus!
