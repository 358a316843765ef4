//! The processing-block driver: once per block the pending changes are
//! drained and turned into dispatch tasks.

use crate::controls::ControlBank;
use crate::dispatch::BackgroundTask;
use crate::tracker::ChangeTracker;
use vstd::prelude::*;

verus! {

/// The tasks for a walk over `indices`: one for each index whose control can be
/// read, in the order of the walk, carrying the control's value in `values`. An
/// index without a control is passed over.
pub open spec fn tasks_for(indices: Seq<usize>, values: Seq<u32>) -> Seq<BackgroundTask>
    decreases indices.len(),
{
    if indices.len() == 0 {
        Seq::empty()
    } else {
        let earlier = tasks_for(indices.drop_last(), values);
        let index = indices.last();
        if index < values.len() {
            earlier.push(BackgroundTask::UpdateParameter { index, value: values[index as int] })
        } else {
            earlier
        }
    }
}

/// Whether one of `tasks` speaks of the control `index`.
pub open spec fn carries(tasks: Seq<BackgroundTask>, index: usize) -> bool {
    exists|k: int| 0 <= k < tasks.len() && (#[trigger] tasks[k]).spec_index() == index
}

/// What a block's dispatch has to be, whatever its order: every task speaks of
/// a dirty control and carries that control's value in `values`, no two tasks
/// speak of the same control, and every dirty control that can be read has its
/// task.
pub open spec fn is_block_dispatch(
    tasks: Seq<BackgroundTask>,
    dirty: Set<usize>,
    values: Seq<u32>,
) -> bool {
    &&& forall|k: int|
        0 <= k < tasks.len() ==> {
            &&& dirty.contains((#[trigger] tasks[k]).spec_index())
            &&& tasks[k].spec_index() < values.len()
            &&& tasks[k].spec_value() == values[tasks[k].spec_index() as int]
        }
    &&& forall|j: int, k: int|
        0 <= j < k < tasks.len() ==> (#[trigger] tasks[j]).spec_index() != (
        #[trigger] tasks[k]).spec_index()
    &&& forall|index: usize|
        dirty.contains(index) && index < values.len() ==> #[trigger] carries(tasks, index)
}

/// The tasks for a walk that meets no index twice are a block's dispatch for
/// the set of indices walked.
pub proof fn lemma_tasks_for_walk(indices: Seq<usize>, values: Seq<u32>)
    requires
        indices.no_duplicates(),
    ensures
        is_block_dispatch(tasks_for(indices, values), indices.to_set(), values),
        tasks_for(indices, values).len() <= indices.len(),
        (forall|i: int| 0 <= i < indices.len() ==> #[trigger] indices[i] < values.len())
            ==> tasks_for(indices, values).len() == indices.len(),
    decreases indices.len(),
{
    let tasks = tasks_for(indices, values);
    if indices.len() > 0 {
        let shorter = indices.drop_last();
        let earlier = tasks_for(shorter, values);
        let last = indices.last();
        lemma_tasks_for_walk(shorter, values);
        if forall|i: int| 0 <= i < indices.len() ==> #[trigger] indices[i] < values.len() {
            assert forall|i: int| 0 <= i < shorter.len() implies #[trigger] shorter[i]
                < values.len() by {
                assert(shorter[i] == indices[i]);
            }
            assert(indices[indices.len() - 1] < values.len());
        }
        assert(!shorter.contains(last)) by {
            if shorter.contains(last) {
                let i = choose|i: int| 0 <= i < shorter.len() && shorter[i] == last;
                assert(indices[i] == indices[indices.len() - 1]);
            }
        }
        assert forall|index: usize| shorter.to_set().contains(index) implies indices.to_set().contains(
            index,
        ) by {
            let i = choose|i: int| 0 <= i < shorter.len() && shorter[i] == index;
            assert(indices[i] == index);
        }
        assert(indices.to_set().contains(last)) by {
            assert(indices[indices.len() - 1] == last);
        }
        assert forall|index: usize|
            indices.to_set().contains(index) && index < values.len() implies #[trigger] carries(
            tasks,
            index,
        ) by {
            if index == last {
                assert(tasks[tasks.len() - 1].spec_index() == index);
            } else {
                let i = choose|i: int| 0 <= i < indices.len() && indices[i] == index;
                assert(shorter[i] == index);
                assert(shorter.to_set().contains(index));
                assert(carries(earlier, index));
                let k = choose|k: int| 0 <= k < earlier.len() && earlier[k].spec_index() == index;
                assert(tasks[k].spec_index() == index);
            }
        }
        assert forall|j: int, k: int| 0 <= j < k < tasks.len() implies (#[trigger] tasks[j]).spec_index()
            != (#[trigger] tasks[k]).spec_index() by {
            if k == earlier.len() {
                assert(earlier[j] == tasks[j]);
                assert(shorter.to_set().contains(earlier[j].spec_index()));
            } else {
                assert(earlier[j] == tasks[j]);
                assert(earlier[k] == tasks[k]);
            }
        }
        assert forall|k: int| 0 <= k < tasks.len() implies {
            &&& indices.to_set().contains((#[trigger] tasks[k]).spec_index())
            &&& tasks[k].spec_index() < values.len()
            &&& tasks[k].spec_value() == values[tasks[k].spec_index() as int]
        } by {
            if k < earlier.len() {
                assert(earlier[k] == tasks[k]);
                assert(shorter.to_set().contains(earlier[k].spec_index()));
            }
        }
    }
}

/// Makes the dispatch tasks for the indices that a drain handed out, reading
/// each control's current value from `bank`. An index whose control cannot be
/// read gets no task.
pub fn collect_tasks(indices: &Vec<usize>, bank: &ControlBank) -> (tasks: Vec<BackgroundTask>)
    ensures
        tasks@ == tasks_for(indices@, bank@),
{
    let mut tasks: Vec<BackgroundTask> = Vec::new();
    let mut at: usize = 0;
    while at < indices.len()
        invariant
            at <= indices@.len(),
            tasks@ == tasks_for(indices@.take(at as int), bank@),
        decreases indices@.len() - at,
    {
        let index = indices[at];
        proof {
            let longer = indices@.take(at + 1);
            assert(longer.drop_last() =~= indices@.take(at as int));
            assert(longer.last() == index);
        }
        match bank.value(index) {
            Some(value) => {
                tasks.push(BackgroundTask::UpdateParameter { index, value });
            },
            None => {},
        }
        at += 1;
    }
    assert(indices@.take(at as int) =~= indices@);
    tasks
}

/// Runs the dispatch step of one processing block: empties the tracker and
/// makes one task for each control that was dirty, carrying the value that the
/// control has now. The order of the tasks is not fixed.
pub fn process_block(tracker: &mut ChangeTracker, bank: &ControlBank) -> (tasks: Vec<
    BackgroundTask,
>)
    ensures
        is_block_dispatch(tasks@, old(tracker)@, bank@),
        old(tracker)@.finite(),
        tasks@.len() <= old(tracker)@.len(),
        (forall|index: usize| old(tracker)@.contains(index) ==> index < bank@.len())
            ==> tasks@.len() == old(tracker)@.len(),
        final(tracker)@ == Set::<usize>::empty(),
{
    let indices = tracker.drain();
    proof {
        lemma_tasks_for_walk(indices@, bank@);
        if forall|index: usize| old(tracker)@.contains(index) ==> index < bank@.len() {
            assert forall|i: int| 0 <= i < indices@.len() implies #[trigger] indices@[i]
                < bank@.len() by {
                assert(indices@.to_set().contains(indices@[i]));
            }
        }
    }
    collect_tasks(&indices, bank)
}

} // verus!
