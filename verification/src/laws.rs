//! What holds of the bridge across several operations.

use crate::decimal::{decimal, lemma_decimal_injective};
use crate::dispatch::{dispatch_of, pattern_of, BackgroundTask};
use crate::driver::{carries, is_block_dispatch};
use crate::endpoint::EndpointModel;
use crate::radio::{last_written, RadioModel};
use crate::tracker::is_drain;
use vstd::prelude::*;

verus! {

/// Whether no task but the one at `k` speaks of that task's control.
pub open spec fn is_only_task_for_its_control(tasks: Seq<BackgroundTask>, k: int) -> bool {
    forall|j: int|
        0 <= j < tasks.len() && (#[trigger] tasks[j]).spec_index() == tasks[k].spec_index() ==> j
            == k
}

/// Whether `tasks` holds `task`, and no other task for the same control.
pub open spec fn holds_once(tasks: Seq<BackgroundTask>, task: BackgroundTask) -> bool {
    exists|k: int|
        0 <= k < tasks.len() && #[trigger] tasks[k] == task && is_only_task_for_its_control(
            tasks,
            k,
        )
}

/// What a sequence of writes leaves behind for one control: the value of the
/// last write to it, and the control dirty; a control that no write names is
/// as it was. The writes touch neither the endpoint nor the sender's state.
pub proof fn lemma_write_all(start: RadioModel, writes: Seq<(usize, u32)>, index: usize)
    requires
        index < start.values.len(),
    ensures
        start.write_all(writes).values.len() == start.values.len(),
        start.write_all(writes).endpoint == start.endpoint,
        start.write_all(writes).sender_available == start.sender_available,
        last_written(writes, index).is_some() ==> start.write_all(writes).values[index as int]
            == last_written(writes, index).unwrap(),
        last_written(writes, index).is_some() ==> start.write_all(writes).dirty.contains(index),
        last_written(writes, index).is_none() ==> start.write_all(writes).values[index as int]
            == start.values[index as int],
        last_written(writes, index).is_none() ==> start.write_all(writes).dirty.contains(index)
            == start.dirty.contains(index),
    decreases writes.len(),
{
    if writes.len() > 0 {
        lemma_write_all(start, writes.drop_last(), index);
    }
}

/// However often a control is written within one block, and whatever else is
/// written beside it, the block's dispatch holds exactly one task for it, and
/// that task carries the value of the last write: no earlier value is ever
/// handed on.
pub proof fn lemma_writes_coalesce(
    start: RadioModel,
    writes: Seq<(usize, u32)>,
    index: usize,
    tasks: Seq<BackgroundTask>,
)
    requires
        index < start.values.len(),
        last_written(writes, index).is_some(),
        is_block_dispatch(tasks, start.write_all(writes).dirty, start.write_all(writes).values),
    ensures
        holds_once(
            tasks,
            (BackgroundTask::UpdateParameter { index, value: last_written(writes, index).unwrap() }),
        ),
{
    lemma_write_all(start, writes, index);
    let after = start.write_all(writes);
    let task = BackgroundTask::UpdateParameter {
        index,
        value: last_written(writes, index).unwrap(),
    };
    assert(carries(tasks, index));
    let k = choose|k: int| 0 <= k < tasks.len() && (#[trigger] tasks[k]).spec_index() == index;
    assert(tasks[k].spec_value() == after.values[index as int]);
    assert(tasks[k] == task);
    assert(is_only_task_for_its_control(tasks, k)) by {
        assert forall|j: int|
            0 <= j < tasks.len() && (#[trigger] tasks[j]).spec_index() == tasks[k].spec_index()
            implies j == k by {
            if j < k {
                assert(tasks[j].spec_index() != tasks[k].spec_index());
            } else if k < j {
                assert(tasks[k].spec_index() != tasks[j].spec_index());
            }
        }
    }
}

/// A control that was not dirty before the block and that no write of the
/// block names gets no task.
pub proof fn lemma_untouched_control_is_silent(
    start: RadioModel,
    writes: Seq<(usize, u32)>,
    index: usize,
    tasks: Seq<BackgroundTask>,
)
    requires
        index < start.values.len(),
        !start.dirty.contains(index),
        last_written(writes, index).is_none(),
        is_block_dispatch(tasks, start.write_all(writes).dirty, start.write_all(writes).values),
    ensures
        !carries(tasks, index),
{
    lemma_write_all(start, writes, index);
}

/// A block in which no control is dirty dispatches nothing.
pub proof fn lemma_quiet_block(tasks: Seq<BackgroundTask>, values: Seq<u32>)
    requires
        is_block_dispatch(tasks, Set::<usize>::empty(), values),
    ensures
        tasks == Seq::<BackgroundTask>::empty(),
{
    if tasks.len() > 0 {
        assert(Set::<usize>::empty().contains(tasks[0].spec_index()));
    }
    assert(tasks =~= Seq::<BackgroundTask>::empty());
}

/// Draining is idempotent: of two drains with no mark in between, the second
/// hands out nothing and leaves the tracker empty, whatever was pending before
/// the first.
pub proof fn lemma_second_drain_is_empty(
    before: Set<usize>,
    first: Seq<usize>,
    between: Set<usize>,
    second: Seq<usize>,
    after: Set<usize>,
)
    requires
        is_drain(before, first, between),
        is_drain(between, second, after),
    ensures
        second == Seq::<usize>::empty(),
        after == between,
{
    if second.len() > 0 {
        assert(second.to_set().contains(second[0]));
    }
    assert(second =~= Seq::<usize>::empty());
}

/// Of two block dispatches with no write in between, the second holds no task,
/// whatever was dirty before the first.
pub proof fn lemma_second_dispatch_is_empty(
    start: RadioModel,
    first: Seq<BackgroundTask>,
    second: Seq<BackgroundTask>,
)
    requires
        is_block_dispatch(first, start.dirty, start.values),
        is_block_dispatch(second, start.drained().dirty, start.drained().values),
    ensures
        second == Seq::<BackgroundTask>::empty(),
        start.drained().drained() == start.drained(),
{
    lemma_quiet_block(second, start.drained().values);
}

/// While the network sender is unavailable, every task of every sequence of
/// tasks is discarded: none becomes a message, whatever the endpoint.
pub proof fn lemma_unavailable_sender_sends_nothing(
    tasks: Seq<BackgroundTask>,
    endpoint: EndpointModel,
)
    ensures
        forall|k: int|
            0 <= k < tasks.len() ==> dispatch_of(#[trigger] tasks[k], false, endpoint).is_none(),
{
}

/// Two controls with the same address pattern are the same control: a
/// listener can tell every control's messages from every other's.
pub proof fn lemma_pattern_injective(a: usize, b: usize)
    requires
        pattern_of(a) == pattern_of(b),
    ensures
        a == b,
{
    assert(pattern_of(a).subrange(1, pattern_of(a).len() as int) =~= decimal(a as nat));
    assert(pattern_of(b).subrange(1, pattern_of(b).len() as int) =~= decimal(b as nat));
    lemma_decimal_injective(a as nat, b as nat);
}

} // verus!
