//! The change tracker: the set of control indices with an undispatched change.

use dashmap::DashSet;
use std::collections::hash_map::RandomState;
use vstd::prelude::*;

verus! {

/// `dashmap::DashSet`, carried as an opaque value.
#[verifier::external_type_specification]
#[verifier::external_body]
#[verifier::reject_recursive_types(K)]
#[verifier::reject_recursive_types(S)]
pub struct ExDashSet<K, S>(DashSet<K, S>);

/// The keys that a `DashSet` of indices holds.
pub uninterp spec fn pending_indices(set: DashSet<usize, RandomState>) -> Set<usize>;

/// `DashSet::new`: the new set holds no key.
#[verifier::external_body]
fn dash_new() -> (set: DashSet<usize, RandomState>)
    ensures
        pending_indices(set) == Set::<usize>::empty(),
{
    DashSet::new()
}

/// `DashSet::insert`, called by the set's only holder: afterwards the set holds
/// the key beside the keys it held before.
#[verifier::external_body]
fn dash_insert(set: &mut DashSet<usize, RandomState>, index: usize)
    ensures
        pending_indices(*final(set)) == pending_indices(*old(set)).insert(index),
{
    set.insert(index);
}

/// `DashSet::iter`, walked to its end: every key of the set comes out once, in
/// an order that is not fixed.
#[verifier::external_body]
fn dash_indices(set: &DashSet<usize, RandomState>) -> (indices: Vec<usize>)
    ensures
        indices@.no_duplicates(),
        indices@.to_set() == pending_indices(*set),
{
    set.iter().map(|index| *index).collect()
}

/// `DashSet::clear`, called by the set's only holder: afterwards the set holds
/// no key.
#[verifier::external_body]
fn dash_clear(set: &mut DashSet<usize, RandomState>)
    ensures
        pending_indices(*final(set)) == Set::<usize>::empty(),
{
    set.clear()
}

/// The set of control indices whose change has not been dispatched yet.
pub struct ChangeTracker {
    pending: DashSet<usize, RandomState>,
}

impl View for ChangeTracker {
    type V = Set<usize>;

    closed spec fn view(&self) -> Set<usize> {
        pending_indices(self.pending)
    }
}

/// What a drain is: it hands out each index that was pending once, in any
/// order, and leaves nothing pending.
pub open spec fn is_drain(before: Set<usize>, indices: Seq<usize>, after: Set<usize>) -> bool {
    &&& indices.no_duplicates()
    &&& indices.to_set() == before
    &&& after == Set::<usize>::empty()
}

impl ChangeTracker {
    /// A tracker with nothing pending.
    pub fn new() -> (tracker: ChangeTracker)
        ensures
            tracker@ == Set::<usize>::empty(),
    {
        ChangeTracker { pending: dash_new() }
    }

    /// Records that the control `index` has changed. Marking an index that is
    /// already pending changes nothing.
    pub fn mark_dirty(&mut self, index: usize)
        ensures
            final(self)@ == old(self)@.insert(index),
    {
        dash_insert(&mut self.pending, index);
    }

    /// Empties the tracker and hands out the indices that were pending, each
    /// once, in no particular order.
    pub fn drain(&mut self) -> (indices: Vec<usize>)
        ensures
            is_drain(old(self)@, indices@, final(self)@),
            old(self)@.finite(),
            indices@.len() == old(self)@.len(),
    {
        let indices = dash_indices(&self.pending);
        dash_clear(&mut self.pending);
        proof {
            vstd::seq_lib::seq_to_set_is_finite(indices@);
            indices@.unique_seq_to_set();
        }
        indices
    }
}

} // verus!
