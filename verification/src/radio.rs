//! The bridge as a whole: the control bank, the change tracker, the endpoint
//! configuration and the state of the network sender, under one owner.

use crate::controls::{label_of, ControlBank, CONTROL_COUNT};
use crate::dispatch::{dispatch_of, plan_dispatch, planned_model, BackgroundTask, OutboundMessage};
use crate::driver::{is_block_dispatch, process_block};
use crate::endpoint::{default_address, EndpointConfig, EndpointModel, DEFAULT_PORT};
use crate::tracker::ChangeTracker;
use vstd::prelude::*;

verus! {

/// The mathematical content of a [`SpaceRadio`].
pub struct RadioModel {
    /// The current value of each control, by index.
    pub values: Seq<u32>,
    /// The indices of the controls with an undispatched change.
    pub dirty: Set<usize>,
    /// Where outbound messages go.
    pub endpoint: EndpointModel,
    /// Whether the network sender has been acquired.
    pub sender_available: bool,
}

impl RadioModel {
    /// The state after the control `index` was set to `value`: the control
    /// holds the value and is dirty. A write to an index without a control
    /// changes nothing.
    pub open spec fn write(self, index: usize, value: u32) -> RadioModel {
        if index < self.values.len() {
            RadioModel {
                values: self.values.update(index as int, value),
                dirty: self.dirty.insert(index),
                ..self
            }
        } else {
            self
        }
    }

    /// The state after a sequence of writes, each an index and a value, made
    /// in the order of the sequence.
    pub open spec fn write_all(self, writes: Seq<(usize, u32)>) -> RadioModel
        decreases writes.len(),
    {
        if writes.len() == 0 {
            self
        } else {
            self.write_all(writes.drop_last()).write(writes.last().0, writes.last().1)
        }
    }

    /// The state after a block's dispatch step: nothing is dirty, all else is
    /// as before.
    pub open spec fn drained(self) -> RadioModel {
        RadioModel { dirty: Set::empty(), ..self }
    }
}

/// The value of the last write to the control `index` among `writes`, if there
/// is one.
pub open spec fn last_written(writes: Seq<(usize, u32)>, index: usize) -> Option<u32>
    decreases writes.len(),
{
    if writes.len() == 0 {
        None
    } else if writes.last().0 == index {
        Some(writes.last().1)
    } else {
        last_written(writes.drop_last(), index)
    }
}

/// The bridge between the controls and the remote listener.
pub struct SpaceRadio {
    controls: ControlBank,
    endpoint: EndpointConfig,
    sender_available: bool,
    dirty_params: ChangeTracker,
}

impl View for SpaceRadio {
    type V = RadioModel;

    closed spec fn view(&self) -> RadioModel {
        RadioModel {
            values: self.controls@,
            dirty: self.dirty_params@,
            endpoint: self.endpoint@,
            sender_available: self.sender_available,
        }
    }
}

impl Default for SpaceRadio {
    /// A fresh bridge: every control at zero, nothing dirty, the endpoint at
    /// its default, and no network sender yet.
    fn default() -> (radio: SpaceRadio)
        ensures
            radio.wf(),
            radio@.values == Seq::new(CONTROL_COUNT as nat, |i: int| 0u32),
            radio@.dirty == Set::<usize>::empty(),
            radio@.endpoint.address == default_address(),
            radio@.endpoint.port == DEFAULT_PORT,
            !radio@.sender_available,
    {
        let radio = SpaceRadio {
            controls: ControlBank::new(),
            endpoint: EndpointConfig::default(),
            sender_available: false,
            dirty_params: ChangeTracker::new(),
        };
        proof {
            radio.controls.lemma_wf();
        }
        radio
    }
}

impl SpaceRadio {
    /// The bridge has its full bank of controls, each with its label, and
    /// only existing controls are dirty.
    pub closed spec fn wf(&self) -> bool {
        &&& self.controls.wf()
        &&& forall|index: usize| self.dirty_params@.contains(index) ==> index < CONTROL_COUNT
    }

    /// What well-formedness means for the model.
    pub proof fn lemma_wf(&self)
        requires
            self.wf(),
        ensures
            self@.values.len() == CONTROL_COUNT,
            forall|index: usize| self@.dirty.contains(index) ==> index < CONTROL_COUNT,
    {
        self.controls.lemma_wf();
    }

    /// Records how the acquisition of the network sender ended. After a
    /// failure the sender counts as unavailable, and tasks are discarded.
    pub fn setup_sender(&mut self, acquired: bool)
        ensures
            final(self)@ == (RadioModel { sender_available: acquired, ..old(self)@ }),
            old(self).wf() ==> final(self).wf(),
    {
        self.sender_available = acquired;
    }

    /// Replaces the endpoint configuration as a whole.
    pub fn set_endpoint(&mut self, endpoint: EndpointConfig)
        ensures
            final(self)@ == (RadioModel { endpoint: endpoint@, ..old(self)@ }),
            old(self).wf() ==> final(self).wf(),
    {
        self.endpoint = endpoint;
    }

    /// The endpoint configuration as it is now.
    pub fn endpoint(&self) -> (endpoint: &EndpointConfig)
        ensures
            endpoint@ == self@.endpoint,
    {
        &self.endpoint
    }

    /// The current value of the control `index`, or nothing where there is no
    /// such control.
    pub fn control_value(&self, index: usize) -> (value: Option<u32>)
        ensures
            value == (if index < self@.values.len() {
                Some(self@.values[index as int])
            } else {
                None
            }),
    {
        self.controls.value(index)
    }

    /// The label of the control `index`, or nothing where there is no such
    /// control.
    pub fn control_label(&self, index: usize) -> (label: Option<&String>)
        requires
            self.wf(),
        ensures
            label.is_some() == (index < CONTROL_COUNT),
            label.is_some() ==> label.unwrap()@ == label_of(index),
    {
        proof {
            self.controls.lemma_wf();
        }
        self.controls.label(index)
    }

    /// Whether the network sender has been acquired.
    pub fn sender_available(&self) -> (available: bool)
        ensures
            available == self@.sender_available,
    {
        self.sender_available
    }

    /// Sets the control `index` to `value` and marks it dirty, and says
    /// whether there is such a control; where there is none, nothing changes.
    pub fn set_control(&mut self, index: usize, value: u32) -> (written: bool)
        requires
            old(self).wf(),
        ensures
            final(self).wf(),
            written == (index < CONTROL_COUNT),
            final(self)@ == old(self)@.write(index, value),
    {
        proof {
            self.controls.lemma_wf();
        }
        let written = self.controls.set_value(index, value);
        if written {
            self.dirty_params.mark_dirty(index);
        }
        written
    }

    /// Runs the dispatch step of one processing block: one task for each dirty
    /// control, carrying the value that the control has now, in no particular
    /// order. Afterwards no control is dirty.
    pub fn process(&mut self) -> (tasks: Vec<BackgroundTask>)
        requires
            old(self).wf(),
        ensures
            final(self).wf(),
            is_block_dispatch(tasks@, old(self)@.dirty, old(self)@.values),
            old(self)@.dirty.finite(),
            tasks@.len() == old(self)@.dirty.len(),
            final(self)@ == old(self)@.drained(),
    {
        proof {
            self.controls.lemma_wf();
        }
        process_block(&mut self.dirty_params, &self.controls)
    }

    /// Decides what the execution of `task` transmits: nothing while the
    /// network sender is unavailable, else one message to the endpoint as it is
    /// configured now.
    pub fn task_executor(&self, task: BackgroundTask) -> (planned: Option<OutboundMessage>)
        ensures
            planned_model(planned) == dispatch_of(task, self@.sender_available, self@.endpoint),
    {
        plan_dispatch(task, self.sender_available, &self.endpoint)
    }
}

} // verus!
