//! Dispatch tasks and the outbound messages that they become.

use crate::decimal::{decimal, decimal_string};
use crate::endpoint::{EndpointConfig, EndpointModel};
use vstd::prelude::*;

verus! {

/// A unit of deferred work, created by the block driver and consumed once off
/// the real-time thread.
#[derive(Clone, Copy, Debug, PartialEq, Eq, Structural)]
pub enum BackgroundTask {
    /// Send the current value of one control. The value is carried as the bit
    /// pattern of a 32-bit IEEE 754 number.
    UpdateParameter { index: usize, value: u32 },
}

impl BackgroundTask {
    /// The index of the control that the task speaks of.
    pub open spec fn spec_index(self) -> usize {
        match self {
            BackgroundTask::UpdateParameter { index, .. } => index,
        }
    }

    /// The value that the task carries.
    pub open spec fn spec_value(self) -> u32 {
        match self {
            BackgroundTask::UpdateParameter { value, .. } => value,
        }
    }

    /// The index of the control that the task speaks of.
    #[verifier::when_used_as_spec(spec_index)]
    pub fn index(self) -> (index: usize)
        ensures
            index == self.spec_index(),
    {
        match self {
            BackgroundTask::UpdateParameter { index, .. } => index,
        }
    }

    /// The value that the task carries.
    #[verifier::when_used_as_spec(spec_value)]
    pub fn value(self) -> (value: u32)
        ensures
            value == self.spec_value(),
    {
        match self {
            BackgroundTask::UpdateParameter { value, .. } => value,
        }
    }
}

/// One message on its way out: a single typed argument under an address
/// pattern, for one destination.
pub struct OutboundMessage {
    /// Where the datagram goes, as `address:port`.
    pub destination: String,
    /// The address pattern of the message.
    pub address: String,
    /// The bit pattern of the 32-bit IEEE 754 argument.
    pub value: u32,
}

/// The mathematical content of an [`OutboundMessage`].
pub struct MessageModel {
    pub destination: Seq<char>,
    pub address: Seq<char>,
    pub value: u32,
}

impl View for OutboundMessage {
    type V = MessageModel;

    open spec fn view(&self) -> MessageModel {
        MessageModel {
            destination: self.destination@,
            address: self.address@,
            value: self.value,
        }
    }
}

/// The address pattern of the control `index`: a slash and the index in
/// decimal notation, counted from zero.
pub open spec fn pattern_of(index: usize) -> Seq<char> {
    seq!['/'] + decimal(index as nat)
}

/// What the execution of `task` sends: nothing while the network sender is
/// unavailable, else one message to the endpoint's destination.
pub open spec fn dispatch_of(
    task: BackgroundTask,
    sender_available: bool,
    endpoint: EndpointModel,
) -> Option<MessageModel> {
    if sender_available {
        Some(
            MessageModel {
                destination: endpoint.destination(),
                address: pattern_of(task.spec_index()),
                value: task.spec_value(),
            },
        )
    } else {
        None
    }
}

/// The mathematical content of what a planning step hands out.
pub open spec fn planned_model(planned: Option<OutboundMessage>) -> Option<MessageModel> {
    match planned {
        Some(message) => Some(message@),
        None => None,
    }
}

/// Writes the address pattern of the control `index`.
pub fn address_pattern(index: usize) -> (pattern: String)
    ensures
        pattern@ == pattern_of(index),
{
    proof {
        reveal_strlit("/");
    }
    let mut pattern = String::from_str("/");
    let digits = decimal_string(index as u64);
    pattern.append(digits.as_str());
    assert(pattern@ =~= pattern_of(index));
    pattern
}

/// Decides what the execution of `task` transmits. While the network sender is
/// unavailable the task is discarded; otherwise it becomes one message, whose
/// destination is read from `endpoint` as it is now.
pub fn plan_dispatch(task: BackgroundTask, sender_available: bool, endpoint: &EndpointConfig) -> (planned:
    Option<OutboundMessage>)
    ensures
        planned_model(planned) == dispatch_of(task, sender_available, endpoint@),
{
    if sender_available {
        Some(
            OutboundMessage {
                destination: endpoint.destination(),
                address: address_pattern(task.index()),
                value: task.value(),
            },
        )
    } else {
        None
    }
}

} // verus!
