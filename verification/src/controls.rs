//! The control bank: a fixed number of scalar controls, each under a stable
//! index.

use crate::decimal::{decimal, decimal_string};
use vstd::prelude::*;

verus! {

/// The number of controls in a bank.
pub const CONTROL_COUNT: usize = 64;

/// The label of the control `index`: `Ch. ` and the control's number, counted
/// from one.
pub open spec fn label_of(index: usize) -> Seq<char> {
    seq!['C', 'h', '.', ' '] + decimal(index as nat + 1)
}

/// Writes the label of the control `index`.
pub fn control_label(index: usize) -> (label: String)
    requires
        index < CONTROL_COUNT,
    ensures
        label@ == label_of(index),
{
    proof {
        reveal_strlit("Ch. ");
    }
    let mut label = String::from_str("Ch. ");
    let number = decimal_string(index as u64 + 1);
    label.append(number.as_str());
    assert(label@ =~= label_of(index));
    label
}

/// A bank of [`CONTROL_COUNT`] controls. A control is known by its index; its
/// value is the bit pattern of a 32-bit IEEE 754 number.
pub struct ControlBank {
    labels: Vec<String>,
    values: Vec<u32>,
}

impl View for ControlBank {
    type V = Seq<u32>;

    /// The current values, by control index.
    closed spec fn view(&self) -> Seq<u32> {
        self.values@
    }
}

impl ControlBank {
    /// The labels, by control index.
    pub closed spec fn labels(&self) -> Seq<Seq<char>> {
        Seq::new(self.labels@.len(), |i: int| self.labels@[i]@)
    }

    /// A bank holds exactly [`CONTROL_COUNT`] controls, and each carries the
    /// label of its index.
    pub closed spec fn wf(&self) -> bool {
        &&& self.values@.len() == CONTROL_COUNT
        &&& self.labels@.len() == CONTROL_COUNT
        &&& forall|i: int|
            0 <= i < self.labels@.len() ==> (#[trigger] self.labels@[i])@ == label_of(i as usize)
    }

    /// What well-formedness means for the bank's values and labels.
    pub proof fn lemma_wf(&self)
        requires
            self.wf(),
        ensures
            self@.len() == CONTROL_COUNT,
            self.labels().len() == CONTROL_COUNT,
            forall|i: int|
                0 <= i < CONTROL_COUNT ==> #[trigger] self.labels()[i] == label_of(i as usize),
    {
    }

    /// A bank whose controls all hold the value zero.
    pub fn new() -> (bank: ControlBank)
        ensures
            bank.wf(),
            bank@ == Seq::new(CONTROL_COUNT as nat, |i: int| 0u32),
    {
        let mut labels: Vec<String> = Vec::new();
        let mut values: Vec<u32> = Vec::new();
        let mut index: usize = 0;
        while index < CONTROL_COUNT
            invariant
                index <= CONTROL_COUNT,
                labels@.len() == index,
                values@.len() == index,
                forall|i: int| 0 <= i < index ==> (#[trigger] labels@[i])@ == label_of(i as usize),
                forall|i: int| 0 <= i < index ==> #[trigger] values@[i] == 0,
            decreases CONTROL_COUNT - index,
        {
            labels.push(control_label(index));
            values.push(0);
            index += 1;
        }
        let bank = ControlBank { labels, values };
        assert(bank@ =~= Seq::new(CONTROL_COUNT as nat, |i: int| 0u32));
        bank
    }

    /// The current value of the control `index`, or nothing where the bank has
    /// no such control.
    pub fn value(&self, index: usize) -> (value: Option<u32>)
        ensures
            value == (if index < self@.len() {
                Some(self@[index as int])
            } else {
                None
            }),
    {
        if index < self.values.len() {
            Some(self.values[index])
        } else {
            None
        }
    }

    /// The label of the control `index`, or nothing where the bank has no such
    /// control.
    pub fn label(&self, index: usize) -> (label: Option<&String>)
        ensures
            label.is_some() == (index < self.labels().len()),
            label.is_some() ==> label.unwrap()@ == self.labels()[index as int],
    {
        if index < self.labels.len() {
            Some(&self.labels[index])
        } else {
            None
        }
    }

    /// Sets the value of the control `index` and says whether the bank has such
    /// a control; where it has none, nothing changes.
    pub fn set_value(&mut self, index: usize, value: u32) -> (written: bool)
        ensures
            written == (index < old(self)@.len()),
            final(self)@ == (if written {
                old(self)@.update(index as int, value)
            } else {
                old(self)@
            }),
            final(self).labels() == old(self).labels(),
            old(self).wf() ==> final(self).wf(),
    {
        if index < self.values.len() {
            self.values.set(index, value);
            true
        } else {
            false
        }
    }
}

} // verus!
