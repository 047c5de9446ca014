//! The command pane: a text field whose committed lines are meant to become
//! workload operations, and the list of operations issued so far.

use vstd::prelude::*;

use crate::operation::WtOperation;

verus! {

/// What the command pane reacts to.
#[derive(Clone, Debug)]
pub enum Message {
    /// The text in the field is now the given string.
    InputChanged(String),
    /// The text in the field was committed.
    InputFinished,
    /// An operation reports its progress.
    Progress(WtOperation),
}

/// The state of the command pane.
pub struct OperationPaneState {
    pub operations: Vec<WtOperation>,
    pub input_value: String,
}

impl OperationPaneState {
    /// No operations and an empty text field.
    pub fn new() -> (r: OperationPaneState)
        ensures
            r.operations@.len() == 0,
            r.input_value@.len() == 0,
    {
        OperationPaneState { operations: Vec::new(), input_value: String::new() }
    }

    /// The pane's window title.
    pub fn title(&self) -> (r: String)
        ensures
            r@ == "WT MT Test"@,
    {
        String::from_str("WT MT Test")
    }

    /// Reacts to `message`. A change of the text field's content is kept. A
    /// committed line is accepted and has no effect: no command language is
    /// defined, so no operation is issued. Progress reports change nothing.
    pub fn update(&mut self, message: Message)
        ensures
            final(self).operations@ == old(self).operations@,
            match message {
                Message::InputChanged(s) => final(self).input_value@ == s@,
                _ => final(self).input_value@ == old(self).input_value@,
            },
    {
        match message {
            Message::InputChanged(s) => {
                self.input_value = s;
            },
            Message::InputFinished => {},
            Message::Progress(_op) => {},
        }
    }
}

impl Default for OperationPaneState {
    fn default() -> (r: OperationPaneState)
        ensures
            r.operations@.len() == 0,
            r.input_value@.len() == 0,
    {
        OperationPaneState::new()
    }
}

} // verus!
