//! What a command hands back to its caller.
use vstd::prelude::*;

verus! {

/// The result of a command: whether it took place, its payload where it
/// did, and the reason where it did not.
#[derive(Debug)]
pub struct CommandResult {
    success: bool,
    result: String,
    error_message: String,
}

/// A `CommandResult` as plain values.
pub ghost struct CommandResultView {
    pub success: bool,
    pub result: Seq<char>,
    pub error_message: Seq<char>,
}

impl CommandResultView {
    /// The result of a command that took place, with its payload.
    pub open spec fn done(result: Seq<char>) -> CommandResultView {
        CommandResultView { success: true, result, error_message: Seq::empty() }
    }

    /// The result of a command that did not take place, with the reason.
    pub open spec fn failed(error_message: Seq<char>) -> CommandResultView {
        CommandResultView { success: false, result: Seq::empty(), error_message }
    }
}

impl View for CommandResult {
    type V = CommandResultView;

    closed spec fn view(&self) -> CommandResultView {
        CommandResultView {
            success: self.success,
            result: self.result@,
            error_message: self.error_message@,
        }
    }
}

impl CommandResult {
    /// A result with the three parts given.
    pub fn new(success: bool, result: String, error_message: String) -> (r: Self)
        ensures
            r@ == (CommandResultView { success, result: result@, error_message: error_message@ }),
    {
        CommandResult { success, result, error_message }
    }

    /// The result of a command that took place, with its payload.
    pub fn done(result: String) -> (r: Self)
        ensures
            r@ == CommandResultView::done(result@),
    {
        CommandResult { success: true, result, error_message: String::new() }
    }

    /// The result of a command that did not take place, with the reason.
    pub fn failed(error_message: String) -> (r: Self)
        ensures
            r@ == CommandResultView::failed(error_message@),
    {
        CommandResult { success: false, result: String::new(), error_message }
    }

    /// Whether the command took place.
    pub fn is_success(&self) -> (r: bool)
        ensures
            r == self@.success,
    {
        self.success
    }

    /// The payload; empty where the command did not take place.
    pub fn get_result(&self) -> (r: &str)
        ensures
            r@ == self@.result,
    {
        self.result.as_str()
    }

    /// The reason for a failure; empty where the command took place.
    pub fn get_error_message(&self) -> (r: &str)
        ensures
            r@ == self@.error_message,
    {
        self.error_message.as_str()
    }
}

impl Clone for CommandResult {
    fn clone(&self) -> (r: Self)
        ensures
            r@ == self@,
    {
        CommandResult {
            success: self.success,
            result: self.result.clone(),
            error_message: self.error_message.clone(),
        }
    }
}

} // verus!
