//! Where printed output goes.
use std::sync::Arc;
use vstd::prelude::*;

use crate::host::Host;

verus! {

/// A writer that hands each piece of printed output to a callback.
pub struct CallbackStringPrint<H: Host>(pub Arc<H::Callback>);

/// Where printed output goes.
pub enum PrintTarget<H: Host> {
    Callback(CallbackStringPrint<H>),
    Stdout,
}

/// The arguments of one call of a print callback.
pub struct PrintCall {
    /// The stream that was written to.
    pub stream: String,
    /// The output.
    pub text: String,
}

impl<H: Host> CallbackStringPrint<H> {
    /// A writer to a callback that the caller keeps.
    pub fn new(callback: &Arc<H::Callback>) -> (writer: Self)
        ensures
            writer.0 == *callback,
    {
        CallbackStringPrint(Arc::clone(callback))
    }

    /// A writer to a callback.
    pub fn from_py(callback: Arc<H::Callback>) -> (writer: Self)
        ensures
            writer.0 == callback,
    {
        CallbackStringPrint(callback)
    }

    /// The call for a piece of output.
    pub fn stdout_write(&self, output: &str) -> (call: PrintCall)
        ensures
            call.stream@ == "stdout"@,
            call.text@ == output@,
    {
        PrintCall { stream: "stdout".to_owned(), text: output.to_owned() }
    }

    /// The call for one character, with which a printed line ends.
    pub fn stdout_push(&self, end: char) -> (call: PrintCall)
        ensures
            call.stream@ == "stdout"@,
            call.text@ == seq![end],
    {
        let mut text: String = String::new();
        text.push(end);
        assert(text@ =~= seq![end]);
        PrintCall { stream: "stdout".to_owned(), text }
    }
}

/// Sends printed output to the callback if there is one, else to the standard
/// output.
pub fn print_target<H: Host>(print_callback: Option<&Arc<H::Callback>>) -> (target: PrintTarget<H>)
    ensures
        target == match print_callback {
            Some(callback) => PrintTarget::<H>::Callback(CallbackStringPrint(*callback)),
            None => PrintTarget::Stdout,
        },
{
    match print_callback {
        Some(callback) => PrintTarget::Callback(CallbackStringPrint::new(callback)),
        None => PrintTarget::Stdout,
    }
}

} // verus!
