//! The outcome of handing a link to the system.
//!
//! Opening a link is the operating system's work, and this library does not
//! call it. A caller builds the text, has it opened, and passes what came back
//! to [`dispatch_result`], which keeps the link with the failure so that it
//! can be reported.

use vstd::prelude::*;

verus! {

/// The system could not open a link.
#[derive(Debug, PartialEq, Eq)]
pub struct DispatchError {
    /// The link that was to be opened.
    pub uri: String,
    /// What the system said of the failure.
    pub reason: String,
}

/// Turns the outcome of opening `uri` into a result: success stays success,
/// and a failure is returned, never swallowed, as an error that names the
/// link and the reason.
pub fn dispatch_result(uri: String, outcome: Result<(), String>) -> (result: Result<
    (),
    DispatchError,
>)
    ensures
        outcome is Ok ==> result is Ok,
        outcome matches Err(reason) ==> result == Err::<(), DispatchError>(
            DispatchError { uri, reason },
        ),
{
    match outcome {
        Ok(()) => Ok(()),
        Err(reason) => Err(DispatchError { uri, reason }),
    }
}

} // verus!
