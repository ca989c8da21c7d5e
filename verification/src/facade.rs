use vstd::prelude::*;

use crate::error::ToolkitError;

verus! {

/// Turns the outcome of one toolkit call into what the front end receives.
///
/// A success is handed on with its value unchanged. A failure is handed on
/// as the toolkit's description of it, character for character; nothing is
/// retried and nothing is hidden.
pub fn reply<T>(outcome: Result<T, ToolkitError>) -> (answer: Result<T, String>)
    ensures
        answer is Ok <==> outcome is Ok,
        outcome matches Ok(value) ==> answer == Ok::<T, String>(value),
        outcome matches Err(error) ==> answer matches Err(text) && text@ == error@,
{
    match outcome {
        Ok(value) => Ok(value),
        Err(error) => Err(error.into_message()),
    }
}

} // verus!
