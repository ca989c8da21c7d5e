use vstd::prelude::*;

verus! {

/// A failed call into the windowing toolkit.
///
/// The toolkit's textual description of the failure is all that is kept:
/// causes are told apart by reading it, there is no error code beside it.
/// The view of an error is that text.
#[derive(Debug, PartialEq, Eq)]
pub struct ToolkitError {
    message: String,
}

impl View for ToolkitError {
    type V = Seq<char>;

    closed spec fn view(&self) -> Seq<char> {
        self.message@
    }
}

impl Clone for ToolkitError {
    fn clone(&self) -> (copy: Self)
        ensures
            copy@ == self@,
    {
        ToolkitError { message: self.message.clone() }
    }
}

impl ToolkitError {
    /// Records a failure under the description the toolkit gave of it.
    pub fn new(message: String) -> (error: Self)
        ensures
            error@ == message@,
    {
        ToolkitError { message }
    }

    /// The toolkit's description of the failure.
    pub fn message(&self) -> (text: &str)
        ensures
            text@ == self@,
    {
        self.message.as_str()
    }

    /// Gives up the error for its description.
    pub fn into_message(self) -> (text: String)
        ensures
            text@ == self@,
    {
        self.message
    }
}

} // verus!
