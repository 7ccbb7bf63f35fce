//! Errors that the repositories raise themselves.

use vstd::prelude::*;
use vstd::string::*;

verus! {

/// An update was requested for a record that carries no identifier.
#[derive(Clone, Debug, PartialEq, Eq)]
pub struct NoIdProvided {
    details: String,
}

impl View for NoIdProvided {
    type V = Seq<char>;

    closed spec fn view(&self) -> Seq<char> {
        self.details@
    }
}

impl NoIdProvided {
    /// An error that reads `message`.
    pub fn new(message: &str) -> (error: Self)
        ensures
            error@ == message@,
    {
        NoIdProvided { details: message.to_string() }
    }

    /// The text of the error.
    pub fn description(&self) -> (text: &str)
        ensures
            text@ == self@,
    {
        self.details.as_str()
    }

    /// The text of the error, as it is shown to a client.
    pub fn to_string(&self) -> (text: String)
        ensures
            text@ == self@,
    {
        self.details.clone()
    }
}

} // verus!
