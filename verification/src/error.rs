//! The failures of a prompt that are not the user's to mend.

use vstd::prelude::*;
use vstd::string::StringExecFns;

verus! {

/// A failure that ends a prompt.
#[derive(Debug, PartialEq, Eq)]
pub enum Error {
    /// The list of options and the prompt disagree; the message says how.
    Other(&'static str),
}

/// The message of the failure of a list of options to give the option at an
/// index that the prompt took from the list itself.
pub open spec fn out_of_range() -> Seq<char> {
    "Index out of range"@
}

impl Error {
    /// The failure of a list of options to give the option at an index.
    pub fn index_out_of_range() -> (error: Error)
        ensures
            error matches Error::Other(text) && text@ == out_of_range(),
    {
        Error::Other("Index out of range")
    }

    /// The failure in words: `Error: ` and the message.
    pub fn message(&self) -> (text: String)
        ensures
            self matches Error::Other(said) && text@ == "Error: "@ + said@,
    {
        match self {
            Error::Other(said) => {
                let mut text = String::from_str("Error: ");
                text.append(said);
                text
            },
        }
    }
}

} // verus!
