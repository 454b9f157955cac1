//! The failures that a command can end in.

use vstd::prelude::*;
use vstd::string::*;

verus! {

/// What is said of a run that found no player to act on.
pub const NO_ACTIVE_MESSAGE: &'static str = "No active players avaiable";

/// Why a command could not be carried out.
#[derive(Debug, PartialEq, Eq)]
pub enum McError {
    /// The bus could not be reached, or a remote call or property read
    /// failed. Holds the message of the failed call.
    Transport(String),
    /// A payload did not have the shape that its protocol promises. Holds a
    /// description of what was wrong with it.
    Decode(String),
    /// No player is both eligible and, where a name was asked for, of that
    /// name.
    NoActive,
}

impl Clone for McError {
    fn clone(&self) -> (copy: McError)
        ensures
            copy == *self,
    {
        match self {
            McError::Transport(text) => McError::Transport(text.clone()),
            McError::Decode(text) => McError::Decode(text.clone()),
            McError::NoActive => McError::NoActive,
        }
    }
}

impl McError {
    /// The text that describes this failure to a person.
    pub open spec fn message_text(self) -> Seq<char> {
        match self {
            McError::Transport(text) => text@,
            McError::Decode(text) => text@,
            McError::NoActive => NO_ACTIVE_MESSAGE@,
        }
    }

    /// Renders the failure as the line that is shown to the user.
    pub fn message(&self) -> (text: String)
        ensures
            text@ == self.message_text(),
    {
        match self {
            McError::Transport(text) => text.clone(),
            McError::Decode(text) => text.clone(),
            McError::NoActive => String::from_str(NO_ACTIVE_MESSAGE),
        }
    }
}

} // verus!
