//! The one error kind of the session: an I/O failure, with the step that failed.

use vstd::prelude::*;

verus! {

/// An I/O failure of the terminal session.
#[derive(Clone, Copy, Debug, PartialEq, Eq, Structural)]
pub enum IoError {
    /// Terminal attributes could not be read, applied, or used on this platform.
    Attributes,
    /// The terminal answered a cursor position request with something else
    /// than `ESC [ row ; column R`.
    MalformedCursorReport,
    /// Reading from the input stream failed.
    Read,
    /// Writing to the output stream failed.
    Write,
}

impl IoError {
    /// What [`Self::message`] says.
    pub open spec fn message_model(self) -> Seq<char> {
        match self {
            IoError::Attributes => "Failed to use the terminal attributes."@,
            IoError::MalformedCursorReport => "Failed to get cursor position."@,
            IoError::Read => "Failed to read from the terminal."@,
            IoError::Write => "Failed to write to the terminal."@,
        }
    }

    /// A sentence for the user.
    pub fn message(&self) -> (text: &'static str)
        ensures
            text@ == self.message_model(),
    {
        match self {
            IoError::Attributes => "Failed to use the terminal attributes.",
            IoError::MalformedCursorReport => "Failed to get cursor position.",
            IoError::Read => "Failed to read from the terminal.",
            IoError::Write => "Failed to write to the terminal.",
        }
    }
}

} // verus!
