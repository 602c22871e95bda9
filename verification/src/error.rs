//! The failures an operation on the workspace can end in.

use vstd::prelude::*;

verus! {

/// Why an operation failed. Each failure reaches the caller as it is:
/// nothing is retried and nothing is recovered from in silence.
#[derive(Clone, Copy, Debug, PartialEq, Eq, Structural)]
pub enum StateError {
    /// The platform names no configuration directory for the application.
    NoConfigDirectory,
    /// There is no configuration file yet.
    NotConfigured,
    /// The configuration file does not parse.
    MalformedConfig,
    /// The configuration lists no workspace.
    NoWorkspaceConfigured,
    /// The workspace index is missing or cannot be read.
    IndexReadFailed,
    /// The workspace index does not parse.
    IndexMalformed,
    /// The workspace index could not be written.
    IndexWriteFailed,
    /// A new note file could not be made.
    NoteCreateFailed,
    /// A note file could not be read.
    NoteReadFailed,
    /// A note file does not hold UTF-8 text.
    NoteNotValidText,
    /// A note could not be renamed or written.
    NoteSaveFailed,
}

impl StateError {
    /// The text of the message that goes with each failure.
    pub open spec fn message_text(self) -> Seq<char> {
        match self {
            StateError::NoConfigDirectory => "No config directory found."@,
            StateError::NotConfigured => "Not configured."@,
            StateError::MalformedConfig => "The config file is malformed."@,
            StateError::NoWorkspaceConfigured => "No workspace directories in the config."@,
            StateError::IndexReadFailed => "The workspace index could not be read."@,
            StateError::IndexMalformed => "The workspace index is malformed."@,
            StateError::IndexWriteFailed => "The workspace index could not be written."@,
            StateError::NoteCreateFailed => "The note could not be created."@,
            StateError::NoteReadFailed => "The note could not be read."@,
            StateError::NoteNotValidText => "The note is not valid UTF-8 text."@,
            StateError::NoteSaveFailed => "The note could not be saved."@,
        }
    }

    /// A message for a person to read.
    pub fn message(&self) -> (text: &'static str)
        ensures
            text@ == self.message_text(),
    {
        match self {
            StateError::NoConfigDirectory => "No config directory found.",
            StateError::NotConfigured => "Not configured.",
            StateError::MalformedConfig => "The config file is malformed.",
            StateError::NoWorkspaceConfigured => "No workspace directories in the config.",
            StateError::IndexReadFailed => "The workspace index could not be read.",
            StateError::IndexMalformed => "The workspace index is malformed.",
            StateError::IndexWriteFailed => "The workspace index could not be written.",
            StateError::NoteCreateFailed => "The note could not be created.",
            StateError::NoteReadFailed => "The note could not be read.",
            StateError::NoteNotValidText => "The note is not valid UTF-8 text.",
            StateError::NoteSaveFailed => "The note could not be saved.",
        }
    }
}

} // verus!
