//! The values that terminals take and give.

use vstd::prelude::*;

verus! {

/// The size of a terminal in character cells.
#[derive(Clone, Copy, Debug, PartialEq, Eq, Structural)]
pub struct TerminalSize {
    pub rows: u16,
    pub cols: u16,
}

/// What goes over the terminal bus.
#[derive(Clone, Debug, PartialEq, Eq)]
pub enum TerminalMessage {
    Input { terminal_id: String, data: Vec<u8> },
    Output { terminal_id: String, data: Vec<u8> },
    Resize { terminal_id: String, size: TerminalSize },
    Error { terminal_id: String, error: String },
}

/// Why an operation on a terminal failed.
#[derive(Clone, Copy, Debug, PartialEq, Eq, Structural)]
pub enum TerminalError {
    /// No terminal has this id.
    TerminalNotFound,
    /// The pseudo-terminal could not be opened, or the shell not started.
    PtyAllocationFailed,
    /// The writer of the terminal is gone.
    WriterUnavailable,
}

impl TerminalError {
    /// The message shown to the client.
    pub fn message(&self) -> (r: String)
        ensures
            r@ == (match *self {
                TerminalError::TerminalNotFound => "Terminal not found"@,
                TerminalError::PtyAllocationFailed => "Failed to allocate a pseudo-terminal"@,
                TerminalError::WriterUnavailable => "Terminal writer not available"@,
            }),
    {
        match self {
            TerminalError::TerminalNotFound => "Terminal not found".to_owned(),
            TerminalError::PtyAllocationFailed => "Failed to allocate a pseudo-terminal".to_owned(),
            TerminalError::WriterUnavailable => "Terminal writer not available".to_owned(),
        }
    }
}

} // verus!
