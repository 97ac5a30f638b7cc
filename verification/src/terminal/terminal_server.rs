//! One terminal: which shell it runs, and what its reader reports.

use vstd::prelude::*;
use crate::terminal::types::TerminalMessage;
use crate::terminal::types::TerminalSize;

verus! {

/// How many bytes the reader takes from the terminal at a time.
pub const READ_BUFFER_SIZE: usize = 1024;

/// The size of a pseudo-terminal: its cells, and the size of a cell in pixels.
#[derive(Clone, Copy, Debug, PartialEq, Eq, Structural)]
pub struct PtyDimensions {
    pub rows: u16,
    pub cols: u16,
    pub pixel_width: u16,
    pub pixel_height: u16,
}

/// The pseudo-terminal size for a terminal of `size`: its rows and columns,
/// and no word on pixels.
pub fn pty_dimensions(size: TerminalSize) -> (r: PtyDimensions)
    ensures
        r == (PtyDimensions { rows: size.rows, cols: size.cols, pixel_width: 0, pixel_height: 0 }),
{
    PtyDimensions { rows: size.rows, cols: size.cols, pixel_width: 0, pixel_height: 0 }
}

/// The shell of a terminal: the one that the environment names, else
/// `cmd.exe` on Windows and `/bin/bash` elsewhere.
pub open spec fn shell_of(configured: Option<Seq<char>>, windows: bool) -> Seq<char> {
    match configured {
        Some(shell) => shell,
        None => if windows {
            "cmd.exe"@
        } else {
            "/bin/bash"@
        },
    }
}

/// The shell to start. `configured` is what the environment holds under
/// `COMSPEC` on Windows and under `SHELL` elsewhere.
pub fn shell_command(configured: Option<String>, windows: bool) -> (r: String)
    ensures
        r@ == shell_of(
            match configured {
                Some(shell) => Some(shell@),
                None => None,
            },
            windows,
        ),
{
    match configured {
        Some(shell) => shell,
        None => if windows {
            "cmd.exe".to_owned()
        } else {
            "/bin/bash".to_owned()
        },
    }
}

/// The terminal type that the shell is told, except on Windows.
pub fn term_variable(windows: bool) -> (r: Option<(String, String)>)
    ensures
        windows ==> r is None,
        !windows ==> r is Some && r->Some_0.0@ == "TERM"@ && r->Some_0.1@ == "xterm-256color"@,
{
    if windows {
        None
    } else {
        Some(("TERM".to_owned(), "xterm-256color".to_owned()))
    }
}

/// What a read from the terminal gave.
#[derive(Clone, Debug, PartialEq, Eq)]
pub enum ReadOutcome {
    /// The first `count` bytes of the buffer were filled.
    Data { count: usize },
    /// The terminal is at its end.
    EndOfFile,
    /// The read failed.
    Failed { error: String },
}

/// What the reader does after a read.
#[derive(Clone, Debug, PartialEq, Eq)]
pub struct ReaderStep {
    /// The event to publish, if any.
    pub message: Option<TerminalMessage>,
    /// Whether the reader goes on reading.
    pub keep_reading: bool,
}

/// The text of the error that reports the end of a terminal.
pub open spec fn end_of_file_text() -> Seq<char> {
    "End of file"@
}

/// One step of a terminal's reader.
///
/// Bytes that were read go out as `Output`, and the reader goes on. The end
/// of the terminal and a failed read go out as `Error`, and the reader stops.
/// A read that claims more bytes than the buffer holds counts for the whole
/// buffer; one that gave no byte counts as the end.
pub fn reader_step(terminal_id: &str, buffer: &[u8], outcome: ReadOutcome) -> (r: ReaderStep)
    ensures
        match outcome {
            ReadOutcome::Data { count } if count > 0 => {
                &&& r.keep_reading
                &&& r.message matches Some(TerminalMessage::Output { terminal_id: id, data })
                &&& id@ == terminal_id@
                &&& data@ == buffer@.take(
                    if count <= buffer@.len() {
                        count as int
                    } else {
                        buffer@.len() as int
                    },
                )
            },
            ReadOutcome::Failed { error } => {
                &&& !r.keep_reading
                &&& r.message matches Some(TerminalMessage::Error { terminal_id: id, error: text })
                &&& id@ == terminal_id@
                &&& text == error
            },
            _ => {
                &&& !r.keep_reading
                &&& r.message matches Some(TerminalMessage::Error { terminal_id: id, error: text })
                &&& id@ == terminal_id@
                &&& text@ == end_of_file_text()
            },
        },
{
    match outcome {
        ReadOutcome::Data { count } => {
            if count > 0 {
                let n = if count <= buffer.len() {
                    count
                } else {
                    buffer.len()
                };
                let mut data: Vec<u8> = Vec::new();
                let mut i: usize = 0;
                while i < n
                    invariant
                        i <= n <= buffer.len(),
                        data@ == buffer@.take(i as int),
                    decreases n - i,
                {
                    data.push(buffer[i]);
                    assert(buffer@.take(i + 1) =~= buffer@.take(i as int).push(buffer@[i as int]));
                    i += 1;
                }
                ReaderStep {
                    message: Some(
                        TerminalMessage::Output { terminal_id: terminal_id.to_owned(), data },
                    ),
                    keep_reading: true,
                }
            } else {
                ReaderStep {
                    message: Some(
                        TerminalMessage::Error {
                            terminal_id: terminal_id.to_owned(),
                            error: "End of file".to_owned(),
                        },
                    ),
                    keep_reading: false,
                }
            }
        },
        ReadOutcome::EndOfFile => ReaderStep {
            message: Some(
                TerminalMessage::Error {
                    terminal_id: terminal_id.to_owned(),
                    error: "End of file".to_owned(),
                },
            ),
            keep_reading: false,
        },
        ReadOutcome::Failed { error } => ReaderStep {
            message: Some(TerminalMessage::Error { terminal_id: terminal_id.to_owned(), error }),
            keep_reading: false,
        },
    }
}

} // verus!
