//! Terminal session errors and the validation the session manager applies
//! before touching a PTY. The sessions themselves (processes, readers,
//! writers) live outside; only the decisions are here.

use vstd::prelude::*;
use vstd::string::StringExecFns;

use crate::numeric::{dec_chars, u64_to_dec};

verus! {

/// Largest accepted terminal width or height.
pub const MAX_TERMINAL_DIM: u16 = 500;

/// Errors of the interactive terminal subsystem.
#[derive(Debug, PartialEq, Eq)]
pub enum TerminalError {
    SpawnFailed(String),
    SessionNotFound(String),
    WriteFailed(String),
    ResizeFailed(String),
    ReaderInitFailed(String),
}

/// The human-readable description of a terminal failure.
pub open spec fn spec_terminal_message(e: TerminalError) -> Seq<char> {
    match e {
        TerminalError::SpawnFailed(m) => "Failed to spawn shell: "@ + m@,
        TerminalError::SessionNotFound(m) => "Session not found: "@ + m@,
        TerminalError::WriteFailed(m) => "Failed to write to terminal: "@ + m@,
        TerminalError::ResizeFailed(m) => "Failed to resize terminal: "@ + m@,
        TerminalError::ReaderInitFailed(m) => "Failed to initialize terminal reader: "@ + m@,
    }
}

impl TerminalError {
    /// Render the failure's description.
    pub fn message(&self) -> (r: String)
        ensures
            r@ == spec_terminal_message(*self),
    {
        match self {
            TerminalError::SpawnFailed(m) => {
                let mut s = "Failed to spawn shell: ".to_owned();
                s.append(m.as_str());
                s
            },
            TerminalError::SessionNotFound(m) => {
                let mut s = "Session not found: ".to_owned();
                s.append(m.as_str());
                s
            },
            TerminalError::WriteFailed(m) => {
                let mut s = "Failed to write to terminal: ".to_owned();
                s.append(m.as_str());
                s
            },
            TerminalError::ResizeFailed(m) => {
                let mut s = "Failed to resize terminal: ".to_owned();
                s.append(m.as_str());
                s
            },
            TerminalError::ReaderInitFailed(m) => {
                let mut s = "Failed to initialize terminal reader: ".to_owned();
                s.append(m.as_str());
                s
            },
        }
    }
}

/// Both dimensions lie in the accepted range.
pub open spec fn spec_dims_valid(cols: u16, rows: u16) -> bool {
    1 <= cols <= MAX_TERMINAL_DIM && 1 <= rows <= MAX_TERMINAL_DIM
}

/// The message rejecting an out-of-range resize.
pub open spec fn spec_invalid_dims_message(cols: u16, rows: u16) -> Seq<char> {
    "Invalid dimensions: "@ + dec_chars(cols as int) + "x"@ + dec_chars(rows as int)
        + " (must be 1-500)"@
}

/// Check a requested terminal size before any resize is attempted: each
/// dimension must be between 1 and 500.
pub fn validate_dimensions(cols: u16, rows: u16) -> (r: Result<(), TerminalError>)
    ensures
        r is Ok <==> spec_dims_valid(cols, rows),
        r matches Err(e) ==> (e matches TerminalError::ResizeFailed(m) && m@
            == spec_invalid_dims_message(cols, rows)),
{
    if cols == 0 || rows == 0 || cols > MAX_TERMINAL_DIM || rows > MAX_TERMINAL_DIM {
        let mut s = "Invalid dimensions: ".to_owned();
        let cols_digits = u64_to_dec(cols as u64);
        s.append(cols_digits.as_str());
        s.append("x");
        let rows_digits = u64_to_dec(rows as u64);
        s.append(rows_digits.as_str());
        s.append(" (must be 1-500)");
        Err(TerminalError::ResizeFailed(s))
    } else {
        Ok(())
    }
}

} // verus!
