//! The failures that the library reports.

use vstd::prelude::*;

verus! {

/// Why the autopilot's answer counts as a rejection.
#[derive(Debug, Clone, Copy, PartialEq, Eq, Structural)]
pub enum Rejection {
    /// A parameter write was read back with another wire word.
    Parameter { sent: u32, got: u32 },
    /// A command was acknowledged with a result other than "accepted".
    Command { command: u16, result: u8 },
}

/// A failure of one of the library's operations.
#[derive(Debug, Clone, PartialEq, Eq)]
pub enum CoreError {
    /// The link to the autopilot could not be established.
    Transport,
    /// A bounded wait elapsed, retries included.
    Timeout,
    /// The autopilot advertises neither parameter encoding.
    UnsupportedEncoding,
    /// A frame could not be turned into a parameter.
    Decode,
    /// The settings document could not be read as such.
    Parse(String),
    /// The autopilot answered, but not with what was asked for.
    Rejected(Rejection),
    /// The camera is not known to the manager.
    NotFound,
    /// The rendered control script is not valid; the text is the checker's.
    ScriptInvalid(String),
    /// The file system refused an operation; the text is the system's.
    Io(String),
}

} // verus!
