//! The ways a delivery can fail.

use vstd::prelude::*;

verus! {

/// Why a delivery failed. Each kind is fatal: nothing is retried.
#[derive(Clone, Copy, Debug, PartialEq, Eq, Structural)]
pub enum ErrorKind {
    /// The window enumeration itself failed.
    DiscoveryIOError,
    /// A new instance of the target could not be started.
    LaunchFailure,
    /// A new instance did not become ready within the wait bound.
    ReadinessTimeout,
    /// No window was found for a known process.
    WindowNotFound,
    /// The expected input control is missing from the target window.
    ControlNotFound,
    /// Opening, reading, locking or releasing the clipboard failed, with the
    /// OS error code.
    ClipboardAccessFailure(u32),
    /// The piped input could not be read as text.
    InputReadFailure,
    /// The target window could not be brought to the foreground.
    FocusFailure,
    /// The message carrying the text was not accepted.
    SendFailure,
}

impl ErrorKind {
    /// A short human-readable description of the failure.
    pub fn describe(&self) -> (r: &'static str) {
        match self {
            ErrorKind::DiscoveryIOError => "window enumeration failed",
            ErrorKind::LaunchFailure => "could not start the target",
            ErrorKind::ReadinessTimeout => "target failed to become ready",
            ErrorKind::WindowNotFound => "could not locate a window for the newly started instance",
            ErrorKind::ControlNotFound => "no input control found",
            ErrorKind::ClipboardAccessFailure(_) => "clipboard access failed",
            ErrorKind::InputReadFailure => "could not read the piped input",
            ErrorKind::FocusFailure => "failed to focus target",
            ErrorKind::SendFailure => "send failed",
        }
    }
}

} // verus!
