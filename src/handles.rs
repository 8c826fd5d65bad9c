//! Native identifiers, carried as plain values.
//!
//! A process handle is an owned resource that must be closed exactly once. A
//! window identifier is a borrowed reference that may go stale at any moment:
//! every use of one may fail, and that failure is reported, never assumed away.

use vstd::prelude::*;

verus! {

/// A top-level or child window.
#[derive(Clone, Copy, Debug, PartialEq, Eq, Structural)]
pub struct WindowRef {
    pub id: isize,
}

/// An open handle to a process, with that process's identifier.
#[derive(Clone, Copy, Debug, PartialEq, Eq, Structural)]
pub struct ProcessRef {
    pub handle: isize,
    pub pid: u32,
}

/// Clipboard text held in place: the clipboard's data handle, locked, and the
/// address of its null-terminated UTF-16 text. Valid only while the data
/// handle stays locked and the clipboard stays open.
#[derive(Clone, Copy, Debug, PartialEq, Eq, Structural)]
pub struct ClipboardView {
    pub data: isize,
    pub text: usize,
}

/// A window found for the target: the window and its process.
#[derive(Clone, Copy, Debug, PartialEq, Eq, Structural)]
pub struct Found {
    pub window: WindowRef,
    pub process: ProcessRef,
}

} // verus!
