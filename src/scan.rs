//! Decisions taken for each window during a top-level window enumeration.
//!
//! The enumeration hands every window to a scan, front to back. A scan keeps
//! a single result slot, written at most once; the first match in enumeration
//! order wins. Which of several running instances comes first is up to the
//! OS's order: no other key decides.

use vstd::prelude::*;
use crate::handles::{Found, ProcessRef, WindowRef};
use crate::names::{is_target_path, is_target_path_spec};
use crate::pipeline::Event;

verus! {

/// What to do with the process handle opened for a visited window.
#[derive(Clone, Copy, Debug, PartialEq, Eq, Structural)]
pub enum Visit {
    /// The window is the target's: the scan now owns the handle.
    Take,
    /// Not the target: close the handle.
    Release,
    /// No handle was opened: nothing to release.
    Skip,
}

/// Looks for a window whose process runs the target executable.
pub struct NameScan {
    pub found: Option<Found>,
}

impl NameScan {
    pub fn new() -> (r: NameScan)
        ensures
            r.found.is_none(),
    {
        NameScan { found: None }
    }

    /// Whether the enumeration should go on.
    pub fn wants_more(&self) -> (r: bool)
        ensures
            r == self.found.is_none(),
    {
        self.found.is_none()
    }

    /// Visit `window`, owned by process `pid`. `opened` is the handle that
    /// opening that process gave, if it could be opened; `path` is the path of
    /// its executable module, empty where it could not be read. A process that
    /// cannot be opened is skipped: the scan goes on.
    pub fn visit(&mut self, window: WindowRef, pid: u32, opened: Option<isize>, path: &Vec<u16>) -> (r: Visit)
        ensures
            opened.is_none() ==> r == Visit::Skip && *final(self) == *old(self),
            opened.is_some() && (old(self).found.is_some() || !is_target_path_spec(path@)) ==> r
                == Visit::Release && *final(self) == *old(self),
            opened.is_some() && old(self).found.is_none() && is_target_path_spec(path@) ==> r
                == Visit::Take && final(self).found == Some(
                Found { window, process: ProcessRef { handle: opened.unwrap(), pid } },
            ),
    {
        match opened {
            None => Visit::Skip,
            Some(handle) => {
                if self.found.is_none() && is_target_path(path) {
                    self.found = Some(Found { window, process: ProcessRef { handle, pid } });
                    Visit::Take
                } else {
                    Visit::Release
                }
            },
        }
    }

    /// The outcome of discovery, once the enumeration has returned;
    /// `enumerated` tells whether it ran to its end without failing. A match
    /// counts even where the enumeration reports the early stop as a failure.
    pub fn finish(self, enumerated: bool) -> (r: Event)
        ensures
            self.found.is_some() ==> r == Event::Discovered(self.found),
            self.found.is_none() && enumerated ==> r == Event::Discovered(None),
            self.found.is_none() && !enumerated ==> r == Event::DiscoveryFailed,
    {
        if self.found.is_some() {
            Event::Discovered(self.found)
        } else if enumerated {
            Event::Discovered(None)
        } else {
            Event::DiscoveryFailed
        }
    }
}

/// Looks for a top-level window of one known process.
pub struct OwnerScan {
    pub pid: u32,
    pub found: Option<WindowRef>,
}

impl OwnerScan {
    pub fn new(pid: u32) -> (r: OwnerScan)
        ensures
            r.pid == pid,
            r.found.is_none(),
    {
        OwnerScan { pid, found: None }
    }

    /// Visit `window`, owned by process `owner`; returns whether the
    /// enumeration should go on.
    pub fn visit(&mut self, window: WindowRef, owner: u32) -> (r: bool)
        ensures
            final(self).pid == old(self).pid,
            old(self).found.is_none() && owner == old(self).pid ==> final(self).found == Some(
                window,
            ),
            !(old(self).found.is_none() && owner == old(self).pid) ==> final(self).found == old(
                self,
            ).found,
            r == final(self).found.is_none(),
    {
        if self.found.is_none() && owner == self.pid {
            self.found = Some(window);
        }
        self.found.is_none()
    }

    /// The outcome of the window search: a single lookup, not retried.
    pub fn finish(self) -> (r: Event)
        ensures
            r == match self.found {
                Some(w) => Event::WindowLocated(w),
                None => Event::NoWindow,
            },
    {
        match self.found {
            Some(w) => Event::WindowLocated(w),
            None => Event::NoWindow,
        }
    }
}

} // verus!
