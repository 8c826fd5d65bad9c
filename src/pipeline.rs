//! The delivery pipeline as a state machine.
//!
//! The pipeline never touches the OS itself. At each point it names the one
//! operation to perform next (`Pipeline::action`); the driver performs it and
//! reports what happened (`Pipeline::advance`). Every failure routes through
//! the release of whatever is still held: the clipboard lock, the clipboard,
//! and the process handle, in that order.

use vstd::prelude::*;
use crate::error::ErrorKind;
use crate::handles::{ClipboardView, Found, ProcessRef, WindowRef};
use crate::text::{empty_payload, piped_payload, utf16_of, TERMINATOR};

verus! {

/// How long a newly started instance may take to become ready, in milliseconds.
pub const READY_TIMEOUT_MS: u32 = 2500;

/// Where the pipeline stands. Stages only ever move forward, in this order.
#[derive(Clone, Copy, Debug, PartialEq, Eq, Structural)]
pub enum Stage {
    Discovering,
    Launching,
    WaitingReady,
    LocatingWindow,
    ResolvingControl,
    CheckingInput,
    ReadingPipe,
    CheckingClipboard,
    OpeningClipboard,
    FetchingClipboard,
    LockingClipboard,
    Focusing,
    Sending,
    Unlocking,
    ClosingClipboard,
    ClosingProcess,
    Finished,
}

/// Position of a stage in the forward order.
pub open spec fn rank(s: Stage) -> nat {
    match s {
        Stage::Discovering => 0,
        Stage::Launching => 1,
        Stage::WaitingReady => 2,
        Stage::LocatingWindow => 3,
        Stage::ResolvingControl => 4,
        Stage::CheckingInput => 5,
        Stage::ReadingPipe => 6,
        Stage::CheckingClipboard => 7,
        Stage::OpeningClipboard => 8,
        Stage::FetchingClipboard => 9,
        Stage::LockingClipboard => 10,
        Stage::Focusing => 11,
        Stage::Sending => 12,
        Stage::Unlocking => 13,
        Stage::ClosingClipboard => 14,
        Stage::ClosingProcess => 15,
        Stage::Finished => 16,
    }
}

/// The text to deliver: an owned buffer, or clipboard text read in place.
#[derive(Clone, Debug)]
pub enum Payload {
    Units(Vec<u16>),
    Clipboard(ClipboardView),
}

/// A payload as a mathematical value.
pub ghost enum PayloadModel {
    Units(Seq<u16>),
    Clipboard(ClipboardView),
}

/// What the pipeline holds and where it stands, apart from the payload.
#[derive(Clone, Copy, Debug, PartialEq, Eq, Structural)]
pub struct Progress {
    pub stage: Stage,
    /// The owned handle of the target process.
    pub process: Option<ProcessRef>,
    /// The target's top-level window.
    pub window: Option<WindowRef>,
    /// The input control inside that window.
    pub control: Option<WindowRef>,
    /// Whether the clipboard is open.
    pub clipboard_open: bool,
    /// The clipboard's text data handle.
    pub data: Option<isize>,
    /// Whether that data handle is locked.
    pub locked: bool,
    /// The first failure, once one has happened.
    pub failure: Option<ErrorKind>,
}

/// The pipeline as a mathematical value.
pub ghost struct PipelineModel {
    pub progress: Progress,
    pub payload: Option<PayloadModel>,
}

/// The outcome of an operation that the driver performed.
#[derive(Clone, Debug)]
pub enum Event {
    /// Discovery finished; the target's window and process if one runs.
    Discovered(Option<Found>),
    DiscoveryFailed,
    Launched(ProcessRef),
    LaunchFailed,
    Ready,
    NotReady,
    WindowLocated(WindowRef),
    NoWindow,
    ControlResolved(WindowRef),
    NoControl,
    /// Whether standard input is an interactive terminal.
    InputIsTerminal(bool),
    /// The whole piped input.
    PipedText(String),
    InputReadFailed,
    /// Whether the clipboard offers text.
    TextFormat(bool),
    ClipboardOpened,
    ClipboardOpenFailed(u32),
    ClipboardData(isize),
    ClipboardDataFailed(u32),
    /// The data handle is locked; the address of its text.
    Locked(usize),
    LockFailed(u32),
    Focused,
    FocusFailed,
    Sent,
    SendFailed,
    Unlocked,
    UnlockFailed(u32),
    ClipboardClosed,
    ClipboardCloseFailed(u32),
    ProcessClosed,
}

/// The operation the driver is to perform next.
#[derive(Clone, Copy, Debug, PartialEq, Eq, Structural)]
pub enum Action {
    /// Look for a running target by its executable name.
    FindExisting,
    /// Start a new target instance.
    Launch,
    /// Wait, at most `timeout_ms`, until the process accepts input.
    WaitReady { process: ProcessRef, timeout_ms: u32 },
    /// Find a top-level window of the process `pid`.
    LocateWindow { pid: u32 },
    /// Find the input control among the window's children.
    ResolveControl { window: WindowRef },
    /// Tell whether standard input is an interactive terminal.
    CheckInput,
    /// Read standard input to its end.
    ReadPipe,
    /// Tell whether the clipboard offers text.
    CheckClipboardFormat,
    OpenClipboard,
    GetClipboardData,
    LockClipboardData { data: isize },
    /// Bring the window to the foreground.
    Focus { window: WindowRef },
    /// Send the payload to the control as its new text.
    Send { control: WindowRef },
    UnlockClipboardData { data: isize },
    CloseClipboard,
    CloseProcess { process: ProcessRef },
    /// Stop, with the failure if there was one.
    Exit { failure: Option<ErrorKind> },
}

/// The first cleanup stage that something still held requires.
pub open spec fn cleanup_stage(p: Progress) -> Stage {
    if p.locked {
        Stage::Unlocking
    } else if p.clipboard_open {
        Stage::ClosingClipboard
    } else if p.process.is_some() {
        Stage::ClosingProcess
    } else {
        Stage::Finished
    }
}

/// Record a failure, keeping an earlier one, and move to cleanup.
pub open spec fn fail_spec(p: Progress, kind: ErrorKind) -> Progress {
    let q = Progress {
        failure: if p.failure.is_some() { p.failure } else { Some(kind) },
        ..p
    };
    Progress { stage: cleanup_stage(q), ..q }
}

/// Move to cleanup, or finish if nothing is held.
pub open spec fn release_spec(p: Progress) -> Progress {
    Progress { stage: cleanup_stage(p), ..p }
}

impl PipelineModel {
    pub open spec fn initial() -> PipelineModel {
        PipelineModel {
            progress: Progress {
                stage: Stage::Discovering,
                process: None,
                window: None,
                control: None,
                clipboard_open: false,
                data: None,
                locked: false,
                failure: None,
            },
            payload: None,
        }
    }

    pub open spec fn stage(self) -> Stage {
        self.progress.stage
    }

    /// What must hold of the fields at each stage.
    pub open spec fn wf(self) -> bool {
        let p = self.progress;
        &&& p.locked ==> p.clipboard_open && p.data.is_some()
        &&& p.data.is_some() ==> p.clipboard_open
        &&& rank(p.stage) < rank(Stage::Unlocking) ==> p.failure.is_none()
        &&& match p.stage {
            Stage::Discovering | Stage::Launching => {
                &&& p.process.is_none()
                &&& !p.clipboard_open
                &&& self.payload.is_none()
            },
            Stage::WaitingReady | Stage::LocatingWindow => {
                &&& p.process.is_some()
                &&& !p.clipboard_open
                &&& self.payload.is_none()
            },
            Stage::ResolvingControl => {
                &&& p.process.is_some()
                &&& p.window.is_some()
                &&& !p.clipboard_open
                &&& self.payload.is_none()
            },
            Stage::CheckingInput | Stage::ReadingPipe | Stage::CheckingClipboard
            | Stage::OpeningClipboard => {
                &&& p.process.is_some()
                &&& p.window.is_some()
                &&& p.control.is_some()
                &&& !p.clipboard_open
                &&& self.payload.is_none()
            },
            Stage::FetchingClipboard => {
                &&& p.process.is_some()
                &&& p.window.is_some()
                &&& p.control.is_some()
                &&& p.clipboard_open
                &&& p.data.is_none()
                &&& self.payload.is_none()
            },
            Stage::LockingClipboard => {
                &&& p.process.is_some()
                &&& p.window.is_some()
                &&& p.control.is_some()
                &&& p.data.is_some()
                &&& !p.locked
                &&& self.payload.is_none()
            },
            Stage::Focusing | Stage::Sending => {
                &&& p.process.is_some()
                &&& p.window.is_some()
                &&& p.control.is_some()
                &&& self.payload.is_some()
                &&& match self.payload {
                    Some(PayloadModel::Clipboard(v)) => p.locked && p.data == Some(v.data),
                    _ => !p.clipboard_open,
                }
            },
            Stage::Unlocking => p.locked,
            Stage::ClosingClipboard => p.clipboard_open && !p.locked,
            Stage::ClosingProcess => !p.clipboard_open && p.process.is_some(),
            Stage::Finished => !p.clipboard_open && p.process.is_none(),
        }
    }

    /// The operation this state asks for.
    pub open spec fn action(self) -> Action {
        let p = self.progress;
        match p.stage {
            Stage::Discovering => Action::FindExisting,
            Stage::Launching => Action::Launch,
            Stage::WaitingReady => Action::WaitReady {
                process: p.process.unwrap(),
                timeout_ms: READY_TIMEOUT_MS,
            },
            Stage::LocatingWindow => Action::LocateWindow { pid: p.process.unwrap().pid },
            Stage::ResolvingControl => Action::ResolveControl { window: p.window.unwrap() },
            Stage::CheckingInput => Action::CheckInput,
            Stage::ReadingPipe => Action::ReadPipe,
            Stage::CheckingClipboard => Action::CheckClipboardFormat,
            Stage::OpeningClipboard => Action::OpenClipboard,
            Stage::FetchingClipboard => Action::GetClipboardData,
            Stage::LockingClipboard => Action::LockClipboardData { data: p.data.unwrap() },
            Stage::Focusing => Action::Focus { window: p.window.unwrap() },
            Stage::Sending => Action::Send { control: p.control.unwrap() },
            Stage::Unlocking => Action::UnlockClipboardData { data: p.data.unwrap() },
            Stage::ClosingClipboard => Action::CloseClipboard,
            Stage::ClosingProcess => Action::CloseProcess { process: p.process.unwrap() },
            Stage::Finished => Action::Exit { failure: p.failure },
        }
    }

    /// The state after the driver reports `e`. An event that does not answer
    /// the pending operation leaves the state as it is.
    pub open spec fn next(self, e: Event) -> PipelineModel {
        let p = self.progress;
        let s = p.stage;
        let moved = |q: Progress| PipelineModel { progress: q, ..self };
        match e {
            Event::Discovered(found) => if s == Stage::Discovering {
                match found {
                    Some(f) => moved(
                        Progress {
                            stage: Stage::ResolvingControl,
                            process: Some(f.process),
                            window: Some(f.window),
                            ..p
                        },
                    ),
                    None => moved(Progress { stage: Stage::Launching, ..p }),
                }
            } else {
                self
            },
            Event::DiscoveryFailed => if s == Stage::Discovering {
                moved(fail_spec(p, ErrorKind::DiscoveryIOError))
            } else {
                self
            },
            Event::Launched(proc_ref) => if s == Stage::Launching {
                moved(Progress { stage: Stage::WaitingReady, process: Some(proc_ref), ..p })
            } else {
                self
            },
            Event::LaunchFailed => if s == Stage::Launching {
                moved(fail_spec(p, ErrorKind::LaunchFailure))
            } else {
                self
            },
            Event::Ready => if s == Stage::WaitingReady {
                moved(Progress { stage: Stage::LocatingWindow, ..p })
            } else {
                self
            },
            Event::NotReady => if s == Stage::WaitingReady {
                moved(fail_spec(p, ErrorKind::ReadinessTimeout))
            } else {
                self
            },
            Event::WindowLocated(w) => if s == Stage::LocatingWindow {
                moved(Progress { stage: Stage::ResolvingControl, window: Some(w), ..p })
            } else {
                self
            },
            Event::NoWindow => if s == Stage::LocatingWindow {
                moved(fail_spec(p, ErrorKind::WindowNotFound))
            } else {
                self
            },
            Event::ControlResolved(c) => if s == Stage::ResolvingControl {
                moved(Progress { stage: Stage::CheckingInput, control: Some(c), ..p })
            } else {
                self
            },
            Event::NoControl => if s == Stage::ResolvingControl {
                moved(fail_spec(p, ErrorKind::ControlNotFound))
            } else {
                self
            },
            Event::InputIsTerminal(tty) => if s == Stage::CheckingInput {
                if tty {
                    moved(Progress { stage: Stage::CheckingClipboard, ..p })
                } else {
                    moved(Progress { stage: Stage::ReadingPipe, ..p })
                }
            } else {
                self
            },
            Event::PipedText(t) => if s == Stage::ReadingPipe {
                PipelineModel {
                    progress: Progress { stage: Stage::Focusing, ..p },
                    payload: Some(PayloadModel::Units(utf16_of(t@).push(TERMINATOR))),
                }
            } else {
                self
            },
            Event::InputReadFailed => if s == Stage::ReadingPipe {
                moved(fail_spec(p, ErrorKind::InputReadFailure))
            } else {
                self
            },
            Event::TextFormat(available) => if s == Stage::CheckingClipboard {
                if available {
                    moved(Progress { stage: Stage::OpeningClipboard, ..p })
                } else {
                    PipelineModel {
                        progress: Progress { stage: Stage::Focusing, ..p },
                        payload: Some(PayloadModel::Units(seq![TERMINATOR])),
                    }
                }
            } else {
                self
            },
            Event::ClipboardOpened => if s == Stage::OpeningClipboard {
                moved(Progress { stage: Stage::FetchingClipboard, clipboard_open: true, ..p })
            } else {
                self
            },
            Event::ClipboardOpenFailed(code) => if s == Stage::OpeningClipboard {
                moved(fail_spec(p, ErrorKind::ClipboardAccessFailure(code)))
            } else {
                self
            },
            Event::ClipboardData(h) => if s == Stage::FetchingClipboard {
                moved(Progress { stage: Stage::LockingClipboard, data: Some(h), ..p })
            } else {
                self
            },
            Event::ClipboardDataFailed(code) => if s == Stage::FetchingClipboard {
                moved(fail_spec(p, ErrorKind::ClipboardAccessFailure(code)))
            } else {
                self
            },
            Event::Locked(addr) => if s == Stage::LockingClipboard {
                PipelineModel {
                    progress: Progress { stage: Stage::Focusing, locked: true, ..p },
                    payload: Some(
                        PayloadModel::Clipboard(ClipboardView { data: p.data.unwrap(), text: addr }),
                    ),
                }
            } else {
                self
            },
            Event::LockFailed(code) => if s == Stage::LockingClipboard {
                moved(fail_spec(p, ErrorKind::ClipboardAccessFailure(code)))
            } else {
                self
            },
            Event::Focused => if s == Stage::Focusing {
                moved(Progress { stage: Stage::Sending, ..p })
            } else {
                self
            },
            Event::FocusFailed => if s == Stage::Focusing {
                moved(fail_spec(p, ErrorKind::FocusFailure))
            } else {
                self
            },
            Event::Sent => if s == Stage::Sending {
                moved(release_spec(p))
            } else {
                self
            },
            Event::SendFailed => if s == Stage::Sending {
                moved(fail_spec(p, ErrorKind::SendFailure))
            } else {
                self
            },
            Event::Unlocked => if s == Stage::Unlocking {
                moved(release_spec(Progress { locked: false, ..p }))
            } else {
                self
            },
            Event::UnlockFailed(code) => if s == Stage::Unlocking {
                moved(fail_spec(Progress { locked: false, ..p }, ErrorKind::ClipboardAccessFailure(code)))
            } else {
                self
            },
            Event::ClipboardClosed => if s == Stage::ClosingClipboard {
                moved(release_spec(Progress { clipboard_open: false, data: None, ..p }))
            } else {
                self
            },
            Event::ClipboardCloseFailed(code) => if s == Stage::ClosingClipboard {
                moved(
                    fail_spec(
                        Progress { clipboard_open: false, data: None, ..p },
                        ErrorKind::ClipboardAccessFailure(code),
                    ),
                )
            } else {
                self
            },
            Event::ProcessClosed => if s == Stage::ClosingProcess {
                moved(Progress { stage: Stage::Finished, process: None, ..p })
            } else {
                self
            },
        }
    }
}

impl View for Payload {
    type V = PayloadModel;

    open spec fn view(&self) -> PayloadModel {
        match self {
            Payload::Units(v) => PayloadModel::Units(v@),
            Payload::Clipboard(c) => PayloadModel::Clipboard(*c),
        }
    }
}

/// Each event keeps the fields consistent with the stage.
pub proof fn lemma_next_wf(m: PipelineModel, e: Event)
    requires
        m.wf(),
    ensures
        m.next(e).wf(),
{
}

fn cleanup_stage_of(p: Progress) -> (r: Stage)
    ensures
        r == cleanup_stage(p),
{
    if p.locked {
        Stage::Unlocking
    } else if p.clipboard_open {
        Stage::ClosingClipboard
    } else if p.process.is_some() {
        Stage::ClosingProcess
    } else {
        Stage::Finished
    }
}

fn fail(p: Progress, kind: ErrorKind) -> (r: Progress)
    ensures
        r == fail_spec(p, kind),
{
    let q = Progress { failure: if p.failure.is_some() { p.failure } else { Some(kind) }, ..p };
    Progress { stage: cleanup_stage_of(q), ..q }
}

fn release(p: Progress) -> (r: Progress)
    ensures
        r == release_spec(p),
{
    Progress { stage: cleanup_stage_of(p), ..p }
}

/// A delivery in progress. Created by `new`, driven by `action` and `advance`.
pub struct Pipeline {
    progress: Progress,
    payload: Option<Payload>,
}

impl View for Pipeline {
    type V = PipelineModel;

    closed spec fn view(&self) -> PipelineModel {
        PipelineModel {
            progress: self.progress,
            payload: match self.payload {
                Some(x) => Some(x@),
                None => None,
            },
        }
    }
}

impl Pipeline {
    #[verifier::type_invariant]
    spec fn inv(self) -> bool {
        self@.wf()
    }

    /// A pipeline about to look for a running target.
    pub fn new() -> (r: Pipeline)
        ensures
            r@ == PipelineModel::initial(),
    {
        Pipeline {
            progress: Progress {
                stage: Stage::Discovering,
                process: None,
                window: None,
                control: None,
                clipboard_open: false,
                data: None,
                locked: false,
                failure: None,
            },
            payload: None,
        }
    }

    /// Where the pipeline stands, and what it holds.
    pub fn progress(&self) -> (r: Progress)
        ensures
            r == self@.progress,
    {
        self.progress
    }

    /// The text to deliver, once it has been obtained.
    pub fn payload(&self) -> (r: &Option<Payload>)
        ensures
            r.is_some() == self@.payload.is_some(),
            r.is_some() ==> r.unwrap()@ == self@.payload.unwrap(),
    {
        &self.payload
    }

    /// The operation to perform next.
    pub fn action(&self) -> (r: Action)
        ensures
            r == self@.action(),
    {
        proof {
            use_type_invariant(self);
        }
        let p = self.progress;
        match p.stage {
            Stage::Discovering => Action::FindExisting,
            Stage::Launching => Action::Launch,
            Stage::WaitingReady => Action::WaitReady {
                process: p.process.unwrap(),
                timeout_ms: READY_TIMEOUT_MS,
            },
            Stage::LocatingWindow => Action::LocateWindow { pid: p.process.unwrap().pid },
            Stage::ResolvingControl => Action::ResolveControl { window: p.window.unwrap() },
            Stage::CheckingInput => Action::CheckInput,
            Stage::ReadingPipe => Action::ReadPipe,
            Stage::CheckingClipboard => Action::CheckClipboardFormat,
            Stage::OpeningClipboard => Action::OpenClipboard,
            Stage::FetchingClipboard => Action::GetClipboardData,
            Stage::LockingClipboard => Action::LockClipboardData { data: p.data.unwrap() },
            Stage::Focusing => Action::Focus { window: p.window.unwrap() },
            Stage::Sending => Action::Send { control: p.control.unwrap() },
            Stage::Unlocking => Action::UnlockClipboardData { data: p.data.unwrap() },
            Stage::ClosingClipboard => Action::CloseClipboard,
            Stage::ClosingProcess => Action::CloseProcess { process: p.process.unwrap() },
            Stage::Finished => Action::Exit { failure: p.failure },
        }
    }

    /// Whether the pipeline has stopped.
    pub fn is_finished(&self) -> (r: bool)
        ensures
            r == (self@.stage() == Stage::Finished),
    {
        self.progress.stage == Stage::Finished
    }

    /// Take in the outcome of the pending operation.
    pub fn advance(self, ev: Event) -> (r: Pipeline)
        ensures
            r@ == self@.next(ev),
    {
        proof {
            use_type_invariant(&self);
            lemma_next_wf(self@, ev);
        }
        let p = self.progress;
        let s = p.stage;
        let mut q = p;
        let mut fresh: Option<Payload> = None;
        match ev {
            Event::Discovered(found) => if s == Stage::Discovering {
                match found {
                    Some(f) => {
                        q = Progress {
                            stage: Stage::ResolvingControl,
                            process: Some(f.process),
                            window: Some(f.window),
                            ..p
                        };
                    },
                    None => {
                        q = Progress { stage: Stage::Launching, ..p };
                    },
                }
            },
            Event::DiscoveryFailed => if s == Stage::Discovering {
                q = fail(p, ErrorKind::DiscoveryIOError);
            },
            Event::Launched(proc_ref) => if s == Stage::Launching {
                q = Progress { stage: Stage::WaitingReady, process: Some(proc_ref), ..p };
            },
            Event::LaunchFailed => if s == Stage::Launching {
                q = fail(p, ErrorKind::LaunchFailure);
            },
            Event::Ready => if s == Stage::WaitingReady {
                q = Progress { stage: Stage::LocatingWindow, ..p };
            },
            Event::NotReady => if s == Stage::WaitingReady {
                q = fail(p, ErrorKind::ReadinessTimeout);
            },
            Event::WindowLocated(w) => if s == Stage::LocatingWindow {
                q = Progress { stage: Stage::ResolvingControl, window: Some(w), ..p };
            },
            Event::NoWindow => if s == Stage::LocatingWindow {
                q = fail(p, ErrorKind::WindowNotFound);
            },
            Event::ControlResolved(c) => if s == Stage::ResolvingControl {
                q = Progress { stage: Stage::CheckingInput, control: Some(c), ..p };
            },
            Event::NoControl => if s == Stage::ResolvingControl {
                q = fail(p, ErrorKind::ControlNotFound);
            },
            Event::InputIsTerminal(tty) => if s == Stage::CheckingInput {
                if tty {
                    q = Progress { stage: Stage::CheckingClipboard, ..p };
                } else {
                    q = Progress { stage: Stage::ReadingPipe, ..p };
                }
            },
            Event::PipedText(t) => if s == Stage::ReadingPipe {
                q = Progress { stage: Stage::Focusing, ..p };
                fresh = Some(Payload::Units(piped_payload(t.as_str())));
            },
            Event::InputReadFailed => if s == Stage::ReadingPipe {
                q = fail(p, ErrorKind::InputReadFailure);
            },
            Event::TextFormat(available) => if s == Stage::CheckingClipboard {
                if available {
                    q = Progress { stage: Stage::OpeningClipboard, ..p };
                } else {
                    q = Progress { stage: Stage::Focusing, ..p };
                    fresh = Some(Payload::Units(empty_payload()));
                }
            },
            Event::ClipboardOpened => if s == Stage::OpeningClipboard {
                q = Progress { stage: Stage::FetchingClipboard, clipboard_open: true, ..p };
            },
            Event::ClipboardOpenFailed(code) => if s == Stage::OpeningClipboard {
                q = fail(p, ErrorKind::ClipboardAccessFailure(code));
            },
            Event::ClipboardData(h) => if s == Stage::FetchingClipboard {
                q = Progress { stage: Stage::LockingClipboard, data: Some(h), ..p };
            },
            Event::ClipboardDataFailed(code) => if s == Stage::FetchingClipboard {
                q = fail(p, ErrorKind::ClipboardAccessFailure(code));
            },
            Event::Locked(addr) => if s == Stage::LockingClipboard {
                q = Progress { stage: Stage::Focusing, locked: true, ..p };
                fresh = Some(Payload::Clipboard(ClipboardView { data: p.data.unwrap(), text: addr }));
            },
            Event::LockFailed(code) => if s == Stage::LockingClipboard {
                q = fail(p, ErrorKind::ClipboardAccessFailure(code));
            },
            Event::Focused => if s == Stage::Focusing {
                q = Progress { stage: Stage::Sending, ..p };
            },
            Event::FocusFailed => if s == Stage::Focusing {
                q = fail(p, ErrorKind::FocusFailure);
            },
            Event::Sent => if s == Stage::Sending {
                q = release(p);
            },
            Event::SendFailed => if s == Stage::Sending {
                q = fail(p, ErrorKind::SendFailure);
            },
            Event::Unlocked => if s == Stage::Unlocking {
                q = release(Progress { locked: false, ..p });
            },
            Event::UnlockFailed(code) => if s == Stage::Unlocking {
                q = fail(Progress { locked: false, ..p }, ErrorKind::ClipboardAccessFailure(code));
            },
            Event::ClipboardClosed => if s == Stage::ClosingClipboard {
                q = release(Progress { clipboard_open: false, data: None, ..p });
            },
            Event::ClipboardCloseFailed(code) => if s == Stage::ClosingClipboard {
                q = fail(
                    Progress { clipboard_open: false, data: None, ..p },
                    ErrorKind::ClipboardAccessFailure(code),
                );
            },
            Event::ProcessClosed => if s == Stage::ClosingProcess {
                q = Progress { stage: Stage::Finished, process: None, ..p };
            },
        }
        let payload = if fresh.is_some() { fresh } else { self.payload };
        Pipeline { progress: q, payload }
    }
}

} // verus!
