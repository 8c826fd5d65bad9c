use clip_inject::error::ErrorKind;
use clip_inject::handles::{ClipboardView, Found, ProcessRef, WindowRef};
use clip_inject::pipeline::{Action, Event, Payload, Pipeline, Stage, READY_TIMEOUT_MS};

const TOP: WindowRef = WindowRef { id: 0x100 };
const EDIT: WindowRef = WindowRef { id: 0x200 };
const PROC: ProcessRef = ProcessRef { handle: 0x44, pid: 1234 };

/// Feeds the events in order; returns every action asked for, the last one
/// included, and the final pipeline.
fn run(events: Vec<Event>) -> (Vec<Action>, Pipeline) {
    let mut p = Pipeline::new();
    let mut actions = Vec::new();
    for e in events {
        actions.push(p.action());
        p = p.advance(e);
    }
    actions.push(p.action());
    (actions, p)
}

fn found() -> Event {
    Event::Discovered(Some(Found { window: TOP, process: PROC }))
}

fn sent_any(actions: &[Action]) -> bool {
    actions.iter().any(|a| matches!(a, Action::Send { .. }))
}

#[test]
fn scenario_piped_hello() {
    let (actions, p) = run(vec![
        found(),
        Event::ControlResolved(EDIT),
        Event::InputIsTerminal(false),
        Event::PipedText("hello".to_string()),
        Event::Focused,
    ]);
    assert_eq!(actions[5], Action::Send { control: EDIT });
    match p.payload() {
        Some(Payload::Units(u)) => assert_eq!(
            u,
            &vec!['h' as u16, 'e' as u16, 'l' as u16, 'l' as u16, 'o' as u16, 0]
        ),
        other => panic!("unexpected payload {:?}", other),
    }
    let p = p.advance(Event::Sent);
    assert_eq!(p.action(), Action::CloseProcess { process: PROC });
    let p = p.advance(Event::ProcessClosed);
    assert_eq!(p.action(), Action::Exit { failure: None });
    assert!(p.is_finished());
}

#[test]
fn scenario_clipboard_unicode_is_sent_in_place() {
    let clip: Vec<u16> = "Ünïcodé\0".encode_utf16().collect();
    let addr = clip.as_ptr() as usize;
    let (actions, p) = run(vec![
        found(),
        Event::ControlResolved(EDIT),
        Event::InputIsTerminal(true),
        Event::TextFormat(true),
        Event::ClipboardOpened,
        Event::ClipboardData(0x77),
        Event::Locked(addr),
        Event::Focused,
    ]);
    assert_eq!(actions[3], Action::CheckClipboardFormat);
    assert_eq!(actions[6], Action::LockClipboardData { data: 0x77 });
    assert_eq!(actions[8], Action::Send { control: EDIT });
    match p.payload() {
        Some(Payload::Clipboard(v)) => {
            assert_eq!(*v, ClipboardView { data: 0x77, text: addr });
            assert_eq!(v.text, clip.as_ptr() as usize);
        }
        other => panic!("unexpected payload {:?}", other),
    }
    let p = p.advance(Event::Sent);
    assert_eq!(p.action(), Action::UnlockClipboardData { data: 0x77 });
    let p = p.advance(Event::Unlocked);
    assert_eq!(p.action(), Action::CloseClipboard);
    let p = p.advance(Event::ClipboardClosed);
    assert_eq!(p.action(), Action::CloseProcess { process: PROC });
    let p = p.advance(Event::ProcessClosed);
    assert_eq!(p.action(), Action::Exit { failure: None });
}

#[test]
fn scenario_launch_then_ready_reaches_control_resolution() {
    let (actions, _) = run(vec![
        Event::Discovered(None),
        Event::Launched(PROC),
        Event::Ready,
        Event::WindowLocated(TOP),
    ]);
    assert_eq!(
        actions,
        vec![
            Action::FindExisting,
            Action::Launch,
            Action::WaitReady { process: PROC, timeout_ms: 2500 },
            Action::LocateWindow { pid: 1234 },
            Action::ResolveControl { window: TOP },
        ]
    );
    assert_eq!(READY_TIMEOUT_MS, 2500);
}

#[test]
fn scenario_readiness_timeout() {
    let (actions, p) = run(vec![
        Event::Discovered(None),
        Event::Launched(PROC),
        Event::NotReady,
        Event::ProcessClosed,
    ]);
    assert_eq!(actions[3], Action::CloseProcess { process: PROC });
    assert_eq!(actions[4], Action::Exit { failure: Some(ErrorKind::ReadinessTimeout) });
    assert!(!sent_any(&actions));
    assert!(p.payload().is_none());
}

#[test]
fn scenario_control_not_found() {
    let (actions, p) = run(vec![found(), Event::NoControl, Event::ProcessClosed]);
    assert_eq!(actions[2], Action::CloseProcess { process: PROC });
    assert_eq!(actions[3], Action::Exit { failure: Some(ErrorKind::ControlNotFound) });
    assert!(!actions.iter().any(|a| matches!(a, Action::OpenClipboard)));
    assert!(!p.progress().clipboard_open);
}

#[test]
fn running_instance_is_reused() {
    let (actions, _) = run(vec![found(), Event::ControlResolved(EDIT)]);
    assert!(!actions.contains(&Action::Launch));
    assert_eq!(actions[1], Action::ResolveControl { window: TOP });
}

#[test]
fn empty_clipboard_sends_terminator() {
    let (actions, p) = run(vec![
        found(),
        Event::ControlResolved(EDIT),
        Event::InputIsTerminal(true),
        Event::TextFormat(false),
    ]);
    assert_eq!(actions[4], Action::Focus { window: TOP });
    match p.payload() {
        Some(Payload::Units(u)) => assert_eq!(u, &vec![0u16]),
        other => panic!("unexpected payload {:?}", other),
    }
    assert!(!actions.contains(&Action::OpenClipboard));
}

#[test]
fn focus_failure_after_lock_releases_clipboard() {
    let (actions, p) = run(vec![
        found(),
        Event::ControlResolved(EDIT),
        Event::InputIsTerminal(true),
        Event::TextFormat(true),
        Event::ClipboardOpened,
        Event::ClipboardData(9),
        Event::Locked(0x5000),
        Event::FocusFailed,
        Event::Unlocked,
        Event::ClipboardClosed,
        Event::ProcessClosed,
    ]);
    assert_eq!(actions[8], Action::UnlockClipboardData { data: 9 });
    assert_eq!(actions[9], Action::CloseClipboard);
    assert_eq!(actions[10], Action::CloseProcess { process: PROC });
    assert_eq!(actions[11], Action::Exit { failure: Some(ErrorKind::FocusFailure) });
    assert!(!sent_any(&actions));
    assert_eq!(p.progress().stage, Stage::Finished);
}

#[test]
fn send_failure_after_lock_releases_clipboard() {
    let (actions, _) = run(vec![
        found(),
        Event::ControlResolved(EDIT),
        Event::InputIsTerminal(true),
        Event::TextFormat(true),
        Event::ClipboardOpened,
        Event::ClipboardData(9),
        Event::Locked(0x5000),
        Event::Focused,
        Event::SendFailed,
        Event::Unlocked,
        Event::ClipboardClosed,
        Event::ProcessClosed,
    ]);
    let unlocks = actions.iter().filter(|a| matches!(a, Action::UnlockClipboardData { .. })).count();
    let closes = actions.iter().filter(|a| matches!(a, Action::CloseClipboard)).count();
    assert_eq!(unlocks, 1);
    assert_eq!(closes, 1);
    assert_eq!(actions[12], Action::Exit { failure: Some(ErrorKind::SendFailure) });
}

#[test]
fn clipboard_data_failure_closes_clipboard_without_unlock() {
    let (actions, _) = run(vec![
        found(),
        Event::ControlResolved(EDIT),
        Event::InputIsTerminal(true),
        Event::TextFormat(true),
        Event::ClipboardOpened,
        Event::ClipboardDataFailed(6),
        Event::ClipboardClosed,
        Event::ProcessClosed,
    ]);
    assert_eq!(actions[6], Action::CloseClipboard);
    assert!(!actions.iter().any(|a| matches!(a, Action::UnlockClipboardData { .. })));
    assert_eq!(actions[8], Action::Exit { failure: Some(ErrorKind::ClipboardAccessFailure(6)) });
}

#[test]
fn lock_failure_closes_clipboard() {
    let (actions, _) = run(vec![
        found(),
        Event::ControlResolved(EDIT),
        Event::InputIsTerminal(true),
        Event::TextFormat(true),
        Event::ClipboardOpened,
        Event::ClipboardData(9),
        Event::LockFailed(8),
        Event::ClipboardClosed,
        Event::ProcessClosed,
    ]);
    assert_eq!(actions[7], Action::CloseClipboard);
    assert_eq!(actions[9], Action::Exit { failure: Some(ErrorKind::ClipboardAccessFailure(8)) });
}

#[test]
fn open_failure_carries_os_code() {
    let (actions, _) = run(vec![
        found(),
        Event::ControlResolved(EDIT),
        Event::InputIsTerminal(true),
        Event::TextFormat(true),
        Event::ClipboardOpenFailed(5),
        Event::ProcessClosed,
    ]);
    assert_eq!(actions[5], Action::CloseProcess { process: PROC });
    assert_eq!(actions[6], Action::Exit { failure: Some(ErrorKind::ClipboardAccessFailure(5)) });
}

#[test]
fn release_failure_is_reported_after_success() {
    let (actions, _) = run(vec![
        found(),
        Event::ControlResolved(EDIT),
        Event::InputIsTerminal(true),
        Event::TextFormat(true),
        Event::ClipboardOpened,
        Event::ClipboardData(9),
        Event::Locked(0x5000),
        Event::Focused,
        Event::Sent,
        Event::UnlockFailed(158),
        Event::ClipboardCloseFailed(1418),
        Event::ProcessClosed,
    ]);
    assert_eq!(actions[10], Action::CloseClipboard);
    assert_eq!(actions[12], Action::Exit { failure: Some(ErrorKind::ClipboardAccessFailure(158)) });
}

#[test]
fn discovery_failure_is_fatal() {
    let (actions, _) = run(vec![Event::DiscoveryFailed]);
    assert_eq!(actions[1], Action::Exit { failure: Some(ErrorKind::DiscoveryIOError) });
}

#[test]
fn launch_failure_is_fatal() {
    let (actions, _) = run(vec![Event::Discovered(None), Event::LaunchFailed]);
    assert_eq!(actions[2], Action::Exit { failure: Some(ErrorKind::LaunchFailure) });
}

#[test]
fn window_not_found_is_fatal() {
    let (actions, _) = run(vec![
        Event::Discovered(None),
        Event::Launched(PROC),
        Event::Ready,
        Event::NoWindow,
        Event::ProcessClosed,
    ]);
    assert_eq!(actions[5], Action::Exit { failure: Some(ErrorKind::WindowNotFound) });
}

#[test]
fn input_read_failure_is_fatal() {
    let (actions, _) = run(vec![
        found(),
        Event::ControlResolved(EDIT),
        Event::InputIsTerminal(false),
        Event::InputReadFailed,
        Event::ProcessClosed,
    ]);
    assert_eq!(actions[5], Action::Exit { failure: Some(ErrorKind::InputReadFailure) });
    assert!(!sent_any(&actions));
}

#[test]
fn unexpected_event_changes_nothing() {
    let (actions, p) = run(vec![Event::Sent, Event::ClipboardOpened, Event::Ready]);
    assert!(actions.iter().all(|a| *a == Action::FindExisting));
    assert_eq!(p.progress().stage, Stage::Discovering);
}

#[test]
fn finished_pipeline_stays_finished() {
    let (_, p) = run(vec![Event::DiscoveryFailed]);
    let p = p.advance(found());
    assert!(p.is_finished());
    assert_eq!(p.action(), Action::Exit { failure: Some(ErrorKind::DiscoveryIOError) });
}

#[test]
fn error_kinds_describe_themselves() {
    assert_eq!(ErrorKind::ReadinessTimeout.describe(), "target failed to become ready");
    assert_eq!(ErrorKind::ControlNotFound.describe(), "no input control found");
    assert_eq!(ErrorKind::FocusFailure.describe(), "failed to focus target");
    assert_eq!(ErrorKind::SendFailure.describe(), "send failed");
}
