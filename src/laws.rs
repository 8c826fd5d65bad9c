//! What holds of every run of the pipeline, whatever the driver reports.
//!
//! A run is the sequence of states that a sequence of events leads through,
//! starting from a fresh pipeline.

use vstd::prelude::*;
use crate::error::ErrorKind;
use crate::pipeline::{rank, Event, PayloadModel, PipelineModel, Stage, lemma_next_wf};
use crate::text::{utf16_of, TERMINATOR};

verus! {

/// The states that `evs` leads through from a fresh pipeline: one more than
/// there are events.
pub open spec fn trace(evs: Seq<Event>) -> Seq<PipelineModel>
    decreases evs.len(),
{
    if evs.len() == 0 {
        seq![PipelineModel::initial()]
    } else {
        let prev = trace(evs.drop_last());
        prev.push(prev.last().next(evs.last()))
    }
}

/// The run's states are consistent, and each follows from the one before.
pub proof fn lemma_trace(evs: Seq<Event>)
    ensures
        trace(evs).len() == evs.len() + 1,
        trace(evs)[0] == PipelineModel::initial(),
        forall|i: int| 0 <= i < evs.len() ==> #[trigger] trace(evs)[i + 1] == trace(evs)[i].next(evs[i]),
        forall|i: int| 0 <= i <= evs.len() ==> (#[trigger] trace(evs)[i]).wf(),
    decreases evs.len(),
{
    if evs.len() > 0 {
        let prev = evs.drop_last();
        lemma_trace(prev);
        let n = evs.len() - 1;
        lemma_next_wf(trace(prev)[n], evs[n]);
        assert forall|i: int| 0 <= i < evs.len() implies #[trigger] trace(evs)[i + 1] == trace(evs)[i].next(evs[i]) by {
            if i < n {
                assert(prev[i] == evs[i]);
                assert(trace(prev)[i + 1] == trace(prev)[i].next(prev[i]));
            }
        }
        assert forall|i: int| 0 <= i <= evs.len() implies (#[trigger] trace(evs)[i]).wf() by {
            if i < evs.len() {
                assert(trace(prev)[i].wf());
            }
        }
    }
}

/// A step either leaves the state as it is or moves to a later stage.
proof fn lemma_next_rank(m: PipelineModel, e: Event)
    requires
        m.wf(),
    ensures
        m.next(e) == m || rank(m.next(e).stage()) > rank(m.stage()),
{
}

/// Stages never move backward along a run.
proof fn lemma_rank_monotone(evs: Seq<Event>, i: int, j: int)
    requires
        0 <= i <= j <= evs.len(),
    ensures
        rank(trace(evs)[i].stage()) <= rank(trace(evs)[j].stage()),
    decreases j - i,
{
    lemma_trace(evs);
    if i < j {
        lemma_rank_monotone(evs, i, j - 1);
        let k = j - 1;
        assert(trace(evs)[k + 1] == trace(evs)[k].next(evs[k]));
        assert(trace(evs)[k].wf());
        lemma_next_rank(trace(evs)[k], evs[k]);
    }
}

/// A resource is taken at step `i` of run `ss`.
pub open spec fn taken_at(ss: Seq<PipelineModel>, held: spec_fn(PipelineModel) -> bool, i: int) -> bool {
    0 <= i && i + 1 < ss.len() && !held(ss[i]) && held(ss[i + 1])
}

/// A resource is released at step `i` of run `ss`.
pub open spec fn released_at(ss: Seq<PipelineModel>, held: spec_fn(PipelineModel) -> bool, i: int) -> bool {
    0 <= i && i + 1 < ss.len() && held(ss[i]) && !held(ss[i + 1])
}

/// The resource is taken at most once, released at most once, released only
/// after it was taken, and released before the run finishes.
pub open spec fn released_exactly_once(ss: Seq<PipelineModel>, held: spec_fn(PipelineModel) -> bool) -> bool {
    &&& forall|i: int, j: int| #[trigger] taken_at(ss, held, i) && #[trigger] taken_at(ss, held, j) ==> i == j
    &&& forall|i: int, j: int| #[trigger] released_at(ss, held, i) && #[trigger] released_at(ss, held, j) ==> i == j
    &&& forall|j: int| #[trigger] released_at(ss, held, j) ==> exists|i: int| i < j && #[trigger] taken_at(ss, held, i)
    &&& ss.last().stage() == Stage::Finished ==> forall|i: int| #[trigger] taken_at(ss, held, i) ==> exists|j: int|
        i < j && #[trigger] released_at(ss, held, j)
}

/// The conditions under which a resource is released exactly once: it is
/// taken only on leaving stage `up` and released only on leaving stage
/// `down`, and it is not held at the start or at the end.
pub open spec fn edges_at(held: spec_fn(PipelineModel) -> bool, up: Stage, down: Stage) -> bool {
    &&& !held(PipelineModel::initial())
    &&& forall|m: PipelineModel, e: Event| m.wf() && !held(m) && #[trigger] held(m.next(e)) ==> m.stage() == up
        && rank(m.next(e).stage()) > rank(up)
    &&& forall|m: PipelineModel, e: Event| m.wf() && held(m) && !#[trigger] held(m.next(e)) ==> m.stage() == down
        && rank(m.next(e).stage()) > rank(down)
    &&& forall|m: PipelineModel| m.wf() && m.stage() == Stage::Finished ==> !#[trigger] held(m)
}

proof fn lemma_held_was_taken(evs: Seq<Event>, held: spec_fn(PipelineModel) -> bool, up: Stage, down: Stage, k: int)
    requires
        edges_at(held, up, down),
        0 <= k <= evs.len(),
        held(trace(evs)[k]),
    ensures
        exists|i: int| i < k && #[trigger] taken_at(trace(evs), held, i),
    decreases k,
{
    lemma_trace(evs);
    if k == 0 {
    } else if held(trace(evs)[k - 1]) {
        lemma_held_was_taken(evs, held, up, down, k - 1);
        let i = choose|i: int| i < k - 1 && #[trigger] taken_at(trace(evs), held, i);
        assert(taken_at(trace(evs), held, i));
    } else {
        assert(taken_at(trace(evs), held, k - 1));
    }
}

proof fn lemma_dropped_was_released(evs: Seq<Event>, held: spec_fn(PipelineModel) -> bool, a: int, b: int)
    requires
        0 <= a < b <= evs.len(),
        held(trace(evs)[a]),
        !held(trace(evs)[b]),
    ensures
        exists|j: int| a <= j < b && #[trigger] released_at(trace(evs), held, j),
    decreases b - a,
{
    lemma_trace(evs);
    if held(trace(evs)[b - 1]) {
        assert(released_at(trace(evs), held, b - 1));
    } else {
        lemma_dropped_was_released(evs, held, a, b - 1);
        let j = choose|j: int| a <= j < b - 1 && #[trigger] released_at(trace(evs), held, j);
        assert(released_at(trace(evs), held, j));
    }
}

proof fn lemma_released_exactly_once(evs: Seq<Event>, held: spec_fn(PipelineModel) -> bool, up: Stage, down: Stage)
    requires
        edges_at(held, up, down),
    ensures
        released_exactly_once(trace(evs), held),
{
    let ss = trace(evs);
    lemma_trace(evs);
    assert forall|i: int, j: int| #[trigger] taken_at(ss, held, i) && #[trigger] taken_at(ss, held, j) implies i == j by {
        assert(ss[i + 1] == ss[i].next(evs[i]));
        assert(ss[j + 1] == ss[j].next(evs[j]));
        if i < j {
            lemma_rank_monotone(evs, i + 1, j);
        } else if j < i {
            lemma_rank_monotone(evs, j + 1, i);
        }
    }
    assert forall|i: int, j: int| #[trigger] released_at(ss, held, i) && #[trigger] released_at(ss, held, j) implies i == j by {
        assert(ss[i + 1] == ss[i].next(evs[i]));
        assert(ss[j + 1] == ss[j].next(evs[j]));
        if i < j {
            lemma_rank_monotone(evs, i + 1, j);
        } else if j < i {
            lemma_rank_monotone(evs, j + 1, i);
        }
    }
    assert forall|j: int| #[trigger] released_at(ss, held, j) implies exists|i: int| i < j && #[trigger] taken_at(ss, held, i) by {
        lemma_held_was_taken(evs, held, up, down, j);
    }
    if ss.last().stage() == Stage::Finished {
        assert forall|i: int| #[trigger] taken_at(ss, held, i) implies exists|j: int| i < j && #[trigger] released_at(ss, held, j) by {
            let n = evs.len() as int;
            assert(ss[n].wf());
            assert(ss.last() == ss[n]);
            lemma_dropped_was_released(evs, held, i + 1, n);
        }
    }
}

/// The clipboard is open.
pub open spec fn clipboard_held() -> spec_fn(PipelineModel) -> bool {
    |m: PipelineModel| m.progress.clipboard_open
}

/// The clipboard's data handle is locked.
pub open spec fn lock_held() -> spec_fn(PipelineModel) -> bool {
    |m: PipelineModel| m.progress.locked
}

proof fn lemma_clipboard_edges()
    ensures
        edges_at(clipboard_held(), Stage::OpeningClipboard, Stage::ClosingClipboard),
{
    let held = clipboard_held();
    assert forall|m: PipelineModel, e: Event| m.wf() && !held(m) && #[trigger] held(m.next(e)) implies m.stage()
        == Stage::OpeningClipboard && rank(m.next(e).stage()) > rank(Stage::OpeningClipboard) by {}
    assert forall|m: PipelineModel, e: Event| m.wf() && held(m) && !#[trigger] held(m.next(e)) implies m.stage()
        == Stage::ClosingClipboard && rank(m.next(e).stage()) > rank(Stage::ClosingClipboard) by {}
}

proof fn lemma_lock_edges()
    ensures
        edges_at(lock_held(), Stage::LockingClipboard, Stage::Unlocking),
{
    let held = lock_held();
    assert forall|m: PipelineModel, e: Event| m.wf() && !held(m) && #[trigger] held(m.next(e)) implies m.stage()
        == Stage::LockingClipboard && rank(m.next(e).stage()) > rank(Stage::LockingClipboard) by {}
    assert forall|m: PipelineModel, e: Event| m.wf() && held(m) && !#[trigger] held(m.next(e)) implies m.stage()
        == Stage::Unlocking && rank(m.next(e).stage()) > rank(Stage::Unlocking) by {}
}

/// On every run, whatever succeeds or fails: the clipboard is opened at most
/// once and its data locked at most once; each is released at most once,
/// never before it was taken, and always before the run finishes.
pub proof fn clipboard_released_exactly_once(evs: Seq<Event>)
    ensures
        released_exactly_once(trace(evs), clipboard_held()),
        released_exactly_once(trace(evs), lock_held()),
{
    lemma_clipboard_edges();
    lemma_lock_edges();
    lemma_released_exactly_once(evs, clipboard_held(), Stage::OpeningClipboard, Stage::ClosingClipboard);
    lemma_released_exactly_once(evs, lock_held(), Stage::LockingClipboard, Stage::Unlocking);
}

/// Where discovery finds a running instance, no run ever starts another one.
pub proof fn running_instance_is_not_relaunched(evs: Seq<Event>, i: int, found: crate::handles::Found)
    requires
        0 <= i < evs.len(),
        trace(evs)[i].stage() == Stage::Discovering,
        evs[i] == Event::Discovered(Some(found)),
    ensures
        forall|j: int| 0 <= j <= evs.len() ==> (#[trigger] trace(evs)[j]).stage() != Stage::Launching,
{
    lemma_trace(evs);
    assert(trace(evs)[i + 1] == trace(evs)[i].next(evs[i]));
    assert forall|j: int| 0 <= j <= evs.len() implies (#[trigger] trace(evs)[j]).stage() != Stage::Launching by {
        if j <= i {
            lemma_rank_monotone(evs, j, i);
        } else {
            lemma_rank_monotone(evs, i + 1, j);
        }
    }
}

/// Once a payload is chosen, it stays as it is for the rest of the run.
proof fn lemma_payload_kept(evs: Seq<Event>, k: int, j: int)
    requires
        0 <= k <= j <= evs.len(),
        trace(evs)[k].payload.is_some(),
    ensures
        trace(evs)[j].payload == trace(evs)[k].payload,
    decreases j - k,
{
    lemma_trace(evs);
    if k < j {
        lemma_payload_kept(evs, k, j - 1);
        let l = j - 1;
        assert(trace(evs)[l + 1] == trace(evs)[l].next(evs[l]));
        assert(trace(evs)[l].wf());
    }
}

/// The payload that every later send of the run delivers, once step `i` has
/// chosen one.
pub open spec fn sends_payload(evs: Seq<Event>, i: int, payload: PayloadModel) -> bool {
    forall|j: int| i < j <= evs.len() && (#[trigger] trace(evs)[j]).stage() == Stage::Sending
        ==> trace(evs)[j].payload == Some(payload)
}

proof fn lemma_sends_chosen(evs: Seq<Event>, i: int)
    requires
        0 <= i < evs.len(),
        trace(evs)[i + 1].payload.is_some(),
    ensures
        sends_payload(evs, i, trace(evs)[i + 1].payload.unwrap()),
{
    assert forall|j: int| i < j <= evs.len() && (#[trigger] trace(evs)[j]).stage() == Stage::Sending
        implies trace(evs)[j].payload == Some(trace(evs)[i + 1].payload.unwrap()) by {
        lemma_payload_kept(evs, i + 1, j);
    }
}

/// Text piped in is delivered as its UTF-16 encoding followed by one
/// terminator.
pub proof fn piped_text_is_delivered(evs: Seq<Event>, i: int, text: String)
    requires
        0 <= i < evs.len(),
        trace(evs)[i].stage() == Stage::ReadingPipe,
        evs[i] == Event::PipedText(text),
    ensures
        sends_payload(evs, i, PayloadModel::Units(utf16_of(text@).push(TERMINATOR))),
{
    lemma_trace(evs);
    assert(trace(evs)[i + 1] == trace(evs)[i].next(evs[i]));
    lemma_sends_chosen(evs, i);
}

/// With an interactive input and no text on the clipboard, the empty string
/// is delivered: the terminator alone.
pub proof fn empty_clipboard_delivers_terminator(evs: Seq<Event>, i: int)
    requires
        0 <= i < evs.len(),
        trace(evs)[i].stage() == Stage::CheckingClipboard,
        evs[i] == Event::TextFormat(false),
    ensures
        sends_payload(evs, i, PayloadModel::Units(seq![TERMINATOR])),
{
    lemma_trace(evs);
    assert(trace(evs)[i + 1] == trace(evs)[i].next(evs[i]));
    lemma_sends_chosen(evs, i);
}

/// With an interactive input and text on the clipboard, the clipboard's own
/// text is delivered in place, untouched: the send carries the very address
/// that locking the clipboard data gave.
pub proof fn clipboard_text_is_delivered(evs: Seq<Event>, i: int, addr: usize)
    requires
        0 <= i < evs.len(),
        trace(evs)[i].stage() == Stage::LockingClipboard,
        evs[i] == Event::Locked(addr),
    ensures
        sends_payload(
            evs,
            i,
            PayloadModel::Clipboard(
                crate::handles::ClipboardView { data: trace(evs)[i].progress.data.unwrap(), text: addr },
            ),
        ),
{
    lemma_trace(evs);
    assert(trace(evs)[i + 1] == trace(evs)[i].next(evs[i]));
    lemma_sends_chosen(evs, i);
}

/// Once a failure is recorded, it stays the run's failure.
proof fn lemma_failure_kept(evs: Seq<Event>, k: int, j: int)
    requires
        0 <= k <= j <= evs.len(),
        trace(evs)[k].progress.failure.is_some(),
    ensures
        trace(evs)[j].progress.failure == trace(evs)[k].progress.failure,
    decreases j - k,
{
    lemma_trace(evs);
    if k < j {
        lemma_failure_kept(evs, k, j - 1);
        let l = j - 1;
        assert(trace(evs)[l + 1] == trace(evs)[l].next(evs[l]));
    }
}

/// A failure at step `i`, before any text was obtained, ends the run with
/// `kind`: nothing is ever sent and the clipboard is never opened.
pub open spec fn fails_before_input(evs: Seq<Event>, i: int, kind: ErrorKind) -> bool {
    &&& forall|j: int| 0 <= j <= evs.len() ==> (#[trigger] trace(evs)[j]).stage() != Stage::Sending
        && !trace(evs)[j].progress.clipboard_open
    &&& forall|j: int| i < j <= evs.len() ==> (#[trigger] trace(evs)[j]).progress.failure == Some(kind)
}

proof fn lemma_fails_before_input(evs: Seq<Event>, i: int, kind: ErrorKind)
    requires
        0 <= i < evs.len(),
        rank(trace(evs)[i].stage()) <= rank(Stage::ResolvingControl),
        trace(evs)[i + 1].progress.failure == Some(kind),
        rank(trace(evs)[i + 1].stage()) >= rank(Stage::ClosingProcess),
    ensures
        fails_before_input(evs, i, kind),
{
    lemma_trace(evs);
    assert forall|j: int| 0 <= j <= evs.len() implies (#[trigger] trace(evs)[j]).stage() != Stage::Sending
        && !trace(evs)[j].progress.clipboard_open by {
        assert(trace(evs)[j].wf());
        if j <= i {
            lemma_rank_monotone(evs, j, i);
        } else {
            lemma_rank_monotone(evs, i + 1, j);
        }
    }
    assert forall|j: int| i < j <= evs.len() implies (#[trigger] trace(evs)[j]).progress.failure == Some(kind) by {
        lemma_failure_kept(evs, i + 1, j);
    }
}

/// A newly started instance that does not become ready in time fails the
/// run with `ReadinessTimeout`, and no text is sent.
pub proof fn readiness_timeout_sends_nothing(evs: Seq<Event>, i: int)
    requires
        0 <= i < evs.len(),
        trace(evs)[i].stage() == Stage::WaitingReady,
        evs[i] == Event::NotReady,
    ensures
        fails_before_input(evs, i, ErrorKind::ReadinessTimeout),
{
    lemma_trace(evs);
    assert(trace(evs)[i + 1] == trace(evs)[i].next(evs[i]));
    assert(trace(evs)[i].wf());
    lemma_fails_before_input(evs, i, ErrorKind::ReadinessTimeout);
}

/// A target window without the expected input control fails the run with
/// `ControlNotFound`, and no text is sent.
pub proof fn missing_control_sends_nothing(evs: Seq<Event>, i: int)
    requires
        0 <= i < evs.len(),
        trace(evs)[i].stage() == Stage::ResolvingControl,
        evs[i] == Event::NoControl,
    ensures
        fails_before_input(evs, i, ErrorKind::ControlNotFound),
{
    lemma_trace(evs);
    assert(trace(evs)[i + 1] == trace(evs)[i].next(evs[i]));
    assert(trace(evs)[i].wf());
    lemma_fails_before_input(evs, i, ErrorKind::ControlNotFound);
}

} // verus!
