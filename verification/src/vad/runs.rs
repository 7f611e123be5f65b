//! What holds of whole runs of the segment detector.
//!
//! A run is a sequence of windows, each a speech decision and a duration,
//! fed to the machine one after the other.

use crate::vad::state_machine::{
    capturing, model_wf, step, VadEvent, VadModel, VadState,
};
use vstd::prelude::*;

verus! {

/// One input of the machine.
pub struct Window {
    /// Whether the window holds speech.
    pub is_speech: bool,
    /// Duration of the window in milliseconds.
    pub chunk_ms: u64,
}

/// The machine after all the windows.
pub open spec fn run(m: VadModel, windows: Seq<Window>) -> VadModel
    decreases windows.len(),
{
    if windows.len() == 0 {
        m
    } else {
        let w = windows.last();
        step(run(m, windows.drop_last()), w.is_speech, w.chunk_ms).0
    }
}

/// The events that the windows produce, in order.
pub open spec fn run_events(m: VadModel, windows: Seq<Window>) -> Seq<VadEvent>
    decreases windows.len(),
{
    if windows.len() == 0 {
        Seq::<VadEvent>::empty()
    } else {
        let w = windows.last();
        run_events(m, windows.drop_last()).push(
            step(run(m, windows.drop_last()), w.is_speech, w.chunk_ms).1,
        )
    }
}

/// How often `e` occurs in `events`.
pub open spec fn occurrences(events: Seq<VadEvent>, e: VadEvent) -> nat
    decreases events.len(),
{
    if events.len() == 0 {
        0
    } else {
        occurrences(events.drop_last(), e) + if events.last() == e {
            1nat
        } else {
            0nat
        }
    }
}

/// 1 while a segment is open, 0 otherwise.
pub open spec fn open_segments(m: VadModel) -> int {
    if capturing(m.state) {
        1
    } else {
        0
    }
}

/// True when every window holds speech.
pub open spec fn all_speech(windows: Seq<Window>) -> bool {
    forall|i: int| 0 <= i < windows.len() ==> (#[trigger] windows[i]).is_speech
}

/// True when every window is silent.
pub open spec fn all_silent(windows: Seq<Window>) -> bool {
    forall|i: int| 0 <= i < windows.len() ==> !(#[trigger] windows[i]).is_speech
}

/// True when no event of the sequence reports anything.
pub open spec fn no_events(events: Seq<VadEvent>) -> bool {
    forall|i: int| 0 <= i < events.len() ==> #[trigger] events[i] == VadEvent::NoChange
}

/// One window opens a segment exactly when it reports a start, closes one
/// exactly when it reports an end, and never reports a forced end.
pub proof fn lemma_step_event(m: VadModel, is_speech: bool, chunk_ms: u64)
    requires
        model_wf(m),
    ensures
        ({
            let (after, event) = step(m, is_speech, chunk_ms);
            &&& model_wf(after)
            &&& after.now >= m.now
            &&& after.min_speech_ms == m.min_speech_ms
            &&& after.min_silence_ms == m.min_silence_ms
            &&& event != VadEvent::MaxDurationReached
            &&& event == VadEvent::SpeechStarted <==> !capturing(m.state) && capturing(after.state)
            &&& event == VadEvent::SpeechEnded <==> capturing(m.state) && !capturing(after.state)
        }),
{
}

/// A run keeps the invariant, the settings, and a clock that never goes back;
/// it yields one event for each window.
pub proof fn lemma_run_basics(m: VadModel, windows: Seq<Window>)
    requires
        model_wf(m),
    ensures
        model_wf(run(m, windows)),
        run(m, windows).now >= m.now,
        run(m, windows).min_speech_ms == m.min_speech_ms,
        run(m, windows).min_silence_ms == m.min_silence_ms,
        run_events(m, windows).len() == windows.len(),
    decreases windows.len(),
{
    if windows.len() > 0 {
        lemma_run_basics(m, windows.drop_last());
        let w = windows.last();
        lemma_step_event(run(m, windows.drop_last()), w.is_speech, w.chunk_ms);
    }
}

/// A run over the first `k` windows is the start of the run over all of them.
pub proof fn lemma_run_prefix(m: VadModel, windows: Seq<Window>, k: int)
    requires
        0 <= k <= windows.len(),
    ensures
        run_events(m, windows.take(k)) == run_events(m, windows).take(k),
        k < windows.len() ==> run_events(m, windows)[k] == step(
            run(m, windows.take(k)),
            windows[k].is_speech,
            windows[k].chunk_ms,
        ).1,
    decreases windows.len(),
{
    if windows.len() == 0 {
        assert(windows.take(k) =~= windows);
        assert(run_events(m, windows).take(k) =~= run_events(m, windows));
    } else if k == windows.len() {
        assert(windows.take(k) =~= windows);
        lemma_run_events_len(m, windows);
        assert(run_events(m, windows).take(k) =~= run_events(m, windows));
    } else {
        let front = windows.drop_last();
        lemma_run_prefix(m, front, k);
        lemma_run_events_len(m, front);
        assert(front.take(k) =~= windows.take(k));
        assert(run_events(m, windows).take(k) =~= run_events(m, front).take(k));
        if k == front.len() {
            assert(front.take(k) =~= front);
        } else {
            assert(front[k] == windows[k]);
        }
    }
}

/// A run yields one event for each window.
pub proof fn lemma_run_events_len(m: VadModel, windows: Seq<Window>)
    ensures
        run_events(m, windows).len() == windows.len(),
    decreases windows.len(),
{
    if windows.len() > 0 {
        lemma_run_events_len(m, windows.drop_last());
    }
}

/// Starts and ends alternate. Over any run, the starts counted so far exceed
/// the ends by one while a segment is open and equal them while none is, once
/// the segment that was open at the outset is counted as started. No window
/// reports a forced end.
pub proof fn lemma_starts_and_ends_alternate(m: VadModel, windows: Seq<Window>)
    requires
        model_wf(m),
    ensures
        open_segments(m) + occurrences(run_events(m, windows), VadEvent::SpeechStarted)
            == occurrences(run_events(m, windows), VadEvent::SpeechEnded) + open_segments(
            run(m, windows),
        ),
        occurrences(run_events(m, windows), VadEvent::MaxDurationReached) == 0,
    decreases windows.len(),
{
    if windows.len() > 0 {
        let front = windows.drop_last();
        let w = windows.last();
        lemma_starts_and_ends_alternate(m, front);
        lemma_run_basics(m, front);
        lemma_step_event(run(m, front), w.is_speech, w.chunk_ms);
        assert(run_events(m, windows).drop_last() =~= run_events(m, front));
    }
}

/// The same, read at every point of a run: after the first `k` windows a
/// segment is open exactly when one more start than end has been reported.
/// From an idle machine the first report is therefore a start, and between two
/// starts lies an end.
pub proof fn lemma_capturing_between_start_and_end(m: VadModel, windows: Seq<Window>, k: int)
    requires
        model_wf(m),
        !capturing(m.state),
        0 <= k <= windows.len(),
    ensures
        capturing(run(m, windows.take(k)).state) <==> occurrences(
            run_events(m, windows).take(k),
            VadEvent::SpeechStarted,
        ) == occurrences(run_events(m, windows).take(k), VadEvent::SpeechEnded) + 1,
        !capturing(run(m, windows.take(k)).state) <==> occurrences(
            run_events(m, windows).take(k),
            VadEvent::SpeechStarted,
        ) == occurrences(run_events(m, windows).take(k), VadEvent::SpeechEnded),
{
    lemma_run_prefix(m, windows, k);
    lemma_starts_and_ends_alternate(m, windows.take(k));
}

/// While speech is being confirmed and the confirmation time has not passed,
/// further speech windows change nothing and report nothing.
pub proof fn lemma_pending_speech_waits(m: VadModel, windows: Seq<Window>)
    requires
        model_wf(m),
        m.state is SpeechPending,
        all_speech(windows),
        run(m, windows).now - m.state->SpeechPending_started_at_ms < m.min_speech_ms,
    ensures
        run(m, windows).state == m.state,
        no_events(run_events(m, windows)),
    decreases windows.len(),
{
    if windows.len() > 0 {
        let front = windows.drop_last();
        let w = windows.last();
        lemma_run_basics(m, front);
        lemma_step_event(run(m, front), w.is_speech, w.chunk_ms);
        assert(forall|i: int| 0 <= i < front.len() ==> front[i] == windows[i]);
        lemma_pending_speech_waits(m, front);
        lemma_run_events_len(m, front);
    }
}

/// While silence is being confirmed and the confirmation time has not passed,
/// further silent windows change nothing and report nothing.
pub proof fn lemma_pending_silence_waits(m: VadModel, windows: Seq<Window>)
    requires
        model_wf(m),
        m.state is SilencePending,
        all_silent(windows),
        run(m, windows).now - m.state->SilencePending_started_at_ms < m.min_silence_ms,
    ensures
        run(m, windows).state == m.state,
        no_events(run_events(m, windows)),
    decreases windows.len(),
{
    if windows.len() > 0 {
        let front = windows.drop_last();
        let w = windows.last();
        lemma_run_basics(m, front);
        lemma_step_event(run(m, front), w.is_speech, w.chunk_ms);
        assert(forall|i: int| 0 <= i < front.len() ==> front[i] == windows[i]);
        lemma_pending_silence_waits(m, front);
        lemma_run_events_len(m, front);
    }
}

/// An idle machine stays idle and silent through silent windows.
pub proof fn lemma_idle_through_silence(m: VadModel, windows: Seq<Window>)
    requires
        m.state is Idle,
        all_silent(windows),
    ensures
        run(m, windows).state is Idle,
        no_events(run_events(m, windows)),
    decreases windows.len(),
{
    if windows.len() > 0 {
        let front = windows.drop_last();
        assert(forall|i: int| 0 <= i < front.len() ==> front[i] == windows[i]);
        lemma_idle_through_silence(m, front);
        lemma_run_events_len(m, front);
    }
}

/// The run over `first` followed by `second` is the run over `second` from
/// where `first` ends, and its events are those of both, in order.
pub proof fn lemma_run_concat(m: VadModel, first: Seq<Window>, second: Seq<Window>)
    ensures
        run(m, first + second) == run(run(m, first), second),
        run_events(m, first + second) == run_events(m, first) + run_events(run(m, first), second),
    decreases second.len(),
{
    if second.len() == 0 {
        assert(first + second =~= first);
        assert(run_events(m, first) + run_events(run(m, first), second) =~= run_events(m, first));
    } else {
        let all = first + second;
        assert(all.drop_last() =~= first + second.drop_last());
        assert(all.last() == second.last());
        lemma_run_concat(m, first, second.drop_last());
        assert(run_events(m, all) =~= run_events(m, first) + run_events(run(m, first), second));
    }
}

/// A run over one window is one step.
pub proof fn lemma_run_single(m: VadModel, w: Window)
    ensures
        run(m, seq![w]) == step(m, w.is_speech, w.chunk_ms).0,
        run_events(m, seq![w]) == seq![step(m, w.is_speech, w.chunk_ms).1],
{
    let one = seq![w];
    assert(one.drop_last() =~= Seq::<Window>::empty());
    assert(one.last() == w);
    assert(run(m, one.drop_last()) == m);
    assert(run_events(m, one.drop_last()) =~= Seq::<VadEvent>::empty());
    assert(run_events(m, one) =~= seq![step(m, w.is_speech, w.chunk_ms).1]);
}

/// A false positive leaves no trace. From an idle machine, a burst of speech
/// that stays shorter than the confirmation time, followed by silence, reports
/// nothing and ends idle. The burst is one first speech window and then
/// `more_speech`; its length is the clock's advance over all of them.
pub proof fn lemma_false_positive_rejected(
    m: VadModel,
    first: Window,
    more_speech: Seq<Window>,
    silence: Seq<Window>,
)
    requires
        m.state is Idle,
        first.is_speech,
        all_speech(more_speech),
        all_silent(silence),
        silence.len() >= 1,
        model_wf(m),
        run(m, seq![first] + more_speech).now - m.now < m.min_speech_ms,
    ensures
        no_events(run_events(m, seq![first] + more_speech + silence)),
        run(m, seq![first] + more_speech + silence).state is Idle,
{
    let one = seq![first];
    lemma_run_single(m, first);
    let pending = run(m, one);
    assert(pending.state == VadState::SpeechPending { started_at_ms: m.now });
    lemma_run_concat(m, one, more_speech);
    lemma_pending_speech_waits(pending, more_speech);
    let waited = run(pending, more_speech);
    let head = silence.take(1);
    let tail = silence.skip(1);
    assert(silence =~= head + tail);
    assert(head =~= seq![silence[0]]);
    assert(!silence[0].is_speech);
    lemma_run_single(waited, silence[0]);
    let back = run(waited, head);
    assert(back.state is Idle);
    assert(forall|i: int| 0 <= i < tail.len() ==> tail[i] == silence[i + 1]);
    lemma_idle_through_silence(back, tail);
    lemma_run_concat(waited, head, tail);
    lemma_run_concat(m, one + more_speech, silence);
}

/// A short pause does not end a segment. From confirmed speech, silence that
/// stays shorter than the confirmation time, followed by a speech window,
/// reports nothing and ends in confirmed speech. The pause is one first silent
/// window and then `more_silence`; it is counted from the end of the first
/// window, so its length is the clock's advance over `more_silence`.
pub proof fn lemma_short_pause_keeps_segment(
    m: VadModel,
    first: Window,
    more_silence: Seq<Window>,
    speech: Window,
)
    requires
        m.state is SpeechActive,
        !first.is_speech,
        all_silent(more_silence),
        speech.is_speech,
        model_wf(m),
        run(m, seq![first] + more_silence).now - run(m, seq![first]).now < m.min_silence_ms,
    ensures
        no_events(run_events(m, seq![first] + more_silence + seq![speech])),
        run(m, seq![first] + more_silence + seq![speech]).state is SpeechActive,
{
    let one = seq![first];
    lemma_run_single(m, first);
    let pending = run(m, one);
    assert(pending.state == VadState::SilencePending { started_at_ms: pending.now });
    lemma_run_concat(m, one, more_silence);
    lemma_pending_silence_waits(pending, more_silence);
    let waited = run(pending, more_silence);
    let last = seq![speech];
    lemma_run_single(waited, speech);
    lemma_run_concat(m, one + more_silence, last);
}

} // verus!
