//! What holds of the engine whatever it is fed: statements about the
//! transitions of [`crate::timer`] and the record of [`crate::persistence`],
//! each proved from their definitions.

use vstd::prelude::*;
use crate::clock::Timestamp;
use crate::persistence::{capture, restore, restored_remaining, PersistentStateView};
use crate::status::StatusView;
use crate::timer::{
    advance, advance_target, bounded, counting, idle, skip, step, step_action, tick, tick_action,
    TimerActionView, TimerCommandView, TimerInfoView, TimerInputView, TimerState, TimerView,
};
use crate::workflow::WorkflowView;

verus! {

/// The engine after a sequence of inputs, each with the time it arrived at.
pub open spec fn run(t: TimerView, inputs: Seq<(TimerInputView, Timestamp)>) -> TimerView
    decreases inputs.len(),
{
    if inputs.len() == 0 {
        t
    } else {
        step(run(t, inputs.drop_last()), inputs.last().0, inputs.last().1)
    }
}

/// There is a countdown exactly when the engine is running in a phase.
pub open spec fn settled(s: TimerInfoView) -> bool {
    s.time_remaining is Some <==> (s.state == TimerState::Running && s.current_phase is Some)
}

/// Idle and completed snapshots have no countdown; running and paused ones
/// have one exactly when they have a phase.
pub open spec fn coherent(s: TimerInfoView) -> bool {
    match s.state {
        TimerState::Idle | TimerState::Completed => s.time_remaining is None,
        TimerState::Running | TimerState::Paused => s.time_remaining is Some
            <==> s.current_phase is Some,
    }
}

/// The engine is paused in a phase.
pub open spec fn paused_in_phase(s: TimerInfoView) -> bool {
    s.state == TimerState::Paused && s.current_phase is Some
}

/// A coherent snapshot has a countdown exactly when it is running in a
/// phase, unless it is paused in a phase: then it has the countdown it was
/// paused with.
pub proof fn lemma_coherent_settled(s: TimerInfoView)
    requires
        coherent(s),
    ensures
        settled(s) <==> !paused_in_phase(s),
{
}

/// The empty snapshot is coherent.
pub proof fn lemma_idle_coherent()
    ensures
        coherent(idle()),
{
}

/// A restored snapshot is coherent, but for that of a record that was paused
/// in a phase: it comes back without its countdown.
pub proof fn lemma_restore_coherent(p: PersistentStateView)
    requires
        !(p.timer_state == TimerState::Paused && p.current_phase is Some),
    ensures
        coherent(restore(p)),
{
}

/// A phase advance leaves a coherent snapshot, whatever it started from.
pub proof fn lemma_advance_coherent(s: TimerInfoView)
    ensures
        coherent(advance(s)),
        settled(advance(s)),
{
}

/// Every input takes a coherent snapshot to a coherent one.
pub proof fn lemma_step_coherent(t: TimerView, input: TimerInputView, now: Timestamp)
    requires
        coherent(t.info),
    ensures
        coherent(step(t, input, now).info),
{
    lemma_advance_coherent(t.info);
}

/// Every sequence of inputs takes a coherent snapshot to a coherent one.
pub proof fn lemma_run_coherent(t: TimerView, inputs: Seq<(TimerInputView, Timestamp)>)
    requires
        coherent(t.info),
    ensures
        coherent(run(t, inputs).info),
    decreases inputs.len(),
{
    if inputs.len() > 0 {
        lemma_run_coherent(t, inputs.drop_last());
        lemma_step_coherent(run(t, inputs.drop_last()), inputs.last().0, inputs.last().1);
    }
}

/// After any sequence of ticks and commands, an engine that began with a
/// coherent snapshot has a countdown exactly when it is running in a phase,
/// unless it is paused in a phase: a paused engine keeps the countdown it was
/// paused with.
pub proof fn lemma_countdown_iff_running_in_phase(
    t: TimerView,
    inputs: Seq<(TimerInputView, Timestamp)>,
)
    requires
        coherent(t.info),
        !paused_in_phase(run(t, inputs).info),
    ensures
        settled(run(t, inputs).info),
{
    lemma_run_coherent(t, inputs);
}

/// The same of an engine that took up a persisted record, whatever the
/// record and the defaults, but for a record that was paused in a phase:
/// such a record comes back without its countdown.
pub proof fn lemma_countdown_after_restore(
    record: PersistentStateView,
    default_workflow: WorkflowView,
    default_status: StatusView,
    inputs: Seq<(TimerInputView, Timestamp)>,
)
    requires
        !(record.timer_state == TimerState::Paused && record.current_phase is Some),
        !paused_in_phase(
            run(TimerView { info: restore(record), default_workflow, default_status }, inputs).info,
        ),
    ensures
        settled(
            run(TimerView { info: restore(record), default_workflow, default_status }, inputs).info,
        ),
{
    lemma_restore_coherent(record);
    lemma_countdown_iff_running_in_phase(
        TimerView { info: restore(record), default_workflow, default_status },
        inputs,
    );
}

/// A tick changes nothing while the engine is paused, and asks for nothing:
/// neither the elapsed time nor the countdown moves.
pub proof fn lemma_tick_while_paused(s: TimerInfoView)
    requires
        s.state == TimerState::Paused,
    ensures
        tick(s) == s,
        tick_action(s) == (TimerActionView { event: None, persist: false }),
{
}

/// A tick changes nothing in any state but running.
pub proof fn lemma_tick_while_not_running(s: TimerInfoView)
    requires
        s.state != TimerState::Running,
    ensures
        tick(s) == s,
        tick_action(s) == (TimerActionView { event: None, persist: false }),
{
}

/// `Stop` from any state leaves the engine idle, with no phase, no
/// countdown, no start time and no pause time.
pub proof fn lemma_stop_clears(t: TimerView, now: Timestamp)
    ensures
        ({
            let after = step(t, TimerInputView::Command(TimerCommandView::Stop), now).info;
            &&& after.state == TimerState::Idle
            &&& after.current_phase is None
            &&& after.time_remaining is None
            &&& after.start_time is None
            &&& after.pause_time is None
            &&& after.elapsed_time == t.info.elapsed_time
            &&& after.current_workflow == t.info.current_workflow
            &&& after.current_status == t.info.current_status
        }),
{
}

/// `Pause` twice is `Pause` once: the second changes nothing, announces
/// nothing and asks for no write, whenever it comes.
pub proof fn lemma_pause_idempotent(t: TimerView, first: Timestamp, second: Timestamp)
    ensures
        ({
            let pause = TimerInputView::Command(TimerCommandView::Pause);
            let once = step(t, pause, first);
            &&& step(once, pause, second) == once
            &&& step_action(once, pause) == (TimerActionView {
                event: None,
                persist: false,
            })
        }),
{
}

/// A snapshot that is written to a record and restored comes back with the
/// same state, phase, workflow, status, start time and elapsed time. The
/// countdown is worked out again, and the pause time is not kept.
pub proof fn lemma_capture_restore(s: TimerInfoView, now: Timestamp)
    ensures
        ({
            let back = restore(capture(s, now));
            &&& back.state == s.state
            &&& back.current_phase == s.current_phase
            &&& back.current_workflow == s.current_workflow
            &&& back.current_status == s.current_status
            &&& back.start_time == s.start_time
            &&& back.elapsed_time == s.elapsed_time
            &&& back.time_remaining == restored_remaining(capture(s, now))
            &&& back.pause_time is None
        }),
{
}

/// A record that is restored and written again is the same record, but for
/// the time it was saved at.
pub proof fn lemma_restore_capture(p: PersistentStateView, now: Timestamp)
    ensures
        capture(restore(p), now) == (PersistentStateView { last_saved: now, ..p }),
{
}

/// The snapshot after `n` ticks.
pub open spec fn ticks(s: TimerInfoView, n: nat) -> TimerInfoView
    decreases n,
{
    if n == 0 {
        s
    } else {
        tick(ticks(s, (n - 1) as nat))
    }
}

/// While more than `n` seconds are left, `n` ticks move `n` seconds from the
/// countdown to the elapsed time and change nothing else.
pub proof fn lemma_ticks_count_down(s: TimerInfoView, n: nat)
    requires
        counting(s),
        n < s.time_remaining->0,
    ensures
        ticks(s, n) == (TimerInfoView {
            time_remaining: Some((s.time_remaining->0 - n) as nat),
            elapsed_time: s.elapsed_time + n,
            ..s
        }),
    decreases n,
{
    if n > 0 {
        lemma_ticks_count_down(s, (n - 1) as nat);
    }
}

/// A countdown of `r` seconds ends with the `r`-th tick, and at least one
/// tick is needed: that tick is the phase advance, from the snapshot as it
/// stands then.
pub proof fn lemma_ticks_end_phase(s: TimerInfoView)
    requires
        counting(s),
    ensures
        ({
            let r = s.time_remaining->0;
            if r == 0 {
                ticks(s, 1) == advance(s)
            } else {
                ticks(s, r) == advance(
                    TimerInfoView {
                        time_remaining: Some(1),
                        elapsed_time: (s.elapsed_time + r - 1) as nat,
                        ..s
                    },
                )
            }
        }),
{
    let r = s.time_remaining->0;
    if r == 0 {
        assert(ticks(s, 0) == s);
        assert(ticks(s, 1) == tick(ticks(s, 0)));
    } else {
        lemma_ticks_count_down(s, (r - 1) as nat);
        assert(ticks(s, r) == tick(ticks(s, (r - 1) as nat)));
    }
}

/// `Skip` while paused in a workflow that has the current phase and either a
/// phase after it or leave to repeat: the engine runs again, in the phase
/// that the advance leads to, and the pause time is gone.
pub proof fn lemma_skip_while_paused(s: TimerInfoView)
    requires
        s.state == TimerState::Paused,
        advance_target(s.current_workflow, s.current_phase) is Next,
    ensures
        ({
            let after = skip(s);
            let next = advance_target(s.current_workflow, s.current_phase)->Next_0;
            &&& after.state == TimerState::Running
            &&& after.current_phase == Some(next)
            &&& after.time_remaining == Some(next.seconds())
            &&& after.elapsed_time == 0
            &&& after.pause_time is None
        }),
{
}

/// Whenever an input brings the engine into a phase, the one it was in
/// again or another, the elapsed time starts at zero and the countdown at the
/// whole phase.
pub proof fn lemma_phase_entry_resets(t: TimerView, input: TimerInputView, now: Timestamp)
    ensures
        ({
            let before = t.info;
            let after = step(t, input, now).info;
            after.current_phase is Some && (after.current_phase != before.current_phase
                || after.elapsed_time < before.elapsed_time) ==> after.elapsed_time == 0
                && after.time_remaining == Some(after.current_phase->0.seconds()) && after.state
                == TimerState::Running
        }),
{
}

/// The elapsed time moves in two ways only: a tick of a running countdown
/// adds a second to it, and the entry into a phase sets it to zero.
pub proof fn lemma_elapsed_moves(t: TimerView, input: TimerInputView, now: Timestamp)
    ensures
        ({
            let before = t.info;
            let after = step(t, input, now).info;
            ||| after.elapsed_time == before.elapsed_time
            ||| (input is Tick && counting(before) && after.elapsed_time == before.elapsed_time + 1
                && after.current_phase == before.current_phase)
            ||| (after.elapsed_time == 0 && after.current_phase is Some)
        }),
{
}

/// Every input keeps the countdown and the elapsed time within one phase.
pub proof fn lemma_step_bounded(t: TimerView, input: TimerInputView, now: Timestamp)
    requires
        bounded(t.info),
    ensures
        bounded(step(t, input, now).info),
{
}

/// Every restored snapshot keeps the countdown and the elapsed time within
/// one phase.
pub proof fn lemma_restore_bounded(record: PersistentStateView)
    ensures
        bounded(restore(record)),
{
}

/// The engine only knows workflows that repeat: its default, and the one it
/// runs if it runs one.
pub open spec fn repeats(t: TimerView) -> bool {
    &&& t.default_workflow.repeatable
    &&& t.info.current_workflow matches Some(w) ==> w.repeatable
}

/// The input brings no workflow that does not repeat.
pub open spec fn keeps_repeating(input: TimerInputView) -> bool {
    input matches TimerInputView::Command(TimerCommandView::Start { workflow: Some(w), status })
        ==> w.repeatable
}

/// An engine that only ever runs workflows that repeat never completes:
/// after the last phase it goes back to the first.
pub proof fn lemma_repeating_never_completes(
    t: TimerView,
    inputs: Seq<(TimerInputView, Timestamp)>,
)
    requires
        repeats(t),
        t.info.state != TimerState::Completed,
        forall|i: int| 0 <= i < inputs.len() ==> keeps_repeating(#[trigger] inputs[i].0),
    ensures
        repeats(run(t, inputs)),
        run(t, inputs).info.state != TimerState::Completed,
    decreases inputs.len(),
{
    if inputs.len() > 0 {
        let earlier = inputs.drop_last();
        assert forall|i: int| 0 <= i < earlier.len() implies keeps_repeating(
            #[trigger] earlier[i].0,
        ) by {
            assert(earlier[i] == inputs[i]);
        }
        lemma_repeating_never_completes(t, earlier);
        assert(keeps_repeating(inputs[inputs.len() - 1].0));
    }
}

} // verus!
