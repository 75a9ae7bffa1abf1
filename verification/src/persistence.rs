//! The record that the engine's snapshot is kept as between runs, and the
//! way from a snapshot to the record and back.

use vstd::prelude::*;
use crate::clock::{local_now, Timestamp};
use crate::status::{Status, StatusView};
use crate::timer::{TimerInfo, TimerInfoView, TimerState};
use crate::views::opt_view;
use crate::workflow::{Phase, PhaseView, Workflow, WorkflowView};

verus! {

/// The persisted record. The countdown is not in it: it is worked out again
/// from the phase and the elapsed seconds when the record is restored. Nor is
/// the time of a pause.
#[derive(Debug, PartialEq, Eq)]
pub struct PersistentState {
    pub timer_state: TimerState,
    pub current_phase: Option<Phase>,
    pub current_status: Option<Status>,
    pub current_workflow: Option<Workflow>,
    pub start_time: Option<Timestamp>,
    pub elapsed_seconds: u64,
    pub last_saved: Timestamp,
}

/// What a [`PersistentState`] holds, as mathematical values.
pub ghost struct PersistentStateView {
    pub timer_state: TimerState,
    pub current_phase: Option<PhaseView>,
    pub current_status: Option<StatusView>,
    pub current_workflow: Option<WorkflowView>,
    pub start_time: Option<Timestamp>,
    pub elapsed_seconds: nat,
    pub last_saved: Timestamp,
}

impl View for PersistentState {
    type V = PersistentStateView;

    open spec fn view(&self) -> PersistentStateView {
        PersistentStateView {
            timer_state: self.timer_state,
            current_phase: opt_view(self.current_phase),
            current_status: opt_view(self.current_status),
            current_workflow: opt_view(self.current_workflow),
            start_time: self.start_time,
            elapsed_seconds: self.elapsed_seconds as nat,
            last_saved: self.last_saved,
        }
    }
}

/// The record of an engine that has never run, saved at `now`.
pub open spec fn empty_record(now: Timestamp) -> PersistentStateView {
    PersistentStateView {
        timer_state: TimerState::Idle,
        current_phase: None,
        current_status: None,
        current_workflow: None,
        start_time: None,
        elapsed_seconds: 0,
        last_saved: now,
    }
}

/// The record that keeps the snapshot `s`, saved at `now`.
pub open spec fn capture(s: TimerInfoView, now: Timestamp) -> PersistentStateView {
    PersistentStateView {
        timer_state: s.state,
        current_phase: s.current_phase,
        current_status: s.current_status,
        current_workflow: s.current_workflow,
        start_time: s.start_time,
        elapsed_seconds: s.elapsed_time,
        last_saved: now,
    }
}

/// The countdown of a restored snapshot: what is left of the phase after the
/// elapsed seconds, never below zero, while running in a phase; none
/// otherwise. Time that passed while the record lay on disk is not counted.
pub open spec fn restored_remaining(p: PersistentStateView) -> Option<nat> {
    if p.timer_state == TimerState::Running && p.current_phase is Some {
        let total = p.current_phase->0.seconds();
        if p.elapsed_seconds < total {
            Some((total - p.elapsed_seconds) as nat)
        } else {
            Some(0)
        }
    } else {
        None
    }
}

/// The snapshot that the record `p` restores to.
pub open spec fn restore(p: PersistentStateView) -> TimerInfoView {
    TimerInfoView {
        state: p.timer_state,
        current_phase: p.current_phase,
        time_remaining: restored_remaining(p),
        elapsed_time: p.elapsed_seconds,
        current_status: p.current_status,
        current_workflow: p.current_workflow,
        start_time: p.start_time,
        pause_time: None,
    }
}

impl Clone for PersistentState {
    fn clone(&self) -> (r: Self)
        ensures
            r@ == self@,
    {
        PersistentState {
            timer_state: self.timer_state,
            current_phase: match &self.current_phase {
                Some(p) => Some(p.clone()),
                None => None,
            },
            current_status: match &self.current_status {
                Some(s) => Some(s.clone()),
                None => None,
            },
            current_workflow: match &self.current_workflow {
                Some(w) => Some(w.clone()),
                None => None,
            },
            start_time: self.start_time,
            elapsed_seconds: self.elapsed_seconds,
            last_saved: self.last_saved,
        }
    }
}

impl Default for PersistentState {
    /// The record of an engine that has never run, saved now.
    fn default() -> (r: Self)
        ensures
            r@ == empty_record(r.last_saved),
    {
        PersistentState::empty(local_now())
    }
}

impl PersistentState {
    /// The record of an engine that has never run, saved at `now`.
    pub fn empty(now: Timestamp) -> (r: Self)
        ensures
            r@ == empty_record(now),
    {
        PersistentState {
            timer_state: TimerState::Idle,
            current_phase: None,
            current_status: None,
            current_workflow: None,
            start_time: None,
            elapsed_seconds: 0,
            last_saved: now,
        }
    }

    /// The record that keeps `info`, saved at `now`.
    pub fn capture(info: &TimerInfo, now: Timestamp) -> (r: Self)
        ensures
            r@ == capture(info@, now),
    {
        let copy = info.clone();
        PersistentState {
            timer_state: copy.state,
            current_phase: copy.current_phase,
            current_status: copy.current_status,
            current_workflow: copy.current_workflow,
            start_time: copy.start_time,
            elapsed_seconds: copy.elapsed_time,
            last_saved: now,
        }
    }

    /// The same record, saved at `now`.
    pub fn saved_at(self, now: Timestamp) -> (r: Self)
        ensures
            r@ == (PersistentStateView { last_saved: now, ..self@ }),
    {
        let mut p = self;
        p.last_saved = now;
        p
    }

    /// The snapshot that this record restores to.
    pub fn restore(&self) -> (info: TimerInfo)
        ensures
            info@ == restore(self@),
    {
        let copy = self.clone();
        let time_remaining = match (copy.timer_state, &copy.current_phase) {
            (TimerState::Running, Some(phase)) => {
                let total = phase.seconds();
                if copy.elapsed_seconds < total {
                    Some(total - copy.elapsed_seconds)
                } else {
                    Some(0)
                }
            },
            _ => None,
        };
        TimerInfo {
            state: copy.timer_state,
            current_phase: copy.current_phase,
            time_remaining,
            elapsed_time: copy.elapsed_seconds,
            current_status: copy.current_status,
            current_workflow: copy.current_workflow,
            start_time: copy.start_time,
            pause_time: None,
        }
    }
}

} // verus!
