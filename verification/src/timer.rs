//! The timer engine: the snapshot it owns and the transitions that a tick or
//! a command makes on it.
//!
//! The engine is a state machine. Whoever drives it feeds it one input at a
//! time, a tick once per second or a command, and carries out the action it
//! hands back: write the snapshot to the state file, publish the event.

use vstd::prelude::*;
use crate::clock::{local_now, Timestamp};
use crate::persistence::{restore, PersistentState};
use crate::status::{Status, StatusView};
use crate::search::{first_index, lemma_first_index, lemma_first_index_is};
use crate::views::opt_view;
use crate::workflow::{phase_views, Phase, PhaseView, Workflow, WorkflowView, NO_PHASES};

verus! {

#[derive(Debug, Clone, Copy, PartialEq, Eq, Structural)]
pub enum TimerState {
    Idle,
    Running,
    Paused,
    Completed,
}

/// The snapshot: the complete record of the engine's observable state.
/// `time_remaining` and `elapsed_time` are in whole seconds.
#[derive(Debug, PartialEq, Eq)]
pub struct TimerInfo {
    pub state: TimerState,
    pub current_phase: Option<Phase>,
    pub time_remaining: Option<u64>,
    pub elapsed_time: u64,
    pub current_status: Option<Status>,
    pub current_workflow: Option<Workflow>,
    pub start_time: Option<Timestamp>,
    pub pause_time: Option<Timestamp>,
}

/// What a [`TimerInfo`] holds, as mathematical values.
pub ghost struct TimerInfoView {
    pub state: TimerState,
    pub current_phase: Option<PhaseView>,
    pub time_remaining: Option<nat>,
    pub elapsed_time: nat,
    pub current_status: Option<StatusView>,
    pub current_workflow: Option<WorkflowView>,
    pub start_time: Option<Timestamp>,
    pub pause_time: Option<Timestamp>,
}

impl View for TimerInfo {
    type V = TimerInfoView;

    open spec fn view(&self) -> TimerInfoView {
        TimerInfoView {
            state: self.state,
            current_phase: opt_view(self.current_phase),
            time_remaining: match self.time_remaining {
                Some(r) => Some(r as nat),
                None => None,
            },
            elapsed_time: self.elapsed_time as nat,
            current_status: opt_view(self.current_status),
            current_workflow: opt_view(self.current_workflow),
            start_time: self.start_time,
            pause_time: self.pause_time,
        }
    }
}

/// A request to change the engine's state.
#[derive(Debug)]
pub enum TimerCommand {
    Start { workflow: Option<Workflow>, status: Option<Status> },
    Pause,
    Resume,
    Stop,
    Skip,
}

pub ghost enum TimerCommandView {
    Start { workflow: Option<WorkflowView>, status: Option<StatusView> },
    Pause,
    Resume,
    Stop,
    Skip,
}

impl View for TimerCommand {
    type V = TimerCommandView;

    open spec fn view(&self) -> TimerCommandView {
        match *self {
            TimerCommand::Start { workflow, status } => TimerCommandView::Start {
                workflow: opt_view(workflow),
                status: opt_view(status),
            },
            TimerCommand::Pause => TimerCommandView::Pause,
            TimerCommand::Resume => TimerCommandView::Resume,
            TimerCommand::Stop => TimerCommandView::Stop,
            TimerCommand::Skip => TimerCommandView::Skip,
        }
    }
}

/// What a completed transition announces to subscribers.
#[derive(Debug, PartialEq, Eq)]
pub enum TimerEvent {
    Started { workflow: Workflow, status: Status },
    PhaseChanged { phase: Phase },
    Paused,
    Resumed,
    Stopped,
    Completed,
}

pub ghost enum TimerEventView {
    Started { workflow: WorkflowView, status: StatusView },
    PhaseChanged { phase: PhaseView },
    Paused,
    Resumed,
    Stopped,
    Completed,
}

impl View for TimerEvent {
    type V = TimerEventView;

    open spec fn view(&self) -> TimerEventView {
        match *self {
            TimerEvent::Started { workflow, status } => TimerEventView::Started {
                workflow: workflow@,
                status: status@,
            },
            TimerEvent::PhaseChanged { phase } => TimerEventView::PhaseChanged { phase: phase@ },
            TimerEvent::Paused => TimerEventView::Paused,
            TimerEvent::Resumed => TimerEventView::Resumed,
            TimerEvent::Stopped => TimerEventView::Stopped,
            TimerEvent::Completed => TimerEventView::Completed,
        }
    }
}

/// One input to the engine: the once-per-second tick, or a command.
#[derive(Debug)]
pub enum TimerInput {
    Tick,
    Command(TimerCommand),
}

pub ghost enum TimerInputView {
    Tick,
    Command(TimerCommandView),
}

impl View for TimerInput {
    type V = TimerInputView;

    open spec fn view(&self) -> TimerInputView {
        match *self {
            TimerInput::Tick => TimerInputView::Tick,
            TimerInput::Command(command) => TimerInputView::Command(command@),
        }
    }
}

/// What the driver has to do after an input: publish `event` if there is
/// one, and write the snapshot to the state file if `persist` is set.
#[derive(Debug, PartialEq, Eq)]
pub struct TimerAction {
    pub event: Option<TimerEvent>,
    pub persist: bool,
}

pub ghost struct TimerActionView {
    pub event: Option<TimerEventView>,
    pub persist: bool,
}

impl View for TimerAction {
    type V = TimerActionView;

    open spec fn view(&self) -> TimerActionView {
        TimerActionView { event: opt_view(self.event), persist: self.persist }
    }
}

// ---------------------------------------------------------------------------
// The transitions, on views.
// ---------------------------------------------------------------------------

/// The names of a list of phases, in order.
pub open spec fn phase_names(phases: Seq<PhaseView>) -> Seq<Seq<char>> {
    phases.map_values(|p: PhaseView| p.name)
}

/// The first index in `phases` of a phase called `name`, if there is one.
pub open spec fn position(phases: Seq<PhaseView>, name: Seq<char>) -> Option<int> {
    first_index(phase_names(phases), name)
}

/// Where a phase advance leads.
pub ghost enum Advance {
    /// On to this phase: the next one, or the first again in a workflow that
    /// repeats.
    Next(PhaseView),
    /// The last phase of a workflow that does not repeat is over.
    Finished,
    /// There is no workflow, no current phase, or the workflow has no phase
    /// of the current one's name.
    Lost,
}

/// Where the engine goes from `phase` in `workflow` when the phase is over.
pub open spec fn advance_target(workflow: Option<WorkflowView>, phase: Option<PhaseView>) -> Advance {
    if workflow is Some && phase is Some {
        let w = workflow->0;
        match position(w.phases, phase->0.name) {
            Some(i) => {
                if i + 1 < w.phases.len() {
                    Advance::Next(w.phases[i + 1])
                } else if w.repeatable {
                    Advance::Next(w.phases[0])
                } else {
                    Advance::Finished
                }
            },
            None => Advance::Lost,
        }
    } else {
        Advance::Lost
    }
}

/// The snapshot after a phase advance.
pub open spec fn advance(s: TimerInfoView) -> TimerInfoView {
    match advance_target(s.current_workflow, s.current_phase) {
        Advance::Next(p) => TimerInfoView {
            state: TimerState::Running,
            current_phase: Some(p),
            time_remaining: Some(p.seconds()),
            elapsed_time: 0,
            ..s
        },
        Advance::Finished => TimerInfoView {
            state: TimerState::Completed,
            current_phase: None,
            time_remaining: None,
            ..s
        },
        Advance::Lost => TimerInfoView {
            state: TimerState::Idle,
            current_phase: None,
            time_remaining: None,
            ..s
        },
    }
}

/// The event that a phase advance announces.
pub open spec fn advance_event(s: TimerInfoView) -> Option<TimerEventView> {
    match advance_target(s.current_workflow, s.current_phase) {
        Advance::Next(p) => Some(TimerEventView::PhaseChanged { phase: p }),
        Advance::Finished => Some(TimerEventView::Completed),
        Advance::Lost => None,
    }
}

/// A tick counts: the engine is running and has a countdown.
pub open spec fn counting(s: TimerInfoView) -> bool {
    s.state == TimerState::Running && s.time_remaining is Some
}

/// The snapshot after one tick.
pub open spec fn tick(s: TimerInfoView) -> TimerInfoView {
    if counting(s) {
        let r = s.time_remaining->0;
        if r > 1 {
            TimerInfoView {
                time_remaining: Some((r - 1) as nat),
                elapsed_time: s.elapsed_time + 1,
                ..s
            }
        } else {
            advance(s)
        }
    } else {
        s
    }
}

/// What the driver has to do after one tick: on a plain countdown step, a
/// write every tenth second of elapsed time; at the end of a phase, a write
/// and the event of the advance.
pub open spec fn tick_action(s: TimerInfoView) -> TimerActionView {
    if counting(s) {
        if s.time_remaining->0 > 1 {
            TimerActionView { event: None, persist: (s.elapsed_time + 1) % 10 == 0 }
        } else {
            TimerActionView { event: advance_event(s), persist: true }
        }
    } else {
        TimerActionView { event: None, persist: false }
    }
}

/// The snapshot after `Start` with a workflow that has a phase.
pub open spec fn start(
    s: TimerInfoView,
    workflow: WorkflowView,
    status: StatusView,
    now: Timestamp,
) -> TimerInfoView
    recommends
        workflow.phases.len() > 0,
{
    TimerInfoView {
        state: TimerState::Running,
        current_phase: Some(workflow.phases[0]),
        time_remaining: Some(workflow.phases[0].seconds()),
        elapsed_time: 0,
        current_status: Some(status),
        current_workflow: Some(workflow),
        start_time: Some(now),
        pause_time: s.pause_time,
    }
}

/// The snapshot after `Pause`.
pub open spec fn pause(s: TimerInfoView, now: Timestamp) -> TimerInfoView {
    if s.state == TimerState::Running {
        TimerInfoView { state: TimerState::Paused, pause_time: Some(now), ..s }
    } else {
        s
    }
}

/// The snapshot after `Resume`.
pub open spec fn resume(s: TimerInfoView) -> TimerInfoView {
    if s.state == TimerState::Paused {
        TimerInfoView { state: TimerState::Running, pause_time: None, ..s }
    } else {
        s
    }
}

/// The snapshot after `Stop`.
pub open spec fn stop(s: TimerInfoView) -> TimerInfoView {
    TimerInfoView {
        state: TimerState::Idle,
        current_phase: None,
        time_remaining: None,
        start_time: None,
        pause_time: None,
        ..s
    }
}

/// `Skip` acts: the engine is running or paused.
pub open spec fn skippable(s: TimerInfoView) -> bool {
    s.state == TimerState::Running || s.state == TimerState::Paused
}

/// The snapshot after `Skip`: a phase advance at once. From `Paused` the
/// pause ends with it, unless the advance completes the workflow.
pub open spec fn skip(s: TimerInfoView) -> TimerInfoView {
    if s.state == TimerState::Running {
        advance(s)
    } else if s.state == TimerState::Paused {
        let t = advance(s);
        if t.state == TimerState::Completed {
            t
        } else {
            TimerInfoView { pause_time: None, ..t }
        }
    } else {
        s
    }
}

// ---------------------------------------------------------------------------
// The transitions, on the snapshot.
// ---------------------------------------------------------------------------

/// The first index of a phase called `name`, if there is one.
pub fn find_phase(phases: &Vec<Phase>, name: &String) -> (r: Option<usize>)
    ensures
        match r {
            Some(i) => i < phases.len() && position(phase_views(phases@), name@) == Some(i as int),
            None => position(phase_views(phases@), name@) is None,
        },
{
    let ghost names = phase_names(phase_views(phases@));
    let mut i: usize = 0;
    while i < phases.len()
        invariant
            i <= phases.len(),
            names == phase_names(phase_views(phases@)),
            names.len() == phases.len(),
            forall|j: int| 0 <= j < i ==> #[trigger] names[j] != name@,
        decreases phases.len() - i,
    {
        assert(names[i as int] == phases@[i as int]@.name);
        if phases[i].name == *name {
            proof {
                lemma_first_index_is(names, name@, i as int);
            }
            return Some(i);
        }
        i += 1;
    }
    proof {
        lemma_first_index(names, name@);
    }
    None
}

/// Where a phase advance leads, with the phase to move to.
#[derive(Debug)]
pub enum AdvanceTo {
    Next(Phase),
    Finished,
    Lost,
}

impl View for AdvanceTo {
    type V = Advance;

    open spec fn view(&self) -> Advance {
        match *self {
            AdvanceTo::Next(phase) => Advance::Next(phase@),
            AdvanceTo::Finished => Advance::Finished,
            AdvanceTo::Lost => Advance::Lost,
        }
    }
}

/// Decides where the engine goes when `phase` of `workflow` is over: looks
/// the phase up by name and takes the one after it, the first one again in a
/// workflow that repeats, or none.
pub fn next_phase(workflow: &Option<Workflow>, phase: &Option<Phase>) -> (r: AdvanceTo)
    ensures
        r@ == advance_target(opt_view(*workflow), opt_view(*phase)),
{
    match (workflow, phase) {
        (Some(w), Some(current)) => {
            let ghost views = phase_views(w.phases@);
            match find_phase(&w.phases, &current.name) {
                Some(index) => {
                    if index + 1 < w.phases.len() {
                        assert(views[index + 1] == w.phases@[index + 1]@);
                        AdvanceTo::Next(w.phases[index + 1].clone())
                    } else if w.repeatable {
                        assert(views[0] == w.phases@[0]@);
                        AdvanceTo::Next(w.phases[0].clone())
                    } else {
                        AdvanceTo::Finished
                    }
                },
                None => AdvanceTo::Lost,
            }
        },
        _ => AdvanceTo::Lost,
    }
}

impl Default for TimerInfo {
    /// The empty snapshot: idle, with nothing set.
    fn default() -> (r: Self)
        ensures
            r@ == idle(),
    {
        TimerInfo {
            state: TimerState::Idle,
            current_phase: None,
            time_remaining: None,
            elapsed_time: 0,
            current_status: None,
            current_workflow: None,
            start_time: None,
            pause_time: None,
        }
    }
}

/// The empty snapshot.
pub open spec fn idle() -> TimerInfoView {
    TimerInfoView {
        state: TimerState::Idle,
        current_phase: None,
        time_remaining: None,
        elapsed_time: 0,
        current_status: None,
        current_workflow: None,
        start_time: None,
        pause_time: None,
    }
}

impl Clone for TimerInfo {
    fn clone(&self) -> (r: Self)
        ensures
            r@ == self@,
    {
        TimerInfo {
            state: self.state,
            current_phase: match &self.current_phase {
                Some(p) => Some(p.clone()),
                None => None,
            },
            time_remaining: self.time_remaining,
            elapsed_time: self.elapsed_time,
            current_status: match &self.current_status {
                Some(s) => Some(s.clone()),
                None => None,
            },
            current_workflow: match &self.current_workflow {
                Some(w) => Some(w.clone()),
                None => None,
            },
            start_time: self.start_time,
            pause_time: self.pause_time,
        }
    }
}

impl TimerInfo {
    /// Ends the current phase: moves to the next one, wraps round in a
    /// workflow that repeats, completes one that does not, and falls back to
    /// idle where the current phase is not in the workflow.
    pub fn advance(&mut self) -> (event: Option<TimerEvent>)
        ensures
            final(self)@ == advance(old(self)@),
            opt_view(event) == advance_event(old(self)@),
    {
        match next_phase(&self.current_workflow, &self.current_phase) {
            AdvanceTo::Next(phase) => {
                self.state = TimerState::Running;
                self.time_remaining = Some(phase.seconds());
                self.elapsed_time = 0;
                self.current_phase = Some(phase.clone());
                Some(TimerEvent::PhaseChanged { phase })
            },
            AdvanceTo::Finished => {
                self.state = TimerState::Completed;
                self.current_phase = None;
                self.time_remaining = None;
                Some(TimerEvent::Completed)
            },
            AdvanceTo::Lost => {
                self.state = TimerState::Idle;
                self.current_phase = None;
                self.time_remaining = None;
                None
            },
        }
    }

    /// One tick of the clock. While running with more than a second left,
    /// a second moves from the countdown to the elapsed time; with a second
    /// or less left, the phase ends. In every other state nothing changes.
    pub fn tick(&mut self) -> (action: TimerAction)
        requires
            counting(old(self)@) && old(self)@.time_remaining->0 > 1 ==> old(self).elapsed_time
                < u64::MAX,
        ensures
            final(self)@ == tick(old(self)@),
            action@ == tick_action(old(self)@),
            !counting(old(self)@) ==> *final(self) == *old(self),
    {
        if self.state != TimerState::Running {
            return TimerAction { event: None, persist: false };
        }
        match self.time_remaining {
            Some(remaining) => {
                if remaining > 1 {
                    self.time_remaining = Some(remaining - 1);
                    self.elapsed_time = self.elapsed_time + 1;
                    TimerAction { event: None, persist: self.elapsed_time % 10 == 0 }
                } else {
                    let event = self.advance();
                    TimerAction { event, persist: true }
                }
            },
            None => TimerAction { event: None, persist: false },
        }
    }

    /// Starts `workflow` under `status` at its first phase. A workflow
    /// without phases is refused and the snapshot stays as it was.
    pub fn start(&mut self, workflow: Workflow, status: Status, now: Timestamp) -> (r: Result<
        TimerAction,
        &'static str,
    >)
        ensures
            workflow@.phases.len() > 0 ==> r is Ok && final(self)@ == start(
                old(self)@,
                workflow@,
                status@,
                now,
            ) && r->Ok_0@ == (TimerActionView {
                event: Some(TimerEventView::Started { workflow: workflow@, status: status@ }),
                persist: true,
            }),
            workflow@.phases.len() == 0 ==> r is Err && r->Err_0@ == NO_PHASES@ && *final(self)
                == *old(self),
    {
        if workflow.phases.len() == 0 {
            return Err(NO_PHASES);
        }
        let first = workflow.phases[0].clone();
        assert(workflow@.phases[0] == workflow.phases@[0]@);
        self.state = TimerState::Running;
        self.time_remaining = Some(first.seconds());
        self.elapsed_time = 0;
        self.current_phase = Some(first);
        self.current_workflow = Some(workflow.clone());
        self.current_status = Some(status.clone());
        self.start_time = Some(now);
        Ok(TimerAction { event: Some(TimerEvent::Started { workflow, status }), persist: true })
    }

    /// Pauses a running timer; in any other state nothing changes.
    pub fn pause(&mut self, now: Timestamp) -> (action: TimerAction)
        ensures
            final(self)@ == pause(old(self)@, now),
            old(self).state != TimerState::Running ==> *final(self) == *old(self),
            action@ == (if old(self).state == TimerState::Running {
                TimerActionView { event: Some(TimerEventView::Paused), persist: true }
            } else {
                TimerActionView { event: None, persist: false }
            }),
    {
        if self.state == TimerState::Running {
            self.state = TimerState::Paused;
            self.pause_time = Some(now);
            TimerAction { event: Some(TimerEvent::Paused), persist: true }
        } else {
            TimerAction { event: None, persist: false }
        }
    }

    /// Resumes a paused timer; in any other state nothing changes.
    pub fn resume(&mut self) -> (action: TimerAction)
        ensures
            final(self)@ == resume(old(self)@),
            old(self).state != TimerState::Paused ==> *final(self) == *old(self),
            action@ == (if old(self).state == TimerState::Paused {
                TimerActionView { event: Some(TimerEventView::Resumed), persist: true }
            } else {
                TimerActionView { event: None, persist: false }
            }),
    {
        if self.state == TimerState::Paused {
            self.state = TimerState::Running;
            self.pause_time = None;
            TimerAction { event: Some(TimerEvent::Resumed), persist: true }
        } else {
            TimerAction { event: None, persist: false }
        }
    }

    /// Stops the timer from any state.
    pub fn stop(&mut self) -> (action: TimerAction)
        ensures
            final(self)@ == stop(old(self)@),
            action@ == (TimerActionView { event: Some(TimerEventView::Stopped), persist: true }),
    {
        self.state = TimerState::Idle;
        self.current_phase = None;
        self.time_remaining = None;
        self.start_time = None;
        self.pause_time = None;
        TimerAction { event: Some(TimerEvent::Stopped), persist: true }
    }

    /// Ends the current phase at once, while running or paused; in any other
    /// state nothing changes.
    pub fn skip(&mut self) -> (action: TimerAction)
        ensures
            final(self)@ == skip(old(self)@),
            !skippable(old(self)@) ==> *final(self) == *old(self),
            action@ == (if skippable(old(self)@) {
                TimerActionView { event: advance_event(old(self)@), persist: true }
            } else {
                TimerActionView { event: None, persist: false }
            }),
    {
        match self.state {
            TimerState::Running => {
                let event = self.advance();
                TimerAction { event, persist: true }
            },
            TimerState::Paused => {
                let event = self.advance();
                if self.state != TimerState::Completed {
                    self.pause_time = None;
                }
                TimerAction { event, persist: true }
            },
            _ => TimerAction { event: None, persist: false },
        }
    }
}

// ---------------------------------------------------------------------------
// The engine.
// ---------------------------------------------------------------------------

/// The longest a phase can be, in seconds.
pub open spec fn max_phase_seconds() -> nat {
    60 * 0xffff_ffff
}

/// The countdown and the elapsed time together fit in one phase. It holds of
/// every snapshot that the engine reaches, and keeps the elapsed time from
/// running over.
pub open spec fn bounded(s: TimerInfoView) -> bool {
    s.time_remaining matches Some(r) ==> r > 1 ==> s.elapsed_time + r <= max_phase_seconds()
}

/// The workflow that `Start` runs: the one named, else the default.
pub open spec fn chosen_workflow(workflow: Option<WorkflowView>, default: WorkflowView) -> WorkflowView {
    match workflow {
        Some(w) => w,
        None => default,
    }
}

/// The status that `Start` runs under: the one named, else the default.
pub open spec fn chosen_status(status: Option<StatusView>, default: StatusView) -> StatusView {
    match status {
        Some(s) => s,
        None => default,
    }
}

/// The snapshot after a command. `Start` with a workflow that has no phase
/// changes nothing.
pub open spec fn apply(
    s: TimerInfoView,
    command: TimerCommandView,
    now: Timestamp,
    default_workflow: WorkflowView,
    default_status: StatusView,
) -> TimerInfoView {
    match command {
        TimerCommandView::Start { workflow, status } => {
            let w = chosen_workflow(workflow, default_workflow);
            if w.phases.len() > 0 {
                start(s, w, chosen_status(status, default_status), now)
            } else {
                s
            }
        },
        TimerCommandView::Pause => pause(s, now),
        TimerCommandView::Resume => resume(s),
        TimerCommandView::Stop => stop(s),
        TimerCommandView::Skip => skip(s),
    }
}

/// What the driver has to do after a command that was not refused: every
/// command that changes the snapshot asks for a write and announces itself;
/// one that is ignored asks for nothing.
pub open spec fn apply_action(
    s: TimerInfoView,
    command: TimerCommandView,
    default_workflow: WorkflowView,
    default_status: StatusView,
) -> TimerActionView {
    let idle = TimerActionView { event: None, persist: false };
    match command {
        TimerCommandView::Start { workflow, status } => TimerActionView {
            event: Some(
                TimerEventView::Started {
                    workflow: chosen_workflow(workflow, default_workflow),
                    status: chosen_status(status, default_status),
                },
            ),
            persist: true,
        },
        TimerCommandView::Pause => if s.state == TimerState::Running {
            TimerActionView { event: Some(TimerEventView::Paused), persist: true }
        } else {
            idle
        },
        TimerCommandView::Resume => if s.state == TimerState::Paused {
            TimerActionView { event: Some(TimerEventView::Resumed), persist: true }
        } else {
            idle
        },
        TimerCommandView::Stop => TimerActionView {
            event: Some(TimerEventView::Stopped),
            persist: true,
        },
        TimerCommandView::Skip => if skippable(s) {
            TimerActionView { event: advance_event(s), persist: true }
        } else {
            idle
        },
    }
}

/// The engine: the snapshot, and the workflow and status that `Start` falls
/// back to when it names none.
pub struct Timer {
    info: TimerInfo,
    default_workflow: Workflow,
    default_status: Status,
}

/// What a [`Timer`] holds, as mathematical values.
pub ghost struct TimerView {
    pub info: TimerInfoView,
    pub default_workflow: WorkflowView,
    pub default_status: StatusView,
}

/// The engine refuses the input: it is `Start` with a workflow, named or
/// default, that has no phase.
pub open spec fn refused(t: TimerView, input: TimerInputView) -> bool {
    input matches TimerInputView::Command(TimerCommandView::Start { workflow, status })
        && chosen_workflow(workflow, t.default_workflow).phases.len() == 0
}

/// The engine after one input. A refused input changes nothing.
pub open spec fn step(t: TimerView, input: TimerInputView, now: Timestamp) -> TimerView {
    match input {
        TimerInputView::Tick => TimerView { info: tick(t.info), ..t },
        TimerInputView::Command(command) => TimerView {
            info: apply(t.info, command, now, t.default_workflow, t.default_status),
            ..t
        },
    }
}

/// What the driver has to do after an input that was not refused.
pub open spec fn step_action(t: TimerView, input: TimerInputView) -> TimerActionView {
    match input {
        TimerInputView::Tick => tick_action(t.info),
        TimerInputView::Command(command) => apply_action(
            t.info,
            command,
            t.default_workflow,
            t.default_status,
        ),
    }
}

/// The engine's answer to an input: the refusal, or the action to carry out.
pub open spec fn step_result(t: TimerView, input: TimerInputView) -> Result<
    TimerActionView,
    Seq<char>,
> {
    if refused(t, input) {
        Err(NO_PHASES@)
    } else {
        Ok(step_action(t, input))
    }
}

/// The view of an answer.
pub open spec fn result_view(r: Result<TimerAction, &'static str>) -> Result<
    TimerActionView,
    Seq<char>,
> {
    match r {
        Ok(action) => Ok(action@),
        Err(e) => Err(e@),
    }
}

impl View for Timer {
    type V = TimerView;

    closed spec fn view(&self) -> TimerView {
        TimerView {
            info: self.info@,
            default_workflow: self.default_workflow@,
            default_status: self.default_status@,
        }
    }
}

impl Timer {
    #[verifier::type_invariant]
    spec fn keeps_bound(self) -> bool {
        bounded(self.info@)
    }

    /// An engine that takes up where the persisted record left off.
    pub fn new(persisted: &PersistentState, default_workflow: Workflow, default_status: Status) -> (r:
        Self)
        ensures
            r@ == (TimerView {
                info: restore(persisted@),
                default_workflow: default_workflow@,
                default_status: default_status@,
            }),
    {
        Timer { info: persisted.restore(), default_workflow, default_status }
    }

    /// A copy of the current snapshot.
    pub fn get_info(&self) -> (r: TimerInfo)
        ensures
            r@ == self@.info,
            bounded(r@),
    {
        proof {
            use_type_invariant(self);
        }
        self.info.clone()
    }

    /// Moves the snapshot out and leaves the empty one in its place.
    fn take_info(&mut self) -> (info: TimerInfo)
        ensures
            info == old(self).info,
            final(self).info@ == idle(),
            final(self).default_workflow == old(self).default_workflow,
            final(self).default_status == old(self).default_status,
    {
        let mut info = TimerInfo::default();
        core::mem::swap(&mut self.info, &mut info);
        info
    }

    /// Takes one tick of the clock.
    pub fn tick(&mut self) -> (action: TimerAction)
        ensures
            final(self)@ == (TimerView { info: tick(old(self)@.info), ..old(self)@ }),
            action@ == tick_action(old(self)@.info),
    {
        proof {
            use_type_invariant(&*self);
        }
        let mut info = self.take_info();
        let action = info.tick();
        self.info = info;
        action
    }

    /// Carries out a command at the time `now`.
    pub fn handle_command(&mut self, command: TimerCommand, now: Timestamp) -> (r: Result<
        TimerAction,
        &'static str,
    >)
        ensures
            final(self)@ == step(old(self)@, TimerInputView::Command(command@), now),
            result_view(r) == step_result(old(self)@, TimerInputView::Command(command@)),
    {
        proof {
            use_type_invariant(&*self);
        }
        let mut info = self.take_info();
        let r = match command {
            TimerCommand::Start { workflow, status } => {
                let w = match workflow {
                    Some(w) => w,
                    None => self.default_workflow.clone(),
                };
                let s = match status {
                    Some(s) => s,
                    None => self.default_status.clone(),
                };
                info.start(w, s, now)
            },
            TimerCommand::Pause => Ok(info.pause(now)),
            TimerCommand::Resume => Ok(info.resume()),
            TimerCommand::Stop => Ok(info.stop()),
            TimerCommand::Skip => Ok(info.skip()),
        };
        self.info = info;
        r
    }

    /// Takes one input at the time `now`.
    pub fn step(&mut self, input: TimerInput, now: Timestamp) -> (r: Result<
        TimerAction,
        &'static str,
    >)
        ensures
            final(self)@ == step(old(self)@, input@, now),
            result_view(r) == step_result(old(self)@, input@),
    {
        match input {
            TimerInput::Tick => Ok(self.tick()),
            TimerInput::Command(command) => self.handle_command(command, now),
        }
    }

    /// Takes one input at the current local time.
    pub fn step_now(&mut self, input: TimerInput) -> (r: Result<TimerAction, &'static str>)
        ensures
            exists|now: Timestamp| final(self)@ == step(old(self)@, input@, now),
            result_view(r) == step_result(old(self)@, input@),
    {
        let now = local_now();
        let r = self.step(input, now);
        assert(self@ == step(old(self)@, input@, now));
        r
    }
}

} // verus!
