use tomato_clock::clock::Timestamp;
use tomato_clock::persistence::PersistentState;
use tomato_clock::status::Status;
use tomato_clock::timer::{
    Timer, TimerAction, TimerCommand, TimerEvent, TimerInfo, TimerInput, TimerState,
};
use tomato_clock::workflow::{Phase, Workflow, NO_PHASES};

fn at(seconds: i64) -> Timestamp {
    Timestamp { seconds, nanos: 0, offset_seconds: 3600 }
}

fn fresh() -> Timer {
    Timer::new(&PersistentState::empty(at(0)), Workflow::default(), Status::default())
}

fn work_break(repeatable: bool) -> Workflow {
    Workflow::new("W")
        .with_phases(vec![Phase::new("Work", 25), Phase::new("Break", 5)])
        .with_repeatable(repeatable)
}

fn start(workflow: Workflow) -> TimerCommand {
    TimerCommand::Start { workflow: Some(workflow), status: Some(Status::new("study")) }
}

fn ticks(timer: &mut Timer, n: u32) {
    for _ in 0..n {
        timer.tick();
    }
}

#[test]
fn fresh_engine_is_idle_and_empty() {
    let timer = fresh();
    assert_eq!(timer.get_info(), TimerInfo::default());
    assert_eq!(timer.get_info().state, TimerState::Idle);
    assert_eq!(timer.get_info().time_remaining, None);
    assert_eq!(timer.get_info().elapsed_time, 0);
}

#[test]
fn start_enters_the_first_phase() {
    let mut timer = fresh();
    let action = timer.handle_command(start(work_break(true)), at(100)).unwrap();
    assert_eq!(
        action,
        TimerAction {
            event: Some(TimerEvent::Started {
                workflow: work_break(true),
                status: Status::new("study"),
            }),
            persist: true,
        }
    );
    let info = timer.get_info();
    assert_eq!(info.state, TimerState::Running);
    assert_eq!(info.current_phase, Some(Phase::new("Work", 25)));
    assert_eq!(info.time_remaining, Some(1500));
    assert_eq!(info.elapsed_time, 0);
    assert_eq!(info.current_workflow, Some(work_break(true)));
    assert_eq!(info.current_status, Some(Status::new("study")));
    assert_eq!(info.start_time, Some(at(100)));
    assert_eq!(info.pause_time, None);
}

#[test]
fn start_without_names_uses_the_defaults() {
    let mut timer = fresh();
    let action = timer
        .handle_command(TimerCommand::Start { workflow: None, status: None }, at(5))
        .unwrap();
    assert_eq!(
        action.event,
        Some(TimerEvent::Started { workflow: Workflow::default(), status: Status::default() })
    );
    let info = timer.get_info();
    assert_eq!(info.current_workflow, Some(Workflow::default()));
    assert_eq!(info.current_status, Some(Status::default()));
    assert_eq!(info.current_phase.unwrap().name, "Work");
    assert_eq!(info.time_remaining, Some(25 * 60));
}

#[test]
fn start_with_an_empty_workflow_is_refused() {
    let mut timer = fresh();
    timer.handle_command(start(work_break(true)), at(1)).unwrap();
    ticks(&mut timer, 7);
    let before = timer.get_info();
    let r = timer.handle_command(start(Workflow::new("nothing")), at(2));
    assert_eq!(r, Err(NO_PHASES));
    assert_eq!(NO_PHASES, "No phases provided");
    assert_eq!(timer.get_info(), before);
}

#[test]
fn tick_moves_one_second() {
    let mut timer = fresh();
    timer.handle_command(start(work_break(true)), at(1)).unwrap();
    let action = timer.tick();
    assert_eq!(action, TimerAction { event: None, persist: false });
    let info = timer.get_info();
    assert_eq!(info.time_remaining, Some(1499));
    assert_eq!(info.elapsed_time, 1);
    assert_eq!(info.state, TimerState::Running);
}

#[test]
fn tick_asks_for_a_write_every_tenth_second() {
    let mut timer = fresh();
    timer.handle_command(start(work_break(true)), at(1)).unwrap();
    for second in 1..=30u64 {
        let action = timer.tick();
        assert_eq!(action.persist, second % 10 == 0, "second {}", second);
        assert_eq!(action.event, None);
    }
}

#[test]
fn tick_while_idle_changes_nothing() {
    let mut timer = fresh();
    let action = timer.tick();
    assert_eq!(action, TimerAction { event: None, persist: false });
    assert_eq!(timer.get_info(), TimerInfo::default());
}

#[test]
fn tick_while_paused_changes_nothing() {
    let mut timer = fresh();
    timer.handle_command(start(work_break(true)), at(1)).unwrap();
    ticks(&mut timer, 12);
    timer.handle_command(TimerCommand::Pause, at(13)).unwrap();
    let before = timer.get_info();
    for _ in 0..50 {
        let action = timer.tick();
        assert_eq!(action, TimerAction { event: None, persist: false });
    }
    let after = timer.get_info();
    assert_eq!(after, before);
    assert_eq!(after.elapsed_time, 12);
    assert_eq!(after.time_remaining, Some(1500 - 12));
}

#[test]
fn repeatable_workflow_loops_through_its_phases() {
    let mut timer = fresh();
    timer.handle_command(start(work_break(true)), at(1)).unwrap();
    ticks(&mut timer, 25 * 60 - 1);
    let info = timer.get_info();
    assert_eq!(info.current_phase, Some(Phase::new("Work", 25)));
    assert_eq!(info.time_remaining, Some(1));
    assert_eq!(info.elapsed_time, 1499);
    let action = timer.tick();
    assert_eq!(
        action,
        TimerAction {
            event: Some(TimerEvent::PhaseChanged { phase: Phase::new("Break", 5) }),
            persist: true,
        }
    );
    let info = timer.get_info();
    assert_eq!(info.state, TimerState::Running);
    assert_eq!(info.current_phase, Some(Phase::new("Break", 5)));
    assert_eq!(info.time_remaining, Some(5 * 60));
    assert_eq!(info.elapsed_time, 0);

    ticks(&mut timer, 5 * 60);
    let info = timer.get_info();
    assert_eq!(info.state, TimerState::Running);
    assert_eq!(info.current_phase, Some(Phase::new("Work", 25)));
    assert_eq!(info.time_remaining, Some(25 * 60));
    assert_eq!(info.elapsed_time, 0);

    for _ in 0..3 * (30 * 60) {
        timer.tick();
        assert_ne!(timer.get_info().state, TimerState::Completed);
    }
}

#[test]
fn single_phase_workflow_completes() {
    let mut timer = fresh();
    let w = Workflow::new("once").with_phases(vec![Phase::new("Work", 1)]).with_repeatable(false);
    timer.handle_command(start(w.clone()), at(1)).unwrap();
    ticks(&mut timer, 59);
    assert_eq!(timer.get_info().state, TimerState::Running);
    let action = timer.tick();
    assert_eq!(action, TimerAction { event: Some(TimerEvent::Completed), persist: true });
    let info = timer.get_info();
    assert_eq!(info.state, TimerState::Completed);
    assert_eq!(info.current_phase, None);
    assert_eq!(info.time_remaining, None);
    assert_eq!(info.current_workflow, Some(w));
}

#[test]
fn completed_engine_accepts_a_new_start() {
    let mut timer = fresh();
    let w = Workflow::new("once").with_phases(vec![Phase::new("Work", 1)]).with_repeatable(false);
    timer.handle_command(start(w), at(1)).unwrap();
    ticks(&mut timer, 60);
    assert_eq!(timer.get_info().state, TimerState::Completed);
    assert_eq!(timer.tick(), TimerAction { event: None, persist: false });
    timer.handle_command(start(work_break(true)), at(90)).unwrap();
    let info = timer.get_info();
    assert_eq!(info.state, TimerState::Running);
    assert_eq!(info.time_remaining, Some(1500));
    timer.tick();
    assert_eq!(timer.get_info().time_remaining, Some(1499));
}

#[test]
fn single_phase_repeatable_workflow_restarts_its_phase() {
    let mut timer = fresh();
    let w = Workflow::new("loop").with_phases(vec![Phase::new("Work", 1)]);
    timer.handle_command(start(w), at(1)).unwrap();
    for _ in 0..4 {
        ticks(&mut timer, 59);
        let action = timer.tick();
        assert_eq!(
            action.event,
            Some(TimerEvent::PhaseChanged { phase: Phase::new("Work", 1) })
        );
        let info = timer.get_info();
        assert_eq!(info.state, TimerState::Running);
        assert_eq!(info.time_remaining, Some(60));
        assert_eq!(info.elapsed_time, 0);
    }
}

#[test]
fn zero_minute_phase_ends_with_the_first_tick() {
    let mut timer = fresh();
    let w = Workflow::new("z")
        .with_phases(vec![Phase::new("Blink", 0), Phase::new("Work", 2)])
        .with_repeatable(false);
    timer.handle_command(start(w), at(1)).unwrap();
    assert_eq!(timer.get_info().time_remaining, Some(0));
    timer.tick();
    let info = timer.get_info();
    assert_eq!(info.current_phase, Some(Phase::new("Work", 2)));
    assert_eq!(info.time_remaining, Some(120));
}

#[test]
fn pause_and_resume() {
    let mut timer = fresh();
    timer.handle_command(start(work_break(true)), at(1)).unwrap();
    ticks(&mut timer, 3);
    let action = timer.handle_command(TimerCommand::Pause, at(44)).unwrap();
    assert_eq!(action, TimerAction { event: Some(TimerEvent::Paused), persist: true });
    let info = timer.get_info();
    assert_eq!(info.state, TimerState::Paused);
    assert_eq!(info.pause_time, Some(at(44)));
    assert_eq!(info.time_remaining, Some(1497));
    let action = timer.handle_command(TimerCommand::Resume, at(50)).unwrap();
    assert_eq!(action, TimerAction { event: Some(TimerEvent::Resumed), persist: true });
    let info = timer.get_info();
    assert_eq!(info.state, TimerState::Running);
    assert_eq!(info.pause_time, None);
    assert_eq!(info.time_remaining, Some(1497));
    assert_eq!(info.elapsed_time, 3);
    timer.tick();
    assert_eq!(timer.get_info().time_remaining, Some(1496));
}

#[test]
fn pause_twice_is_pause_once() {
    let mut timer = fresh();
    timer.handle_command(start(work_break(true)), at(1)).unwrap();
    timer.handle_command(TimerCommand::Pause, at(10)).unwrap();
    let once = timer.get_info();
    let action = timer.handle_command(TimerCommand::Pause, at(20)).unwrap();
    assert_eq!(action, TimerAction { event: None, persist: false });
    assert_eq!(timer.get_info(), once);
    assert_eq!(timer.get_info().pause_time, Some(at(10)));
}

#[test]
fn commands_are_ignored_while_idle_or_completed() {
    let mut timer = fresh();
    for command in [TimerCommand::Pause, TimerCommand::Resume, TimerCommand::Skip] {
        let action = timer.handle_command(command, at(3)).unwrap();
        assert_eq!(action, TimerAction { event: None, persist: false });
        assert_eq!(timer.get_info(), TimerInfo::default());
    }
    let w = Workflow::new("once").with_phases(vec![Phase::new("Work", 1)]).with_repeatable(false);
    timer.handle_command(start(w), at(1)).unwrap();
    ticks(&mut timer, 60);
    let done = timer.get_info();
    assert_eq!(done.state, TimerState::Completed);
    for command in [TimerCommand::Pause, TimerCommand::Resume, TimerCommand::Skip] {
        let action = timer.handle_command(command, at(3)).unwrap();
        assert_eq!(action, TimerAction { event: None, persist: false });
        assert_eq!(timer.get_info(), done);
    }
}

#[test]
fn resume_while_running_is_ignored() {
    let mut timer = fresh();
    timer.handle_command(start(work_break(true)), at(1)).unwrap();
    let before = timer.get_info();
    let action = timer.handle_command(TimerCommand::Resume, at(3)).unwrap();
    assert_eq!(action, TimerAction { event: None, persist: false });
    assert_eq!(timer.get_info(), before);
}

#[test]
fn skip_while_running_advances() {
    let mut timer = fresh();
    timer.handle_command(start(work_break(true)), at(1)).unwrap();
    ticks(&mut timer, 100);
    let action = timer.handle_command(TimerCommand::Skip, at(2)).unwrap();
    assert_eq!(
        action,
        TimerAction {
            event: Some(TimerEvent::PhaseChanged { phase: Phase::new("Break", 5) }),
            persist: true,
        }
    );
    let info = timer.get_info();
    assert_eq!(info.state, TimerState::Running);
    assert_eq!(info.current_phase, Some(Phase::new("Break", 5)));
    assert_eq!(info.time_remaining, Some(300));
    assert_eq!(info.elapsed_time, 0);
}

#[test]
fn skip_while_paused_runs_the_next_phase() {
    let mut timer = fresh();
    timer.handle_command(start(work_break(true)), at(1)).unwrap();
    ticks(&mut timer, 100);
    timer.handle_command(TimerCommand::Pause, at(2)).unwrap();
    timer.handle_command(TimerCommand::Skip, at(3)).unwrap();
    let info = timer.get_info();
    assert_eq!(info.state, TimerState::Running);
    assert_eq!(info.current_phase, Some(Phase::new("Break", 5)));
    assert_eq!(info.time_remaining, Some(300));
    assert_eq!(info.elapsed_time, 0);
    assert_eq!(info.pause_time, None);
}

#[test]
fn skip_on_the_last_phase_wraps_or_completes() {
    let mut timer = fresh();
    timer.handle_command(start(work_break(true)), at(1)).unwrap();
    timer.handle_command(TimerCommand::Skip, at(2)).unwrap();
    timer.handle_command(TimerCommand::Skip, at(3)).unwrap();
    let info = timer.get_info();
    assert_eq!(info.state, TimerState::Running);
    assert_eq!(info.current_phase, Some(Phase::new("Work", 25)));

    let mut timer = fresh();
    timer.handle_command(start(work_break(false)), at(1)).unwrap();
    timer.handle_command(TimerCommand::Skip, at(2)).unwrap();
    timer.handle_command(TimerCommand::Pause, at(3)).unwrap();
    let action = timer.handle_command(TimerCommand::Skip, at(4)).unwrap();
    assert_eq!(action, TimerAction { event: Some(TimerEvent::Completed), persist: true });
    let info = timer.get_info();
    assert_eq!(info.state, TimerState::Completed);
    assert_eq!(info.current_phase, None);
    assert_eq!(info.time_remaining, None);
    assert_eq!(info.pause_time, Some(at(3)));
}

#[test]
fn stop_clears_from_every_state() {
    let prepare: Vec<Vec<TimerCommand>> = vec![
        vec![],
        vec![start(work_break(true))],
        vec![start(work_break(true)), TimerCommand::Pause],
        vec![start(work_break(false)), TimerCommand::Skip, TimerCommand::Skip],
    ];
    let expected = [
        TimerState::Idle,
        TimerState::Running,
        TimerState::Paused,
        TimerState::Completed,
    ];
    for (commands, state) in prepare.into_iter().zip(expected) {
        let mut timer = fresh();
        for command in commands {
            timer.handle_command(command, at(9)).unwrap();
        }
        assert_eq!(timer.get_info().state, state);
        let action = timer.handle_command(TimerCommand::Stop, at(10)).unwrap();
        assert_eq!(action, TimerAction { event: Some(TimerEvent::Stopped), persist: true });
        let info = timer.get_info();
        assert_eq!(info.state, TimerState::Idle);
        assert_eq!(info.current_phase, None);
        assert_eq!(info.time_remaining, None);
        assert_eq!(info.start_time, None);
        assert_eq!(info.pause_time, None);
    }
}

#[test]
fn countdown_exists_exactly_when_running_in_a_phase() {
    let mut timer = fresh();
    let script = vec![
        TimerInput::Tick,
        TimerInput::Command(TimerCommand::Skip),
        TimerInput::Command(start(work_break(false))),
        TimerInput::Tick,
        TimerInput::Command(TimerCommand::Resume),
        TimerInput::Command(TimerCommand::Skip),
        TimerInput::Tick,
        TimerInput::Command(TimerCommand::Skip),
        TimerInput::Tick,
        TimerInput::Command(start(work_break(true))),
        TimerInput::Command(TimerCommand::Stop),
        TimerInput::Tick,
    ];
    for input in script {
        timer.step(input, at(1)).unwrap();
        let info = timer.get_info();
        assert_eq!(
            info.time_remaining.is_some(),
            info.state == TimerState::Running && info.current_phase.is_some()
        );
    }
}

#[test]
fn phase_missing_from_the_workflow_resets_to_idle() {
    let mut record = PersistentState::empty(at(0));
    record.timer_state = TimerState::Running;
    record.current_phase = Some(Phase::new("Nap", 1));
    record.current_workflow = Some(work_break(true));
    record.elapsed_seconds = 59;
    let mut timer = Timer::new(&record, Workflow::default(), Status::default());
    assert_eq!(timer.get_info().time_remaining, Some(1));
    let action = timer.tick();
    assert_eq!(action, TimerAction { event: None, persist: true });
    let info = timer.get_info();
    assert_eq!(info.state, TimerState::Idle);
    assert_eq!(info.current_phase, None);
    assert_eq!(info.time_remaining, None);
}

#[test]
fn phases_are_found_by_name_first_match() {
    let w = Workflow::new("dup")
        .with_phases(vec![Phase::new("A", 1), Phase::new("B", 2), Phase::new("A", 3), Phase::new("C", 4)])
        .with_repeatable(false);
    let mut timer = fresh();
    timer.handle_command(start(w), at(1)).unwrap();
    timer.handle_command(TimerCommand::Skip, at(1)).unwrap();
    assert_eq!(timer.get_info().current_phase, Some(Phase::new("B", 2)));
    timer.handle_command(TimerCommand::Skip, at(1)).unwrap();
    assert_eq!(timer.get_info().current_phase, Some(Phase::new("A", 3)));
    timer.handle_command(TimerCommand::Skip, at(1)).unwrap();
    assert_eq!(timer.get_info().current_phase, Some(Phase::new("B", 2)));
}

#[test]
fn step_now_stamps_the_start() {
    let mut timer = fresh();
    let action = timer.step_now(TimerInput::Command(start(work_break(true)))).unwrap();
    assert!(action.persist);
    let info = timer.get_info();
    assert_eq!(info.state, TimerState::Running);
    let stamp = info.start_time.unwrap();
    assert!(stamp.seconds > 1_600_000_000);
    assert!(stamp.nanos < 2_000_000_000);
    timer.step_now(TimerInput::Tick).unwrap();
    assert_eq!(timer.get_info().time_remaining, Some(1499));
}
