use tomato_clock::clock::Timestamp;
use tomato_clock::config::{get_waybar_socket_path, Config, WaybarConfig};
use tomato_clock::persistence::PersistentState;
use tomato_clock::status::Status;
use tomato_clock::timer::{Timer, TimerCommand, TimerInfo, TimerState};
use tomato_clock::waybar::{
    format_time_remaining, process_waybar_click, update_waybar_output, WaybarOutput,
};
use tomato_clock::workflow::{Phase, Workflow};

fn at(seconds: i64) -> Timestamp {
    Timestamp { seconds, nanos: 0, offset_seconds: 0 }
}

fn running(ticks: u32) -> TimerInfo {
    let mut timer =
        Timer::new(&PersistentState::empty(at(0)), Workflow::default(), Status::default());
    timer.handle_command(TimerCommand::Start { workflow: None, status: None }, at(1)).unwrap();
    for _ in 0..ticks {
        timer.tick();
    }
    timer.get_info()
}

fn some(s: &str) -> Option<String> {
    Some(s.to_string())
}

#[test]
fn default_config() {
    let c = Config::default();
    assert_eq!(c.default_workflow, "Default Pomodoro");
    assert_eq!(c.default_status, "work");
    assert!(c.notification_enabled);
    assert_eq!(c.waybar_integration, WaybarConfig::default());
    let w = WaybarConfig::default();
    assert!(w.enabled);
    assert_eq!(w.format, "{icon} {status}: {remaining}");
    assert_eq!(w.socket_path, None);
    assert!(w.click_events);
    assert_eq!(c.clone(), c);
}

#[test]
fn socket_path_comes_from_the_settings() {
    let mut c = Config::default();
    assert_eq!(get_waybar_socket_path(&c), None);
    c.waybar_integration.socket_path = some("/run/bar.sock");
    assert_eq!(get_waybar_socket_path(&c), some("/run/bar.sock"));
}

#[test]
fn default_output_is_the_bare_tomato() {
    let o = WaybarOutput::default();
    assert_eq!(
        o,
        WaybarOutput {
            text: "🍅".to_string(),
            tooltip: None,
            class: None,
            percentage: None,
            alt_text: None
        }
    );
    assert_eq!(o.clone(), o);
}

#[test]
fn time_is_written_as_minutes_and_seconds() {
    assert_eq!(format_time_remaining(0), "00:00");
    assert_eq!(format_time_remaining(9), "00:09");
    assert_eq!(format_time_remaining(59), "00:59");
    assert_eq!(format_time_remaining(60), "01:00");
    assert_eq!(format_time_remaining(1500), "25:00");
    assert_eq!(format_time_remaining(3599), "59:59");
    assert_eq!(format_time_remaining(6000), "100:00");
    assert_eq!(format_time_remaining(6001), "100:01");
    for s in [0u64, 1, 61, 599, 600, 86399, 1_000_000, u64::MAX] {
        assert_eq!(format_time_remaining(s), format!("{:02}:{:02}", s / 60, s % 60));
    }
}

#[test]
fn disabled_bar_gets_nothing() {
    let mut config = WaybarConfig::default();
    config.enabled = false;
    assert_eq!(update_waybar_output(&running(3), &config), None);
    assert_eq!(update_waybar_output(&TimerInfo::default(), &config), None);
}

#[test]
fn idle_output() {
    let o = update_waybar_output(&TimerInfo::default(), &WaybarConfig::default()).unwrap();
    assert_eq!(
        o,
        WaybarOutput {
            text: "🍅 Idle".to_string(),
            tooltip: some("Tomato Clock is idle"),
            class: some("idle"),
            percentage: None,
            alt_text: None,
        }
    );
}

#[test]
fn completed_output() {
    let mut info = TimerInfo::default();
    info.state = TimerState::Completed;
    let o = update_waybar_output(&info, &WaybarConfig::default()).unwrap();
    assert_eq!(
        o,
        WaybarOutput {
            text: "🍅 Completed".to_string(),
            tooltip: some("Tomato Clock cycle completed"),
            class: some("completed"),
            percentage: None,
            alt_text: None,
        }
    );
}

#[test]
fn running_output() {
    let o = update_waybar_output(&running(375), &WaybarConfig::default()).unwrap();
    assert_eq!(
        o,
        WaybarOutput {
            text: "🔨 work: 18:45".to_string(),
            tooltip: some("work: Work (Focus on work)\nRemaining: 18:45\nElapsed: 06:15"),
            class: some("running"),
            percentage: Some(25),
            alt_text: some("#ff5555"),
        }
    );
}

#[test]
fn running_output_fills_every_placeholder() {
    let mut config = WaybarConfig::default();
    config.format = "{phase}|{icon}|{status}|{remaining}|{phase}|{other}".to_string();
    let o = update_waybar_output(&running(60), &config).unwrap();
    assert_eq!(o.text, "Work|🔨|work|24:00|Work|{other}");
    assert_eq!(o.percentage, Some(4));
}

#[test]
fn placeholders_are_filled_one_after_the_other() {
    let mut info = running(0);
    info.current_status = Some(Status::new("{remaining}/{phase}"));
    let o = update_waybar_output(&info, &WaybarConfig::default()).unwrap();
    assert_eq!(o.text, "🔨 25:00/Work: 25:00");
    let mut config = WaybarConfig::default();
    config.format = "{status} {phase}".to_string();
    let o = update_waybar_output(&info, &config).unwrap();
    assert_eq!(o.text, "25:00/Work Work");
}

#[test]
fn running_output_without_icon_description_or_color() {
    let mut info = running(0);
    info.current_phase = Some(Phase::new("Plain", 25));
    info.current_status = Some(Status::new("study"));
    let o = update_waybar_output(&info, &WaybarConfig::default()).unwrap();
    assert_eq!(o.text, "🍅 study: 25:00");
    assert_eq!(o.tooltip, some("study: Plain ()\nRemaining: 25:00\nElapsed: 00:00"));
    assert_eq!(o.alt_text, None);
    assert_eq!(o.percentage, Some(0));
}

#[test]
fn running_output_without_a_countdown_goes_by_the_elapsed_time() {
    let mut info = running(0);
    info.time_remaining = None;
    info.elapsed_time = 750;
    let o = update_waybar_output(&info, &WaybarConfig::default()).unwrap();
    assert_eq!(o.text, "🔨 work: 12:30");
    assert_eq!(o.percentage, Some(50));
    info.elapsed_time = 5000;
    let o = update_waybar_output(&info, &WaybarConfig::default()).unwrap();
    assert_eq!(o.text, "🔨 work: 00:00");
    assert_eq!(o.percentage, Some(100));
}

#[test]
fn progress_is_a_percentage() {
    let expect = [(0u32, 0u8), (14, 0), (15, 1), (749, 49), (750, 50), (1485, 99), (1499, 99)];
    for (ticks, percent) in expect {
        let o = update_waybar_output(&running(ticks), &WaybarConfig::default()).unwrap();
        assert_eq!(o.percentage, Some(percent), "after {} ticks", ticks);
    }
    let mut info = running(0);
    info.time_remaining = Some(0);
    let o = update_waybar_output(&info, &WaybarConfig::default()).unwrap();
    assert_eq!(o.percentage, Some(100));
    info.time_remaining = Some(9000);
    let o = update_waybar_output(&info, &WaybarConfig::default()).unwrap();
    assert_eq!(o.percentage, Some(0));
    info.current_phase = Some(Phase::new("Blink", 0));
    let o = update_waybar_output(&info, &WaybarConfig::default()).unwrap();
    assert_eq!(o.percentage, None);
}

#[test]
fn running_output_without_phase_or_status() {
    let mut info = running(0);
    info.current_status = None;
    let o = update_waybar_output(&info, &WaybarConfig::default()).unwrap();
    assert_eq!(
        o,
        WaybarOutput {
            text: "🍅 Running".to_string(),
            tooltip: None,
            class: some("running"),
            percentage: None,
            alt_text: None,
        }
    );
}

#[test]
fn paused_output() {
    let mut info = running(75);
    info.state = TimerState::Paused;
    let o = update_waybar_output(&info, &WaybarConfig::default()).unwrap();
    assert_eq!(
        o,
        WaybarOutput {
            text: "🔨 work (Paused)".to_string(),
            tooltip: some("work: Work (Paused)\nElapsed: 01:15"),
            class: some("paused"),
            percentage: None,
            alt_text: None,
        }
    );
    info.current_phase = Some(Phase::new("Plain", 25));
    let o = update_waybar_output(&info, &WaybarConfig::default()).unwrap();
    assert_eq!(o.text, "⏸️ work (Paused)");
    info.current_phase = None;
    let o = update_waybar_output(&info, &WaybarConfig::default()).unwrap();
    assert_eq!(o.text, "🍅 Paused");
    assert_eq!(o.class, some("paused"));
    assert_eq!(o.tooltip, None);
}

#[test]
fn clicks_are_accepted() {
    for button in [0u8, 1, 2, 3, 4, 255] {
        assert_eq!(process_waybar_click(button), Ok(()));
    }
}
