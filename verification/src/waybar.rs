//! What the status bar shows: the record rendered from a snapshot.

use vstd::prelude::*;
use crate::config::{WaybarConfig, WaybarConfigView};
use crate::status::StatusView;
use crate::text::{
    chars_of, push_all, push_two_digits, replace_all, replaced, string_of, two_digits,
};
use crate::timer::{TimerInfo, TimerInfoView, TimerState};
use crate::views::{opt_text, opt_view};
use crate::workflow::{Phase, PhaseView};

verus! {

/// The record that the status bar reads.
#[derive(Debug, PartialEq, Eq)]
pub struct WaybarOutput {
    pub text: String,
    pub tooltip: Option<String>,
    pub class: Option<String>,
    pub percentage: Option<u8>,
    pub alt_text: Option<String>,
}

/// What a [`WaybarOutput`] holds, as mathematical values.
pub ghost struct WaybarOutputView {
    pub text: Seq<char>,
    pub tooltip: Option<Seq<char>>,
    pub class: Option<Seq<char>>,
    pub percentage: Option<u8>,
    pub alt_text: Option<Seq<char>>,
}

impl View for WaybarOutput {
    type V = WaybarOutputView;

    open spec fn view(&self) -> WaybarOutputView {
        WaybarOutputView {
            text: self.text@,
            tooltip: opt_text(self.tooltip),
            class: opt_text(self.class),
            percentage: self.percentage,
            alt_text: opt_text(self.alt_text),
        }
    }
}

impl Clone for WaybarOutput {
    fn clone(&self) -> (r: Self)
        ensures
            r == *self,
    {
        WaybarOutput {
            text: self.text.clone(),
            tooltip: self.tooltip.clone(),
            class: self.class.clone(),
            percentage: self.percentage,
            alt_text: self.alt_text.clone(),
        }
    }
}

impl Default for WaybarOutput {
    /// The bare tomato.
    fn default() -> (r: Self)
        ensures
            r@ == plain("\u{1f345}"@, None, None),
    {
        WaybarOutput {
            text: "\u{1f345}".to_owned(),
            tooltip: None,
            class: None,
            percentage: None,
            alt_text: None,
        }
    }
}

/// A record with a text, a class and a tooltip, and no more.
pub open spec fn plain(
    text: Seq<char>,
    class: Option<Seq<char>>,
    tooltip: Option<Seq<char>>,
) -> WaybarOutputView {
    WaybarOutputView { text, tooltip, class, percentage: None, alt_text: None }
}

/// A time as minutes and seconds, `mm:ss`, each in at least two digits.
pub open spec fn clock_text(seconds: nat) -> Seq<char> {
    two_digits(seconds / 60) + seq![':'] + two_digits(seconds % 60)
}

/// Writes a time in seconds as minutes and seconds, `mm:ss`.
pub fn format_time_remaining(seconds: u64) -> (r: String)
    ensures
        r@ == clock_text(seconds as nat),
{
    string_of(&clock_chars(seconds))
}

/// The characters of a time written as `mm:ss`.
fn clock_chars(seconds: u64) -> (r: Vec<char>)
    ensures
        r@ == clock_text(seconds as nat),
{
    let mut out: Vec<char> = Vec::new();
    push_two_digits(&mut out, seconds / 60);
    out.push(':');
    push_two_digits(&mut out, seconds % 60);
    assert(out@ =~= clock_text(seconds as nat));
    out
}

/// The text of an optional string, or `fallback` where there is none.
pub open spec fn text_or(o: Option<Seq<char>>, fallback: Seq<char>) -> Seq<char> {
    match o {
        Some(t) => t,
        None => fallback,
    }
}

/// The seconds left of `phase`: the countdown where there is one, else what
/// the elapsed time leaves of the phase, never below zero.
pub open spec fn seconds_left(info: TimerInfoView, phase: PhaseView) -> nat {
    match info.time_remaining {
        Some(r) => r,
        None => if phase.seconds() > info.elapsed_time {
            (phase.seconds() - info.elapsed_time) as nat
        } else {
            0
        },
    }
}

/// The seconds of `phase` that are over: the phase less the countdown where
/// there is one, else the elapsed time, never more than the phase nor below
/// zero.
pub open spec fn seconds_done(info: TimerInfoView, phase: PhaseView) -> nat {
    let total = phase.seconds();
    match info.time_remaining {
        Some(r) => if r <= total {
            (total - r) as nat
        } else {
            0
        },
        None => if info.elapsed_time < total {
            info.elapsed_time
        } else {
            total
        },
    }
}

/// How far `phase` has come, in percent, rounded down and never over 100.
/// A phase of no length has no progress.
pub open spec fn progress(info: TimerInfoView, phase: PhaseView) -> Option<u8> {
    let total = phase.seconds();
    if total > 0 {
        let percent = seconds_done(info, phase) * 100 / total;
        Some(if percent < 100 { percent as u8 } else { 100u8 })
    } else {
        None
    }
}

/// The template with its placeholders filled in, one after the other:
/// `{icon}`, `{status}`, `{remaining}`, `{phase}`.
pub open spec fn fill_template(
    format: Seq<char>,
    icon: Seq<char>,
    status: Seq<char>,
    remaining: Seq<char>,
    phase: Seq<char>,
) -> Seq<char> {
    replace_all(
        replace_all(
            replace_all(replace_all(format, "{icon}"@, icon), "{status}"@, status),
            "{remaining}"@,
            remaining,
        ),
        "{phase}"@,
        phase,
    )
}

/// What the bar shows while the timer runs in `phase` under `status`.
pub open spec fn running_output(
    info: TimerInfoView,
    phase: PhaseView,
    status: StatusView,
    format: Seq<char>,
) -> WaybarOutputView {
    let left = clock_text(seconds_left(info, phase));
    WaybarOutputView {
        text: fill_template(format, text_or(phase.icon, "\u{1f345}"@), status.name, left, phase.name),
        tooltip: Some(
            status.name + ": "@ + phase.name + " ("@ + text_or(phase.description, ""@)
                + ")\nRemaining: "@ + left + "\nElapsed: "@ + clock_text(info.elapsed_time),
        ),
        class: Some("running"@),
        percentage: progress(info, phase),
        alt_text: phase.color,
    }
}

/// What the bar shows while the timer is paused in `phase` under `status`.
pub open spec fn paused_output(info: TimerInfoView, phase: PhaseView, status: StatusView) -> WaybarOutputView {
    plain(
        text_or(phase.icon, "\u{23f8}\u{fe0f}"@) + " "@ + status.name + " (Paused)"@,
        Some("paused"@),
        Some(
            status.name + ": "@ + phase.name + " (Paused)\nElapsed: "@ + clock_text(
                info.elapsed_time,
            ),
        ),
    )
}

/// What the bar shows for a snapshot, with `format` as the template of the
/// running text.
pub open spec fn render(info: TimerInfoView, format: Seq<char>) -> WaybarOutputView {
    let in_phase = info.current_phase is Some && info.current_status is Some;
    match info.state {
        TimerState::Idle => plain(
            "\u{1f345} Idle"@,
            Some("idle"@),
            Some("Tomato Clock is idle"@),
        ),
        TimerState::Running => if in_phase {
            running_output(info, info.current_phase->0, info.current_status->0, format)
        } else {
            plain("\u{1f345} Running"@, Some("running"@), None)
        },
        TimerState::Paused => if in_phase {
            paused_output(info, info.current_phase->0, info.current_status->0)
        } else {
            plain("\u{1f345} Paused"@, Some("paused"@), None)
        },
        TimerState::Completed => plain(
            "\u{1f345} Completed"@,
            Some("completed"@),
            Some("Tomato Clock cycle completed"@),
        ),
    }
}

/// What the bar is to show for `info`, if anything: nothing where the
/// settings switch the bar off.
pub open spec fn waybar_update(info: TimerInfoView, config: WaybarConfigView) -> Option<
    WaybarOutputView,
> {
    if config.enabled {
        Some(render(info, config.format))
    } else {
        None
    }
}

/// A record with a text, a class and a tooltip, and no more.
fn plain_output(text: &str, class: &str, tooltip: Option<&str>) -> (r: WaybarOutput)
    ensures
        r@ == plain(
            text@,
            Some(class@),
            match tooltip {
                Some(t) => Some(t@),
                None => None,
            },
        ),
{
    WaybarOutput {
        text: text.to_owned(),
        tooltip: match tooltip {
            Some(t) => Some(t.to_owned()),
            None => None,
        },
        class: Some(class.to_owned()),
        percentage: None,
        alt_text: None,
    }
}

/// The characters of an optional string, or of `fallback`.
fn chars_or(o: &Option<String>, fallback: &str) -> (r: Vec<char>)
    ensures
        r@ == text_or(opt_text(*o), fallback@),
{
    match o {
        Some(s) => chars_of(s.as_str()),
        None => chars_of(fallback),
    }
}

/// Appends the characters of `s`.
fn push_str(out: &mut Vec<char>, s: &str)
    ensures
        final(out)@ == old(out)@ + s@,
{
    push_all(out, &chars_of(s));
}

/// How far `phase` has come, in percent.
fn progress_of(info: &TimerInfo, phase: &Phase) -> (r: Option<u8>)
    ensures
        r == progress(info@, phase@),
{
    let total = phase.seconds();
    if total == 0 {
        return None;
    }
    let done: u64 = match info.time_remaining {
        Some(r) => if r <= total {
            total - r
        } else {
            0
        },
        None => if info.elapsed_time < total {
            info.elapsed_time
        } else {
            total
        },
    };
    let percent = done * 100 / total;
    Some(if percent < 100 { percent as u8 } else { 100 })
}

/// The seconds left of `phase`.
fn left_of(info: &TimerInfo, phase: &Phase) -> (r: u64)
    ensures
        r == seconds_left(info@, phase@),
{
    match info.time_remaining {
        Some(r) => r,
        None => {
            let total = phase.seconds();
            if total > info.elapsed_time {
                total - info.elapsed_time
            } else {
                0
            }
        },
    }
}

/// Fills the placeholders of the template in.
fn filled(
    format: &String,
    icon: &Vec<char>,
    status: &Vec<char>,
    remaining: &Vec<char>,
    phase: &Vec<char>,
) -> (r: Vec<char>)
    ensures
        r@ == fill_template(format@, icon@, status@, remaining@, phase@),
{
    let a = replaced(&chars_of(format.as_str()), &chars_of("{icon}"), icon);
    let b = replaced(&a, &chars_of("{status}"), status);
    let c = replaced(&b, &chars_of("{remaining}"), remaining);
    replaced(&c, &chars_of("{phase}"), phase)
}

/// Renders the record that the status bar is to show for `timer_info`, or
/// none where the settings switch the bar off.
pub fn update_waybar_output(timer_info: &TimerInfo, config: &WaybarConfig) -> (r: Option<
    WaybarOutput,
>)
    ensures
        opt_view(r) == waybar_update(timer_info@, config@),
{
    if !config.enabled {
        return None;
    }
    let output = match timer_info.state {
        TimerState::Idle => plain_output("\u{1f345} Idle", "idle", Some("Tomato Clock is idle")),
        TimerState::Running => match (&timer_info.current_phase, &timer_info.current_status) {
            (Some(phase), Some(status)) => {
                let icon = chars_or(&phase.icon, "\u{1f345}");
                let status_name = chars_of(status.name.as_str());
                let phase_name = chars_of(phase.name.as_str());
                let left = clock_chars(left_of(timer_info, phase));
                let text = filled(&config.format, &icon, &status_name, &left, &phase_name);
                let mut tooltip: Vec<char> = Vec::new();
                push_all(&mut tooltip, &status_name);
                push_str(&mut tooltip, ": ");
                push_all(&mut tooltip, &phase_name);
                push_str(&mut tooltip, " (");
                push_all(&mut tooltip, &chars_or(&phase.description, ""));
                push_str(&mut tooltip, ")\nRemaining: ");
                push_all(&mut tooltip, &left);
                push_str(&mut tooltip, "\nElapsed: ");
                push_all(&mut tooltip, &clock_chars(timer_info.elapsed_time));
                WaybarOutput {
                    text: string_of(&text),
                    tooltip: Some(string_of(&tooltip)),
                    class: Some("running".to_owned()),
                    percentage: progress_of(timer_info, phase),
                    alt_text: phase.color.clone(),
                }
            },
            _ => plain_output("\u{1f345} Running", "running", None),
        },
        TimerState::Paused => match (&timer_info.current_phase, &timer_info.current_status) {
            (Some(phase), Some(status)) => {
                let mut text = chars_or(&phase.icon, "\u{23f8}\u{fe0f}");
                push_str(&mut text, " ");
                push_str(&mut text, status.name.as_str());
                push_str(&mut text, " (Paused)");
                let mut tooltip = chars_of(status.name.as_str());
                push_str(&mut tooltip, ": ");
                push_str(&mut tooltip, phase.name.as_str());
                push_str(&mut tooltip, " (Paused)\nElapsed: ");
                push_all(&mut tooltip, &clock_chars(timer_info.elapsed_time));
                WaybarOutput {
                    text: string_of(&text),
                    tooltip: Some(string_of(&tooltip)),
                    class: Some("paused".to_owned()),
                    percentage: None,
                    alt_text: None,
                }
            },
            _ => plain_output("\u{1f345} Paused", "paused", None),
        },
        TimerState::Completed => plain_output(
            "\u{1f345} Completed",
            "completed",
            Some("Tomato Clock cycle completed"),
        ),
    };
    Some(output)
}

/// Takes a click on the bar. No button does anything yet: every click is
/// accepted and ignored.
pub fn process_waybar_click(button: u8) -> (r: Result<(), String>)
    ensures
        r == Ok::<(), String>(()),
{
    Ok(())
}

} // verus!
