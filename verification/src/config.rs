//! Settings: which workflow and status a start falls back to, and how the
//! status bar is fed.

use vstd::prelude::*;
use crate::views::opt_text;

verus! {

/// How the status bar is fed. `format` is the template of the bar's text
/// while the timer runs, with the placeholders `{icon}`, `{status}`,
/// `{remaining}` and `{phase}`.
#[derive(Debug, PartialEq, Eq)]
pub struct WaybarConfig {
    pub enabled: bool,
    pub format: String,
    pub socket_path: Option<String>,
    pub click_events: bool,
}

/// What a [`WaybarConfig`] holds, as mathematical values.
pub ghost struct WaybarConfigView {
    pub enabled: bool,
    pub format: Seq<char>,
    pub socket_path: Option<Seq<char>>,
    pub click_events: bool,
}

impl View for WaybarConfig {
    type V = WaybarConfigView;

    open spec fn view(&self) -> WaybarConfigView {
        WaybarConfigView {
            enabled: self.enabled,
            format: self.format@,
            socket_path: opt_text(self.socket_path),
            click_events: self.click_events,
        }
    }
}

impl Clone for WaybarConfig {
    fn clone(&self) -> (r: Self)
        ensures
            r == *self,
    {
        WaybarConfig {
            enabled: self.enabled,
            format: self.format.clone(),
            socket_path: self.socket_path.clone(),
            click_events: self.click_events,
        }
    }
}

impl Default for WaybarConfig {
    /// The bar is fed, with icon, status and countdown, and takes clicks.
    fn default() -> (r: Self)
        ensures
            r@ == (WaybarConfigView {
                enabled: true,
                format: "{icon} {status}: {remaining}"@,
                socket_path: None,
                click_events: true,
            }),
    {
        WaybarConfig {
            enabled: true,
            format: "{icon} {status}: {remaining}".to_owned(),
            socket_path: None,
            click_events: true,
        }
    }
}

/// The settings of the program.
#[derive(Debug, PartialEq, Eq)]
pub struct Config {
    pub default_workflow: String,
    pub default_status: String,
    pub notification_enabled: bool,
    pub waybar_integration: WaybarConfig,
}

/// What a [`Config`] holds, as mathematical values.
pub ghost struct ConfigView {
    pub default_workflow: Seq<char>,
    pub default_status: Seq<char>,
    pub notification_enabled: bool,
    pub waybar_integration: WaybarConfigView,
}

impl View for Config {
    type V = ConfigView;

    open spec fn view(&self) -> ConfigView {
        ConfigView {
            default_workflow: self.default_workflow@,
            default_status: self.default_status@,
            notification_enabled: self.notification_enabled,
            waybar_integration: self.waybar_integration@,
        }
    }
}

impl Clone for Config {
    fn clone(&self) -> (r: Self)
        ensures
            r == *self,
    {
        Config {
            default_workflow: self.default_workflow.clone(),
            default_status: self.default_status.clone(),
            notification_enabled: self.notification_enabled,
            waybar_integration: self.waybar_integration.clone(),
        }
    }
}

impl Default for Config {
    /// The stock workflow and status, notifications on, the bar fed.
    fn default() -> (r: Self)
        ensures
            r@ == (ConfigView {
                default_workflow: "Default Pomodoro"@,
                default_status: "work"@,
                notification_enabled: true,
                waybar_integration: WaybarConfigView {
                    enabled: true,
                    format: "{icon} {status}: {remaining}"@,
                    socket_path: None,
                    click_events: true,
                },
            }),
    {
        Config {
            default_workflow: "Default Pomodoro".to_owned(),
            default_status: "work".to_owned(),
            notification_enabled: true,
            waybar_integration: WaybarConfig::default(),
        }
    }
}

/// The socket that the status bar listens on, where the settings name one.
pub fn get_waybar_socket_path(config: &Config) -> (r: Option<String>)
    ensures
        opt_text(r) == config@.waybar_integration.socket_path,
{
    config.waybar_integration.socket_path.clone()
}

} // verus!
