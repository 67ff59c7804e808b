//! The applet's settings.

use crate::utils::{current_directory, former_directory, get_app_file_path, AppFile};
use vstd::prelude::*;

verus! {

/// The settings of the applet.
#[derive(Debug, Clone)]
pub struct Config {
    /// How often to check for updates, in minutes.
    pub check_interval_minutes: u64,
    /// Whether to show a notification when updates are there.
    pub enable_notifications: bool,
    /// From how many updates on a notification counts as urgent.
    pub urgency_threshold: u32,
    /// The terminal to open for an upgrade; `auto` to have one looked for.
    pub terminal: String,
}

/// The settings as contracts speak of them.
pub struct ConfigView {
    pub check_interval_minutes: u64,
    pub enable_notifications: bool,
    pub urgency_threshold: u32,
    pub terminal: Seq<char>,
}

impl View for Config {
    type V = ConfigView;

    open spec fn view(&self) -> ConfigView {
        ConfigView {
            check_interval_minutes: self.check_interval_minutes,
            enable_notifications: self.enable_notifications,
            urgency_threshold: self.urgency_threshold,
            terminal: self.terminal@,
        }
    }
}

/// The settings of an applet that has none stored: a check every half hour,
/// notifications on and urgent from ten updates, and any terminal.
pub open spec fn default_config() -> ConfigView {
    ConfigView {
        check_interval_minutes: 30,
        enable_notifications: true,
        urgency_threshold: 10,
        terminal: "auto"@,
    }
}

/// The value of a switch that stored settings do not mention.
pub fn default_true() -> (out: bool)
    ensures
        out == default_config().enable_notifications,
{
    true
}

/// The urgency threshold where stored settings do not mention one.
pub fn default_urgency_threshold() -> (out: u32)
    ensures
        out == default_config().urgency_threshold,
{
    10
}

/// The terminal where stored settings do not mention one.
pub fn default_terminal() -> (out: String)
    ensures
        out@ == default_config().terminal,
{
    "auto".to_owned()
}

impl Default for Config {
    fn default() -> (out: Self)
        ensures
            out@ == default_config(),
    {
        Config {
            check_interval_minutes: 30,
            enable_notifications: default_true(),
            urgency_threshold: default_urgency_threshold(),
            terminal: default_terminal(),
        }
    }
}

impl Config {
    /// The same settings once more.
    pub fn duplicate(&self) -> (out: Config)
        ensures
            out@ == self@,
    {
        Config {
            check_interval_minutes: self.check_interval_minutes,
            enable_notifications: self.enable_notifications,
            urgency_threshold: self.urgency_threshold,
            terminal: self.terminal.clone(),
        }
    }

    /// Where the settings are stored: `config.toml`, in the applet's current
    /// directory unless it is missing there and present in the former one.
    pub fn config_path(in_current: bool, in_former: bool) -> (file: AppFile)
        ensures
            file@.file_name == "config.toml"@,
            file@.directory == if !in_current && in_former {
                former_directory()
            } else {
                current_directory()
            },
    {
        get_app_file_path("config.toml", in_current, in_former)
    }
}

} // verus!
