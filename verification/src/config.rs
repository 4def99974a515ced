//! User settings of the tray application.

use vstd::prelude::*;

verus! {

/// How the tray icon shows the battery.
#[derive(Debug, Clone, Copy, PartialEq, Eq, Structural)]
pub enum DisplayMode {
    /// A battery graphic; the percentage is in the tooltip.
    Hover,
    /// The percentage drawn as digits on the icon.
    Icon,
}

impl Default for DisplayMode {
    fn default() -> (r: Self)
        ensures
            r == DisplayMode::Hover,
    {
        DisplayMode::Hover
    }
}

/// The saved settings: the refresh interval in seconds and the icon mode.
#[derive(Debug, Clone, Copy, PartialEq, Eq, Structural)]
pub struct AppConfig {
    pub time_delta: u64,
    pub display_mode: DisplayMode,
}

impl Default for AppConfig {
    /// Refresh every five minutes, battery graphic.
    fn default() -> (r: Self)
        ensures
            r.time_delta == 300,
            r.display_mode == DisplayMode::Hover,
    {
        AppConfig { time_delta: 300, display_mode: DisplayMode::Hover }
    }
}

/// A settings entry picked in the tray menu.
#[derive(Debug, Clone, Copy, PartialEq, Eq, Structural)]
pub enum ConfigChoice {
    Mode(DisplayMode),
    Interval(u64),
}

/// The settings after `choice` was picked: the picked entry replaces the
/// matching setting, the other stays.
pub fn apply_choice(config: AppConfig, choice: ConfigChoice) -> (r: AppConfig)
    ensures
        match choice {
            ConfigChoice::Mode(m) => r == AppConfig { display_mode: m, ..config },
            ConfigChoice::Interval(s) => r == AppConfig { time_delta: s, ..config },
        },
{
    match choice {
        ConfigChoice::Mode(m) => AppConfig { time_delta: config.time_delta, display_mode: m },
        ConfigChoice::Interval(s) => AppConfig { time_delta: s, display_mode: config.display_mode },
    }
}

} // verus!
