//! Decisions of the tray loop and of the battery polling worker.

use vstd::prelude::*;
use vstd::string::*;
use crate::config::AppConfig;
use crate::hid::BatteryInfo;
use crate::icon::{create_tray_icon, icon_bytes};
use crate::menu::{menu_describes, menu_state, MenuState};
use crate::text::{decimal, push_decimal};

verus! {

/// Seconds the worker waits after a failed fetch before trying again.
pub const RETRY_AFTER_ERROR_SECS: u64 = 12;

/// The tooltip of the tray icon: "Battery: 85%", or "SteelMouse: N/A"
/// when the level is unknown.
pub open spec fn tooltip_of(level: Option<u8>) -> Seq<char> {
    match level {
        Some(l) => "Battery: "@ + decimal(l as nat) + "%"@,
        None => "SteelMouse: N/A"@,
    }
}

/// The tooltip of the tray icon for this level.
pub fn tooltip_text(level: Option<u8>) -> (s: String)
    ensures
        s@ == tooltip_of(level),
{
    let mut s = String::new();
    match level {
        Some(l) => {
            s.append("Battery: ");
            push_decimal(&mut s, l as u64);
            s.append("%");
        },
        None => {
            s.append("SteelMouse: N/A");
        },
    }
    s
}

/// How long the worker sleeps after a fetch: 12 seconds after an error,
/// the configured interval otherwise.
pub fn poll_delay_secs(is_error: bool, time_delta: u64) -> (r: u64)
    ensures
        r == (if is_error { RETRY_AFTER_ERROR_SECS } else { time_delta }),
        is_error ==> r == 12,
        !is_error ==> r == time_delta,
{
    if is_error { RETRY_AFTER_ERROR_SECS } else { time_delta }
}

/// One second of the worker's wait is over (`elapsed` seconds had passed
/// before it, fewer than `sleep_secs`). The wait ends early when a wake-up
/// came (refresh or settings change), or when the interval configured now
/// has passed; it goes on with the new count otherwise.
pub fn next_wait(elapsed: u64, sleep_secs: u64, woke: bool, time_delta: u64) -> (r: Option<u64>)
    requires
        elapsed < sleep_secs,
    ensures
        r == (if woke || elapsed + 1 >= time_delta || elapsed + 1 >= sleep_secs {
            None::<u64>
        } else {
            Some((elapsed + 1) as u64)
        }),
        woke ==> r is None,
        r matches Some(e) ==> e == elapsed + 1 && e < sleep_secs && e < time_delta,
        !woke && elapsed + 1 < time_delta && elapsed + 1 < sleep_secs ==> r == Some((elapsed + 1) as u64),
{
    if woke {
        return None;
    }
    let e = elapsed + 1;
    if e >= time_delta || e >= sleep_secs {
        None
    } else {
        Some(e)
    }
}


/// A wait step never runs past the planned sleep nor past the interval
/// configured now, and a wake-up always ends the wait.
pub proof fn wait_stays_within_bounds(elapsed: u64, sleep_secs: u64, woke: bool, time_delta: u64)
    requires
        elapsed < sleep_secs,
    ensures
        ({
            let r = if woke || elapsed + 1 >= time_delta || elapsed + 1 >= sleep_secs {
                None::<u64>
            } else {
                Some((elapsed + 1) as u64)
            };
            &&& (woke ==> r is None)
            &&& (r matches Some(e) ==> e == elapsed + 1 && e < sleep_secs && e < time_delta)
        }),
{
}

/// What the tray shows after a battery update.
#[derive(Debug, Clone)]
pub struct TrayView {
    /// The icon's RGBA bytes.
    pub icon: Vec<u8>,
    pub tooltip: String,
    pub menu: MenuState,
}

/// The battery state that an update carries: the information of a
/// successful fetch, none after an error.
pub open spec fn update_info(result: Result<BatteryInfo, String>) -> Option<BatteryInfo> {
    match result {
        Ok(i) => Some(i),
        Err(_) => None,
    }
}

/// Level and charging state shown after an update: none and not charging
/// after an error.
pub open spec fn update_level(result: Result<BatteryInfo, String>) -> (Option<u8>, bool) {
    match result {
        Ok(i) => (i.level, i.is_charging),
        Err(_) => (None, false),
    }
}

/// What the tray shows after the update `result` taken at `timestamp`
/// under `config`: the icon for its level, charging state and the icon
/// mode; the tooltip for its level; the menu for its information, the
/// time stamp, the interval and the mode.
pub fn tray_view(result: &Result<BatteryInfo, String>, timestamp: &str, config: AppConfig) -> (v: TrayView)
    ensures
        v.icon@ == icon_bytes(update_level(*result).0, update_level(*result).1, config.display_mode),
        v.tooltip@ == tooltip_of(update_level(*result).0),
        menu_describes(v.menu, update_info(*result), Some(timestamp@), config.time_delta, config.display_mode),
{
    let (info, level, charging) = match result {
        Ok(i) => (Some(i), i.level, i.is_charging),
        Err(_) => (None, None, false),
    };
    let icon = create_tray_icon(level, charging, config.display_mode);
    let tooltip = tooltip_text(level);
    let menu = menu_state(info, Some(timestamp), config.time_delta, config.display_mode);
    TrayView { icon, tooltip, menu }
}

} // verus!
