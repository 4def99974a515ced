//! What the tray menu shows: the status lines and which entries are checked.

use vstd::prelude::*;
use vstd::string::*;
use crate::config::DisplayMode;
use crate::hid::BatteryInfo;
use crate::text::{decimal, push_decimal};

verus! {

/// One entry of the refresh interval submenu.
#[derive(Debug, Clone)]
pub struct MenuInterval {
    pub secs: u64,
    pub label: String,
    pub checked: bool,
}

/// Texts and check marks of the tray menu.
#[derive(Debug, Clone)]
pub struct MenuState {
    pub name: String,
    pub battery: String,
    pub status: String,
    pub last_updated: String,
    pub intervals: Vec<MenuInterval>,
    pub hover_checked: bool,
    pub icon_checked: bool,
}

/// The refresh intervals offered, in seconds.
pub open spec fn interval_secs() -> Seq<u64> {
    seq![60u64, 300u64, 600u64, 1800u64, 3600u64]
}

/// The labels of the refresh intervals, in the same order.
pub open spec fn interval_labels() -> Seq<Seq<char>> {
    seq!["1 Minute"@, "5 Minutes"@, "10 Minutes"@, "30 Minutes"@, "1 Hour"@]
}

pub open spec fn name_line(info: Option<BatteryInfo>) -> Seq<char> {
    match info {
        Some(b) => "Name: "@ + b.name@,
        None => "Name: N/A"@,
    }
}

pub open spec fn battery_line(info: Option<BatteryInfo>) -> Seq<char> {
    match info {
        Some(b) => match b.level {
            Some(l) => "Battery: "@ + decimal(l as nat) + "%"@,
            None => "Battery: N/A"@,
        },
        None => "Battery: N/A"@,
    }
}

pub open spec fn status_line(info: Option<BatteryInfo>) -> Seq<char> {
    match info {
        Some(b) => if b.is_charging { "Status: Charging"@ } else { "Status: Discharging"@ },
        None => "Status: Discharging"@,
    }
}

pub open spec fn last_updated_line(last_updated: Option<Seq<char>>) -> Seq<char> {
    match last_updated {
        Some(t) => "Last updated: "@ + t,
        None => "Last updated: "@ + "--:--:--"@,
    }
}

/// Whether `m` describes the menu for this battery state, update time,
/// interval and icon mode.
pub open spec fn menu_describes(
    m: MenuState,
    info: Option<BatteryInfo>,
    last_updated: Option<Seq<char>>,
    time_delta: u64,
    display_mode: DisplayMode,
) -> bool {
    &&& m.name@ == name_line(info)
    &&& m.battery@ == battery_line(info)
    &&& m.status@ == status_line(info)
    &&& m.last_updated@ == last_updated_line(last_updated)
    &&& m.intervals@.len() == 5
    &&& forall|i: int| 0 <= i < 5 ==> {
        &&& (#[trigger] m.intervals@[i]).secs == interval_secs()[i]
        &&& m.intervals@[i].label@ == interval_labels()[i]
        &&& m.intervals@[i].checked == (interval_secs()[i] == time_delta)
    }
    &&& m.hover_checked == (display_mode == DisplayMode::Hover)
    &&& m.icon_checked == (display_mode == DisplayMode::Icon)
}

fn interval_entry(secs: u64, label: &str, time_delta: u64) -> (e: MenuInterval)
    ensures
        e.secs == secs,
        e.label@ == label@,
        e.checked == (secs == time_delta),
{
    MenuInterval { secs, label: String::from_str(label), checked: secs == time_delta }
}

/// The menu for this battery state (none before the first reading or after
/// an error), update time, refresh interval and icon mode.
pub fn menu_state(
    battery_info: Option<&BatteryInfo>,
    last_updated: Option<&str>,
    time_delta: u64,
    display_mode: DisplayMode,
) -> (m: MenuState)
    ensures
        menu_describes(
            m,
            match battery_info {
                Some(b) => Some(*b),
                None => None,
            },
            match last_updated {
                Some(t) => Some(t@),
                None => None,
            },
            time_delta,
            display_mode,
        ),
{
    let mut name = String::new();
    let mut battery = String::new();
    let mut status = String::new();
    match battery_info {
        Some(b) => {
            name.append("Name: ");
            name.append(b.name.as_str());
            match b.level {
                Some(l) => {
                    battery.append("Battery: ");
                    push_decimal(&mut battery, l as u64);
                    battery.append("%");
                },
                None => {
                    battery.append("Battery: N/A");
                },
            }
            if b.is_charging {
                status.append("Status: Charging");
            } else {
                status.append("Status: Discharging");
            }
        },
        None => {
            name.append("Name: N/A");
            battery.append("Battery: N/A");
            status.append("Status: Discharging");
        },
    }
    let mut updated = String::new();
    updated.append("Last updated: ");
    match last_updated {
        Some(t) => updated.append(t),
        None => updated.append("--:--:--"),
    }
    let mut intervals: Vec<MenuInterval> = Vec::new();
    intervals.push(interval_entry(60, "1 Minute", time_delta));
    intervals.push(interval_entry(300, "5 Minutes", time_delta));
    intervals.push(interval_entry(600, "10 Minutes", time_delta));
    intervals.push(interval_entry(1800, "30 Minutes", time_delta));
    intervals.push(interval_entry(3600, "1 Hour", time_delta));
    let hover_checked = match display_mode {
        DisplayMode::Hover => true,
        DisplayMode::Icon => false,
    };
    let icon_checked = !hover_checked;
    MenuState {
        name,
        battery,
        status,
        last_updated: updated,
        intervals,
        hover_checked,
        icon_checked,
    }
}

/// The menu always checks exactly one icon mode, and checks exactly one
/// refresh interval when the configured one is offered, none otherwise.
pub proof fn menu_check_marks(
    m: MenuState,
    info: Option<BatteryInfo>,
    last_updated: Option<Seq<char>>,
    time_delta: u64,
    display_mode: DisplayMode,
)
    requires
        menu_describes(m, info, last_updated, time_delta, display_mode),
    ensures
        m.hover_checked != m.icon_checked,
        forall|i: int, j: int|
            0 <= i < 5 && 0 <= j < 5 && (#[trigger] m.intervals@[i]).checked
                && (#[trigger] m.intervals@[j]).checked ==> i == j,
        interval_secs().contains(time_delta) <==> exists|i: int|
            0 <= i < 5 && (#[trigger] m.intervals@[i]).checked,
{
    assert forall|i: int, j: int|
        0 <= i < 5 && 0 <= j < 5 && (#[trigger] m.intervals@[i]).checked
            && (#[trigger] m.intervals@[j]).checked implies i == j by {
        assert(interval_secs()[i] == interval_secs()[j]);
    }
    if interval_secs().contains(time_delta) {
        let k = choose|k: int| 0 <= k < interval_secs().len() && interval_secs()[k] == time_delta;
        assert(m.intervals@[k].checked);
    }
    if exists|i: int| 0 <= i < 5 && (#[trigger] m.intervals@[i]).checked {
        let k = choose|i: int| 0 <= i < 5 && (#[trigger] m.intervals@[i]).checked;
        assert(interval_secs()[k] == time_delta);
    }
}

} // verus!
