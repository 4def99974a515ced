//! Battery information, device selection and the mouse manager.
//!
//! The manager decides; the program that owns the HID bus performs what the
//! manager asks for and hands back what the device answered.

use vstd::prelude::*;
use vstd::string::*;
use crate::decode::{
    reading_from_battery_byte, BatteryKind, Reading, ReadStep, AEROX_READ_ATTEMPTS, reading_from_byte,
    spec_decode_aerox_prime, spec_decode_rival3_650, spec_decode_aerox_prime_first_byte,
    spec_decode_rival3_650_three_byte, spec_is_battery_response, spec_read_step,
};
use crate::text::{decimal, opt_str_view, push_decimal};
use crate::tracker::{BatterySample, BatteryTracker, EstimateBasis, Timestamp, estimated_with, history_after_add, history_ok};

verus! {

/// USB vendor id of SteelSeries.
pub const STEELSERIES_VENDOR_ID: u16 = 0x1038;

/// Name under which the mock mouse reports.
pub open spec fn mock_name() -> Seq<char> {
    "SteelSeries Aerox 3 Wireless (Mock)"@
}

/// The battery state of one mouse as shown to the user.
#[derive(Debug, Clone)]
pub struct BatteryInfo {
    pub name: String,
    pub level: Option<u8>,
    pub is_charging: bool,
    pub estimated_time: Option<String>,
}

/// "Name: 85% (Discharging)", "Name: N/A (Charging, Full in ~25m)".
pub open spec fn battery_info_text(
    name: Seq<char>,
    level: Option<u8>,
    is_charging: bool,
    estimate: Option<Seq<char>>,
) -> Seq<char> {
    let level_text = match level {
        Some(l) => decimal(l as nat) + "%"@,
        None => "N/A"@,
    };
    let status = if is_charging { "Charging"@ } else { "Discharging"@ };
    let status_full = match estimate {
        Some(e) => status + ", "@ + e,
        None => status,
    };
    name + ": "@ + level_text + " ("@ + status_full + ")"@
}

impl BatteryInfo {
    /// The one-line text of this battery state.
    pub fn to_display_string(&self) -> (s: String)
        ensures
            s@ == battery_info_text(
                self.name@,
                self.level,
                self.is_charging,
                opt_str_view(self.estimated_time),
            ),
    {
        let mut s = self.name.clone();
        s.append(": ");
        match self.level {
            Some(l) => {
                push_decimal(&mut s, l as u64);
                s.append("%");
            },
            None => {
                s.append("N/A");
            },
        }
        s.append(" (");
        if self.is_charging {
            s.append("Charging");
        } else {
            s.append("Discharging");
        }
        match &self.estimated_time {
            Some(e) => {
                s.append(", ");
                s.append(e.as_str());
            },
            None => {},
        }
        s.append(")");
        s
    }
}

/// A known mouse model: its USB ids, its name, how it reports its battery
/// (wired-only models report none) and the HID interface that answers
/// (0 when any interface may).
#[derive(Debug, Clone)]
pub struct MouseProfile {
    pub vendor_id: u16,
    pub product_id: u16,
    pub name: String,
    pub battery_kind: Option<BatteryKind>,
    pub endpoint: u8,
}

/// Whether `p` is the profile of the device with these ids.
pub open spec fn profile_matches(p: MouseProfile, vendor_id: u16, product_id: u16) -> bool {
    p.vendor_id == vendor_id && p.product_id == product_id
}

/// The first profile in `profiles` for the device with these ids.
pub fn get_profile(profiles: &[MouseProfile], vendor_id: u16, product_id: u16) -> (r: Option<&MouseProfile>)
    ensures
        match r {
            Some(p) => exists|i: int|
                0 <= i < profiles@.len() && profiles@[i] == *p
                    && profile_matches(profiles@[i], vendor_id, product_id)
                    && forall|j: int| 0 <= j < i ==> !profile_matches(#[trigger] profiles@[j], vendor_id, product_id),
            None => forall|j: int| 0 <= j < profiles@.len() ==> !profile_matches(#[trigger] profiles@[j], vendor_id, product_id),
        },
{
    let mut i: usize = 0;
    while i < profiles.len()
        invariant
            i <= profiles@.len(),
            forall|j: int| 0 <= j < i ==> !profile_matches(#[trigger] profiles@[j], vendor_id, product_id),
        decreases profiles@.len() - i,
    {
        if profiles[i].vendor_id == vendor_id && profiles[i].product_id == product_id {
            return Some(&profiles[i]);
        }
        i = i + 1;
    }
    None
}

/// What to do with a SteelSeries HID device found during a scan.
#[derive(Clone, Copy, Debug, PartialEq, Eq, Structural)]
pub enum DevicePlan {
    /// Open it and query its battery as `kind`.
    Query(BatteryKind),
    /// Its profile names another interface: leave it alone, so that the
    /// system driver that holds it does not block or time out.
    SkipEndpoint,
    /// Its profile has no battery (wired or unsupported model).
    NoBattery,
    /// No profile: open it and try the generic fallback queries.
    Fallback,
}

pub open spec fn spec_plan_device(profile: Option<MouseProfile>, iface: i32) -> DevicePlan {
    match profile {
        None => DevicePlan::Fallback,
        Some(p) => match p.battery_kind {
            None => DevicePlan::NoBattery,
            Some(k) => if p.endpoint != 0 && iface >= 0 && iface != p.endpoint {
                DevicePlan::SkipEndpoint
            } else {
                DevicePlan::Query(k)
            },
        },
    }
}

/// How a device is planned: with no profile, by the generic fallback
/// queries; with a profile that names no battery kind, not at all; with a
/// battery kind, it is queried as that kind, unless the profile names an
/// interface (a non-zero endpoint) and the device is known to be another
/// one, which is then skipped.
pub proof fn device_plan_cases(p: MouseProfile, iface: i32)
    ensures
        spec_plan_device(None, iface) == DevicePlan::Fallback,
        p.battery_kind is None ==> spec_plan_device(Some(p), iface) == DevicePlan::NoBattery,
        p.battery_kind is Some && (p.endpoint == 0 || iface < 0 || iface == p.endpoint)
            ==> spec_plan_device(Some(p), iface) == DevicePlan::Query(p.battery_kind.unwrap()),
        p.battery_kind is Some && p.endpoint != 0 && iface >= 0 && iface != p.endpoint
            ==> spec_plan_device(Some(p), iface) == DevicePlan::SkipEndpoint,
{
}

/// Decides what to do with a device that has this profile (if any) and
/// this interface number (negative when unknown).
pub fn plan_device(profile: Option<&MouseProfile>, iface: i32) -> (r: DevicePlan)
    ensures
        r == spec_plan_device(
            match profile {
                Some(p) => Some(*p),
                None => None,
            },
            iface,
        ),
{
    match profile {
        None => DevicePlan::Fallback,
        Some(p) => match p.battery_kind {
            None => DevicePlan::NoBattery,
            Some(k) => if p.endpoint != 0 && iface >= 0 && iface != p.endpoint as i32 {
                DevicePlan::SkipEndpoint
            } else {
                DevicePlan::Query(k)
            },
        },
    }
}

} // verus!

verus! {

/// The device whose handle the manager keeps between fetches.
#[derive(Debug, Clone)]
pub struct ActiveDevice {
    pub name: String,
    pub kind: BatteryKind,
}

/// What the program has to do next to fetch the battery state.
#[derive(Debug)]
pub enum FetchStep {
    /// The fetch is over.
    Done(Result<BatteryInfo, String>),
    /// Query the cached device as `kind`, then call `on_cached_reading`.
    QueryCached(BatteryKind),
    /// Scan the SteelSeries devices, planning each with `plan_device` and
    /// reporting the first reading with `on_profile_reading` or
    /// `on_fallback_reading`; with no reading, end with `scan_error`.
    Scan,
}

/// The mock level that follows `level`: up by one to 100 while charging;
/// down by one while discharging, starting over at 100 once 5 is reached.
pub open spec fn next_mock_level(level: u8, charging: bool) -> u8 {
    if charging {
        if level >= 100 { 100 } else { (level + 1) as u8 }
    } else {
        if level <= 5 { 100 } else { (level - 1) as u8 }
    }
}

/// The mock level never leaves 5..=100.
pub proof fn mock_level_stays_in_range(level: u8, charging: bool)
    requires
        5 <= level <= 100,
    ensures
        5 <= next_mock_level(level, charging) <= 100,
{
}

/// The mock level moves by one percent per fetch: down while
/// discharging, starting over at 100 once it is at 5 or below; up while
/// charging, staying at 100 once there.
pub proof fn mock_level_steps(level: u8)
    ensures
        level > 5 ==> next_mock_level(level, false) == level - 1,
        level <= 5 ==> next_mock_level(level, false) == 100,
        level < 100 ==> next_mock_level(level, true) == level + 1,
        level >= 100 ==> next_mock_level(level, true) == 100,
{
}

/// How the history changes when `reading` is recorded: a reading with a
/// level is added as a sample taken at some instant; one without a level
/// leaves the history as it was.
pub open spec fn history_records(
    before: Seq<BatterySample>,
    before_state: Option<bool>,
    after: Seq<BatterySample>,
    after_state: Option<bool>,
    reading: Reading,
) -> bool {
    match reading.0 {
        Some(l) => after_state == Some(reading.1) && exists|t: Timestamp|
            after == #[trigger] history_after_add(
                before,
                before_state,
                BatterySample { timestamp: t, level: l, is_charging: reading.1 },
            ),
        None => after == before && after_state == before_state,
    }
}

/// Fetches battery information from SteelSeries mice, or from a mock mouse.
#[derive(Debug)]
pub struct MouseManager {
    mock_mode: bool,
    mock_level: u8,
    mock_charging: bool,
    cached_device: Option<ActiveDevice>,
    tracker: BatteryTracker,
}

impl MouseManager {
    pub closed spec fn is_mock(&self) -> bool {
        self.mock_mode
    }

    pub closed spec fn mock_level(&self) -> u8 {
        self.mock_level
    }

    pub closed spec fn mock_charging(&self) -> bool {
        self.mock_charging
    }

    /// Name and kind of the cached device, if any.
    pub closed spec fn cached(&self) -> Option<(Seq<char>, BatteryKind)> {
        match self.cached_device {
            Some(d) => Some((d.name@, d.kind)),
            None => None,
        }
    }

    pub closed spec fn history(&self) -> Seq<BatterySample> {
        self.tracker.samples()
    }

    pub closed spec fn history_state(&self) -> Option<bool> {
        self.tracker.charging_state()
    }

    /// The manager's invariant: a well-formed history, and a mock level
    /// between 5 and 100.
    pub open spec fn well_formed(&self) -> bool {
        &&& history_ok(self.history(), self.history_state())
        &&& 5 <= self.mock_level() <= 100
    }

    /// A manager for real devices or, with `mock_mode`, for a mock mouse
    /// that starts at 85% and discharges.
    pub fn new(mock_mode: bool) -> (m: Self)
        ensures
            m.well_formed(),
            m.is_mock() == mock_mode,
            m.mock_level() == 85,
            !m.mock_charging(),
            m.cached() is None,
            m.history() == Seq::<BatterySample>::empty(),
            m.history_state() is None,
    {
        MouseManager {
            mock_mode,
            mock_level: 85,
            mock_charging: false,
            cached_device: None,
            tracker: BatteryTracker::new(),
        }
    }

    /// Records `reading` in the history and returns the estimate that
    /// follows.
    fn record_reading<F: Fn(EstimateBasis) -> i64>(&mut self, reading: Reading, minutes_for: F) -> (r: Option<String>)
        requires
            forall|b: EstimateBasis| call_requires(minutes_for, (b,)),
            old(self).well_formed(),
        ensures
            final(self).well_formed(),
            history_records(
                old(self).history(),
                old(self).history_state(),
                final(self).history(),
                final(self).history_state(),
                reading,
            ),
            estimated_with(final(self).history(), minutes_for, opt_str_view(r)),
            final(self).is_mock() == old(self).is_mock(),
            final(self).mock_level() == old(self).mock_level(),
            final(self).mock_charging() == old(self).mock_charging(),
            final(self).cached() == old(self).cached(),
    {
        match reading.0 {
            Some(l) => self.tracker.add_sample(l, reading.1),
            None => {},
        }
        self.tracker.estimate_time(minutes_for)
    }

    /// Starts a fetch. The mock mouse answers at once with its next level;
    /// otherwise the cached device is queried first, and without one the
    /// devices are scanned. Here and below, `minutes_for` turns the basis of
    /// a time estimate into whole minutes (see `BatteryTracker::estimate_time`).
    pub fn fetch_battery<F: Fn(EstimateBasis) -> i64>(&mut self, minutes_for: F) -> (r: FetchStep)
        requires
            forall|b: EstimateBasis| call_requires(minutes_for, (b,)),
            old(self).well_formed(),
        ensures
            final(self).well_formed(),
            final(self).is_mock() == old(self).is_mock(),
            final(self).cached() == old(self).cached(),
            old(self).is_mock() ==> {
                &&& final(self).mock_level() == next_mock_level(old(self).mock_level(), old(self).mock_charging())
                &&& final(self).mock_charging() == old(self).mock_charging()
                &&& history_records(
                    old(self).history(),
                    old(self).history_state(),
                    final(self).history(),
                    final(self).history_state(),
                    (Some(final(self).mock_level()), old(self).mock_charging()),
                )
                &&& r matches FetchStep::Done(Ok(info)) && {
                    &&& info.name@ == mock_name()
                    &&& info.level == Some(final(self).mock_level())
                    &&& info.is_charging == old(self).mock_charging()
                    &&& estimated_with(final(self).history(), minutes_for, opt_str_view(info.estimated_time))
                }
            },
            !old(self).is_mock() ==> {
                &&& *final(self) == *old(self)
                &&& match old(self).cached() {
                    Some((_, kind)) => r matches FetchStep::QueryCached(k) && k == kind,
                    None => r is Scan,
                }
            },
    {
        if self.mock_mode {
            let current = self.mock_level;
            if self.mock_charging {
                self.mock_level = if current >= 100 { 100 } else { current + 1 };
            } else {
                self.mock_level = if current <= 5 { 100 } else { current - 1 };
            }
            let estimated_time = self.record_reading((Some(self.mock_level), self.mock_charging), minutes_for);
            let mut name = String::new();
            name.append("SteelSeries Aerox 3 Wireless (Mock)");
            return FetchStep::Done(Ok(BatteryInfo {
                name,
                level: Some(self.mock_level),
                is_charging: self.mock_charging,
                estimated_time,
            }));
        }
        match &self.cached_device {
            Some(active) => FetchStep::QueryCached(active.kind),
            None => FetchStep::Scan,
        }
    }

    /// Continues a fetch after the cached device was queried: a reading
    /// ends the fetch under the cached name; no reading drops the cache and
    /// asks for a scan.
    pub fn on_cached_reading<F: Fn(EstimateBasis) -> i64>(
        &mut self,
        reading: Option<Reading>,
        minutes_for: F,
    ) -> (r: FetchStep)
        requires
            forall|b: EstimateBasis| call_requires(minutes_for, (b,)),
            old(self).well_formed(),
        ensures
            final(self).well_formed(),
            final(self).is_mock() == old(self).is_mock(),
            final(self).mock_level() == old(self).mock_level(),
            final(self).mock_charging() == old(self).mock_charging(),
            match (reading, old(self).cached()) {
                (Some(rd), Some((name, _))) => {
                    &&& final(self).cached() == old(self).cached()
                    &&& history_records(
                        old(self).history(),
                        old(self).history_state(),
                        final(self).history(),
                        final(self).history_state(),
                        rd,
                    )
                    &&& r matches FetchStep::Done(Ok(info)) && {
                        &&& info.name@ == name
                        &&& info.level == rd.0
                        &&& info.is_charging == rd.1
                        &&& estimated_with(final(self).history(), minutes_for, opt_str_view(info.estimated_time))
                    }
                },
                _ => {
                    &&& r is Scan
                    &&& final(self).cached() is None
                    &&& final(self).history() == old(self).history()
                    &&& final(self).history_state() == old(self).history_state()
                },
            },
    {
        match reading {
            Some(rd) => {
                let name = match &self.cached_device {
                    Some(active) => active.name.clone(),
                    None => {
                        return FetchStep::Scan;
                    },
                };
                let estimated_time = self.record_reading(rd, minutes_for);
                FetchStep::Done(Ok(BatteryInfo { name, level: rd.0, is_charging: rd.1, estimated_time }))
            },
            None => {
                self.cached_device = None;
                FetchStep::Scan
            },
        }
    }

    /// Ends a fetch with the reading of a device that has a profile: the
    /// device becomes the cached one.
    pub fn on_profile_reading<F: Fn(EstimateBasis) -> i64>(
        &mut self,
        name: String,
        kind: BatteryKind,
        reading: Reading,
        minutes_for: F,
    ) -> (info: BatteryInfo)
        requires
            forall|b: EstimateBasis| call_requires(minutes_for, (b,)),
            old(self).well_formed(),
        ensures
            final(self).well_formed(),
            final(self).is_mock() == old(self).is_mock(),
            final(self).mock_level() == old(self).mock_level(),
            final(self).mock_charging() == old(self).mock_charging(),
            final(self).cached() == Some((name@, kind)),
            history_records(
                old(self).history(),
                old(self).history_state(),
                final(self).history(),
                final(self).history_state(),
                reading,
            ),
            info.name@ == name@,
            info.level == reading.0,
            info.is_charging == reading.1,
            estimated_with(final(self).history(), minutes_for, opt_str_view(info.estimated_time)),
    {
        let estimated_time = self.record_reading(reading, minutes_for);
        self.cached_device = Some(ActiveDevice { name: name.clone(), kind });
        BatteryInfo { name, level: reading.0, is_charging: reading.1, estimated_time }
    }

    /// Ends a fetch with the reading of a device without a profile, named by
    /// its product string or else "SteelSeries Mouse". No handle is cached.
    pub fn on_fallback_reading<F: Fn(EstimateBasis) -> i64>(
        &mut self,
        product: Option<String>,
        reading: Reading,
        minutes_for: F,
    ) -> (info: BatteryInfo)
        requires
            forall|b: EstimateBasis| call_requires(minutes_for, (b,)),
            old(self).well_formed(),
        ensures
            final(self).well_formed(),
            final(self).is_mock() == old(self).is_mock(),
            final(self).mock_level() == old(self).mock_level(),
            final(self).mock_charging() == old(self).mock_charging(),
            final(self).cached() == old(self).cached(),
            history_records(
                old(self).history(),
                old(self).history_state(),
                final(self).history(),
                final(self).history_state(),
                reading,
            ),
            info.name@ == (match product {
                Some(p) => p@,
                None => "SteelSeries Mouse"@,
            }),
            info.level == reading.0,
            info.is_charging == reading.1,
            estimated_with(final(self).history(), minutes_for, opt_str_view(info.estimated_time)),
    {
        let estimated_time = self.record_reading(reading, minutes_for);
        let name = match product {
            Some(p) => p,
            None => {
                let mut n = String::new();
                n.append("SteelSeries Mouse");
                n
            },
        };
        BatteryInfo { name, level: reading.0, is_charging: reading.1, estimated_time }
    }

    /// The error that ends a scan without a reading, given how many
    /// SteelSeries devices it saw.
    pub fn scan_error(steelseries_count: u64) -> (s: String)
        ensures
            s@ == (if steelseries_count == 0 {
                "No SteelSeries HID devices detected at all"@
            } else {
                "Found "@ + decimal(steelseries_count as nat) + " SteelSeries devices but none returned battery data"@
            }),
    {
        let mut s = String::new();
        if steelseries_count == 0 {
            s.append("No SteelSeries HID devices detected at all");
        } else {
            s.append("Found ");
            push_decimal(&mut s, steelseries_count);
            s.append(" SteelSeries devices but none returned battery data");
        }
        s
    }

    /// Decodes an Aerox/Prime battery answer.
    pub fn decode_aerox_prime_response(res: &[u8]) -> (r: Option<Reading>)
        ensures
            r == spec_decode_aerox_prime(res@),
            res@.len() >= 3 && res@[0] != 0 && res@[1] == 0 ==> r == (if res@[2] == 0 {
                None
            } else {
                Some(reading_from_battery_byte(res@[2]))
            }),
    {
        if res.len() < 2 {
            return None;
        }
        let battery_byte = if res.len() >= 4 && res[0] == 0x00 && res[2] == 0x00 {
            res[3]
        } else if res.len() >= 3 && res[1] == 0x00 {
            res[2]
        } else if res.len() >= 3 && res[0] == 0x00 {
            res[2]
        } else {
            res[1]
        };
        if battery_byte == 0 {
            return None;
        }
        Some(reading_from_byte(battery_byte))
    }

    /// Decodes a Rival 3 / 650 battery answer.
    pub fn decode_rival3_650_response(res: &[u8]) -> (r: Option<Reading>)
        ensures
            r == spec_decode_rival3_650(res@),
            res@.len() >= 3 && res@[0] != 0 ==> r == Some((
                Some(if res@[0] > 100 { 100u8 } else { res@[0] }),
                res@[2] != 0,
            )),
    {
        if res.len() == 0 {
            return None;
        }
        let (level_byte, charging_byte) = if res[0] == 0x00 && res.len() >= 4 {
            (res[1], res[3])
        } else if res.len() >= 3 {
            (res[0], res[2])
        } else {
            (res[0], 0u8)
        };
        let level = if level_byte > 100 { 100u8 } else { level_byte };
        Some((Some(level), charging_byte != 0))
    }

    /// Decodes an Aerox/Prime answer by its first non-zero battery byte.
    pub fn decode_aerox_prime_battery(res: &[u8]) -> (r: Option<Reading>)
        ensures
            r == spec_decode_aerox_prime_first_byte(res@),
    {
        let byte_to_check = if res.len() >= 2 && res[0] == 0x00 && res[1] > 0 {
            res[1]
        } else if res.len() >= 1 && res[0] > 0 {
            res[0]
        } else if res.len() >= 2 && res[1] > 0 {
            res[1]
        } else {
            return None;
        };
        Some(reading_from_byte(byte_to_check))
    }

    /// Decodes a three-byte Rival 3 / 650 answer.
    pub fn decode_rival3_650_battery(res: &[u8]) -> (r: Option<Reading>)
        ensures
            r == spec_decode_rival3_650_three_byte(res@),
    {
        if res.len() == 0 {
            return None;
        }
        let (level_byte, charging_byte) = if res[0] == 0x00 && res.len() >= 3 {
            (res[1], res[2])
        } else if res.len() >= 3 {
            (res[0], res[2])
        } else {
            (res[0], 0u8)
        };
        let level = if level_byte > 100 { 100u8 } else { level_byte };
        Some((Some(level), charging_byte != 0))
    }

    /// Whether an answer of at least two bytes answers `command`.
    pub fn is_battery_response(command: u8, res: &[u8]) -> (r: bool)
        requires
            res@.len() >= 2,
        ensures
            r == spec_is_battery_response(command, res@),
    {
        res[0] == command || (res[0] == 0x00 && res.len() >= 3 && res[1] == command)
    }


    /// Decides what follows the `attempt`-th read after a battery request:
    /// an Aerox/Prime mouse may send other reports first, which are skipped for
    /// up to eight reads; a short read, timeout or error ends the query.
    pub fn read_step(kind: BatteryKind, attempt: u32, res: &[u8]) -> (r: ReadStep)
        requires
            attempt < AEROX_READ_ATTEMPTS,
        ensures
            r == spec_read_step(kind, attempt, res@),
    {
        match kind {
            BatteryKind::AeroxPrime { command } => {
                if res.len() >= 2 {
                    if Self::is_battery_response(command, res) {
                        let decoded = Self::decode_aerox_prime_response(res);
                        if decoded.is_some() {
                            return ReadStep::Done(decoded);
                        }
                    }
                    if attempt + 1 < AEROX_READ_ATTEMPTS {
                        ReadStep::ReadAgain
                    } else {
                        ReadStep::Done(None)
                    }
                } else {
                    ReadStep::Done(None)
                }
            },
            BatteryKind::Rival3Or650 => {
                if res.len() >= 2 {
                    ReadStep::Done(Self::decode_rival3_650_response(res))
                } else {
                    ReadStep::Done(None)
                }
            },
        }
    }


    /// What a single answer read after a request for `kind` gives when any
    /// answer of at least one byte counts: it is decoded by its first
    /// non-zero battery byte (Aerox/Prime) or as a three-byte answer
    /// (Rival 3 / 650).
    pub fn single_read_result(kind: BatteryKind, res: &[u8]) -> (r: Option<Reading>)
        ensures
            r == (if res@.len() >= 1 {
                match kind {
                    BatteryKind::AeroxPrime { .. } => spec_decode_aerox_prime_first_byte(res@),
                    BatteryKind::Rival3Or650 => spec_decode_rival3_650_three_byte(res@),
                }
            } else {
                None
            }),
    {
        if res.len() >= 1 {
            match kind {
                BatteryKind::AeroxPrime { .. } => Self::decode_aerox_prime_battery(res),
                BatteryKind::Rival3Or650 => Self::decode_rival3_650_battery(res),
            }
        } else {
            None
        }
    }
}

} // verus!
