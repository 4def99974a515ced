//! Battery history and the time-remaining estimate drawn from it.

use std::collections::VecDeque;
use vstd::prelude::*;
use vstd::string::*;
use crate::text::{decimal, opt_str_view, push_decimal};

verus! {

/// Number of samples the history keeps at most.
pub const MAX_SAMPLES: usize = 20;

/// Nanoseconds in a second.
pub const NANOS_PER_SEC: i128 = 1_000_000_000;

/// An instant in UTC: whole seconds since the Unix epoch and the
/// nanoseconds within that second.
#[derive(Clone, Copy, Debug, PartialEq, Eq, Structural)]
pub struct Timestamp {
    pub secs: i64,
    pub nanos: u32,
}

/// One battery reading and when it was taken.
#[derive(Clone, Copy, Debug, PartialEq, Eq, Structural)]
pub struct BatterySample {
    pub timestamp: Timestamp,
    pub level: u8,
    pub is_charging: bool,
}

/// The current time, from `chrono::Utc::now()`.
///
/// What instant comes back is the system clock's business, so nothing is
/// said of it beyond what chrono's source shows of every result: the
/// seconds are not negative (chrono panics on a clock before 1970) and the
/// nanoseconds come from a `Duration`, so they stay below one second.
#[verifier::external_body]
fn utc_now() -> (t: Timestamp)
    ensures
        t.secs >= 0,
        t.nanos < 1_000_000_000,
{
    let now = chrono::Utc::now();
    Timestamp { secs: now.timestamp(), nanos: now.timestamp_subsec_nanos() }
}

/// The whole seconds from `first` to `last`, truncated toward zero (what
/// chrono's `(last - first).num_seconds()` gives).
pub open spec fn elapsed_secs(first: Timestamp, last: Timestamp) -> int {
    let d = (last.secs - first.secs) * 1_000_000_000 + (last.nanos - first.nanos);
    if d >= 0 {
        d / 1_000_000_000
    } else {
        -((-d) / 1_000_000_000)
    }
}

/// The history after a sample is added: a change of charging state starts
/// the history afresh; a sample whose level equals the latest one is
/// dropped; beyond `MAX_SAMPLES` the oldest sample leaves.
pub open spec fn history_after_add(
    samples: Seq<BatterySample>,
    state: Option<bool>,
    s: BatterySample,
) -> Seq<BatterySample> {
    let base = if state == Some(s.is_charging) { samples } else { Seq::<BatterySample>::empty() };
    if base.len() == 0 || base.last().level != s.level {
        let pushed = base.push(s);
        if pushed.len() > MAX_SAMPLES { pushed.drop_first() } else { pushed }
    } else {
        base
    }
}

/// The shape every history keeps: at most `MAX_SAMPLES` samples, all taken
/// in the charging state last seen (none before any sample), and no two
/// neighbours with the same level.
pub open spec fn history_ok(samples: Seq<BatterySample>, state: Option<bool>) -> bool {
    &&& samples.len() <= MAX_SAMPLES
    &&& (state is None ==> samples.len() == 0)
    &&& forall|i: int| 0 <= i < samples.len() ==> Some(#[trigger] samples[i].is_charging) == state
    &&& forall|i: int| 0 <= i < samples.len() - 1 ==> #[trigger] samples[i].level != samples[i + 1].level
}

/// "Full in ~Nm" or "Full in ~Hh Mm".
pub open spec fn charging_text(m: nat) -> Seq<char> {
    if m < 60 {
        "Full in ~"@ + decimal(m) + "m"@
    } else {
        "Full in ~"@ + decimal(m / 60) + "h "@ + decimal(m % 60) + "m"@
    }
}

/// "~Nm left" or "~Hh Mm left".
pub open spec fn discharging_text(m: nat) -> Seq<char> {
    if m < 60 {
        "~"@ + decimal(m) + "m left"@
    } else {
        "~"@ + decimal(m / 60) + "h "@ + decimal(m % 60) + "m left"@
    }
}

/// What a time estimate is drawn from: the charging state, the percent
/// still to go (to 100 while charging, to 0 otherwise), how many percent the
/// level moved from the oldest to the newest sample, and the whole seconds
/// between those two samples.
#[derive(Clone, Copy, Debug, PartialEq, Eq, Structural)]
pub struct EstimateBasis {
    pub is_charging: bool,
    pub percent_to_go: u8,
    pub percent_moved: u8,
    pub elapsed_secs: i128,
}

/// The basis of an estimate that a history gives, if any. It needs two
/// samples at least five seconds apart. While charging, the level must have
/// risen and be below 100; while discharging, it must have fallen and be
/// above 0. Only the oldest and the newest sample count.
pub open spec fn spec_basis(samples: Seq<BatterySample>) -> Option<EstimateBasis> {
    if samples.len() < 2 {
        None
    } else {
        let first = samples[0];
        let last = samples.last();
        let t = elapsed_secs(first.timestamp, last.timestamp);
        let diff = last.level - first.level;
        if t < 5 {
            None
        } else if last.is_charging {
            if diff <= 0 || last.level >= 100 {
                None
            } else {
                Some(EstimateBasis {
                    is_charging: true,
                    percent_to_go: (100 - last.level) as u8,
                    percent_moved: diff as u8,
                    elapsed_secs: t as i128,
                })
            }
        } else {
            if diff >= 0 || last.level == 0 {
                None
            } else {
                Some(EstimateBasis {
                    is_charging: false,
                    percent_to_go: last.level,
                    percent_moved: (-diff) as u8,
                    elapsed_secs: t as i128,
                })
            }
        }
    }
}

/// The estimate text for `minutes`: none unless positive; "Full in ~.."
/// while charging, "~.. left" otherwise.
pub open spec fn estimate_text_of(is_charging: bool, minutes: int) -> Option<Seq<char>> {
    if minutes <= 0 {
        None
    } else if is_charging {
        Some(charging_text(minutes as nat))
    } else {
        Some(discharging_text(minutes as nat))
    }
}

/// Whether `est` is the estimate of a history when `minutes_for` turns a
/// basis into minutes: none without a basis, else the text of the minutes
/// that `minutes_for` returned for it.
pub open spec fn estimated_with<F: Fn(EstimateBasis) -> i64>(
    samples: Seq<BatterySample>,
    minutes_for: F,
    est: Option<Seq<char>>,
) -> bool {
    match spec_basis(samples) {
        None => est is None,
        Some(b) => exists|m: i64| #[trigger] call_ensures(minutes_for, (b,), m)
            && est == estimate_text_of(b.is_charging, m as int),
    }
}

/// Adding a sample keeps the shape of a history; afterwards the latest
/// sample has the new level and charging state, and the state is the
/// sample's.
pub proof fn add_keeps_history_shape(samples: Seq<BatterySample>, state: Option<bool>, s: BatterySample)
    requires
        history_ok(samples, state),
    ensures
        history_ok(history_after_add(samples, state, s), Some(s.is_charging)),
        history_after_add(samples, state, s).len() > 0,
        history_after_add(samples, state, s).last().level == s.level,
        history_after_add(samples, state, s).last().is_charging == s.is_charging,
{
    let base = if state == Some(s.is_charging) { samples } else { Seq::<BatterySample>::empty() };
    let r = history_after_add(samples, state, s);
    if base.len() == 0 || base.last().level != s.level {
        let pushed = base.push(s);
        if pushed.len() > MAX_SAMPLES {
            assert forall|i: int| 0 <= i < r.len() - 1 implies #[trigger] r[i].level != r[i + 1].level by {
                assert(r[i] == pushed[i + 1] && r[i + 1] == pushed[i + 2]);
            }
            assert forall|i: int| 0 <= i < r.len() implies Some(#[trigger] r[i].is_charging) == Some(s.is_charging) by {
                assert(r[i] == pushed[i + 1]);
            }
        } else {
            assert forall|i: int| 0 <= i < r.len() - 1 implies #[trigger] r[i].level != r[i + 1].level by {
                assert(r[i] == pushed[i] && r[i + 1] == pushed[i + 1]);
            }
        }
    }
}

/// Adding a sample with a new level in the same charging state appends
/// it; a history that already holds `MAX_SAMPLES` samples loses only its
/// oldest one, and keeps the others in order.
pub proof fn new_level_is_appended(samples: Seq<BatterySample>, state: Option<bool>, s: BatterySample)
    requires
        state == Some(s.is_charging),
        samples.len() <= MAX_SAMPLES,
        samples.len() == 0 || samples.last().level != s.level,
    ensures
        samples.len() < MAX_SAMPLES ==> history_after_add(samples, state, s) == samples.push(s),
        samples.len() == MAX_SAMPLES ==> {
            &&& history_after_add(samples, state, s).len() == MAX_SAMPLES
            &&& forall|i: int| 0 <= i < MAX_SAMPLES - 1 ==> #[trigger] history_after_add(samples, state, s)[i] == samples[i + 1]
            &&& history_after_add(samples, state, s)[MAX_SAMPLES - 1] == s
        },
{
}

/// Whole seconds between two instants with the same sub-second part are
/// the difference of their seconds.
pub proof fn elapsed_of_whole_seconds(first: Timestamp, last: Timestamp)
    requires
        first.nanos == last.nanos,
    ensures
        elapsed_secs(first, last) == last.secs - first.secs,
{
    let k = last.secs - first.secs;
    assert((k * 1_000_000_000) / 1_000_000_000 == k) by (nonlinear_arith);
    assert((-(k * 1_000_000_000)) / 1_000_000_000 == -k) by (nonlinear_arith);
}

/// A change of charging state starts the history afresh with the new sample.
pub proof fn charging_change_restarts_history(samples: Seq<BatterySample>, state: Option<bool>, s: BatterySample)
    requires
        state != Some(s.is_charging),
    ensures
        history_after_add(samples, state, s) == seq![s],
{
    assert(Seq::<BatterySample>::empty().push(s) =~= seq![s]);
}

/// A reading that repeats the latest level in the same charging state
/// leaves the history as it is (the earlier sample keeps its time).
pub proof fn repeated_reading_is_ignored(samples: Seq<BatterySample>, state: Option<bool>, s: BatterySample)
    requires
        samples.len() > 0,
        state == Some(s.is_charging),
        samples.last().level == s.level,
    ensures
        history_after_add(samples, state, s) == samples,
{
}

/// An estimate needs two samples at least five seconds apart and a level
/// that moved the way the charging state says: up (and below 100) while
/// charging, down (and above 0) otherwise.
pub proof fn estimate_needs_progress(samples: Seq<BatterySample>)
    requires
        spec_basis(samples) is Some,
    ensures
        samples.len() >= 2,
        elapsed_secs(samples[0].timestamp, samples.last().timestamp) >= 5,
        spec_basis(samples).unwrap().elapsed_secs >= 5,
        spec_basis(samples).unwrap().percent_moved > 0,
        spec_basis(samples).unwrap().percent_to_go > 0,
        samples.last().is_charging ==> samples.last().level > samples[0].level && samples.last().level < 100,
        !samples.last().is_charging ==> samples.last().level < samples[0].level,
{
}

/// The basis of a discharging history: with two samples or more at least
/// five seconds apart, whose newest sample discharges at a level above 0
/// and below the oldest one's, the percent to go is the newest level and
/// the percent moved is the fall from the oldest level to the newest.
pub proof fn discharging_basis(samples: Seq<BatterySample>)
    requires
        samples.len() >= 2,
        !samples.last().is_charging,
        0 < samples.last().level < samples[0].level,
        elapsed_secs(samples[0].timestamp, samples.last().timestamp) >= 5,
    ensures
        spec_basis(samples) == Some(EstimateBasis {
            is_charging: false,
            percent_to_go: samples.last().level,
            percent_moved: (samples[0].level - samples.last().level) as u8,
            elapsed_secs: elapsed_secs(samples[0].timestamp, samples.last().timestamp) as i128,
        }),
{
}

/// The basis of a charging history: with two samples or more at least five
/// seconds apart, whose newest sample charges at a level below 100 and
/// above the oldest one's, the percent to go is what is missing to 100 and
/// the percent moved is the rise from the oldest level to the newest.
pub proof fn charging_basis(samples: Seq<BatterySample>)
    requires
        samples.len() >= 2,
        samples.last().is_charging,
        samples[0].level < samples.last().level < 100,
        elapsed_secs(samples[0].timestamp, samples.last().timestamp) >= 5,
    ensures
        spec_basis(samples) == Some(EstimateBasis {
            is_charging: true,
            percent_to_go: (100 - samples.last().level) as u8,
            percent_moved: (samples.last().level - samples[0].level) as u8,
            elapsed_secs: elapsed_secs(samples[0].timestamp, samples.last().timestamp) as i128,
        }),
{
}

/// Only the oldest and the newest sample of a history count for its
/// estimate: the samples between them change nothing.
pub proof fn basis_reads_the_ends(samples: Seq<BatterySample>)
    requires
        samples.len() >= 2,
    ensures
        spec_basis(samples) == spec_basis(seq![samples[0], samples.last()]),
{
}

/// The whole seconds between two instants are the nanoseconds between them
/// divided by a billion and truncated toward zero; swapping the instants
/// negates them.
pub proof fn elapsed_truncates_toward_zero(first: Timestamp, last: Timestamp)
    ensures
        ({
            let d = (last.secs - first.secs) * 1_000_000_000 + (last.nanos - first.nanos);
            let e = elapsed_secs(first, last);
            &&& d >= 0 ==> 0 <= e && e * 1_000_000_000 <= d < (e + 1) * 1_000_000_000
            &&& d < 0 ==> e <= 0 && (e - 1) * 1_000_000_000 < d <= e * 1_000_000_000
        }),
        elapsed_secs(last, first) == -elapsed_secs(first, last),
{
    let d = (last.secs - first.secs) * 1_000_000_000 + (last.nanos - first.nanos);
    let d2 = (first.secs - last.secs) * 1_000_000_000 + (first.nanos - last.nanos);
    assert(d2 == -d);
    if d >= 0 {
        let q = d / 1_000_000_000;
        assert(q * 1_000_000_000 <= d < (q + 1) * 1_000_000_000 && q >= 0) by (nonlinear_arith)
            requires q == d / 1_000_000_000, d >= 0;
    } else {
        let q = (-d) / 1_000_000_000;
        assert(q * 1_000_000_000 <= -d < (q + 1) * 1_000_000_000 && q >= 0) by (nonlinear_arith)
            requires q == (-d) / 1_000_000_000, -d > 0;
    }
}

/// The estimate text for a minute count: none unless it is positive;
/// under an hour "Full in ~Nm" while charging and "~Nm left" otherwise;
/// from an hour on, the whole hours and the minutes left over,
/// "Full in ~Hh Mm" and "~Hh Mm left".
pub proof fn estimate_text_forms(minutes: int)
    ensures
        minutes <= 0 ==> estimate_text_of(true, minutes) is None && estimate_text_of(false, minutes) is None,
        0 < minutes < 60 ==> estimate_text_of(true, minutes) == Some("Full in ~"@ + decimal(minutes as nat) + "m"@)
            && estimate_text_of(false, minutes) == Some("~"@ + decimal(minutes as nat) + "m left"@),
        minutes >= 60 ==> estimate_text_of(true, minutes) == Some("Full in ~"@ + decimal((minutes / 60) as nat)
            + "h "@ + decimal((minutes % 60) as nat) + "m"@)
            && estimate_text_of(false, minutes) == Some("~"@ + decimal((minutes / 60) as nat) + "h "@
            + decimal((minutes % 60) as nat) + "m left"@),
{
}

/// The battery history of one mouse, from which the time until full or
/// empty is estimated.
#[derive(Debug)]
pub struct BatteryTracker {
    samples: VecDeque<BatterySample>,
    last_charging_state: Option<bool>,
}

fn elapsed_seconds(first: Timestamp, last: Timestamp) -> (r: i128)
    ensures
        r == elapsed_secs(first, last),
{
    let d: i128 = (last.secs as i128 - first.secs as i128) * NANOS_PER_SEC
        + (last.nanos as i128 - first.nanos as i128);
    if d >= 0 {
        d / NANOS_PER_SEC
    } else {
        -((-d) / NANOS_PER_SEC)
    }
}

/// The estimate text for `minutes`: none unless positive; "Full in ~25m",
/// "Full in ~1h 5m" while charging; "~40m left", "~15h 0m left" otherwise.
pub fn estimate_text(is_charging: bool, minutes: i64) -> (r: Option<String>)
    ensures
        opt_str_view(r) == estimate_text_of(is_charging, minutes as int),
{
    if minutes <= 0 {
        return None;
    }
    let m = minutes as u64;
    let mut s = String::new();
    if is_charging {
        s.append("Full in ~");
    } else {
        s.append("~");
    }
    if m < 60 {
        push_decimal(&mut s, m);
    } else {
        push_decimal(&mut s, m / 60);
        s.append("h ");
        push_decimal(&mut s, m % 60);
    }
    if is_charging {
        s.append("m");
    } else {
        s.append("m left");
    }
    Some(s)
}

impl BatteryTracker {
    /// The samples kept, oldest first.
    pub closed spec fn samples(&self) -> Seq<BatterySample> {
        self.samples@
    }

    /// The charging state of the latest sample, `None` before the first.
    pub closed spec fn charging_state(&self) -> Option<bool> {
        self.last_charging_state
    }

    pub open spec fn well_formed(&self) -> bool {
        history_ok(self.samples(), self.charging_state())
    }

    /// An empty history.
    pub fn new() -> (t: Self)
        ensures
            t.samples() == Seq::<BatterySample>::empty(),
            t.charging_state() is None,
            t.well_formed(),
    {
        BatteryTracker { samples: VecDeque::new(), last_charging_state: None }
    }

    /// Adds a reading taken at `timestamp`.
    pub fn add_sample_with_time(&mut self, level: u8, is_charging: bool, timestamp: Timestamp)
        requires
            old(self).well_formed(),
        ensures
            final(self).well_formed(),
            final(self).samples() == history_after_add(
                old(self).samples(),
                old(self).charging_state(),
                BatterySample { timestamp, level, is_charging },
            ),
            final(self).charging_state() == Some(is_charging),
            old(self).charging_state() == Some(is_charging) && old(self).samples().len() < MAX_SAMPLES
                && (old(self).samples().len() == 0 || old(self).samples().last().level != level)
                ==> final(self).samples() == old(self).samples().push(BatterySample { timestamp, level, is_charging }),
            old(self).charging_state() == Some(is_charging) && old(self).samples().len() == MAX_SAMPLES
                && old(self).samples().last().level != level
                ==> final(self).samples() == old(self).samples().drop_first().push(
                    BatterySample { timestamp, level, is_charging },
                ),
    {
        let ghost old_samples = self.samples@;
        let same_state = match self.last_charging_state {
            Some(c) => c == is_charging,
            None => false,
        };
        if !same_state {
            self.samples.clear();
            self.last_charging_state = Some(is_charging);
        }
        let ghost base = self.samples@;
        assert(base == (if old(self).last_charging_state == Some(is_charging) { old_samples } else {
            Seq::<BatterySample>::empty()
        }));
        let n = self.samples.len();
        if n == 0 || self.samples[n - 1].level != level {
            self.samples.push_back(BatterySample { timestamp, level, is_charging });
            if self.samples.len() > MAX_SAMPLES {
                self.samples.pop_front();
            }
        }
    }

    /// Adds a reading taken now.
    pub fn add_sample(&mut self, level: u8, is_charging: bool)
        requires
            old(self).well_formed(),
        ensures
            final(self).well_formed(),
            exists|t: Timestamp|
                t.secs >= 0 && t.nanos < 1_000_000_000 && final(self).samples()
                    == #[trigger] history_after_add(
                    old(self).samples(),
                    old(self).charging_state(),
                    BatterySample { timestamp: t, level, is_charging },
                ),
            final(self).charging_state() == Some(is_charging),
    {
        let now = utc_now();
        self.add_sample_with_time(level, is_charging, now);
    }

    /// What an estimate of this history is drawn from, if any.
    pub fn estimate_basis(&self) -> (r: Option<EstimateBasis>)
        requires
            self.well_formed(),
        ensures
            r == spec_basis(self.samples()),
    {
        let n = self.samples.len();
        if n < 2 {
            return None;
        }
        let first = self.samples[0];
        let last = self.samples[n - 1];
        let t = elapsed_seconds(first.timestamp, last.timestamp);
        if t < 5 {
            return None;
        }
        if last.is_charging {
            if last.level <= first.level || last.level >= 100 {
                return None;
            }
            Some(EstimateBasis {
                is_charging: true,
                percent_to_go: 100 - last.level,
                percent_moved: last.level - first.level,
                elapsed_secs: t,
            })
        } else {
            if last.level >= first.level || last.level == 0 {
                return None;
            }
            Some(EstimateBasis {
                is_charging: false,
                percent_to_go: last.level,
                percent_moved: first.level - last.level,
                elapsed_secs: t,
            })
        }
    }

    /// The time until full (while charging) or until empty, as
    /// "Full in ~25m", "Full in ~1h 5m", "~40m left" or "~15h 0m left".
    /// `minutes_for` turns the basis into whole minutes (the program computes
    /// them in floating point); no positive minute count gives no estimate.
    pub fn estimate_time<F: Fn(EstimateBasis) -> i64>(&self, minutes_for: F) -> (r: Option<String>)
        requires
            self.well_formed(),
            forall|b: EstimateBasis| call_requires(minutes_for, (b,)),
        ensures
            estimated_with(self.samples(), minutes_for, opt_str_view(r)),
    {
        match self.estimate_basis() {
            None => None,
            Some(b) => {
                let m = minutes_for(b);
                let r = estimate_text(b.is_charging, m);
                assert(call_ensures(minutes_for, (b,), m));
                r
            },
        }
    }
}


impl Default for BatteryTracker {
    /// An empty history.
    fn default() -> (t: Self)
        ensures
            t.samples() == Seq::<BatterySample>::empty(),
            t.charging_state() is None,
            t.well_formed(),
    {
        BatteryTracker::new()
    }
}

} // verus!
