//! The SteelSeries battery protocol: request packets, and what a battery
//! report means.

use vstd::prelude::*;

verus! {

/// Bit of the battery byte that is set while the mouse charges.
pub const CHARGING_FLAG: u8 = 0x80;

/// How many reports are read after an Aerox/Prime battery request before
/// giving up (other HID events may arrive first).
pub const AEROX_READ_ATTEMPTS: u32 = 8;

/// Length of a full HID output report.
pub const REPORT_LEN: usize = 64;

/// How a mouse reports its battery.
#[derive(Clone, Copy, Debug, PartialEq, Eq, Structural)]
pub enum BatteryKind {
    /// Aerox / Prime series: one command byte, answered by a battery byte.
    AeroxPrime { command: u8 },
    /// Rival 3 Wireless / Rival 650: command `0xAA 0x01`, answered by a level
    /// byte and a charging byte.
    Rival3Or650,
}

/// A decoded battery reading: the level in percent (if the mouse reports
/// one) and whether it charges.
pub type Reading = (Option<u8>, bool);

/// The level that a 7-bit battery value stands for: steps of 5%, where
/// 1 means 0% and 21 or more means 100%; 0 means "no level".
pub open spec fn level_from_raw(raw: nat) -> Option<u8> {
    if raw > 0 {
        Some(if (raw - 1) * 5 > 100 { 100u8 } else { ((raw - 1) * 5) as u8 })
    } else {
        None
    }
}

/// The reading that a non-zero Aerox/Prime battery byte stands for:
/// bit 7 is the charging flag, the other bits the level value.
pub open spec fn reading_from_battery_byte(b: u8) -> Reading {
    (level_from_raw((b % 128) as nat), b >= 128)
}

/// The position of the battery byte in an Aerox/Prime answer of at least
/// two bytes:
/// `[0x00, cmd, 0x00, battery, ..]`, `[cmd, 0x00, battery, ..]`,
/// `[0x00, cmd, battery, ..]`, or the two-byte form `[cmd, battery]`.
pub open spec fn aerox_battery_index(res: Seq<u8>) -> int {
    if res.len() >= 4 && res[0] == 0 && res[2] == 0 {
        3
    } else if res.len() >= 3 && res[1] == 0 {
        2
    } else if res.len() >= 3 && res[0] == 0 {
        2
    } else {
        1
    }
}

/// What an Aerox/Prime answer decodes to: nothing for an answer shorter
/// than two bytes or a zero battery byte (mouse off or asleep).
pub open spec fn spec_decode_aerox_prime(res: Seq<u8>) -> Option<Reading> {
    if res.len() < 2 {
        None
    } else {
        let b = res[aerox_battery_index(res)];
        if b == 0 {
            None
        } else {
            Some(reading_from_battery_byte(b))
        }
    }
}

/// What a Rival 3 / 650 answer decodes to: `[0x00, level, _, charging, ..]`
/// with a leading report id, else `[level, _, charging, ..]`, else a bare
/// level byte. The level is capped at 100.
pub open spec fn spec_decode_rival3_650(res: Seq<u8>) -> Option<Reading> {
    if res.len() == 0 {
        None
    } else {
        let (lb, cb) = if res[0] == 0 && res.len() >= 4 {
            (res[1], res[3])
        } else if res.len() >= 3 {
            (res[0], res[2])
        } else {
            (res[0], 0u8)
        };
        Some((Some(if lb > 100 { 100u8 } else { lb }), cb != 0))
    }
}

/// The first non-zero battery byte of an answer: the second byte after a
/// zero report id, else the first byte, else a non-zero second byte.
pub open spec fn first_battery_byte(res: Seq<u8>) -> Option<u8> {
    if res.len() >= 2 && res[0] == 0 && res[1] > 0 {
        Some(res[1])
    } else if res.len() >= 1 && res[0] > 0 {
        Some(res[0])
    } else if res.len() >= 2 && res[1] > 0 {
        Some(res[1])
    } else {
        None
    }
}

/// What an Aerox/Prime answer decodes to by its first non-zero battery byte.
pub open spec fn spec_decode_aerox_prime_first_byte(res: Seq<u8>) -> Option<Reading> {
    match first_battery_byte(res) {
        Some(b) => Some(reading_from_battery_byte(b)),
        None => None,
    }
}

/// What a three-byte Rival 3 / 650 answer decodes to:
/// `[0x00, level, charging, ..]`, `[level, _, charging, ..]` or a bare level.
pub open spec fn spec_decode_rival3_650_three_byte(res: Seq<u8>) -> Option<Reading> {
    if res.len() == 0 {
        None
    } else {
        let (lb, cb) = if res[0] == 0 && res.len() >= 3 {
            (res[1], res[2])
        } else if res.len() >= 3 {
            (res[0], res[2])
        } else {
            (res[0], 0u8)
        };
        Some((Some(if lb > 100 { 100u8 } else { lb }), cb != 0))
    }
}

/// How many answers a diagnostic scan reads after each probe at most.
pub const PROBE_READ_ATTEMPTS: u32 = 5;

/// What a diagnostic scan does after one read that follows a probe.
#[derive(Clone, Copy, Debug, PartialEq, Eq, Structural)]
pub enum ProbeStep {
    /// Record the answer and read the next one.
    RecordAndReadAgain,
    /// Record the answer; this was the last read.
    RecordAndStop,
    /// Record nothing and stop reading.
    Stop,
}

/// The step after the `attempt`-th read of `len` bytes (0 on a timeout or
/// error) that follows a probe: answers of two bytes or more are recorded,
/// up to five of them; anything shorter ends the reading.
pub fn probe_read_step(attempt: u32, len: usize) -> (r: ProbeStep)
    requires
        attempt < PROBE_READ_ATTEMPTS,
    ensures
        r == (if len < 2 {
            ProbeStep::Stop
        } else if attempt + 1 < PROBE_READ_ATTEMPTS {
            ProbeStep::RecordAndReadAgain
        } else {
            ProbeStep::RecordAndStop
        }),
{
    if len < 2 {
        ProbeStep::Stop
    } else if attempt + 1 < PROBE_READ_ATTEMPTS {
        ProbeStep::RecordAndReadAgain
    } else {
        ProbeStep::RecordAndStop
    }
}

/// Whether an answer of at least two bytes is the answer to `command`:
/// it echoes the command first, or after a zero report id.
pub open spec fn spec_is_battery_response(command: u8, res: Seq<u8>) -> bool {
    res[0] == command || (res[0] == 0 && res.len() >= 3 && res[1] == command)
}

pub(crate) fn reading_from_byte(b: u8) -> (r: Reading)
    ensures
        r == reading_from_battery_byte(b),
{
    let is_charging = (b & CHARGING_FLAG) != 0;
    let raw_val = b & !CHARGING_FLAG;
    assert(((b & 0x80u8) != 0) == (b >= 128)) by (bit_vector);
    assert((b & !0x80u8) == b % 128) by (bit_vector);
    let level = if raw_val > 0 {
        let steps: u16 = (raw_val - 1) as u16 * 5;
        Some(if steps > 100 { 100u8 } else { steps as u8 })
    } else {
        None
    };
    (level, is_charging)
}

/// Every reading a decoder produces has a level of at most 100%.
pub proof fn decoded_levels_are_percentages(res: Seq<u8>)
    ensures
        spec_decode_aerox_prime(res) matches Some((Some(l), _)) ==> l <= 100,
        spec_decode_rival3_650(res) matches Some((Some(l), _)) ==> l <= 100,
        spec_decode_aerox_prime_first_byte(res) matches Some((Some(l), _)) ==> l <= 100,
        spec_decode_rival3_650_three_byte(res) matches Some((Some(l), _)) ==> l <= 100,
{
}


/// What one battery byte `b` of an Aerox/Prime answer means, shown on the
/// two-byte answer `[cmd, b]`: 0 is no reading (mouse off or asleep);
/// otherwise bit 7 says whether it charges, and the other seven bits `v`
/// give the level `(v - 1) * 5` percent, capped at 100, or no level when
/// `v` is 0.
pub proof fn aerox_battery_byte_meaning(cmd: u8, b: u8)
    requires
        cmd != 0,
    ensures
        b == 0 ==> spec_decode_aerox_prime(seq![cmd, b]) is None,
        b != 0 ==> spec_decode_aerox_prime(seq![cmd, b]) == Some((
            if (b & 0x7F) == 0 {
                None::<u8>
            } else if ((b & 0x7F) - 1) * 5 > 100 {
                Some(100u8)
            } else {
                Some((((b & 0x7F) - 1) * 5) as u8)
            },
            (b & 0x80) != 0,
        )),
{
    assert((b & 0x7Fu8) == b % 128) by (bit_vector);
    assert(((b & 0x80u8) != 0) == (b >= 128)) by (bit_vector);
}

/// Where the battery byte of an Aerox/Prime answer stands: every answer
/// decodes as the two-byte answer `[cmd, b]` of its battery byte `b`, which
/// is
/// - the byte after the echo, unless that is zero (`[cmd, b, ..]`);
/// - the third byte after an echo and a zero (`[cmd, 0x00, b, ..]`);
/// - the fourth byte after a report id, an echo and a zero
///   (`[0x00, cmd, 0x00, b, ..]`);
/// - the third byte after a report id and an echo otherwise
///   (`[0x00, cmd, b, ..]`);
/// and an answer shorter than two bytes decodes to nothing.
pub proof fn aerox_battery_byte_position(res: Seq<u8>)
    ensures
        res.len() < 2 ==> spec_decode_aerox_prime(res) is None,
        res.len() == 2 ==> spec_decode_aerox_prime(res) == spec_decode_aerox_prime(seq![0xD2u8, res[1]]),
        res.len() >= 2 && res[0] != 0 && res[1] != 0
            ==> spec_decode_aerox_prime(res) == spec_decode_aerox_prime(seq![0xD2u8, res[1]]),
        res.len() >= 3 && res[0] != 0 && res[1] == 0
            ==> spec_decode_aerox_prime(res) == spec_decode_aerox_prime(seq![0xD2u8, res[2]]),
        res.len() >= 4 && res[0] == 0 && res[2] == 0
            ==> spec_decode_aerox_prime(res) == spec_decode_aerox_prime(seq![0xD2u8, res[3]]),
        res.len() >= 3 && res[0] == 0 && (res.len() == 3 || res[2] != 0)
            ==> spec_decode_aerox_prime(res) == spec_decode_aerox_prime(seq![0xD2u8, res[2]]),
{
}

/// What a Rival 3 / 650 answer decodes to, by its shape: nothing when
/// empty; the level (capped at 100) and the charging byte after a zero
/// report id in four or more bytes; the first and third byte of three or
/// more bytes that start with a non-zero byte, whatever the length; a zero
/// level for three bytes that start with zero; the first byte alone, not
/// charging, for one or two bytes.
pub proof fn rival_answer_forms(res: Seq<u8>)
    ensures
        res.len() == 0 ==> spec_decode_rival3_650(res) is None,
        res.len() >= 4 && res[0] == 0 ==> spec_decode_rival3_650(res) == Some((
            Some(if res[1] > 100 { 100u8 } else { res[1] }),
            res[3] != 0,
        )),
        res.len() >= 3 && res[0] != 0 ==> spec_decode_rival3_650(res) == Some((
            Some(if res[0] > 100 { 100u8 } else { res[0] }),
            res[2] != 0,
        )),
        res.len() == 3 && res[0] == 0 ==> spec_decode_rival3_650(res) == Some((Some(0u8), res[2] != 0)),
        1 <= res.len() <= 2 ==> spec_decode_rival3_650(res) == Some((
            Some(if res[0] > 100 { 100u8 } else { res[0] }),
            false,
        )),
{
}

/// The first-byte Aerox/Prime decoder reads the same battery byte meaning:
/// it decodes as the two-byte answer `[cmd, b]` of the battery byte `b` it
/// picks (the second byte after a zero report id, else a non-zero first
/// byte), and gives nothing when neither is there.
pub proof fn first_byte_decoder_meaning(res: Seq<u8>)
    ensures
        res.len() >= 2 && res[0] == 0 && res[1] != 0
            ==> spec_decode_aerox_prime_first_byte(res) == spec_decode_aerox_prime(seq![0xD2u8, res[1]]),
        res.len() >= 1 && res[0] != 0
            ==> spec_decode_aerox_prime_first_byte(res) == spec_decode_aerox_prime(seq![0xD2u8, res[0]]),
        (res.len() == 0 || (res[0] == 0 && (res.len() == 1 || res[1] == 0)))
            ==> spec_decode_aerox_prime_first_byte(res) is None,
{
}

/// What a three-byte Rival 3 / 650 answer decodes to: level (capped at
/// 100) and charging byte at positions 1 and 2 after a zero report id, else
/// at positions 0 and 2; a bare level with one or two bytes.
pub proof fn rival_three_byte_forms(res: Seq<u8>)
    ensures
        res.len() == 0 ==> spec_decode_rival3_650_three_byte(res) is None,
        res.len() >= 3 && res[0] == 0 ==> spec_decode_rival3_650_three_byte(res) == Some((
            Some(if res[1] > 100 { 100u8 } else { res[1] }),
            res[2] != 0,
        )),
        res.len() >= 3 && res[0] != 0 ==> spec_decode_rival3_650_three_byte(res) == Some((
            Some(if res[0] > 100 { 100u8 } else { res[0] }),
            res[2] != 0,
        )),
        1 <= res.len() <= 2 ==> spec_decode_rival3_650_three_byte(res) == Some((
            Some(if res[0] > 100 { 100u8 } else { res[0] }),
            false,
        )),
{
}

/// The short form of the battery request for `kind`:
/// `[0x00, command]` for Aerox/Prime, `[0x00, 0xAA, 0x01]` for Rival 3 / 650.
pub open spec fn spec_short_request(kind: BatteryKind) -> Seq<u8> {
    match kind {
        BatteryKind::AeroxPrime { command } => seq![0u8, command],
        BatteryKind::Rival3Or650 => seq![0u8, 0xAAu8, 0x01u8],
    }
}

/// `prefix` padded with zero bytes to a full 64-byte report.
pub open spec fn padded_report(prefix: Seq<u8>) -> Seq<u8> {
    Seq::new(REPORT_LEN as nat, |i: int| if i < prefix.len() { prefix[i] } else { 0u8 })
}

/// Writes `prefix` into a fresh 64-byte report that is zero elsewhere.
fn report_with_prefix(prefix: &[u8]) -> (r: Vec<u8>)
    requires
        prefix@.len() <= REPORT_LEN,
    ensures
        r@ == padded_report(prefix@),
{
    let mut r: Vec<u8> = Vec::new();
    let mut i: usize = 0;
    while i < REPORT_LEN
        invariant
            i <= REPORT_LEN,
            prefix@.len() <= REPORT_LEN,
            r@.len() == i,
            forall|j: int| 0 <= j < i ==> r@[j] == (if j < prefix@.len() { prefix@[j] } else { 0u8 }),
        decreases REPORT_LEN - i,
    {
        let b = if i < prefix.len() { prefix[i] } else { 0u8 };
        r.push(b);
        i = i + 1;
    }
    assert(r@ =~= padded_report(prefix@));
    r
}

/// The short battery request for `kind`.
pub fn short_request(kind: BatteryKind) -> (r: Vec<u8>)
    ensures
        r@ == spec_short_request(kind),
{
    let r = match kind {
        BatteryKind::AeroxPrime { command } => vec![0x00u8, command],
        BatteryKind::Rival3Or650 => vec![0x00u8, 0xAAu8, 0x01u8],
    };
    assert(r@ =~= spec_short_request(kind));
    r
}

/// The full 64-byte battery request for `kind`: the short request padded
/// with zeros. It is written first; the short request follows as an output
/// report and then as a feature report when the device refuses it.
pub fn full_request(kind: BatteryKind) -> (r: Vec<u8>)
    ensures
        r@ == padded_report(spec_short_request(kind)),
{
    let short = short_request(kind);
    report_with_prefix(short.as_slice())
}

/// The feature report sent when a device refuses the short request both as
/// output and as feature report: the same bytes under report id 2.
pub fn feature_request_id2(kind: BatteryKind) -> (r: Vec<u8>)
    ensures
        r@ == seq![2u8] + spec_short_request(kind).drop_first(),
{
    let r = match kind {
        BatteryKind::AeroxPrime { command } => vec![0x02u8, command],
        BatteryKind::Rival3Or650 => vec![0x02u8, 0xAAu8, 0x01u8],
    };
    assert(r@ =~= seq![2u8] + spec_short_request(kind).drop_first());
    r
}

/// The commands that a diagnostic scan sends to every SteelSeries device.
pub fn diagnostic_commands() -> (r: Vec<u8>)
    ensures
        r@ == seq![0xD2u8, 0x92u8, 0xAAu8, 0xB2u8],
{
    let r = vec![0xD2u8, 0x92u8, 0xAAu8, 0xB2u8];
    assert(r@ =~= seq![0xD2u8, 0x92u8, 0xAAu8, 0xB2u8]);
    r
}

/// The 64-byte report a diagnostic scan sends for `command`: the command
/// after a zero report id, followed by `0x01` for the Rival command `0xAA`.
pub fn probe_request(command: u8) -> (r: Vec<u8>)
    ensures
        r@ == padded_report(
            if command == 0xAA { seq![0u8, command, 0x01u8] } else { seq![0u8, command] },
        ),
{
    if command == 0xAA {
        let p = vec![0x00u8, command, 0x01u8];
        assert(p@ =~= seq![0u8, command, 0x01u8]);
        report_with_prefix(p.as_slice())
    } else {
        let p = vec![0x00u8, command];
        assert(p@ =~= seq![0u8, command]);
        report_with_prefix(p.as_slice())
    }
}

/// What to do after one read that follows a battery request.
#[derive(Clone, Copy, Debug)]
pub enum ReadStep {
    /// The query is over, with this reading (or none).
    Done(Option<Reading>),
    /// Read the next report.
    ReadAgain,
}

/// The step that follows reading `res` (empty on a timeout or read error)
/// as the `attempt`-th answer to a request for `kind`.
pub open spec fn spec_read_step(kind: BatteryKind, attempt: u32, res: Seq<u8>) -> ReadStep {
    match kind {
        BatteryKind::AeroxPrime { command } => {
            if res.len() >= 2 {
                if spec_is_battery_response(command, res) && spec_decode_aerox_prime(res) is Some {
                    ReadStep::Done(spec_decode_aerox_prime(res))
                } else if attempt + 1 < AEROX_READ_ATTEMPTS {
                    ReadStep::ReadAgain
                } else {
                    ReadStep::Done(None)
                }
            } else {
                ReadStep::Done(None)
            }
        },
        BatteryKind::Rival3Or650 => {
            if res.len() >= 2 {
                ReadStep::Done(spec_decode_rival3_650(res))
            } else {
                ReadStep::Done(None)
            }
        },
    }
}

/// Whether an answer of two bytes or more answers `command`: its first
/// byte echoes the command, or it has three bytes or more whose first is
/// a zero report id and whose second echoes the command.
pub proof fn battery_response_echo(command: u8, res: Seq<u8>)
    requires
        res.len() >= 2,
    ensures
        spec_is_battery_response(command, res) <==> (res[0] == command || (res[0] == 0
            && res.len() >= 3 && res[1] == command)),
{
}

/// How one read after an Aerox/Prime battery request for `command` goes on:
/// a read of fewer than two bytes (timeout or error) ends the query with
/// no reading; an answer that echoes the command (first, or after a zero
/// report id in three bytes or more) and decodes ends it with that
/// reading; any other answer is skipped, and the next report is read
/// unless this was the eighth read, which ends the query with no reading.
pub proof fn aerox_read_step_outcomes(command: u8, attempt: u32, res: Seq<u8>)
    requires
        attempt < AEROX_READ_ATTEMPTS,
    ensures
        res.len() < 2 ==> spec_read_step(BatteryKind::AeroxPrime { command }, attempt, res)
            == ReadStep::Done(None),
        res.len() >= 2 && (res[0] == command || (res[0] == 0 && res.len() >= 3 && res[1] == command))
            && spec_decode_aerox_prime(res) is Some
            ==> spec_read_step(BatteryKind::AeroxPrime { command }, attempt, res)
                == ReadStep::Done(spec_decode_aerox_prime(res)),
        res.len() >= 2 && !((res[0] == command || (res[0] == 0 && res.len() >= 3 && res[1] == command))
            && spec_decode_aerox_prime(res) is Some) ==> {
            &&& attempt + 1 < 8 ==> spec_read_step(BatteryKind::AeroxPrime { command }, attempt, res)
                == ReadStep::ReadAgain
            &&& attempt + 1 == 8 ==> spec_read_step(BatteryKind::AeroxPrime { command }, attempt, res)
                == ReadStep::Done(None)
        },
{
}

/// The first read after a Rival 3 / 650 battery request ends the query:
/// with the decoded answer when it has two bytes or more, else with no
/// reading.
pub proof fn rival_read_step_outcomes(attempt: u32, res: Seq<u8>)
    ensures
        res.len() < 2 ==> spec_read_step(BatteryKind::Rival3Or650, attempt, res) == ReadStep::Done(None),
        res.len() >= 2 ==> spec_read_step(BatteryKind::Rival3Or650, attempt, res)
            == ReadStep::Done(spec_decode_rival3_650(res)),
{
}

/// The Aerox/Prime battery request: `[0x00, command]`, and as a full report
/// 64 bytes that hold the zero report id, the command, and zeros after.
pub proof fn aerox_request_layout(command: u8)
    ensures
        spec_short_request(BatteryKind::AeroxPrime { command }) == seq![0u8, command],
        padded_report(spec_short_request(BatteryKind::AeroxPrime { command })).len() == 64,
        padded_report(spec_short_request(BatteryKind::AeroxPrime { command }))[0] == 0,
        padded_report(spec_short_request(BatteryKind::AeroxPrime { command }))[1] == command,
        forall|i: int| 2 <= i < 64
            ==> #[trigger] padded_report(spec_short_request(BatteryKind::AeroxPrime { command }))[i] == 0,
{
}

/// The Rival 3 / 650 battery request: `[0x00, 0xAA, 0x01]`, and as a full
/// report 64 bytes that hold those three and zeros after.
pub proof fn rival_request_layout()
    ensures
        spec_short_request(BatteryKind::Rival3Or650) == seq![0u8, 0xAAu8, 0x01u8],
        padded_report(spec_short_request(BatteryKind::Rival3Or650)).len() == 64,
        padded_report(spec_short_request(BatteryKind::Rival3Or650))[0] == 0,
        padded_report(spec_short_request(BatteryKind::Rival3Or650))[1] == 0xAA,
        padded_report(spec_short_request(BatteryKind::Rival3Or650))[2] == 0x01,
        forall|i: int| 3 <= i < 64
            ==> #[trigger] padded_report(spec_short_request(BatteryKind::Rival3Or650))[i] == 0,
{
}

/// The kinds tried, in this order, on a SteelSeries device that has no
/// profile: Aerox/Prime with `0xD2`, then with `0x92`, then Rival 3 / 650.
pub fn fallback_kinds() -> (r: Vec<BatteryKind>)
    ensures
        r@ == seq![
            BatteryKind::AeroxPrime { command: 0xD2 },
            BatteryKind::AeroxPrime { command: 0x92 },
            BatteryKind::Rival3Or650,
        ],
{
    let r = vec![
        BatteryKind::AeroxPrime { command: 0xD2 },
        BatteryKind::AeroxPrime { command: 0x92 },
        BatteryKind::Rival3Or650,
    ];
    assert(r@ =~= seq![
        BatteryKind::AeroxPrime { command: 0xD2 },
        BatteryKind::AeroxPrime { command: 0x92 },
        BatteryKind::Rival3Or650,
    ]);
    r
}

} // verus!
