//! Clock text of the log lines.

use vstd::prelude::*;
use crate::text::{digit_char, digit_to_char, push_char, value_of_digits};

verus! {

#[verifier::external_type_specification]
#[verifier::external_body]
pub struct ExSystemTime(std::time::SystemTime);

/// The system clock now (`std::time::SystemTime::now`). Nothing is said of
/// the instant.
#[verifier::external_body]
fn system_now() -> std::time::SystemTime {
    std::time::SystemTime::now()
}

/// Whole seconds from the Unix epoch to `t`
/// (`SystemTime::duration_since(UNIX_EPOCH)`), `None` for an instant before
/// the epoch. Nothing is said of the number, which depends on the clock.
#[verifier::external_body]
fn secs_since_epoch(t: std::time::SystemTime) -> Option<u64> {
    t.duration_since(std::time::UNIX_EPOCH).ok().map(|d| d.as_secs())
}

/// Two decimal digits of `n` (below 100), with a leading zero.
pub open spec fn two_digits(n: nat) -> Seq<char> {
    seq![digit_char(n / 10), digit_char(n % 10)]
}

/// "HH:MM:SS" of the UTC time of day `secs` seconds after the epoch.
pub open spec fn clock_text(secs: nat) -> Seq<char> {
    two_digits((secs / 3600) % 24) + seq![':'] + two_digits((secs / 60) % 60) + seq![':']
        + two_digits(secs % 60)
}

/// The clock text is eight characters, "HH:MM:SS": hours of the day,
/// minutes and seconds, each as two decimal digits (a leading zero below
/// 10), that read back as the time of day `secs` seconds after midnight of
/// the epoch.
pub proof fn clock_text_reads_back(secs: nat)
    ensures
        clock_text(secs).len() == 8,
        clock_text(secs)[2] == ':',
        clock_text(secs)[5] == ':',
        forall|i: int| 0 <= i < 8 && i != 2 && i != 5 ==> '0' <= #[trigger] clock_text(secs)[i] <= '9',
        value_of_digits(clock_text(secs).subrange(0, 2)) == (secs / 3600) % 24,
        value_of_digits(clock_text(secs).subrange(3, 5)) == (secs / 60) % 60,
        value_of_digits(clock_text(secs).subrange(6, 8)) == secs % 60,
{
    let h = (secs / 3600) % 24;
    let m = (secs / 60) % 60;
    let sec = secs % 60;
    lemma_two_digits(h);
    lemma_two_digits(m);
    lemma_two_digits(sec);
    let t = clock_text(secs);
    assert(t.subrange(0, 2) =~= two_digits(h));
    assert(t.subrange(3, 5) =~= two_digits(m));
    assert(t.subrange(6, 8) =~= two_digits(sec));
}

proof fn lemma_two_digits(n: nat)
    requires
        n < 100,
    ensures
        two_digits(n).len() == 2,
        '0' <= two_digits(n)[0] <= '9',
        '0' <= two_digits(n)[1] <= '9',
        value_of_digits(two_digits(n)) == n,
{
    let t = two_digits(n);
    assert(t.drop_last() =~= seq![digit_char(n / 10)]);
    assert(t.drop_last().drop_last() =~= Seq::<char>::empty());
    assert(value_of_digits(t.drop_last()) == value_of_digits(t.drop_last().drop_last()) * 10
        + (digit_char(n / 10) as int - '0' as int));
    assert(n == (n / 10) * 10 + n % 10);
}

fn push_two_digits(s: &mut String, n: u64)
    requires
        n < 100,
    ensures
        final(s)@ == old(s)@ + two_digits(n as nat),
{
    let tens = n / 10;
    let ones = n % 10;
    push_char(s, digit_to_char(tens));
    push_char(s, digit_to_char(ones));
    assert(s@ =~= old(s)@ + two_digits(n as nat));
}

/// "HH:MM:SS" of `secs` seconds after the epoch, in UTC.
pub fn format_clock_time(secs: u64) -> (s: String)
    ensures
        s@ == clock_text(secs as nat),
{
    let mut s = String::new();
    push_two_digits(&mut s, (secs / 3600) % 24);
    push_char(&mut s, ':');
    push_two_digits(&mut s, (secs / 60) % 60);
    push_char(&mut s, ':');
    push_two_digits(&mut s, secs % 60);
    assert(s@ =~= clock_text(secs as nat));
    s
}

/// The UTC time of day now, as "HH:MM:SS"; a clock before the epoch counts
/// as the epoch.
pub fn chrono_now() -> (s: String)
    ensures
        exists|secs: u64| s@ == clock_text(secs as nat),
{
    let secs = match secs_since_epoch(system_now()) {
        Some(s) => s,
        None => 0,
    };
    format_clock_time(secs)
}

} // verus!
