//! Decimal rendering of numbers into strings.

use vstd::prelude::*;

verus! {

/// The ASCII character of a decimal digit.
pub open spec fn digit_char(d: nat) -> char {
    if d == 0 { '0' }
    else if d == 1 { '1' }
    else if d == 2 { '2' }
    else if d == 3 { '3' }
    else if d == 4 { '4' }
    else if d == 5 { '5' }
    else if d == 6 { '6' }
    else if d == 7 { '7' }
    else if d == 8 { '8' }
    else { '9' }
}

/// The decimal representation of `n`, without leading zeros
/// (what `format!("{}", n)` prints for an unsigned integer).
pub open spec fn decimal(n: nat) -> Seq<char>
    decreases n,
{
    if n < 10 {
        seq![digit_char(n)]
    } else {
        decimal(n / 10) + seq![digit_char(n % 10)]
    }
}

/// The view of an optional string.
pub open spec fn opt_str_view(o: Option<String>) -> Option<Seq<char>> {
    match o {
        Some(s) => Some(s@),
        None => None,
    }
}

/// Appends one character to a string (`String::push`).
#[verifier::external_body]
pub(crate) fn push_char(s: &mut String, c: char)
    ensures
        final(s)@ == old(s)@.push(c),
{
    s.push(c);
}

pub(crate) fn digit_to_char(d: u64) -> (c: char)
    requires
        d < 10,
    ensures
        c == digit_char(d as nat),
{
    if d == 0 { '0' }
    else if d == 1 { '1' }
    else if d == 2 { '2' }
    else if d == 3 { '3' }
    else if d == 4 { '4' }
    else if d == 5 { '5' }
    else if d == 6 { '6' }
    else if d == 7 { '7' }
    else if d == 8 { '8' }
    else { '9' }
}

/// Appends the decimal representation of `n` to `s`.
pub fn push_decimal(s: &mut String, n: u64)
    ensures
        final(s)@ == old(s)@ + decimal(n as nat),
    decreases n,
{
    if n >= 10 {
        push_decimal(s, n / 10);
    }
    let c = digit_to_char(n % 10);
    push_char(s, c);
    assert(s@ =~= old(s)@ + decimal(n as nat));
}


/// The upper-case hex character of a digit below 16.
pub open spec fn hex_char(d: nat) -> char {
    if d < 10 {
        digit_char(d)
    } else if d == 10 { 'A' }
    else if d == 11 { 'B' }
    else if d == 12 { 'C' }
    else if d == 13 { 'D' }
    else if d == 14 { 'E' }
    else { 'F' }
}

/// The upper-case hex digits of `n`, without leading zeros.
pub open spec fn hex_upper(n: nat) -> Seq<char>
    decreases n,
{
    if n < 16 {
        seq![hex_char(n)]
    } else {
        hex_upper(n / 16) + seq![hex_char(n % 16)]
    }
}

/// `format!("0x{:0width$X}", n)`: "0x", then the upper-case hex digits of
/// `n` with leading zeros up to `width` digits.
pub open spec fn hex_text(n: nat, width: nat) -> Seq<char> {
    let digits = hex_upper(n);
    let pad = if width > digits.len() { (width - digits.len()) as nat } else { 0 };
    "0x"@ + Seq::new(pad, |i: int| '0') + digits
}

fn hex_to_char(d: u64) -> (c: char)
    requires
        d < 16,
    ensures
        c == hex_char(d as nat),
{
    if d < 10 {
        digit_to_char(d)
    } else if d == 10 { 'A' }
    else if d == 11 { 'B' }
    else if d == 12 { 'C' }
    else if d == 13 { 'D' }
    else if d == 14 { 'E' }
    else { 'F' }
}

fn push_hex(s: &mut String, n: u64)
    ensures
        final(s)@ == old(s)@ + hex_upper(n as nat),
    decreases n,
{
    if n >= 16 {
        push_hex(s, n / 16);
    }
    let c = hex_to_char(n % 16);
    push_char(s, c);
    assert(s@ =~= old(s)@ + hex_upper(n as nat));
}

fn hex_len(n: u64) -> (len: u64)
    ensures
        len == hex_upper(n as nat).len(),
        len <= 16,
    decreases n,
{
    if n < 16 {
        1
    } else {
        let l = hex_len(n / 16);
        assert(n / 16 < 0x1000_0000_0000_0000);
        if l == 16 {
            assert(hex_upper((n / 16) as nat).len() <= 15) by {
                reveal_with_fuel(pow16, 16);
                assert(pow16(15) == 0x1000_0000_0000_0000nat);
                lemma_hex_len_bound((n / 16) as nat, 15);
            }
        }
        l + 1
    }
}

/// A number below `16^k` has at most `k` hex digits.
proof fn lemma_hex_len_bound(n: nat, k: nat)
    requires
        k >= 1,
        n < pow16(k),
    ensures
        hex_upper(n).len() <= k,
    decreases n,
{
    if n >= 16 {
        assert(k >= 2) by {
            if k == 1 {
                assert(pow16(1) == 16) by {
                    assert(pow16(0) == 1);
                }
            }
        }
        assert(pow16(k) == 16 * pow16((k - 1) as nat));
        assert(n / 16 < pow16((k - 1) as nat)) by (nonlinear_arith)
            requires
                n < 16 * pow16((k - 1) as nat),
        ;
        lemma_hex_len_bound(n / 16, (k - 1) as nat);
    }
}

spec fn pow16(k: nat) -> nat
    decreases k,
{
    if k == 0 { 1 } else { 16 * pow16((k - 1) as nat) }
}

/// "0x" and `n` in upper-case hex, zero-padded to `width` digits
/// (`format!("0x{:04X}", n)` for a width of 4).
pub fn format_hex(n: u64, width: u64) -> (s: String)
    requires
        width <= 64,
    ensures
        s@ == hex_text(n as nat, width as nat),
{
    let mut s = String::new();
    s.append("0x");
    let len = hex_len(n);
    let mut pad: u64 = if width > len { width - len } else { 0 };
    let ghost start = s@;
    let mut k: u64 = 0;
    while k < pad
        invariant
            k <= pad,
            s@ == start + Seq::new(k as nat, |i: int| '0'),
        decreases pad - k,
    {
        push_char(&mut s, '0');
        k = k + 1;
        assert(s@ =~= start + Seq::new(k as nat, |i: int| '0'));
    }
    push_hex(&mut s, n);
    assert(s@ =~= hex_text(n as nat, width as nat));
    s
}


/// The number that a string of decimal digit characters writes.
pub open spec fn value_of_digits(s: Seq<char>) -> int
    decreases s.len(),
{
    if s.len() == 0 {
        0
    } else {
        value_of_digits(s.drop_last()) * 10 + (s.last() as int - '0' as int)
    }
}

/// The number that a string of upper-case hex digit characters writes.
pub open spec fn value_of_hex_digits(s: Seq<char>) -> int
    decreases s.len(),
{
    if s.len() == 0 {
        0
    } else {
        value_of_hex_digits(s.drop_last()) * 16 + (if '0' <= s.last() <= '9' {
            s.last() as int - '0' as int
        } else {
            s.last() as int - 'A' as int + 10
        })
    }
}

/// `decimal(n)` is the usual decimal numeral of `n`: digits only, no
/// leading zero (except for 0 itself), and it reads back as `n`.
pub proof fn decimal_reads_back(n: nat)
    ensures
        decimal(n).len() >= 1,
        forall|i: int| 0 <= i < decimal(n).len() ==> '0' <= #[trigger] decimal(n)[i] <= '9',
        n >= 10 ==> decimal(n)[0] != '0',
        n < 10 ==> decimal(n).len() == 1,
        value_of_digits(decimal(n)) == n,
    decreases n,
{
    lemma_digit_char_value(n % 10);
    let d = decimal(n);
    if n >= 10 {
        decimal_reads_back(n / 10);
        assert(d.drop_last() =~= decimal(n / 10));
        assert(d[0] == decimal(n / 10)[0]);
        assert(d.last() == digit_char(n % 10));
        assert(value_of_digits(d) == value_of_digits(decimal(n / 10)) * 10 + (n % 10));
        assert(n == (n / 10) * 10 + n % 10);
    } else {
        assert(d.drop_last() =~= Seq::<char>::empty());
        assert(value_of_digits(d) == value_of_digits(d.drop_last()) * 10 + (d.last() as int - '0' as int));
    }
}

/// `hex_upper(n)` is the upper-case hex numeral of `n`: hex digits only, no
/// leading zero (except for 0 itself), and it reads back as `n`.
pub proof fn hex_reads_back(n: nat)
    ensures
        hex_upper(n).len() >= 1,
        forall|i: int| 0 <= i < hex_upper(n).len() ==> ('0' <= #[trigger] hex_upper(n)[i] <= '9'
            || 'A' <= hex_upper(n)[i] <= 'F'),
        n >= 16 ==> hex_upper(n)[0] != '0',
        value_of_hex_digits(hex_upper(n)) == n,
    decreases n,
{
    lemma_hex_char_value(n % 16);
    let d = hex_upper(n);
    if n >= 16 {
        hex_reads_back(n / 16);
        assert(d.drop_last() =~= hex_upper(n / 16));
        assert(d[0] == hex_upper(n / 16)[0]);
        assert(d.last() == hex_char(n % 16));
        assert(value_of_hex_digits(d) == value_of_hex_digits(hex_upper(n / 16)) * 16 + (n % 16));
        assert(n == (n / 16) * 16 + n % 16);
    } else {
        assert(d.drop_last() =~= Seq::<char>::empty());
        assert(value_of_hex_digits(d) == value_of_hex_digits(d.drop_last()) * 16 + (n % 16));
    }
}

/// `hex_text(n, width)` is "0x", then at least `width` hex digits, zeros
/// first, that read back as `n`.
pub proof fn hex_text_reads_back(n: nat, width: nat)
    ensures
        hex_text(n, width).len() >= 2 + width,
        hex_text(n, width).len() >= 3,
        hex_text(n, width)[0] == '0',
        hex_text(n, width)[1] == 'x',
        value_of_hex_digits(hex_text(n, width).skip(2)) == n,
{
    reveal_strlit("0x");
    hex_reads_back(n);
    let digits = hex_upper(n);
    let pad: nat = if width > digits.len() { (width - digits.len()) as nat } else { 0 };
    let zeros = Seq::new(pad, |i: int| '0');
    assert(hex_text(n, width).skip(2) =~= zeros + digits);
    lemma_leading_zeros(zeros, digits);
}

proof fn lemma_digit_char_value(d: nat)
    requires
        d < 10,
    ensures
        '0' <= digit_char(d) <= '9',
        digit_char(d) as int - '0' as int == d,
{
}

proof fn lemma_hex_char_value(d: nat)
    requires
        d < 16,
    ensures
        '0' <= hex_char(d) <= '9' || 'A' <= hex_char(d) <= 'F',
        d < 10 ==> '0' <= hex_char(d) <= '9' && hex_char(d) as int - '0' as int == d,
        d >= 10 ==> !('0' <= hex_char(d) <= '9') && hex_char(d) as int - 'A' as int + 10 == d,
{
    if d < 10 {
        lemma_digit_char_value(d);
    }
}

proof fn lemma_leading_zeros(zeros: Seq<char>, digits: Seq<char>)
    requires
        forall|i: int| 0 <= i < zeros.len() ==> zeros[i] == '0',
    ensures
        value_of_hex_digits(zeros + digits) == value_of_hex_digits(digits),
    decreases digits.len(),
{
    if digits.len() == 0 {
        lemma_zeros_value(zeros);
        assert(zeros + digits =~= zeros);
    } else {
        lemma_leading_zeros(zeros, digits.drop_last());
        assert((zeros + digits).drop_last() =~= zeros + digits.drop_last());
    }
}

proof fn lemma_zeros_value(zeros: Seq<char>)
    requires
        forall|i: int| 0 <= i < zeros.len() ==> zeros[i] == '0',
    ensures
        value_of_hex_digits(zeros) == 0,
    decreases zeros.len(),
{
    if zeros.len() > 0 {
        lemma_zeros_value(zeros.drop_last());
    }
}

} // verus!
