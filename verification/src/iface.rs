//! The HID interface number of a device, from hidapi's report or, on
//! Windows, from the device path.

use vstd::prelude::*;

verus! {

/// ASCII lower case of one byte.
pub open spec fn ascii_lower(b: u8) -> u8 {
    if 65 <= b <= 90 { (b + 32) as u8 } else { b }
}

/// A path in ASCII lower case.
pub open spec fn lowered(p: Seq<u8>) -> Seq<u8> {
    p.map_values(|b: u8| ascii_lower(b))
}

/// Whether the three bytes of `pat` stand in `p` at `i`.
pub open spec fn matches_at(p: Seq<u8>, pat: Seq<u8>, i: int) -> bool {
    &&& pat.len() == 3
    &&& 0 <= i
    &&& i + 3 <= p.len()
    &&& p[i] == pat[0]
    &&& p[i + 1] == pat[1]
    &&& p[i + 2] == pat[2]
}

/// Whether `i` is where `pat` first stands in `p`.
pub open spec fn is_first_match(p: Seq<u8>, pat: Seq<u8>, i: int) -> bool {
    matches_at(p, pat, i) && forall|j: int| 0 <= j < i ==> !#[trigger] matches_at(p, pat, j)
}

/// Where `pat` first stands in `p` (what `str::find` returns).
pub open spec fn find_first(p: Seq<u8>, pat: Seq<u8>) -> Option<int> {
    if exists|i: int| is_first_match(p, pat, i) {
        Some(choose|i: int| is_first_match(p, pat, i))
    } else {
        None
    }
}

/// Whether a byte is an ASCII hex digit.
pub open spec fn is_hex(b: u8) -> bool {
    (48 <= b <= 57) || (97 <= b <= 102) || (65 <= b <= 70)
}

/// The value of a hex digit.
pub open spec fn hex_digit_value(b: u8) -> nat {
    if 48 <= b <= 57 {
        (b - 48) as nat
    } else if 97 <= b <= 102 {
        (b - 87) as nat
    } else {
        (b - 55) as nat
    }
}

/// Whether `p[start..end]` is the longest run of hex digits at `start`.
pub open spec fn hex_run(p: Seq<u8>, start: int, end: int) -> bool {
    &&& 0 <= start <= end <= p.len()
    &&& forall|k: int| start <= k < end ==> is_hex(#[trigger] p[k])
    &&& (end == p.len() || !is_hex(p[end]))
}

/// The number the hex digits `p[start..end]` write.
pub open spec fn hex_value(p: Seq<u8>, start: int, end: int) -> nat
    decreases end - start,
{
    if end <= start {
        0
    } else {
        hex_value(p, start, end - 1) * 16 + hex_digit_value(p[end - 1])
    }
}

/// The hex number right after the first `pat` in `p`, as
/// `i32::from_str_radix(.., 16)` reads the run of hex digits there: none
/// when `pat` is absent, the run is empty, or the number exceeds `i32::MAX`.
pub open spec fn number_after(p: Seq<u8>, pat: Seq<u8>) -> Option<i32> {
    match find_first(p, pat) {
        None => None,
        Some(i) => {
            let start = i + 3;
            let end = choose|e: int| hex_run(p, start, e);
            if end == start || hex_value(p, start, end) > i32::MAX {
                None
            } else {
                Some(hex_value(p, start, end) as i32)
            }
        },
    }
}

/// The interface number of a device: the one hidapi reports when it is not
/// negative; else the hex number after "mi_" in the lower-cased path, else
/// the one after "col"; else -1.
pub open spec fn spec_interface_number(reported: i32, path: Seq<u8>) -> i32 {
    if reported >= 0 {
        reported
    } else {
        match number_after(lowered(path), seq![109u8, 105u8, 95u8]) {
            Some(n) => n,
            None => match number_after(lowered(path), seq![99u8, 111u8, 108u8]) {
                Some(n) => n,
                None => -1i32,
            },
        }
    }
}

/// A non-negative interface number from hidapi is the answer, whatever the
/// path; an unknown one (negative) gives -1 or a number read from the path,
/// never another negative number.
pub proof fn reported_interface_is_kept(reported: i32, path: Seq<u8>)
    ensures
        reported >= 0 ==> spec_interface_number(reported, path) == reported,
        reported < 0 ==> spec_interface_number(reported, path) >= -1,
{
}

/// Case does not matter in the path: a path and its lower-cased form give
/// the same interface number.
pub proof fn path_case_is_ignored(reported: i32, path: Seq<u8>)
    ensures
        spec_interface_number(reported, path) == spec_interface_number(reported, lowered(path)),
{
    assert(lowered(lowered(path)) =~= lowered(path));
}

/// Hex digits: `0`-`9` are worth 0 to 9, `a`-`f` and `A`-`F` 10 to 15; a
/// run of them reads in base 16, the last digit the lowest.
pub proof fn hex_digits_read_in_base_16(p: Seq<u8>, start: int, end: int, b: u8)
    requires
        start < end,
    ensures
        '0' as u8 <= b <= '9' as u8 ==> is_hex(b) && hex_digit_value(b) == b - '0' as u8,
        'a' as u8 <= b <= 'f' as u8 ==> is_hex(b) && hex_digit_value(b) == b - 'a' as u8 + 10,
        'A' as u8 <= b <= 'F' as u8 ==> is_hex(b) && hex_digit_value(b) == b - 'A' as u8 + 10,
        !('0' as u8 <= b <= '9' as u8 || 'a' as u8 <= b <= 'f' as u8 || 'A' as u8 <= b <= 'F' as u8) ==> !is_hex(b),
        hex_value(p, start, end) == 16 * hex_value(p, start, end - 1) + hex_digit_value(p[end - 1]),
        hex_value(p, start, start) == 0,
{
}

/// Without a number from hidapi, the number is read from the path: the run
/// of hex digits right after the first "mi_" (in any case), when there is
/// one and it fits in an `i32`.
pub proof fn interface_from_mi(reported: i32, path: Seq<u8>, i: int, e: int)
    requires
        reported < 0,
        i + 3 < e,
        is_first_match(lowered(path), seq!['m' as u8, 'i' as u8, '_' as u8], i),
        hex_run(lowered(path), i + 3, e),
        hex_value(lowered(path), i + 3, e) <= i32::MAX,
    ensures
        spec_interface_number(reported, path) == hex_value(lowered(path), i + 3, e),
{
    let lp = lowered(path);
    let mi = seq![109u8, 105u8, 95u8];
    assert(mi =~= seq!['m' as u8, 'i' as u8, '_' as u8]);
    assert forall|k: int| #[trigger] is_first_match(lp, mi, k) implies k == i by {
        if k < i {
            assert(!matches_at(lp, mi, k));
        } else if k > i {
            assert(!matches_at(lp, mi, i));
        }
    }
    assert forall|f: int| #[trigger] hex_run(lp, i + 3, f) implies f == e by {
        if f < e {
            assert(is_hex(lp[f]));
        } else if f > e {
            assert(is_hex(lp[e]));
        }
    }
}

/// With no number after "mi_", the run of hex digits right after the first
/// "col" (in any case) is the number, when there is one and it fits.
pub proof fn interface_from_col(reported: i32, path: Seq<u8>, i: int, e: int)
    requires
        reported < 0,
        forall|j: int| 0 <= j && j + 3 <= path.len() ==> !(#[trigger] lowered(path)[j] == 'm' as u8
            && lowered(path)[j + 1] == 'i' as u8 && lowered(path)[j + 2] == '_' as u8),
        i + 3 < e,
        is_first_match(lowered(path), seq!['c' as u8, 'o' as u8, 'l' as u8], i),
        hex_run(lowered(path), i + 3, e),
        hex_value(lowered(path), i + 3, e) <= i32::MAX,
    ensures
        spec_interface_number(reported, path) == hex_value(lowered(path), i + 3, e),
{
    let lp = lowered(path);
    let mi = seq![109u8, 105u8, 95u8];
    let col = seq![99u8, 111u8, 108u8];
    assert(mi =~= seq!['m' as u8, 'i' as u8, '_' as u8]);
    assert(col =~= seq!['c' as u8, 'o' as u8, 'l' as u8]);
    assert(!exists|k: int| is_first_match(lp, mi, k));
    assert forall|k: int| #[trigger] is_first_match(lp, col, k) implies k == i by {
        if k < i {
            assert(!matches_at(lp, col, k));
        } else if k > i {
            assert(!matches_at(lp, col, i));
        }
    }
    assert forall|f: int| #[trigger] hex_run(lp, i + 3, f) implies f == e by {
        if f < e {
            assert(is_hex(lp[f]));
        } else if f > e {
            assert(is_hex(lp[e]));
        }
    }
}

/// A path that holds neither "mi_" nor "col" (in any case) gives -1 when
/// hidapi reports no interface.
pub proof fn no_interface_in_path(reported: i32, path: Seq<u8>)
    requires
        reported < 0,
        forall|j: int| 0 <= j && j + 3 <= path.len() ==> !(#[trigger] lowered(path)[j] == 'm' as u8
            && lowered(path)[j + 1] == 'i' as u8 && lowered(path)[j + 2] == '_' as u8),
        forall|j: int| 0 <= j && j + 3 <= path.len() ==> !(#[trigger] lowered(path)[j] == 'c' as u8
            && lowered(path)[j + 1] == 'o' as u8 && lowered(path)[j + 2] == 'l' as u8),
    ensures
        spec_interface_number(reported, path) == -1,
{
    let lp = lowered(path);
    assert(seq![109u8, 105u8, 95u8] =~= seq!['m' as u8, 'i' as u8, '_' as u8]);
    assert(seq![99u8, 111u8, 108u8] =~= seq!['c' as u8, 'o' as u8, 'l' as u8]);
    assert(!exists|k: int| is_first_match(lp, seq![109u8, 105u8, 95u8], k));
    assert(!exists|k: int| is_first_match(lp, seq![99u8, 111u8, 108u8], k));
}

/// Capped values stay capped: the capped value of `16 * v + d` follows from
/// the capped value of `v`.
proof fn lemma_cap_step(v: nat, d: nat, cap: nat)
    requires
        cap > 0,
    ensures
        ({
            let cv = if v > cap { cap } else { v };
            let lhs = cv * 16 + d;
            let rhs = v * 16 + d;
            (if lhs > cap { cap } else { lhs }) == (if rhs > cap { cap } else { rhs })
        }),
{
    if v > cap {
        assert(v * 16 + d > cap) by (nonlinear_arith)
            requires
                v > cap,
        ;
        assert(cap * 16 + d > cap) by (nonlinear_arith)
            requires
                cap > 0,
        ;
    }
}

fn lower_byte(b: u8) -> (r: u8)
    ensures
        r == ascii_lower(b),
{
    if 65 <= b && b <= 90 { b + 32 } else { b }
}

fn is_hex_byte(b: u8) -> (r: bool)
    ensures
        r == is_hex(b),
{
    (48 <= b && b <= 57) || (97 <= b && b <= 102) || (65 <= b && b <= 70)
}

fn hex_digit(b: u8) -> (r: u64)
    requires
        is_hex(b),
    ensures
        r == hex_digit_value(b),
        r < 16,
{
    if 48 <= b && b <= 57 {
        (b - 48) as u64
    } else if 97 <= b && b <= 102 {
        (b - 87) as u64
    } else {
        (b - 55) as u64
    }
}

/// Where `pat` first stands in `p`.
fn find_pattern(p: &Vec<u8>, pat: &[u8]) -> (r: Option<usize>)
    requires
        pat@.len() == 3,
    ensures
        match r {
            Some(i) => find_first(p@, pat@) == Some(i as int),
            None => find_first(p@, pat@) is None,
        },
{
    let mut i: usize = 0;
    while p.len() >= 3 && i <= p.len() - 3
        invariant
            pat@.len() == 3,
            i <= p@.len(),
            forall|j: int| 0 <= j < i ==> !#[trigger] matches_at(p@, pat@, j),
        decreases p@.len() - i,
    {
        if p[i] == pat[0] && p[i + 1] == pat[1] && p[i + 2] == pat[2] {
            assert(is_first_match(p@, pat@, i as int));
            assert forall|k: int| #[trigger] is_first_match(p@, pat@, k) implies k == i by {
                if k < i {
                } else if k > i {
                    assert(!matches_at(p@, pat@, i as int));
                }
            }
            return Some(i);
        }
        i = i + 1;
    }
    assert forall|k: int| !#[trigger] is_first_match(p@, pat@, k) by {
        if 0 <= k < i {
        }
    }
    None
}

/// The hex number after the first `pat` in `p`.
fn parse_number_after(p: &Vec<u8>, pat: &[u8]) -> (r: Option<i32>)
    requires
        pat@.len() == 3,
    ensures
        r == number_after(p@, pat@),
{
    let pos = match find_pattern(p, pat) {
        Some(pos) => pos,
        None => {
            return None;
        },
    };
    assert(is_first_match(p@, pat@, choose|i: int| is_first_match(p@, pat@, i)));
    let plen = p.len();
    assert(pos + 3 <= plen);
    let start = pos + 3;
    let cap: u64 = 0x8000_0000;
    let mut k: usize = start;
    let mut acc: u64 = 0;
    while k < p.len() && is_hex_byte(p[k])
        invariant
            start <= k <= p@.len(),
            start == pos + 3,
            start <= p@.len(),
            cap == 0x8000_0000,
            forall|j: int| start <= j < k ==> is_hex(#[trigger] p@[j]),
            acc == (if hex_value(p@, start as int, k as int) > cap { cap as nat } else {
                hex_value(p@, start as int, k as int)
            }),
        decreases p@.len() - k,
    {
        let d = hex_digit(p[k]);
        proof {
            lemma_cap_step(hex_value(p@, start as int, k as int), d as nat, cap as nat);
        }
        let next = acc * 16 + d;
        acc = if next > cap { cap } else { next };
        k = k + 1;
    }
    assert(hex_run(p@, start as int, k as int));
    assert forall|e: int| #[trigger] hex_run(p@, start as int, e) implies e == k by {
        if e < k {
            assert(is_hex(p@[e]));
        } else if e > k {
            assert(is_hex(p@[k as int]));
        }
    }
    if k == start || acc > 0x7FFF_FFFF {
        None
    } else {
        Some(acc as i32)
    }
}

/// The interface number of a device, from what hidapi reports (negative
/// when unknown) and the device path.
pub fn get_interface_number(reported: i32, path: &[u8]) -> (r: i32)
    ensures
        r == spec_interface_number(reported, path@),
        reported >= 0 ==> r == reported,
{
    if reported >= 0 {
        return reported;
    }
    let mut lower: Vec<u8> = Vec::new();
    let mut i: usize = 0;
    while i < path.len()
        invariant
            i <= path@.len(),
            lower@.len() == i,
            forall|j: int| 0 <= j < i ==> lower@[j] == ascii_lower(#[trigger] path@[j]),
        decreases path@.len() - i,
    {
        lower.push(lower_byte(path[i]));
        i = i + 1;
    }
    assert(lower@ =~= lowered(path@));
    let mi: [u8; 3] = [109u8, 105u8, 95u8];
    let col: [u8; 3] = [99u8, 111u8, 108u8];
    assert(mi@ =~= seq![109u8, 105u8, 95u8]);
    assert(col@ =~= seq![99u8, 111u8, 108u8]);
    match parse_number_after(&lower, &mi) {
        Some(n) => n,
        None => match parse_number_after(&lower, &col) {
            Some(n) => n,
            None => -1,
        },
    }
}

} // verus!
