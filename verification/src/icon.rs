//! The tray icon: a 32x32 RGBA image showing the battery as a fill level,
//! as digits, or as a red cross when no level is known.

use vstd::prelude::*;
use crate::config::DisplayMode;
use crate::raster::{
    RgbaCanvas, rgba_bytes, rgba_width, rgba_height, pixel_offset, rgba_from_pixel, rgba_put_pixel,
    rgba_get_pixel, rgba_into_raw,
};

verus! {

/// Width and height of the tray icon in pixels.
pub const ICON_SIZE: u32 = 32;

/// Number of channel bytes of the tray icon.
pub const ICON_BYTES: usize = 4096;

/// Orange: charging.
pub open spec fn orange() -> Seq<u8> { seq![255u8, 165u8, 0u8, 255u8] }
/// Red: below 20%.
pub open spec fn low_red() -> Seq<u8> { seq![255u8, 69u8, 58u8, 255u8] }
/// Yellow: below 50%.
pub open spec fn yellow() -> Seq<u8> { seq![255u8, 204u8, 0u8, 255u8] }
/// Green: 50% or more.
pub open spec fn green() -> Seq<u8> { seq![52u8, 199u8, 89u8, 255u8] }
/// Red of the cross shown when no level is known.
pub open spec fn error_red() -> Seq<u8> { seq![255u8, 59u8, 48u8, 255u8] }
/// A fully transparent pixel.
pub open spec fn clear() -> Seq<u8> { seq![0u8, 0u8, 0u8, 0u8] }

/// The colour of the battery drawing: orange while charging, else red,
/// yellow or green by level.
pub open spec fn level_color(level: u8, charging: bool) -> Seq<u8> {
    if charging {
        orange()
    } else if level < 20 {
        low_red()
    } else if level < 50 {
        yellow()
    } else {
        green()
    }
}

/// The level shown, capped at 100.
pub open spec fn capped(level: u8) -> int {
    if level > 100 { 100 } else { level as int }
}

/// Rows filled for `level`: 32 times the level in percent, rounded to the
/// nearest row (`(32.0 * (level / 100.0)).round()`, which never meets a tie).
pub open spec fn fill_rows(level: u8) -> int {
    (32 * capped(level) + 50) / 100
}

/// The battery graphic: the bottom `fill_rows` rows.
pub open spec fn fill_mark(level: u8, x: int, y: int) -> bool {
    y >= 32 - fill_rows(level)
}

/// The cross: two diagonals, two pixels thick, on rows 6 to 25.
pub open spec fn error_mark(x: int, y: int) -> bool {
    6 <= y < 26 && (x == y || x == y + 1 || x == 31 - y || x == 30 - y)
}

/// Row `r` (top to bottom) of the 5x7 glyph of digit `d`; bit 4 is the
/// leftmost column.
pub open spec fn glyph_row(d: int, r: int) -> int {
    if d == 0 {
        if r == 0 { 0b01110 } else if r == 1 { 0b10001 } else if r == 2 { 0b10011 } else if r == 3 { 0b10101 } else if r == 4 { 0b11001 } else if r == 5 { 0b10001 } else { 0b01110 }
    } else if d == 1 {
        if r == 0 { 0b00100 } else if r == 1 { 0b01100 } else if r == 2 { 0b00100 } else if r == 3 { 0b00100 } else if r == 4 { 0b00100 } else if r == 5 { 0b00100 } else { 0b01110 }
    } else if d == 2 {
        if r == 0 { 0b01110 } else if r == 1 { 0b10001 } else if r == 2 { 0b00001 } else if r == 3 { 0b00010 } else if r == 4 { 0b00100 } else if r == 5 { 0b01000 } else { 0b11111 }
    } else if d == 3 {
        if r == 0 { 0b11111 } else if r == 1 { 0b00010 } else if r == 2 { 0b00100 } else if r == 3 { 0b00010 } else if r == 4 { 0b00001 } else if r == 5 { 0b10001 } else { 0b01110 }
    } else if d == 4 {
        if r == 0 { 0b00010 } else if r == 1 { 0b00110 } else if r == 2 { 0b01010 } else if r == 3 { 0b10010 } else if r == 4 { 0b11111 } else if r == 5 { 0b00010 } else { 0b00010 }
    } else if d == 5 {
        if r == 0 { 0b11111 } else if r == 1 { 0b10000 } else if r == 2 { 0b11110 } else if r == 3 { 0b00001 } else if r == 4 { 0b00001 } else if r == 5 { 0b10001 } else { 0b01110 }
    } else if d == 6 {
        if r == 0 { 0b00110 } else if r == 1 { 0b01000 } else if r == 2 { 0b10000 } else if r == 3 { 0b11110 } else if r == 4 { 0b10001 } else if r == 5 { 0b10001 } else { 0b01110 }
    } else if d == 7 {
        if r == 0 { 0b11111 } else if r == 1 { 0b00001 } else if r == 2 { 0b00010 } else if r == 3 { 0b00100 } else if r == 4 { 0b01000 } else if r == 5 { 0b01000 } else { 0b01000 }
    } else if d == 8 {
        if r == 0 { 0b01110 } else if r == 1 { 0b10001 } else if r == 2 { 0b10001 } else if r == 3 { 0b01110 } else if r == 4 { 0b10001 } else if r == 5 { 0b10001 } else { 0b01110 }
    } else {
        if r == 0 { 0b01110 } else if r == 1 { 0b10001 } else if r == 2 { 0b10001 } else if r == 3 { 0b01111 } else if r == 4 { 0b00001 } else if r == 5 { 0b00010 } else { 0b01100 }
    }
}

/// Weight of column `c` (0 = leftmost) in a glyph row.
pub open spec fn column_weight(c: int) -> int {
    if c == 0 { 16 } else if c == 1 { 8 } else if c == 2 { 4 } else if c == 3 { 2 } else { 1 }
}

/// Whether the glyph of digit `d` has a dot at row `r`, column `c`.
pub open spec fn glyph_dot(d: int, r: int, c: int) -> bool {
    (glyph_row(d, r) / column_weight(c)) % 2 == 1
}

/// Number of decimal digits of `v` (at most 100).
pub open spec fn digit_count(v: int) -> int {
    if v < 10 { 1 } else if v < 100 { 2 } else { 3 }
}

/// Size of one glyph dot: 2 pixels for three digits, 3 otherwise.
pub open spec fn dot_size(n: int) -> int {
    if n == 3 { 2 } else { 3 }
}

/// Digit `k` (from the left) of the `n`-digit number `v`.
pub open spec fn digit_at(v: int, n: int, k: int) -> int {
    let e = n - 1 - k;
    (v / (if e == 0 { 1int } else if e == 1 { 10int } else { 100int })) % 10
}

/// The percentage as digits: glyphs 5 dots wide and 7 high, 2 pixels apart,
/// the text centred (flush left when wider than the icon); pixels beyond
/// the icon are cut off.
pub open spec fn text_mark(level: u8, x: int, y: int) -> bool {
    let v = capped(level);
    let n = digit_count(v);
    let s = dot_size(n);
    let pitch = 5 * s + 2;
    let total = n * pitch - 2;
    let x0 = if total >= 32 { 0 } else { (32 - total) / 2 };
    let y0 = (32 - 7 * s) / 2;
    &&& x >= x0
    &&& y >= y0
    &&& (x - x0) / pitch < n
    &&& (x - x0) % pitch < 5 * s
    &&& y - y0 < 7 * s
    &&& glyph_dot(digit_at(v, n, (x - x0) / pitch), (y - y0) / s, ((x - x0) % pitch) / s)
}

/// Whether pixel `(x, y)` is drawn for this state.
pub open spec fn icon_mark(level: Option<u8>, mode: DisplayMode, x: int, y: int) -> bool {
    match level {
        None => error_mark(x, y),
        Some(l) => match mode {
            DisplayMode::Hover => fill_mark(l, x, y),
            DisplayMode::Icon => text_mark(l, x, y),
        },
    }
}

/// The colour drawn for this state.
pub open spec fn mark_color(level: Option<u8>, charging: bool) -> Seq<u8> {
    match level {
        None => error_red(),
        Some(l) => level_color(l, charging),
    }
}

/// Pixel `(x, y)` of the icon: the drawing colour where drawn, transparent
/// elsewhere.
pub open spec fn icon_pixel(level: Option<u8>, charging: bool, mode: DisplayMode, x: int, y: int) -> Seq<u8> {
    if icon_mark(level, mode, x, y) { mark_color(level, charging) } else { clear() }
}

/// Every pixel of the icon is either transparent or opaque: opaque exactly
/// where something is drawn, in a colour that is not black.
pub proof fn icon_pixels_are_drawn_or_clear(level: Option<u8>, charging: bool, mode: DisplayMode, x: int, y: int)
    ensures
        icon_pixel(level, charging, mode, x, y)[3] == (if icon_mark(level, mode, x, y) { 255u8 } else { 0u8 }),
        icon_mark(level, mode, x, y) ==> icon_pixel(level, charging, mode, x, y)[0] != 0,
        !icon_mark(level, mode, x, y) ==> icon_pixel(level, charging, mode, x, y) == clear(),
{
}

/// A higher level never fills fewer rows of the battery graphic; 0% fills
/// none and 100% (or more) fills all 32.
pub proof fn fill_grows_with_level(a: u8, b: u8)
    requires
        a <= b,
    ensures
        fill_rows(a) <= fill_rows(b),
        fill_rows(0) == 0,
        b >= 100 ==> fill_rows(b) == 32,
{
}

/// The digits are drawn in the 5x7 font, rows top to bottom, bit 4 the
/// leftmost column:
/// 0 = 01110 10001 10011 10101 11001 10001 01110,
/// 1 = 00100 01100 00100 00100 00100 00100 01110,
/// 2 = 01110 10001 00001 00010 00100 01000 11111,
/// 3 = 11111 00010 00100 00010 00001 10001 01110,
/// 4 = 00010 00110 01010 10010 11111 00010 00010,
/// 5 = 11111 10000 11110 00001 00001 10001 01110,
/// 6 = 00110 01000 10000 11110 10001 10001 01110,
/// 7 = 11111 00001 00010 00100 01000 01000 01000,
/// 8 = 01110 10001 10001 01110 10001 10001 01110,
/// 9 = 01110 10001 10001 01111 00001 00010 01100;
/// no two digits share a glyph.
pub proof fn digit_font(d: int, e: int)
    requires
        0 <= d < 10,
        0 <= e < 10,
        d != e,
    ensures
        seq![glyph_row(d, 0), glyph_row(d, 1), glyph_row(d, 2), glyph_row(d, 3), glyph_row(d, 4),
            glyph_row(d, 5), glyph_row(d, 6)] == (
            if d == 0 { seq![14int, 17, 19, 21, 25, 17, 14] }
            else if d == 1 { seq![4int, 12, 4, 4, 4, 4, 14] }
            else if d == 2 { seq![14int, 17, 1, 2, 4, 8, 31] }
            else if d == 3 { seq![31int, 2, 4, 2, 1, 17, 14] }
            else if d == 4 { seq![2int, 6, 10, 18, 31, 2, 2] }
            else if d == 5 { seq![31int, 16, 30, 1, 1, 17, 14] }
            else if d == 6 { seq![6int, 8, 16, 30, 17, 17, 14] }
            else if d == 7 { seq![31int, 1, 2, 4, 8, 8, 8] }
            else if d == 8 { seq![14int, 17, 17, 14, 17, 17, 14] }
            else { seq![14int, 17, 17, 15, 1, 2, 12] }),
        exists|r: int| 0 <= r < 7 && glyph_row(d, r) != glyph_row(e, r),
{
    let rd = seq![glyph_row(d, 0), glyph_row(d, 1), glyph_row(d, 2), glyph_row(d, 3), glyph_row(d, 4),
        glyph_row(d, 5), glyph_row(d, 6)];
    let re = seq![glyph_row(e, 0), glyph_row(e, 1), glyph_row(e, 2), glyph_row(e, 3), glyph_row(e, 4),
        glyph_row(e, 5), glyph_row(e, 6)];
    assert(rd != re) by {
        if rd == re {
            assert(rd[0] == re[0] && rd[1] == re[1] && rd[2] == re[2] && rd[3] == re[3] && rd[4] == re[4]
                && rd[5] == re[5] && rd[6] == re[6]);
        }
    }
    assert(exists|r: int| 0 <= r < 7 && rd[r] != re[r]) by {
        if forall|r: int| 0 <= r < 7 ==> rd[r] == re[r] {
            assert(rd =~= re);
        }
    }
    let r = choose|r: int| 0 <= r < 7 && rd[r] != re[r];
    assert(glyph_row(d, r) != glyph_row(e, r));
}

/// The red cross is symmetric: mirroring a pixel left to right keeps it on
/// or off the cross.
pub proof fn error_cross_is_mirrored(x: int, y: int)
    ensures
        error_mark(x, y) == error_mark(31 - x, y),
{
}

/// Column of the pixel that channel byte `i` belongs to.
pub open spec fn pix_x(i: int) -> int {
    (i / 4) % 32
}

/// Row of the pixel that channel byte `i` belongs to.
pub open spec fn pix_y(i: int) -> int {
    i / 128
}

/// The icon's channel bytes, row by row, four per pixel (RGBA).
pub open spec fn icon_bytes(level: Option<u8>, charging: bool, mode: DisplayMode) -> Seq<u8> {
    Seq::new(ICON_BYTES as nat, |i: int| icon_pixel(level, charging, mode, pix_x(i), pix_y(i))[i % 4])
}

/// Pixel `(x, y)` of the icon is bytes `4 (32 y + x)` to `4 (32 y + x) + 3`
/// of its 4096 channel bytes, in the order red, green, blue, alpha.
pub proof fn icon_byte_layout(level: Option<u8>, charging: bool, mode: DisplayMode, x: int, y: int, k: int)
    requires
        0 <= x < 32,
        0 <= y < 32,
        0 <= k < 4,
    ensures
        icon_bytes(level, charging, mode).len() == 4096,
        icon_bytes(level, charging, mode)[4 * (32 * y + x) + k] == icon_pixel(level, charging, mode, x, y)[k],
{
    let i = 4 * (32 * y + x) + k;
    assert(i / 4 == 32 * y + x);
    assert(i % 4 == k);
    assert((32 * y + x) % 32 == x);
    assert(i / 128 == y);
}

/// The colours, as RGBA: orange `255 165 0` while charging; otherwise red
/// `255 69 58` below 20%, yellow `255 204 0` from 20% to below 50%, green
/// `52 199 89` from 50%; the cross is red `255 59 48`; all opaque.
pub proof fn icon_colours(level: u8)
    ensures
        mark_color(Some(level), true) == seq![255u8, 165, 0, 255],
        level < 20 ==> mark_color(Some(level), false) == seq![255u8, 69, 58, 255],
        20 <= level < 50 ==> mark_color(Some(level), false) == seq![255u8, 204, 0, 255],
        level >= 50 ==> mark_color(Some(level), false) == seq![52u8, 199, 89, 255],
        mark_color(None, false) == seq![255u8, 59, 48, 255],
        mark_color(None, true) == seq![255u8, 59, 48, 255],
{
}

/// The battery fill covers the bottom rows whose number is 32 times the
/// level (capped at 100%) rounded to the nearest whole row: exactly the
/// rows from `32 - rows` down are drawn, on every column.
pub proof fn fill_is_nearest_row_count(level: u8, x: int, y: int)
    ensures
        ({
            let c: int = if level > 100 { 100 } else { level as int };
            -50 < 100 * fill_rows(level) - 32 * c <= 50
        }),
        0 <= fill_rows(level) <= 32,
        icon_mark(Some(level), DisplayMode::Hover, x, y) <==> y >= 32 - fill_rows(level),
{
}

/// The digits of the percentage shown, left to right: the level itself
/// below 10; tens and units below 100; `1 0 0` for 100.
pub proof fn digits_of_percentage(v: int)
    requires
        0 <= v <= 100,
    ensures
        v < 10 ==> digit_count(v) == 1 && digit_at(v, 1, 0) == v,
        10 <= v < 100 ==> digit_count(v) == 2 && digit_at(v, 2, 0) == v / 10 && digit_at(v, 2, 1) == v % 10,
        v == 100 ==> digit_count(v) == 3 && digit_at(v, 3, 0) == 1 && digit_at(v, 3, 1) == 0
            && digit_at(v, 3, 2) == 0,
{
}

/// Column `c` (0 the leftmost) of a glyph row is its bit `4 - c`.
pub proof fn glyph_columns_are_bits(d: int, r: int, c: int)
    requires
        0 <= d < 10,
        0 <= r < 7,
        0 <= c < 5,
    ensures
        0 <= glyph_row(d, r) < 32,
        glyph_dot(d, r, c) <==> ((glyph_row(d, r) as u32 >> ((4 - c) as u32)) & 1u32) == 1u32,
{
    let v: u32 = glyph_row(d, r) as u32;
    assert(v == glyph_row(d, r));
    if c == 0 {
        assert(((v / 16) % 2 == 1) <==> ((v >> 4u32) & 1u32) == 1u32) by (bit_vector);
    } else if c == 1 {
        assert(((v / 8) % 2 == 1) <==> ((v >> 3u32) & 1u32) == 1u32) by (bit_vector);
    } else if c == 2 {
        assert(((v / 4) % 2 == 1) <==> ((v >> 2u32) & 1u32) == 1u32) by (bit_vector);
    } else if c == 3 {
        assert(((v / 2) % 2 == 1) <==> ((v >> 1u32) & 1u32) == 1u32) by (bit_vector);
    } else {
        assert(((v / 1) % 2 == 1) <==> ((v >> 0u32) & 1u32) == 1u32) by (bit_vector);
    }
}

/// Where a two-digit percentage is drawn: each glyph dot is a 3x3 block,
/// glyphs start 17 pixels apart from the left edge, rows start at pixel 5;
/// the block of dot `(r, c)` of digit `k` is drawn exactly when that digit's
/// glyph has the dot.
pub proof fn two_digit_placement(level: u8, k: int, r: int, c: int, sx: int, sy: int)
    requires
        10 <= level < 100,
        0 <= k < 2,
        0 <= r < 7,
        0 <= c < 5,
        0 <= sx < 3,
        0 <= sy < 3,
    ensures
        icon_mark(Some(level), DisplayMode::Icon, 17 * k + 3 * c + sx, 5 + 3 * r + sy)
            <==> glyph_dot(if k == 0 { level as int / 10 } else { level as int % 10 }, r, c),
{
    let x = 17 * k + 3 * c + sx;
    let y = 5 + 3 * r + sy;
    assert(x / 17 == k && x % 17 == 3 * c + sx) by (nonlinear_arith)
        requires x == 17 * k + 3 * c + sx, 0 <= 3 * c + sx < 15, 0 <= k;
    assert((3 * c + sx) / 3 == c) by (nonlinear_arith)
        requires 0 <= sx < 3, 0 <= c;
    assert((y - 5) / 3 == r) by (nonlinear_arith)
        requires y == 5 + 3 * r + sy, 0 <= sy < 3, 0 <= r;
}

/// Where a one-digit percentage is drawn: each glyph dot is a 3x3 block,
/// the glyph starts at column 8 and row 5.
pub proof fn one_digit_placement(level: u8, r: int, c: int, sx: int, sy: int)
    requires
        level < 10,
        0 <= r < 7,
        0 <= c < 5,
        0 <= sx < 3,
        0 <= sy < 3,
    ensures
        icon_mark(Some(level), DisplayMode::Icon, 8 + 3 * c + sx, 5 + 3 * r + sy)
            <==> glyph_dot(level as int, r, c),
{
    let x = 8 + 3 * c + sx;
    let y = 5 + 3 * r + sy;
    assert((x - 8) / 17 == 0 && (x - 8) % 17 == 3 * c + sx) by (nonlinear_arith)
        requires x == 8 + 3 * c + sx, 0 <= 3 * c + sx < 15;
    assert((3 * c + sx) / 3 == c) by (nonlinear_arith)
        requires 0 <= sx < 3, 0 <= c;
    assert((y - 5) / 3 == r) by (nonlinear_arith)
        requires y == 5 + 3 * r + sy, 0 <= sy < 3, 0 <= r;
}

/// Where 100% (or more) is drawn: each glyph dot is a 2x2 block, glyphs
/// start 12 pixels apart from the left edge, rows start at pixel 9; what
/// lies beyond the right edge is cut off.
pub proof fn three_digit_placement(level: u8, k: int, r: int, c: int, sx: int, sy: int)
    requires
        level >= 100,
        0 <= k < 3,
        0 <= r < 7,
        0 <= c < 5,
        0 <= sx < 2,
        0 <= sy < 2,
    ensures
        icon_mark(Some(level), DisplayMode::Icon, 12 * k + 2 * c + sx, 9 + 2 * r + sy)
            <==> glyph_dot(if k == 0 { 1int } else { 0int }, r, c),
{
    let x = 12 * k + 2 * c + sx;
    let y = 9 + 2 * r + sy;
    assert(x / 12 == k && x % 12 == 2 * c + sx) by (nonlinear_arith)
        requires x == 12 * k + 2 * c + sx, 0 <= 2 * c + sx < 10, 0 <= k;
    assert((2 * c + sx) / 2 == c) by (nonlinear_arith)
        requires 0 <= sx < 2, 0 <= c;
    assert((y - 9) / 2 == r) by (nonlinear_arith)
        requires y == 9 + 2 * r + sy, 0 <= sy < 2, 0 <= r;
}

/// The cross is the two diagonals of the icon, each two pixels thick, on
/// rows 6 to 25: pixel `(x, y)` is on it when `x` is `y` or `y + 1`, or
/// when `x + y` is 30 or 31.
pub proof fn error_cross_shape(x: int, y: int)
    ensures
        icon_mark(None, DisplayMode::Hover, x, y) == icon_mark(None, DisplayMode::Icon, x, y),
        icon_mark(None, DisplayMode::Icon, x, y) <==> (6 <= y <= 25 && (x == y || x == y + 1 || x + y == 31
            || x + y == 30)),
{
}

/// The digits leave margins clear: nothing is drawn above row 5 or below
/// row 25 for one or two digits (above row 9 or below row 22 for 100%),
/// left of column 8 or right of column 22 for one digit, and in the two
/// columns 15 and 16 between two digits.
pub proof fn digit_margins(level: u8, x: int, y: int)
    requires
        0 <= x < 32,
        0 <= y < 32,
    ensures
        level < 100 && (y < 5 || y > 25) ==> !icon_mark(Some(level), DisplayMode::Icon, x, y),
        level < 10 && (x < 8 || x > 22) ==> !icon_mark(Some(level), DisplayMode::Icon, x, y),
        10 <= level < 100 && (x == 15 || x == 16) ==> !icon_mark(Some(level), DisplayMode::Icon, x, y),
        level >= 100 && (y < 9 || y > 22) ==> !icon_mark(Some(level), DisplayMode::Icon, x, y),
{
    if 10 <= level < 100 && (x == 15 || x == 16) {
        assert(x / 17 == 0 && x % 17 == x);
    }
    if level < 10 && x > 22 {
        if x - 8 < 17 {
            assert((x - 8) / 17 == 0 && (x - 8) % 17 == x - 8);
        } else {
            assert((x - 8) / 17 >= 1);
        }
    }
}

/// Byte `i` of pixel data `b` after black pixels were made transparent.
pub open spec fn cleared_byte(b: Seq<u8>, i: int) -> u8 {
    if i % 4 == 3 && b[i - 3] == 0 && b[i - 2] == 0 && b[i - 1] == 0 { 0 } else { b[i] }
}

/// The four channel bytes of pixel `(x, y)` start at `(32 y + x) * 4`.
proof fn lemma_pixel_bytes(i: int, x: int, y: int)
    requires
        0 <= x < 32,
        0 <= y < 32,
        0 <= i < 4096,
    ensures
        (pixel_offset(32, x as u32, y as u32) <= i < pixel_offset(32, x as u32, y as u32) + 4)
            <==> (pix_x(i) == x && pix_y(i) == y),
        pixel_offset(32, x as u32, y as u32) == 128 * y + 4 * x,
{
    assert(pixel_offset(32, x as u32, y as u32) == 128 * y + 4 * x);
}

fn color_for(level: Option<u8>, charging: bool) -> (c: [u8; 4])
    ensures
        c@ == mark_color(level, charging),
{
    let c: [u8; 4] = match level {
        None => [255u8, 59u8, 48u8, 255u8],
        Some(l) => if charging {
            [255u8, 165u8, 0u8, 255u8]
        } else if l < 20 {
            [255u8, 69u8, 58u8, 255u8]
        } else if l < 50 {
            [255u8, 204u8, 0u8, 255u8]
        } else {
            [52u8, 199u8, 89u8, 255u8]
        },
    };
    assert(c@ =~= mark_color(level, charging));
    c
}

fn glyph_row_of(d: u32, r: u32) -> (row: u32)
    requires
        d < 10,
        r < 7,
    ensures
        row == glyph_row(d as int, r as int),
{
    let rows: [u32; 7] = if d == 0 {
        [0b01110, 0b10001, 0b10011, 0b10101, 0b11001, 0b10001, 0b01110]
    } else if d == 1 {
        [0b00100, 0b01100, 0b00100, 0b00100, 0b00100, 0b00100, 0b01110]
    } else if d == 2 {
        [0b01110, 0b10001, 0b00001, 0b00010, 0b00100, 0b01000, 0b11111]
    } else if d == 3 {
        [0b11111, 0b00010, 0b00100, 0b00010, 0b00001, 0b10001, 0b01110]
    } else if d == 4 {
        [0b00010, 0b00110, 0b01010, 0b10010, 0b11111, 0b00010, 0b00010]
    } else if d == 5 {
        [0b11111, 0b10000, 0b11110, 0b00001, 0b00001, 0b10001, 0b01110]
    } else if d == 6 {
        [0b00110, 0b01000, 0b10000, 0b11110, 0b10001, 0b10001, 0b01110]
    } else if d == 7 {
        [0b11111, 0b00001, 0b00010, 0b00100, 0b01000, 0b01000, 0b01000]
    } else if d == 8 {
        [0b01110, 0b10001, 0b10001, 0b01110, 0b10001, 0b10001, 0b01110]
    } else {
        [0b01110, 0b10001, 0b10001, 0b01111, 0b00001, 0b00010, 0b01100]
    };
    rows[r as usize]
}

fn text_contains(level: u8, x: u32, y: u32) -> (r: bool)
    requires
        x < 32,
        y < 32,
    ensures
        r == text_mark(level, x as int, y as int),
{
    let v: u32 = if level > 100 { 100 } else { level as u32 };
    let n: u32 = if v < 10 { 1 } else if v < 100 { 2 } else { 3 };
    let s: u32 = if n == 3 { 2 } else { 3 };
    let pitch: u32 = 5 * s + 2;
    assert(1 <= n * pitch <= 51) by (nonlinear_arith)
        requires
            1 <= n <= 3,
            12 <= pitch <= 17,
    ;
    let total: u32 = n * pitch - 2;
    let x0: u32 = if total >= 32 { 0 } else { (32 - total) / 2 };
    let y0: u32 = (32 - 7 * s) / 2;
    if x < x0 || y < y0 {
        return false;
    }
    let k = (x - x0) / pitch;
    let cx = (x - x0) % pitch;
    let dy = y - y0;
    if k >= n || cx >= 5 * s || dy >= 7 * s {
        return false;
    }
    let e = n - 1 - k;
    let p10: u32 = if e == 0 { 1 } else if e == 1 { 10 } else { 100 };
    let d = (v / p10) % 10;
    let row = glyph_row_of(d, dy / s);
    let c = cx / s;
    let w: u32 = if c == 0 { 16 } else if c == 1 { 8 } else if c == 2 { 4 } else if c == 3 { 2 } else { 1 };
    (row / w) % 2 == 1
}

fn mark_contains(level: Option<u8>, mode: DisplayMode, x: u32, y: u32) -> (r: bool)
    requires
        x < 32,
        y < 32,
    ensures
        r == icon_mark(level, mode, x as int, y as int),
{
    match level {
        None => 6 <= y && y < 26 && (x == y || x == y + 1 || x == 31 - y || x == 30 - y),
        Some(l) => match mode {
            DisplayMode::Hover => {
                let c: u32 = if l > 100 { 100 } else { l as u32 };
                let rows = (32 * c + 50) / 100;
                y >= 32 - rows
            },
            DisplayMode::Icon => text_contains(l, x, y),
        },
    }
}

/// Paints every pixel of the shape for this state with `color`.
fn draw_mark(img: &mut RgbaCanvas, level: Option<u8>, mode: DisplayMode, color: [u8; 4])
    requires
        rgba_width(*old(img)) == 32,
        rgba_height(*old(img)) == 32,
        rgba_bytes(*old(img)).len() == ICON_BYTES,
    ensures
        rgba_width(*final(img)) == 32,
        rgba_height(*final(img)) == 32,
        rgba_bytes(*final(img)).len() == ICON_BYTES,
        forall|i: int| 0 <= i < ICON_BYTES ==> #[trigger] rgba_bytes(*final(img))[i] == (
            if icon_mark(level, mode, pix_x(i), pix_y(i)) { color@[i % 4] } else { rgba_bytes(*old(img))[i] }),
{
    let ghost b0 = rgba_bytes(*img);
    let mut y: u32 = 0;
    while y < ICON_SIZE
        invariant
            y <= 32,
            rgba_width(*img) == 32,
            rgba_height(*img) == 32,
            rgba_bytes(*img).len() == ICON_BYTES,
            b0.len() == ICON_BYTES,
            forall|i: int| 0 <= i < ICON_BYTES ==> #[trigger] rgba_bytes(*img)[i] == (
                if pix_y(i) < y && icon_mark(level, mode, pix_x(i), pix_y(i)) { color@[i % 4] } else { b0[i] }),
        decreases 32 - y,
    {
        let mut x: u32 = 0;
        while x < ICON_SIZE
            invariant
                y < 32,
                x <= 32,
                rgba_width(*img) == 32,
                rgba_height(*img) == 32,
                rgba_bytes(*img).len() == ICON_BYTES,
                b0.len() == ICON_BYTES,
                forall|i: int| 0 <= i < ICON_BYTES ==> #[trigger] rgba_bytes(*img)[i] == (
                    if (pix_y(i) < y || (pix_y(i) == y && pix_x(i) < x))
                        && icon_mark(level, mode, pix_x(i), pix_y(i)) { color@[i % 4] } else { b0[i] }),
            decreases 32 - x,
        {
            let m = mark_contains(level, mode, x, y);
            let ghost before = rgba_bytes(*img);
            if m {
                rgba_put_pixel(img, x, y, color);
            }
            assert forall|i: int| 0 <= i < ICON_BYTES implies #[trigger] rgba_bytes(*img)[i] == (
                if (pix_y(i) < y || (pix_y(i) == y && pix_x(i) < x + 1))
                    && icon_mark(level, mode, pix_x(i), pix_y(i)) { color@[i % 4] } else { b0[i] }) by {
                lemma_pixel_bytes(i, x as int, y as int);
                if pix_x(i) == x && pix_y(i) == y {
                    assert(i - pixel_offset(32, x, y) == i % 4);
                }
            }
            x = x + 1;
        }
        assert forall|i: int| 0 <= i < ICON_BYTES implies #[trigger] rgba_bytes(*img)[i] == (
            if pix_y(i) < y + 1 && icon_mark(level, mode, pix_x(i), pix_y(i)) { color@[i % 4] } else { b0[i] }) by {
            assert(0 <= pix_x(i) < 32);
        }
        y = y + 1;
    }
}

/// Makes every black pixel fully transparent.
fn make_background_transparent(img: &mut RgbaCanvas)
    requires
        rgba_width(*old(img)) == 32,
        rgba_height(*old(img)) == 32,
        rgba_bytes(*old(img)).len() == ICON_BYTES,
    ensures
        rgba_width(*final(img)) == 32,
        rgba_height(*final(img)) == 32,
        rgba_bytes(*final(img)).len() == ICON_BYTES,
        forall|i: int| 0 <= i < ICON_BYTES ==> #[trigger] rgba_bytes(*final(img))[i] == cleared_byte(rgba_bytes(*old(img)), i),
{
    let ghost b0 = rgba_bytes(*img);
    let mut y: u32 = 0;
    while y < ICON_SIZE
        invariant
            y <= 32,
            rgba_width(*img) == 32,
            rgba_height(*img) == 32,
            rgba_bytes(*img).len() == ICON_BYTES,
            b0.len() == ICON_BYTES,
            forall|i: int| 0 <= i < ICON_BYTES ==> #[trigger] rgba_bytes(*img)[i] == (
                if pix_y(i) < y { cleared_byte(b0, i) } else { b0[i] }),
        decreases 32 - y,
    {
        let mut x: u32 = 0;
        while x < ICON_SIZE
            invariant
                y < 32,
                x <= 32,
                rgba_width(*img) == 32,
                rgba_height(*img) == 32,
                rgba_bytes(*img).len() == ICON_BYTES,
                b0.len() == ICON_BYTES,
                forall|i: int| 0 <= i < ICON_BYTES ==> #[trigger] rgba_bytes(*img)[i] == (
                    if pix_y(i) < y || (pix_y(i) == y && pix_x(i) < x) { cleared_byte(b0, i) } else { b0[i] }),
            decreases 32 - x,
        {
            let p = rgba_get_pixel(img, x, y);
            let ghost before = rgba_bytes(*img);
            proof {
                lemma_pixel_bytes(pixel_offset(32, x, y), x as int, y as int);
                lemma_pixel_bytes(pixel_offset(32, x, y) + 1, x as int, y as int);
                lemma_pixel_bytes(pixel_offset(32, x, y) + 2, x as int, y as int);
                lemma_pixel_bytes(pixel_offset(32, x, y) + 3, x as int, y as int);
                assert(p@[0] == b0[pixel_offset(32, x, y)]);
                assert(p@[1] == b0[pixel_offset(32, x, y) + 1]);
                assert(p@[2] == b0[pixel_offset(32, x, y) + 2]);
                assert(p@[3] == b0[pixel_offset(32, x, y) + 3]);
            }
            if p[0] == 0 && p[1] == 0 && p[2] == 0 {
                rgba_put_pixel(img, x, y, [p[0], p[1], p[2], 0u8]);
            }
            assert forall|i: int| 0 <= i < ICON_BYTES implies #[trigger] rgba_bytes(*img)[i] == (
                if pix_y(i) < y || (pix_y(i) == y && pix_x(i) < x + 1) { cleared_byte(b0, i) } else { b0[i] }) by {
                lemma_pixel_bytes(i, x as int, y as int);
                if pix_x(i) == x && pix_y(i) == y {
                    let o = pixel_offset(32, x, y);
                    assert(i - o == i % 4);
                    assert(i % 4 == 3 ==> (i - 3 == o && i - 2 == o + 1 && i - 1 == o + 2));
                }
            }
            x = x + 1;
        }
        assert forall|i: int| 0 <= i < ICON_BYTES implies #[trigger] rgba_bytes(*img)[i] == (
            if pix_y(i) < y + 1 { cleared_byte(b0, i) } else { b0[i] }) by {
            assert(0 <= pix_x(i) < 32);
        }
        y = y + 1;
    }
}

/// The tray icon as 32x32 RGBA bytes (row by row, four bytes per pixel):
/// with a level, a battery fill (`Hover`) or the percentage as digits
/// (`Icon`), orange while charging, else red below 20%, yellow below 50%,
/// green above; without a level, a red cross. Everything else is
/// transparent.
pub fn create_tray_icon(level: Option<u8>, is_charging: bool, display_mode: DisplayMode) -> (r: Vec<u8>)
    ensures
        r@ == icon_bytes(level, is_charging, display_mode),
{
    let mut img = rgba_from_pixel(ICON_SIZE, ICON_SIZE, [0u8, 0u8, 0u8, 255u8]);
    let ghost b0 = rgba_bytes(img);
    let color = color_for(level, is_charging);
    draw_mark(&mut img, level, display_mode, color);
    let ghost b1 = rgba_bytes(img);
    make_background_transparent(&mut img);
    let raw = rgba_into_raw(img);
    assert forall|i: int| 0 <= i < ICON_BYTES implies #[trigger] raw@[i] == icon_bytes(level, is_charging, display_mode)[i] by {
        let p = i - i % 4;
        assert(pix_x(p) == pix_x(i) && pix_y(p) == pix_y(i));
        if i % 4 == 3 {
            assert(pix_x(i - 1) == pix_x(i) && pix_y(i - 1) == pix_y(i));
            assert(pix_x(i - 2) == pix_x(i) && pix_y(i - 2) == pix_y(i));
            assert(pix_x(i - 3) == pix_x(i) && pix_y(i - 3) == pix_y(i));
            assert((i - 1) % 4 == 2 && (i - 2) % 4 == 1 && (i - 3) % 4 == 0);
        }
    }
    assert(raw@ =~= icon_bytes(level, is_charging, display_mode));
    raw
}

} // verus!
