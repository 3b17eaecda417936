//! The layout of a barrier's level banner: the text "LV. " followed by the
//! level in decimal, drawn one glyph per cell of a fixed-width font, each
//! glyph with a dark shadow one pixel to the right and two pixels down.
use vstd::prelude::*;

use crate::text_util::{all_decimal_digits, decimal_value, parse_unsigned_spec, unsigned_digits};

verus! {

/// The width of a glyph cell of the banner font, in pixels.
pub const LETTER_W: u32 = 10;

/// The height of a glyph cell of the banner font, in pixels.
pub const LETTER_H: u32 = 19;

/// The decimal digits of `n`, most significant first; "0" for zero.
pub open spec fn decimal_digits(n: nat) -> Seq<char>
    decreases n,
{
    if n < 10 {
        seq![digit_char(n)]
    } else {
        decimal_digits(n / 10).push(digit_char(n % 10))
    }
}

/// The character of the decimal digit `d`.
pub open spec fn digit_char(d: nat) -> char {
    (('0' as nat) + d) as char
}

/// The banner text for `level`.
pub open spec fn banner_text(level: nat) -> Seq<char> {
    seq!['L', 'V', '.', ' '] + decimal_digits(level)
}

proof fn lemma_digits_len(n: nat)
    ensures
        decimal_digits(n).len() >= 1,
        n < 10 ==> decimal_digits(n).len() <= 1,
        n < 100 ==> decimal_digits(n).len() <= 2,
        n < 1000 ==> decimal_digits(n).len() <= 3,
        n < 10000 ==> decimal_digits(n).len() <= 4,
        n < 100000 ==> decimal_digits(n).len() <= 5,
        n < 1000000 ==> decimal_digits(n).len() <= 6,
        n < 10000000 ==> decimal_digits(n).len() <= 7,
        n < 100000000 ==> decimal_digits(n).len() <= 8,
        n < 1000000000 ==> decimal_digits(n).len() <= 9,
        n < 10000000000 ==> decimal_digits(n).len() <= 10,
    decreases n,
{
    if n >= 10 {
        lemma_digits_len(n / 10);
    }
}

fn digit_of(d: u32) -> (res: char)
    requires
        d < 10,
    ensures
        res == digit_char(d as nat),
{
    if d == 0 {
        '0'
    } else if d == 1 {
        '1'
    } else if d == 2 {
        '2'
    } else if d == 3 {
        '3'
    } else if d == 4 {
        '4'
    } else if d == 5 {
        '5'
    } else if d == 6 {
        '6'
    } else if d == 7 {
        '7'
    } else if d == 8 {
        '8'
    } else {
        '9'
    }
}

/// Where a banner glyph and its shadow go, in pixels from the banner's
/// top-left corner.
#[derive(Debug, Clone, Copy, PartialEq, Eq, Structural)]
pub struct GlyphPlace {
    pub glyph: char,
    pub x: i32,
    pub y: i32,
    pub shadow_x: i32,
    pub shadow_y: i32,
}

/// The layout of a banner: its text, its size in pixels and where each
/// glyph goes.
pub struct BannerLayout {
    pub text: Vec<char>,
    pub width: u32,
    pub height: u32,
    pub glyphs: Vec<GlyphPlace>,
}

/// Where the `i`-th glyph `c` of a banner goes.
pub open spec fn glyph_place(i: int, c: char) -> GlyphPlace {
    GlyphPlace {
        glyph: c,
        x: (i * LETTER_W + LETTER_W / 4) as i32,
        y: 0,
        shadow_x: (i * LETTER_W + LETTER_W / 4 + 1) as i32,
        shadow_y: 2,
    }
}

/// The decimal digits of `level`, most significant first.
fn level_digits(level: u32) -> (res: Vec<char>)
    ensures
        res@ == decimal_digits(level as nat),
{
    let mut rev: Vec<char> = Vec::new();
    let mut n: u32 = level;
    if n == 0 {
        rev.push('0');
    }
    while n > 0
        invariant
            n <= level,
            level == 0 ==> rev@ == seq!['0'],
            level > 0 ==> (n == 0 ==> decimal_digits(level as nat) == rev@.reverse()) && (n > 0
                ==> decimal_digits(level as nat) == decimal_digits(n as nat) + rev@.reverse()),
        decreases n,
    {
        let d = n % 10;
        let c = digit_of(d);
        proof {
            if n >= 10 {
                assert(decimal_digits(n as nat) == decimal_digits((n / 10) as nat).push(c));
                assert(decimal_digits((n / 10) as nat) + rev@.push(c).reverse() =~= decimal_digits(
                    (n / 10) as nat,
                ).push(c) + rev@.reverse());
            } else {
                assert(decimal_digits(n as nat) == seq![c]);
                assert(rev@.push(c).reverse() =~= seq![c] + rev@.reverse());
            }
        }
        rev.push(c);
        n = n / 10;
    }
    let mut out: Vec<char> = Vec::new();
    let len = rev.len();
    let mut i: usize = 0;
    while i < len
        invariant
            len == rev@.len(),
            i <= len,
            out@ =~= rev@.reverse().take(i as int),
        decreases len - i,
    {
        out.push(rev[len - 1 - i]);
        i = i + 1;
    }
    proof {
        if level == 0 {
            assert(rev@.reverse() =~= seq!['0']);
        }
        assert(rev@.reverse().take(len as int) =~= rev@.reverse());
    }
    out
}

/// The layout of the banner of a barrier of level `level`: the text
/// "LV. " and the level; a cell per glyph plus half a cell of margin; each
/// glyph a quarter cell into its cell, its shadow one pixel further right
/// and two pixels lower.
pub fn barrier_banner_layout(level: u32) -> (res: BannerLayout)
    ensures
        res.text@ == banner_text(level as nat),
        res.width == LETTER_W * res.text@.len() + LETTER_W / 2,
        res.height == LETTER_H,
        res.glyphs@.len() == res.text@.len(),
        forall|i: int|
            0 <= i < res.glyphs@.len() ==> res.glyphs@[i] == glyph_place(i, res.text@[i]),
{
    let digits = level_digits(level);
    proof {
        lemma_digits_len(level as nat);
    }
    let mut text: Vec<char> = Vec::new();
    text.push('L');
    text.push('V');
    text.push('.');
    text.push(' ');
    let mut k: usize = 0;
    while k < digits.len()
        invariant
            k <= digits@.len(),
            digits@.len() <= 10,
            text@ =~= seq!['L', 'V', '.', ' '] + digits@.take(k as int),
        decreases digits@.len() - k,
    {
        text.push(digits[k]);
        k = k + 1;
    }
    assert(digits@.take(digits@.len() as int) =~= digits@);
    let n = text.len();
    assert(n <= 14);
    let mut glyphs: Vec<GlyphPlace> = Vec::new();
    let mut i: usize = 0;
    while i < n
        invariant
            n == text@.len(),
            n <= 14,
            i <= n,
            glyphs@.len() == i,
            forall|j: int| 0 <= j < i ==> glyphs@[j] == glyph_place(j, text@[j]),
        decreases n - i,
    {
        let cell = (i as u32) * LETTER_W + LETTER_W / 4;
        let g = GlyphPlace { glyph: text[i], x: cell as i32, y: 0, shadow_x: (cell + 1) as i32, shadow_y: 2 };
        assert(g == glyph_place(i as int, text@[i as int]));
        glyphs.push(g);
        i = i + 1;
    }
    BannerLayout {
        text,
        width: LETTER_W * (n as u32) + LETTER_W / 2,
        height: LETTER_H,
        glyphs,
    }
}


proof fn lemma_digit_char(d: nat)
    requires
        d < 10,
    ensures
        digit_char(d) as int == '0' as int + d,
        '0' <= digit_char(d) <= '9',
{
    let c = digit_char(d);
    assert(c as int == '0' as int + d);
}

/// The decimal value of a string of digits, most significant first.
pub open spec fn digits_value(s: Seq<char>) -> int
    decreases s.len(),
{
    if s.len() == 0 {
        0
    } else {
        digits_value(s.drop_last()) * 10 + (s.last() as int - '0' as int)
    }
}

/// The banner writes the level exactly: its digits are decimal digits, the
/// first is not a zero unless the level is zero, and they read back as the
/// level.
pub proof fn lemma_digits_read_back(n: nat)
    ensures
        digits_value(decimal_digits(n)) == n,
        decimal_digits(n).len() >= 1,
        forall|i: int|
            0 <= i < decimal_digits(n).len() ==> '0' <= #[trigger] decimal_digits(n)[i] <= '9',
        n > 0 ==> decimal_digits(n)[0] != '0',
    decreases n,
{
    lemma_digit_char(n % 10);
    if n >= 10 {
        lemma_digits_read_back(n / 10);
        let d = decimal_digits(n / 10);
        assert(decimal_digits(n).drop_last() =~= d);
        assert forall|i: int| 0 <= i < decimal_digits(n).len() implies '0' <= #[trigger] decimal_digits(
            n,
        )[i] <= '9' by {
            if i < d.len() {
                assert(decimal_digits(n)[i] == d[i]);
            }
        }
        assert(decimal_digits(n)[0] == d[0]);
        assert(decimal_digits(n).last() == digit_char(n % 10));
        assert(digits_value(decimal_digits(n)) == digits_value(d) * 10 + (n % 10));
    } else {
        let c = digit_char(n);
        assert(decimal_digits(n) == seq![c]);
        assert(seq![c].drop_last() =~= Seq::<char>::empty());
        assert(digits_value(seq![c]) == digits_value(Seq::<char>::empty()) * 10 + (c as int - '0' as int));
    }
}

proof fn lemma_values_agree(s: Seq<char>)
    requires
        forall|i: int| 0 <= i < s.len() ==> '0' <= #[trigger] s[i] <= '9',
    ensures
        decimal_value(s) == digits_value(s),
    decreases s.len(),
{
    if s.len() > 0 {
        lemma_values_agree(s.drop_last());
    }
}

/// The level written on a banner parses back, as std's `from_str` would,
/// to the level itself.
pub proof fn lemma_banner_level_parses_back(n: nat, max: nat)
    requires
        n <= max,
    ensures
        parse_unsigned_spec(decimal_digits(n), max) == Some(n),
{
    lemma_digits_read_back(n);
    let d = decimal_digits(n);
    assert(d[0] != '+');
    assert(unsigned_digits(d) == d);
    lemma_values_agree(d);
    assert(all_decimal_digits(d)) by {
        assert forall|i: int| 0 <= i < d.len() implies crate::text_util::is_decimal_digit(#[trigger] d[i]) by {
            assert('0' <= d[i] <= '9');
        }
    }
}

} // verus!
