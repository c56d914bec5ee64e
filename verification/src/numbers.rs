//! The numeral encoder: a non-negative integer is rendered as its base-10
//! digit sequence in one of three glyph sets (plain digits, Unicode
//! superscripts, Unicode subscripts), digit by digit, with no grouping and
//! no sign. A decoder and proofs of the digit round-trip live here too.
use crate::settings::IconListFormat;
use crate::settings::Settings;
use vstd::prelude::*;
use vstd::string::StringExecFns;

verus! {

/// The glyph that stands for the decimal digit `d` in the given style.
pub open spec fn spec_digit_glyph(style: IconListFormat, d: nat) -> char {
    match style {
        IconListFormat::Superscript => {
            if d == 0 { '\u{2070}' }
            else if d == 1 { '\u{00b9}' }
            else if d == 2 { '\u{00b2}' }
            else if d == 3 { '\u{00b3}' }
            else if d == 4 { '\u{2074}' }
            else if d == 5 { '\u{2075}' }
            else if d == 6 { '\u{2076}' }
            else if d == 7 { '\u{2077}' }
            else if d == 8 { '\u{2078}' }
            else { '\u{2079}' }
        },
        IconListFormat::Subscript => {
            if d == 0 { '\u{2080}' }
            else if d == 1 { '\u{2081}' }
            else if d == 2 { '\u{2082}' }
            else if d == 3 { '\u{2083}' }
            else if d == 4 { '\u{2084}' }
            else if d == 5 { '\u{2085}' }
            else if d == 6 { '\u{2086}' }
            else if d == 7 { '\u{2087}' }
            else if d == 8 { '\u{2088}' }
            else { '\u{2089}' }
        },
        IconListFormat::Digits => {
            if d == 0 { '0' }
            else if d == 1 { '1' }
            else if d == 2 { '2' }
            else if d == 3 { '3' }
            else if d == 4 { '4' }
            else if d == 5 { '5' }
            else if d == 6 { '6' }
            else if d == 7 { '7' }
            else if d == 8 { '8' }
            else { '9' }
        },
    }
}

/// The rendering of `n` in the given style: the glyphs of its base-10
/// digits, most significant first.
pub open spec fn spec_encode(style: IconListFormat, n: nat) -> Seq<char>
    decreases n,
{
    if n < 10 {
        seq![spec_digit_glyph(style, n)]
    } else {
        spec_encode(style, n / 10).push(spec_digit_glyph(style, n % 10))
    }
}

/// The inverse glyph table: the decimal digit a glyph stands for in the
/// given style, or `None` when the character is no glyph of that style.
pub open spec fn spec_digit_of_glyph(style: IconListFormat, c: char) -> Option<nat> {
    if c == spec_digit_glyph(style, 0) { Some(0 as nat) }
    else if c == spec_digit_glyph(style, 1) { Some(1 as nat) }
    else if c == spec_digit_glyph(style, 2) { Some(2 as nat) }
    else if c == spec_digit_glyph(style, 3) { Some(3 as nat) }
    else if c == spec_digit_glyph(style, 4) { Some(4 as nat) }
    else if c == spec_digit_glyph(style, 5) { Some(5 as nat) }
    else if c == spec_digit_glyph(style, 6) { Some(6 as nat) }
    else if c == spec_digit_glyph(style, 7) { Some(7 as nat) }
    else if c == spec_digit_glyph(style, 8) { Some(8 as nat) }
    else if c == spec_digit_glyph(style, 9) { Some(9 as nat) }
    else { None }
}

/// Within one style, the digit-to-glyph table is invertible: looking a
/// digit's glyph up in the inverse table gives that digit back.
pub proof fn lemma_digit_glyph_inverse(style: IconListFormat, d: nat)
    requires
        d < 10,
    ensures
        spec_digit_of_glyph(style, spec_digit_glyph(style, d)) == Some(d),
{
}

/// Within one style, distinct digits have distinct glyphs: the per-digit
/// mapping of each style is a bijection between the digits and its glyphs.
pub proof fn lemma_digit_glyph_injective(style: IconListFormat, d1: nat, d2: nat)
    requires
        d1 < 10,
        d2 < 10,
        spec_digit_glyph(style, d1) == spec_digit_glyph(style, d2),
    ensures
        d1 == d2,
{
    lemma_digit_glyph_inverse(style, d1);
    lemma_digit_glyph_inverse(style, d2);
}

/// The one-character string holding the glyph for digit `d` in the
/// given style.
fn digit_glyph(d: usize, style: IconListFormat) -> (r: &'static str)
    requires
        d < 10,
    ensures
        r@ == seq![spec_digit_glyph(style, d as nat)],
{
    let g: &'static str = match style {
        IconListFormat::Superscript => {
            if d == 0 { "\u{2070}" }
            else if d == 1 { "\u{00b9}" }
            else if d == 2 { "\u{00b2}" }
            else if d == 3 { "\u{00b3}" }
            else if d == 4 { "\u{2074}" }
            else if d == 5 { "\u{2075}" }
            else if d == 6 { "\u{2076}" }
            else if d == 7 { "\u{2077}" }
            else if d == 8 { "\u{2078}" }
            else { "\u{2079}" }
        },
        IconListFormat::Subscript => {
            if d == 0 { "\u{2080}" }
            else if d == 1 { "\u{2081}" }
            else if d == 2 { "\u{2082}" }
            else if d == 3 { "\u{2083}" }
            else if d == 4 { "\u{2084}" }
            else if d == 5 { "\u{2085}" }
            else if d == 6 { "\u{2086}" }
            else if d == 7 { "\u{2087}" }
            else if d == 8 { "\u{2088}" }
            else { "\u{2089}" }
        },
        IconListFormat::Digits => {
            if d == 0 { "0" }
            else if d == 1 { "1" }
            else if d == 2 { "2" }
            else if d == 3 { "3" }
            else if d == 4 { "4" }
            else if d == 5 { "5" }
            else if d == 6 { "6" }
            else if d == 7 { "7" }
            else if d == 8 { "8" }
            else { "9" }
        },
    };
    proof {
        reveal_strlit("\u{2070}");
        reveal_strlit("\u{00b9}");
        reveal_strlit("\u{00b2}");
        reveal_strlit("\u{00b3}");
        reveal_strlit("\u{2074}");
        reveal_strlit("\u{2075}");
        reveal_strlit("\u{2076}");
        reveal_strlit("\u{2077}");
        reveal_strlit("\u{2078}");
        reveal_strlit("\u{2079}");
        reveal_strlit("\u{2080}");
        reveal_strlit("\u{2081}");
        reveal_strlit("\u{2082}");
        reveal_strlit("\u{2083}");
        reveal_strlit("\u{2084}");
        reveal_strlit("\u{2085}");
        reveal_strlit("\u{2086}");
        reveal_strlit("\u{2087}");
        reveal_strlit("\u{2088}");
        reveal_strlit("\u{2089}");
        reveal_strlit("0");
        reveal_strlit("1");
        reveal_strlit("2");
        reveal_strlit("3");
        reveal_strlit("4");
        reveal_strlit("5");
        reveal_strlit("6");
        reveal_strlit("7");
        reveal_strlit("8");
        reveal_strlit("9");
        assert(g@ =~= seq![spec_digit_glyph(style, d as nat)]);
    }
    g
}

/// Converts `n`'s base-10 digit sequence to the corresponding glyph
/// sequence of the given style, digit by digit, most significant first.
pub fn encode_base_10_number(n: usize, style: IconListFormat) -> (r: String)
    ensures
        r@ == spec_encode(style, n as nat),
    decreases n,
{
    if n < 10 {
        String::from_str(digit_glyph(n, style))
    } else {
        let mut r = encode_base_10_number(n / 10, style);
        r.append(digit_glyph(n % 10, style));
        proof {
            assert(r@ =~= spec_encode(style, n as nat));
        }
        r
    }
}

/// Renders `n` in the configured numeral style.
pub fn number(n: usize, settings: &Settings) -> (r: String)
    ensures
        r@ == spec_encode(settings.icon_list_format, n as nat),
{
    encode_base_10_number(n, settings.icon_list_format)
}

/// The digit a glyph stands for, or zero for a character that is no glyph
/// of the style.
pub open spec fn spec_digit_value(style: IconListFormat, c: char) -> nat {
    match spec_digit_of_glyph(style, c) {
        Some(d) => d,
        None => 0,
    }
}

/// Every character of `s` is a digit glyph of the given style.
pub open spec fn spec_all_glyphs(style: IconListFormat, s: Seq<char>) -> bool {
    forall|i: int| 0 <= i < s.len() ==> spec_digit_of_glyph(style, s[i]) is Some
}

/// The value of a glyph sequence read as base-10 digits, most significant
/// first; characters that are no glyphs count as zero.
pub open spec fn spec_digits_value(style: IconListFormat, s: Seq<char>) -> nat
    decreases s.len(),
{
    if s.len() == 0 {
        0
    } else {
        spec_digits_value(style, s.drop_last()) * 10 + spec_digit_value(style, s.last())
    }
}

/// The value a glyph sequence of the given style denotes: `None` when the
/// sequence is empty or holds a character outside the style's glyph table.
pub open spec fn spec_decode(style: IconListFormat, s: Seq<char>) -> Option<nat> {
    if s.len() > 0 && spec_all_glyphs(style, s) {
        Some(spec_digits_value(style, s))
    } else {
        None
    }
}

/// The round trip: decoding the encoding of `n` in any style gives `n` back.
pub proof fn lemma_decode_encode(style: IconListFormat, n: nat)
    ensures
        spec_decode(style, spec_encode(style, n)) == Some(n),
    decreases n,
{
    if n < 10 {
        lemma_digit_glyph_inverse(style, n);
        let e = spec_encode(style, n);
        assert(e.drop_last() =~= Seq::<char>::empty());
        assert(e.last() == spec_digit_glyph(style, n));
        assert(spec_digits_value(style, e.drop_last()) == 0);
        assert(spec_digit_value(style, e.last()) == n);
        assert(spec_digits_value(style, e) == n);
    } else {
        lemma_decode_encode(style, n / 10);
        lemma_digit_glyph_inverse(style, n % 10);
        let p = spec_encode(style, n / 10);
        let e = spec_encode(style, n);
        assert(e == p.push(spec_digit_glyph(style, n % 10)));
        assert(e.drop_last() =~= p);
        assert(spec_all_glyphs(style, e)) by {
            assert(forall|i: int| 0 <= i < p.len() ==> e[i] == p[i]);
        }
        assert(e.last() == spec_digit_glyph(style, n % 10));
        assert(spec_digits_value(style, p) == n / 10);
        assert(spec_digit_value(style, e.last()) == n % 10);
        assert(spec_digits_value(style, e) == (n / 10) * 10 + n % 10);
        vstd::arithmetic::div_mod::lemma_fundamental_div_mod(n as int, 10);
        assert(spec_digits_value(style, e) == n);
    }
}

/// The value of a prefix never exceeds the value of the whole sequence.
proof fn lemma_digits_value_prefix(style: IconListFormat, s: Seq<char>, i: int)
    requires
        0 <= i <= s.len(),
    ensures
        spec_digits_value(style, s.take(i)) <= spec_digits_value(style, s),
    decreases s.len() - i,
{
    if i == s.len() {
        assert(s.take(i) =~= s);
    } else {
        lemma_digits_value_prefix(style, s, i + 1);
        assert(s.take(i + 1).drop_last() =~= s.take(i));
        assert(s.take(i + 1).last() == s[i]);
    }
}

/// The digit the character stands for in the given style, through the
/// inverse glyph table.
fn glyph_digit(c: char, style: IconListFormat) -> (r: Option<usize>)
    ensures
        r matches Some(d) ==> d < 10 && spec_digit_of_glyph(style, c) == Some(d as nat),
        r is None ==> spec_digit_of_glyph(style, c) is None,
{
    match style {
        IconListFormat::Superscript => {
            if c == '\u{2070}' { Some(0) }
            else if c == '\u{00b9}' { Some(1) }
            else if c == '\u{00b2}' { Some(2) }
            else if c == '\u{00b3}' { Some(3) }
            else if c == '\u{2074}' { Some(4) }
            else if c == '\u{2075}' { Some(5) }
            else if c == '\u{2076}' { Some(6) }
            else if c == '\u{2077}' { Some(7) }
            else if c == '\u{2078}' { Some(8) }
            else if c == '\u{2079}' { Some(9) }
            else { None }
        },
        IconListFormat::Subscript => {
            if c == '\u{2080}' { Some(0) }
            else if c == '\u{2081}' { Some(1) }
            else if c == '\u{2082}' { Some(2) }
            else if c == '\u{2083}' { Some(3) }
            else if c == '\u{2084}' { Some(4) }
            else if c == '\u{2085}' { Some(5) }
            else if c == '\u{2086}' { Some(6) }
            else if c == '\u{2087}' { Some(7) }
            else if c == '\u{2088}' { Some(8) }
            else if c == '\u{2089}' { Some(9) }
            else { None }
        },
        IconListFormat::Digits => {
            if c == '0' { Some(0) }
            else if c == '1' { Some(1) }
            else if c == '2' { Some(2) }
            else if c == '3' { Some(3) }
            else if c == '4' { Some(4) }
            else if c == '5' { Some(5) }
            else if c == '6' { Some(6) }
            else if c == '7' { Some(7) }
            else if c == '8' { Some(8) }
            else if c == '9' { Some(9) }
            else { None }
        },
    }
}

/// Reads a glyph sequence of the given style back as a number. `None` when
/// the string is empty, holds a character outside the style's glyph table,
/// or denotes a value too large for `usize`.
pub fn decode_base_10_number(s: &str, style: IconListFormat) -> (r: Option<usize>)
    ensures
        r is Some <==> (spec_decode(style, s@) matches Some(v) && v <= usize::MAX),
        r matches Some(u) ==> spec_decode(style, s@) == Some(u as nat),
{
    let len = s.unicode_len();
    if len == 0 {
        return None;
    }
    let mut acc: usize = 0;
    let mut i: usize = 0;
    while i < len
        invariant
            0 < len,
            len == s@.len(),
            i <= len,
            spec_all_glyphs(style, s@.take(i as int)),
            acc as nat == spec_digits_value(style, s@.take(i as int)),
        decreases len - i,
    {
        let c = s.get_char(i);
        let d = match glyph_digit(c, style) {
            Some(d) => d,
            None => {
                return None;
            },
        };
        proof {
            assert(s@.take(i + 1).drop_last() =~= s@.take(i as int));
            assert(s@.take(i + 1).last() == s@[i as int]);
        }
        let scaled = match acc.checked_mul(10) {
            Some(t) => t,
            None => {
                proof {
                    lemma_digits_value_prefix(style, s@, i + 1);
                }
                return None;
            },
        };
        acc = match scaled.checked_add(d) {
            Some(t) => t,
            None => {
                proof {
                    lemma_digits_value_prefix(style, s@, i + 1);
                }
                return None;
            },
        };
        i += 1;
    }
    proof {
        assert(s@.take(len as int) =~= s@);
    }
    Some(acc)
}

} // verus!
