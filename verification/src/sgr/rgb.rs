//! The RGB color value and its three accepted literal forms: a packed
//! 24-bit integer, a hex string (`#RRGGBB`, `#RGB`, `0xRRGGBB`), and a
//! parenthesized triple of integer or float channels. Float channels are
//! scaled by 255 exactly, over the literal's decimal digits.

use vstd::prelude::*;

use crate::text::all_hex;
use crate::text::hex_decode_u32;
use crate::text::hex_num;
use crate::text::push_char;
use crate::tok::ErrorKind;
use crate::tok::FloatLit;
use crate::tok::ParseError;
use crate::tok::Tok;
use crate::tok::float_wf;
use crate::tok::floats_wf;
use crate::tok::is_punct;

verus! {

/// A packed RGB integer may use at most the low 24 bits.
pub open spec fn spec_accept_value(v: u32) -> bool {
    v <= 0xFF_FF_FF
}

/// Accepts a packed RGB integer, or reports that it exceeds 24 bits.
pub fn accept_value(value: u32) -> (r: Result<u32, &'static str>)
    ensures
        match r {
            Ok(v) => v == value && spec_accept_value(value),
            Err(m) => !spec_accept_value(value) && m@ == "RGB color value exceeds 24 bits"@,
        },
{
    if value <= 0x00_FF_FF_FF {
        Ok(value)
    } else {
        Err("RGB color value exceeds 24 bits")
    }
}

/// A 24-bit color with an ignored alpha byte, as four channel bytes.
#[derive(Clone, Copy, Debug, PartialEq, Eq, Structural)]
pub struct Rgb {
    pub a: u8,
    pub r: u8,
    pub g: u8,
    pub b: u8,
}

/// The channel bytes of a packed 32-bit word, big-endian: alpha first.
pub open spec fn spec_rgb_of_u32(word: u32) -> Rgb {
    Rgb {
        a: (word >> 24) as u8,
        r: ((word >> 16) & 0xFF) as u8,
        g: ((word >> 8) & 0xFF) as u8,
        b: (word & 0xFF) as u8,
    }
}

/// The packed 32-bit word of four channel bytes, big-endian: alpha first.
pub open spec fn spec_u32_of_rgb(rgb: Rgb) -> u32 {
    (((rgb.a as u32) << 24) | ((rgb.r as u32) << 16) | ((rgb.g as u32) << 8) | (rgb.b as u32)) as u32
}

impl From<u32> for Rgb {
    /// Unpacks a 32-bit word into channel bytes.
    fn from(word: u32) -> (r: Self) {
        proof {
            assert((word >> 24) < 256 && ((word >> 16) & 0xFF) < 256 && ((word >> 8) & 0xFF) < 256
                && (word & 0xFF) < 256) by (bit_vector);
        }
        Rgb {
            a: (word >> 24) as u8,
            r: ((word >> 16) & 0xFF) as u8,
            g: ((word >> 8) & 0xFF) as u8,
            b: (word & 0xFF) as u8,
        }
    }
}

impl vstd::std_specs::convert::FromSpecImpl<u32> for Rgb {
    open spec fn obeys_from_spec() -> bool {
        true
    }

    open spec fn from_spec(word: u32) -> Rgb {
        spec_rgb_of_u32(word)
    }
}

impl From<Rgb> for u32 {
    /// Packs four channel bytes into one 32-bit word.
    fn from(rgb: Rgb) -> (r: Self) {
        ((rgb.a as u32) << 24) | ((rgb.r as u32) << 16) | ((rgb.g as u32) << 8) | (rgb.b as u32)
    }
}

impl vstd::std_specs::convert::FromSpecImpl<Rgb> for u32 {
    open spec fn obeys_from_spec() -> bool {
        true
    }

    open spec fn from_spec(rgb: Rgb) -> u32 {
        spec_u32_of_rgb(rgb)
    }
}

/// Packing the unpacked channels of a word gives the word back: the two
/// conversions are mutually inverse.
pub proof fn lemma_rgb_u32_roundtrip(word: u32)
    ensures
        spec_u32_of_rgb(spec_rgb_of_u32(word)) == word,
        word <= 0xFF_FF_FF ==> spec_rgb_of_u32(word).a == 0,
{
    assert(((((word >> 24) as u8 as u32) << 24) | ((((word >> 16) & 0xFF) as u8 as u32) << 16) | ((((
    word >> 8) & 0xFF) as u8 as u32) << 8) | ((word & 0xFF) as u8 as u32)) == word)
        by (bit_vector);
    assert(word <= 0xFF_FF_FF ==> (word >> 24) as u8 == 0) by (bit_vector);
}

/// Unpacking the packed word of four channel bytes gives the bytes back.
pub proof fn lemma_u32_rgb_roundtrip(rgb: Rgb)
    ensures
        spec_rgb_of_u32(spec_u32_of_rgb(rgb)) == rgb,
{
    let a = rgb.a;
    let r = rgb.r;
    let g = rgb.g;
    let b = rgb.b;
    let word = (((a as u32) << 24) | ((r as u32) << 16) | ((g as u32) << 8) | (b as u32)) as u32;
    assert((word >> 24) as u8 == a && ((word >> 16) & 0xFF) as u8 == r && ((word >> 8) & 0xFF) as u8
        == g && (word & 0xFF) as u8 == b) by (bit_vector)
        requires
            word == (((a as u32) << 24) | ((r as u32) << 16) | ((g as u32) << 8) | (b as u32)) as u32,
    ;
}

/// The six-character doubling of a three-character hex shorthand:
/// each digit is written twice, in order.
pub open spec fn spec_expand_rgb(s: Seq<char>) -> Option<Seq<char>> {
    if s.len() == 3 {
        Some(seq![s[0], s[0], s[1], s[1], s[2], s[2]])
    } else {
        None
    }
}

/// Expands a three-character hex shorthand by digit doubling; any other
/// length yields nothing.
pub fn expand_rgb_rrggbb(rgb: &str) -> (r: Option<String>)
    ensures
        crate::text::opt_str_view(r) == spec_expand_rgb(rgb@),
{
    let n = rgb.unicode_len();
    if n == 3 {
        let c0 = rgb.get_char(0);
        let c1 = rgb.get_char(1);
        let c2 = rgb.get_char(2);
        let mut s = String::new();
        push_char(&mut s, c0);
        push_char(&mut s, c0);
        push_char(&mut s, c1);
        push_char(&mut s, c1);
        push_char(&mut s, c2);
        push_char(&mut s, c2);
        proof {
            assert(s@ =~= seq![rgb@[0], rgb@[0], rgb@[1], rgb@[1], rgb@[2], rgb@[2]]);
        }
        Some(s)
    } else {
        None
    }
}

/// The hex digits of a color string: the text after a `#`, `0x` or `0X`
/// prefix. A string with no such prefix is not a color string.
pub open spec fn spec_strip_hex_prefix(s: Seq<char>) -> Option<Seq<char>> {
    if s.len() >= 1 && s[0] == '#' {
        Some(s.subrange(1, s.len() as int))
    } else if s.len() >= 2 && s[0] == '0' && (s[1] == 'x' || s[1] == 'X') {
        Some(s.subrange(2, s.len() as int))
    } else {
        None
    }
}

/// The color a string literal denotes: its hex digits after the prefix, a
/// three-digit shorthand first expanded by doubling, decoded as one packed
/// word of at most 32 bits. Anything else is no color.
pub open spec fn spec_from_str(s: Seq<char>) -> Option<Rgb> {
    match spec_strip_hex_prefix(s) {
        None => None,
        Some(h) => {
            let h2 = match spec_expand_rgb(h) {
                Some(e) => e,
                None => h,
            };
            if h2.len() >= 1 && all_hex(h2) && hex_num(h2) <= u32::MAX as int {
                Some(spec_rgb_of_u32(hex_num(h2) as u32))
            } else {
                None
            }
        },
    }
}

impl Rgb {
    /// Reads a color from hex text; see `spec_from_str`.
    pub fn from_str(s: &str) -> (r: Result<Rgb, ()>)
        ensures
            match r {
                Ok(v) => spec_from_str(s@) == Some(v),
                Err(_) => spec_from_str(s@) is None,
            },
    {
        let n = s.unicode_len();
        let h: &str = if n >= 1 && s.get_char(0) == '#' {
            s.substring_char(1, n)
        } else if n >= 2 && s.get_char(0) == '0' && (s.get_char(1) == 'x' || s.get_char(1) == 'X') {
            s.substring_char(2, n)
        } else {
            return Err(());
        };
        proof {
            assert(spec_strip_hex_prefix(s@) == Some(h@));
        }
        let expanded = expand_rgb_rrggbb(h);
        let decoded = match &expanded {
            Some(e) => hex_decode_u32(e.as_str()),
            None => hex_decode_u32(h),
        };
        match decoded {
            Some(word) => Ok(Rgb::from(word)),
            None => Err(()),
        }
    }

    /// The RGB grammar, by lookahead: a parenthesized group is a channel
    /// triple `(r, g, b)` that must fill the whole group; a string literal
    /// is hex text; an integer literal is a packed value of at most 24 bits.
    pub open spec fn spec_parse(t: Seq<Tok>, pos: int) -> Result<(Rgb, int), ParseError> {
        if pos < t.len() && t[pos] is Group {
            let g = t[pos]->Group_0@;
            match RgbNumber::spec_parse(g, 0) {
                Err(e) => Err(e),
                Ok((rv, p1)) => if p1 < g.len() && is_punct(g[p1], ',') {
                    match RgbNumber::spec_parse(g, p1 + 1) {
                        Err(e) => Err(e),
                        Ok((gv, p2)) => if p2 < g.len() && is_punct(g[p2], ',') {
                            match RgbNumber::spec_parse(g, p2 + 1) {
                                Err(e) => Err(e),
                                Ok((bv, p3)) => if p3 == g.len() {
                                    Ok((Rgb { a: 0, r: rv, g: gv, b: bv }, pos + 1))
                                } else {
                                    Err(
                                        ParseError {
                                            kind: ErrorKind::UnexpectedToken,
                                            pos: p3 as usize,
                                        },
                                    )
                                },
                            }
                        } else {
                            Err(ParseError { kind: ErrorKind::ExpectedComma, pos: p2 as usize })
                        },
                    }
                } else {
                    Err(ParseError { kind: ErrorKind::ExpectedComma, pos: p1 as usize })
                },
            }
        } else if pos < t.len() && t[pos] is Str {
            match spec_from_str(t[pos]->Str_0@) {
                Some(rgb) => Ok((rgb, pos + 1)),
                None => Err(ParseError { kind: ErrorKind::InvalidRgbString, pos: pos as usize }),
            }
        } else if pos < t.len() && t[pos] is Int {
            let v = t[pos]->Int_0;
            if v > u32::MAX as u128 {
                Err(ParseError { kind: ErrorKind::IntOutOfRange, pos: pos as usize })
            } else if spec_accept_value(v as u32) {
                Ok((spec_rgb_of_u32(v as u32), pos + 1))
            } else {
                Err(ParseError { kind: ErrorKind::RgbTooLarge, pos: pos as usize })
            }
        } else {
            Err(ParseError { kind: ErrorKind::ExpectedRgb, pos: pos as usize })
        }
    }

    /// Parses one RGB value; see `spec_parse`.
    pub fn parse(toks: &Vec<Tok>, pos: usize) -> (r: Result<(Rgb, usize), ParseError>)
        requires
            pos <= toks@.len(),
            crate::tok::toks_wf(toks@),
        ensures
            match r {
                Ok(v) => pos <= v.1 <= toks@.len() && Self::spec_parse(toks@, pos as int) == Ok::<
                    (Rgb, int),
                    ParseError,
                >((v.0, v.1 as int)),
                Err(e) => Self::spec_parse(toks@, pos as int) == Err::<(Rgb, int), ParseError>(e),
            },
    {
        if pos >= toks.len() {
            return Err(ParseError { kind: ErrorKind::ExpectedRgb, pos });
        }
        match &toks[pos] {
            Tok::Group(inner) => {
                proof {
                    assert(crate::tok::tok_wf(toks@[pos as int]));
                }
                let (rv, p1) = match RgbNumber::parse(inner, 0) {
                    Ok(v) => v,
                    Err(e) => {
                        return Err(e);
                    },
                };
                if !crate::tok::punct_at(inner, p1, ',') {
                    return Err(ParseError { kind: ErrorKind::ExpectedComma, pos: p1 });
                }
                let (gv, p2) = match RgbNumber::parse(inner, p1 + 1) {
                    Ok(v) => v,
                    Err(e) => {
                        return Err(e);
                    },
                };
                if !crate::tok::punct_at(inner, p2, ',') {
                    return Err(ParseError { kind: ErrorKind::ExpectedComma, pos: p2 });
                }
                let (bv, p3) = match RgbNumber::parse(inner, p2 + 1) {
                    Ok(v) => v,
                    Err(e) => {
                        return Err(e);
                    },
                };
                if p3 == inner.len() {
                    Ok((Rgb { a: 0, r: rv, g: gv, b: bv }, pos + 1))
                } else {
                    Err(ParseError { kind: ErrorKind::UnexpectedToken, pos: p3 })
                }
            },
            Tok::Str(s) => match Rgb::from_str(s.as_str()) {
                Ok(rgb) => Ok((rgb, pos + 1)),
                Err(_) => Err(ParseError { kind: ErrorKind::InvalidRgbString, pos }),
            },
            Tok::Int(v) => {
                let v = *v;
                if v > u32::MAX as u128 {
                    Err(ParseError { kind: ErrorKind::IntOutOfRange, pos })
                } else {
                    match accept_value(v as u32) {
                        Ok(word) => Ok((Rgb::from(word), pos + 1)),
                        Err(_) => Err(ParseError { kind: ErrorKind::RgbTooLarge, pos }),
                    }
                }
            },
            _ => Err(ParseError { kind: ErrorKind::ExpectedRgb, pos }),
        }
    }
}

/// Powers of ten.
pub open spec fn spec_pow10(k: nat) -> int
    decreases k,
{
    if k == 0 {
        1
    } else {
        10 * spec_pow10((k - 1) as nat)
    }
}

/// The number a decimal digit sequence denotes, most significant first.
pub open spec fn spec_digits_num(ds: Seq<u8>) -> int
    decreases ds.len(),
{
    if ds.len() == 0 {
        0
    } else {
        spec_digits_num(ds.drop_last()) * 10 + ds.last()
    }
}

/// How many fraction digits the scaling reads: a fraction is interpreted
/// over its first 27 digits.
pub open spec fn frac_prec() -> int {
    27
}

/// A fraction `0.d…` scaled by 255 and truncated: the first 27 digits,
/// padded with zeros to exactly 27, give a numerator over 10^27.
pub open spec fn spec_frac_scaled(ds: Seq<u8>) -> int {
    let k = if ds.len() <= frac_prec() {
        ds.len() as int
    } else {
        frac_prec()
    };
    255 * spec_digits_num(ds.take(k)) * spec_pow10((frac_prec() - k) as nat) / spec_pow10(
        frac_prec() as nat,
    )
}

/// Whether every fraction digit is zero.
pub open spec fn spec_frac_zero(ds: Seq<u8>) -> bool {
    forall|i: int| 0 <= i < ds.len() ==> ds[i] == 0
}

/// A float literal denotes a value in `[0, 1]`: a whole part of zero, or a
/// whole part of one with a zero fraction.
pub open spec fn spec_float_in_unit(f: FloatLit) -> bool {
    f.whole == 0 || (f.whole == 1 && spec_frac_zero(f.frac@))
}

/// Whether a float literal denotes exactly zero.
pub open spec fn spec_float_is_zero(f: FloatLit) -> bool {
    f.whole == 0 && spec_frac_zero(f.frac@)
}

/// A unit float scaled by 255 and truncated.
pub open spec fn spec_float_scaled(f: FloatLit) -> int {
    if f.whole == 1 {
        255
    } else {
        spec_frac_scaled(f.frac@)
    }
}

proof fn lemma_pow10_pos(k: nat)
    ensures
        spec_pow10(k) >= 1,
    decreases k,
{
    if k > 0 {
        lemma_pow10_pos((k - 1) as nat);
    }
}

proof fn lemma_pow10_27()
    ensures
        spec_pow10(27) == 1_000_000_000_000_000_000_000_000_000,
{
    reveal_with_fuel(spec_pow10, 28);
}

fn frac_is_zero(ds: &Vec<u8>) -> (r: bool)
    ensures
        r == spec_frac_zero(ds@),
{
    let n = ds.len();
    let mut i: usize = 0;
    while i < n
        invariant
            n == ds@.len(),
            i <= n,
            forall|j: int| 0 <= j < i ==> ds@[j] == 0,
        decreases n - i,
    {
        if ds[i] != 0 {
            return false;
        }
        i = i + 1;
    }
    true
}

/// Scales a fraction's digits by 255, truncating; see `spec_frac_scaled`.
fn frac_scaled(ds: &Vec<u8>) -> (r: u8)
    requires
        forall|i: int| 0 <= i < ds@.len() ==> ds@[i] < 10,
    ensures
        r as int == spec_frac_scaled(ds@),
        r < 255,
{
    let n = ds.len();
    let k: usize = if n <= 27 {
        n
    } else {
        27
    };
    let mut d: u128 = 0;
    let mut i: usize = 0;
    proof {
        assert(ds@.take(0) =~= Seq::<u8>::empty());
    }
    while i < k
        invariant
            k <= n == ds@.len(),
            k <= 27,
            i <= k,
            forall|j: int| 0 <= j < ds@.len() ==> ds@[j] < 10,
            d == spec_digits_num(ds@.take(i as int)),
            d < spec_pow10(i as nat),
        decreases k - i,
    {
        proof {
            lemma_pow10_27();
            lemma_pow10_le(i as nat, 27);
            assert(ds@.take(i + 1).drop_last() =~= ds@.take(i as int));
        }
        d = d * 10 + ds[i] as u128;
        i = i + 1;
    }
    // pad with zeros up to the full precision
    let ghost num = spec_digits_num(ds@.take(k as int));
    proof {
        assert(i == k);
        assert(d == num);
        assert(spec_pow10(((k - k) as usize) as nat) == 1);
        assert(num * 1 == num) by (nonlinear_arith);
    }
    let mut j: usize = k;
    while j < 27
        invariant
            k <= 27,
            j <= 27,
            k <= j,
            num == spec_digits_num(ds@.take(k as int)),
            d == num * spec_pow10((j - k) as nat),
            d < spec_pow10(j as nat),
        decreases 27 - j,
    {
        proof {
            lemma_pow10_27();
            lemma_pow10_le(j as nat, 27);
            assert(num * spec_pow10((j - k) as nat) * 10 == num * spec_pow10((j + 1 - k) as nat))
                by (nonlinear_arith)
                requires
                    spec_pow10((j + 1 - k) as nat) == 10 * spec_pow10((j - k) as nat),
            ;
        }
        d = d * 10;
        j = j + 1;
    }
    proof {
        lemma_pow10_27();
        lemma_pow10_pos(27);
        vstd::arithmetic::div_mod::lemma_multiply_divide_lt(
            255 * d as int,
            spec_pow10(27),
            255,
        );
        assert(255 * (d as int) < spec_pow10(27) * 255) by (nonlinear_arith)
            requires
                (d as int) < spec_pow10(27),
                spec_pow10(27) > 0,
        ;
        assert(255 * (num * spec_pow10((27 - k) as nat)) == 255 * num * spec_pow10((27 - k) as nat))
            by (nonlinear_arith);
    }
    let q: u128 = (255u128 * d) / 1_000_000_000_000_000_000_000_000_000u128;
    q as u8
}

proof fn lemma_pow10_le(a: nat, b: nat)
    requires
        a <= b,
    ensures
        spec_pow10(a) <= spec_pow10(b),
    decreases b,
{
    if a < b {
        lemma_pow10_le(a, (b - 1) as nat);
        lemma_pow10_pos((b - 1) as nat);
    }
}

/// One channel of a parenthesized triple: a byte, from an integer literal
/// `0..=255` or a float literal in `[0.0, 1.0]` scaled by 255.
pub struct RgbNumber(pub u8);

impl RgbNumber {
    /// What a float literal contributes as a channel: a negative nonzero
    /// value or a value above one is an error; otherwise the value scaled
    /// by 255 and truncated.
    pub open spec fn spec_channel_of_float(f: FloatLit, pos: int, neg: bool, newpos: int) -> Result<
        (u8, int),
        ParseError,
    > {
        if neg && !spec_float_is_zero(f) {
            Err(ParseError { kind: ErrorKind::ChannelNegative, pos: pos as usize })
        } else if !spec_float_in_unit(f) {
            Err(ParseError { kind: ErrorKind::ChannelTooLarge, pos: pos as usize })
        } else {
            Ok(((spec_float_scaled(f) as u8), newpos))
        }
    }

    /// The channel grammar: an integer literal must fit a byte; a float
    /// literal (optionally behind a minus sign) must lie in the unit
    /// interval; a negative integer never fits.
    pub open spec fn spec_parse(t: Seq<Tok>, pos: int) -> Result<(u8, int), ParseError> {
        if pos < t.len() && t[pos] is Int {
            let v = t[pos]->Int_0;
            if v <= 255 {
                Ok(((v as u8), pos + 1))
            } else {
                Err(ParseError { kind: ErrorKind::IntOutOfRange, pos: pos as usize })
            }
        } else if pos < t.len() && t[pos] is Float {
            Self::spec_channel_of_float(t[pos]->Float_0, pos, false, pos + 1)
        } else if pos + 1 < t.len() && is_punct(t[pos], '-') && t[pos + 1] is Float {
            Self::spec_channel_of_float(t[pos + 1]->Float_0, pos, true, pos + 2)
        } else if pos + 1 < t.len() && is_punct(t[pos], '-') && t[pos + 1] is Int {
            Err(ParseError { kind: ErrorKind::IntOutOfRange, pos: pos as usize })
        } else {
            Err(ParseError { kind: ErrorKind::ExpectedChannel, pos: pos as usize })
        }
    }

    /// Parses one channel value; see `spec_parse`.
    pub fn parse(toks: &Vec<Tok>, pos: usize) -> (r: Result<(u8, usize), ParseError>)
        requires
            pos <= toks@.len(),
            floats_wf(toks@),
        ensures
            match r {
                Ok(v) => pos <= v.1 <= toks@.len() && Self::spec_parse(toks@, pos as int) == Ok::<
                    (u8, int),
                    ParseError,
                >((v.0, v.1 as int)),
                Err(e) => Self::spec_parse(toks@, pos as int) == Err::<(u8, int), ParseError>(e),
            },
    {
        if pos >= toks.len() {
            return Err(ParseError { kind: ErrorKind::ExpectedChannel, pos });
        }
        match &toks[pos] {
            Tok::Int(v) => {
                if *v <= 255 {
                    Ok(((*v as u8), pos + 1))
                } else {
                    Err(ParseError { kind: ErrorKind::IntOutOfRange, pos })
                }
            },
            Tok::Float(f) => {
                proof {
                    assert(crate::tok::float_tok_wf(toks@[pos as int]));
                }
                Self::channel_of_float(f, pos, false, pos + 1)
            },
            Tok::Punct(c) => {
                if *c == '-' && pos + 1 < toks.len() {
                    match &toks[pos + 1] {
                        Tok::Float(f) => {
                            proof {
                                assert(crate::tok::float_tok_wf(toks@[pos + 1]));
                            }
                            Self::channel_of_float(f, pos, true, pos + 2)
                        },
                        Tok::Int(_) => Err(ParseError { kind: ErrorKind::IntOutOfRange, pos }),
                        _ => Err(ParseError { kind: ErrorKind::ExpectedChannel, pos }),
                    }
                } else {
                    Err(ParseError { kind: ErrorKind::ExpectedChannel, pos })
                }
            },
            _ => Err(ParseError { kind: ErrorKind::ExpectedChannel, pos }),
        }
    }

    fn channel_of_float(f: &FloatLit, pos: usize, neg: bool, newpos: usize) -> (r: Result<
        (u8, usize),
        ParseError,
    >)
        requires
            float_wf(*f),
        ensures
            match r {
                Ok(v) => v.1 == newpos && Self::spec_channel_of_float(*f, pos as int, neg, newpos as int)
                    == Ok::<(u8, int), ParseError>((v.0, v.1 as int)),
                Err(e) => Self::spec_channel_of_float(*f, pos as int, neg, newpos as int) == Err::<
                    (u8, int),
                    ParseError,
                >(e),
            },
    {
        let zero = f.whole == 0 && frac_is_zero(&f.frac);
        if neg && !zero {
            Err(ParseError { kind: ErrorKind::ChannelNegative, pos })
        } else if f.whole >= 2 || (f.whole == 1 && !frac_is_zero(&f.frac)) {
            Err(ParseError { kind: ErrorKind::ChannelTooLarge, pos })
        } else if f.whole == 1 {
            Ok((255, newpos))
        } else {
            Ok((frac_scaled(&f.frac), newpos))
        }
    }
}

} // verus!
