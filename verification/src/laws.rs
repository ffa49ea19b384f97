//! Laws relating the library's functions to one another: the agreement of
//! the RGB literal forms, the shorthand expansion, the endpoints of float
//! channel scaling, the closing text of each revert mode, and the purity of
//! literal re-embedding.

use vstd::prelude::*;

use crate::gen::GenCodeView;
use crate::gen::spec_concat_all;
use crate::gen::spec_eval_code;
use crate::sgr::base::Revert;
use crate::sgr::color::ColorChange;
use crate::sgr::rgb::spec_digits_num;
use crate::sgr::rgb::spec_expand_rgb;
use crate::sgr::rgb::spec_float_in_unit;
use crate::sgr::rgb::spec_float_is_zero;
use crate::sgr::rgb::spec_float_scaled;
use crate::sgr::rgb::spec_frac_scaled;
use crate::sgr::rgb::spec_from_str;
use crate::sgr::rgb::spec_pow10;
use crate::sgr::rgb::spec_rgb_of_u32;
use crate::sgr::spec_string_revert;
use crate::sgr::traits::spec_render;
use crate::text::all_hex;
use crate::text::hex_num;
use crate::text::hex_val_or0;
use crate::text::spec_hex_val;
use crate::tok::FloatLit;
use crate::tok::Tok;
use crate::tok::float_wf;

verus! {

/// The lowercase hex character of one digit value.
pub open spec fn spec_hex_digit(d: int) -> char {
    if d == 0 {
        '0'
    } else if d == 1 {
        '1'
    } else if d == 2 {
        '2'
    } else if d == 3 {
        '3'
    } else if d == 4 {
        '4'
    } else if d == 5 {
        '5'
    } else if d == 6 {
        '6'
    } else if d == 7 {
        '7'
    } else if d == 8 {
        '8'
    } else if d == 9 {
        '9'
    } else if d == 10 {
        'a'
    } else if d == 11 {
        'b'
    } else if d == 12 {
        'c'
    } else if d == 13 {
        'd'
    } else if d == 14 {
        'e'
    } else {
        'f'
    }
}

/// The six lowercase hex characters of a 24-bit value, most significant
/// nibble first.
pub open spec fn spec_hex6(n: u32) -> Seq<char> {
    seq![
        spec_hex_digit(((n >> 20) & 0xF) as int),
        spec_hex_digit(((n >> 16) & 0xF) as int),
        spec_hex_digit(((n >> 12) & 0xF) as int),
        spec_hex_digit(((n >> 8) & 0xF) as int),
        spec_hex_digit(((n >> 4) & 0xF) as int),
        spec_hex_digit((n & 0xF) as int),
    ]
}

proof fn lemma_hex_digit_val(d: int)
    requires
        0 <= d < 16,
    ensures
        spec_hex_val(spec_hex_digit(d)) == Some(d as u8),
        hex_val_or0(spec_hex_digit(d)) == d,
{
}

/// The integer and string hex forms of a 24-bit color agree: reading
/// `"#"` followed by the six hex digits of `n` yields exactly the color
/// that the packed integer `n` denotes.
pub proof fn lemma_rgb_int_str_agree(n: u32)
    requires
        n <= 0xFF_FF_FF,
    ensures
        spec_from_str(seq!['#'] + spec_hex6(n)) == Some(spec_rgb_of_u32(n)),
{
    let s = seq!['#'] + spec_hex6(n);
    assert(s[0] == '#');
    let h = s.subrange(1, s.len() as int);
    assert(h =~= spec_hex6(n));
    let d0 = (n >> 20) & 0xF;
    let d1 = (n >> 16) & 0xF;
    let d2 = (n >> 12) & 0xF;
    let d3 = (n >> 8) & 0xF;
    let d4 = (n >> 4) & 0xF;
    let d5 = n & 0xF;
    assert(((n >> 20) & 0xF) < 16 && ((n >> 16) & 0xF) < 16 && ((n >> 12) & 0xF) < 16 && ((n >> 8)
        & 0xF) < 16 && ((n >> 4) & 0xF) < 16 && (n & 0xF) < 16) by (bit_vector);
    lemma_hex_digit_val(d0 as int);
    lemma_hex_digit_val(d1 as int);
    lemma_hex_digit_val(d2 as int);
    lemma_hex_digit_val(d3 as int);
    lemma_hex_digit_val(d4 as int);
    lemma_hex_digit_val(d5 as int);
    let c0 = spec_hex_digit(d0 as int);
    let c1 = spec_hex_digit(d1 as int);
    let c2 = spec_hex_digit(d2 as int);
    let c3 = spec_hex_digit(d3 as int);
    let c4 = spec_hex_digit(d4 as int);
    let c5 = spec_hex_digit(d5 as int);
    assert(h[0] == c0 && h[1] == c1 && h[2] == c2 && h[3] == c3 && h[4] == c4 && h[5] == c5);
    assert(all_hex(h)) by {
        assert(forall|i: int| 0 <= i < 6 ==> (#[trigger] spec_hex_val(h[i])) is Some) by {
            assert(h[0] == c0 && h[1] == c1 && h[2] == c2 && h[3] == c3 && h[4] == c4 && h[5]
                == c5);
        }
    }
    // unfold the hex numeral one digit at a time
    let s1 = seq![c0];
    let s2 = seq![c0, c1];
    let s3 = seq![c0, c1, c2];
    let s4 = seq![c0, c1, c2, c3];
    let s5 = seq![c0, c1, c2, c3, c4];
    assert(s1.drop_last() =~= Seq::<char>::empty());
    assert(s2.drop_last() =~= s1);
    assert(s3.drop_last() =~= s2);
    assert(s4.drop_last() =~= s3);
    assert(s5.drop_last() =~= s4);
    assert(h.drop_last() =~= s5);
    assert(hex_num(Seq::<char>::empty()) == 0);
    assert(hex_num(s1) == hex_val_or0(c0));
    assert(hex_num(s2) == hex_num(s1) * 16 + hex_val_or0(c1));
    assert(hex_num(s3) == hex_num(s2) * 16 + hex_val_or0(c2));
    assert(hex_num(s4) == hex_num(s3) * 16 + hex_val_or0(c3));
    assert(hex_num(s5) == hex_num(s4) * 16 + hex_val_or0(c4));
    assert(hex_num(h) == hex_num(s5) * 16 + hex_val_or0(c5));
    assert(hex_num(h) == ((((d0 * 16 + d1) * 16 + d2) * 16 + d3) * 16 + d4) * 16 + d5);
    assert(((((d0 * 16 + d1) * 16 + d2) * 16 + d3) * 16 + d4) * 16 + d5 == n) by (bit_vector)
        requires
            n <= 0xFF_FF_FF,
            d0 == (n >> 20) & 0xF,
            d1 == (n >> 16) & 0xF,
            d2 == (n >> 12) & 0xF,
            d3 == (n >> 8) & 0xF,
            d4 == (n >> 4) & 0xF,
            d5 == n & 0xF,
    ;
    assert(hex_num(h) == n);
    assert(spec_expand_rgb(h) is None);
}

/// Three-digit shorthand expands by digit doubling: `#abc` denotes exactly
/// the color `#aabbcc` denotes, for any three characters.
pub proof fn lemma_shorthand_expansion(a: char, b: char, c: char)
    ensures
        spec_from_str(seq!['#', a, b, c]) == spec_from_str(seq!['#', a, a, b, b, c, c]),
{
    let s1 = seq!['#', a, b, c];
    let s2 = seq!['#', a, a, b, b, c, c];
    assert(s1[0] == '#' && s2[0] == '#');
    let h1 = s1.subrange(1, 4);
    let h2 = s2.subrange(1, 7);
    assert(h1 =~= seq![a, b, c]);
    assert(h2 =~= seq![a, a, b, b, c, c]);
    assert(spec_expand_rgb(h1) matches Some(e) && e =~= h2);
    assert(spec_expand_rgb(h2) is None);
}

proof fn lemma_digits_num_zero(ds: Seq<u8>)
    requires
        forall|i: int| 0 <= i < ds.len() ==> ds[i] == 0,
    ensures
        spec_digits_num(ds) == 0,
    decreases ds.len(),
{
    if ds.len() > 0 {
        lemma_digits_num_zero(ds.drop_last());
    }
}

proof fn lemma_pow10_pos(k: nat)
    ensures
        spec_pow10(k) >= 1,
    decreases k,
{
    if k > 0 {
        lemma_pow10_pos((k - 1) as nat);
    }
}

proof fn lemma_digits_num_bound(ds: Seq<u8>)
    requires
        forall|i: int| 0 <= i < ds.len() ==> ds[i] < 10,
    ensures
        0 <= spec_digits_num(ds) < spec_pow10(ds.len()),
    decreases ds.len(),
{
    if ds.len() == 0 {
    } else {
        let t = ds.drop_last();
        lemma_digits_num_bound(t);
    }
}

proof fn lemma_pow10_mul(a: nat, b: nat)
    ensures
        spec_pow10(a) * spec_pow10(b) == spec_pow10(a + b),
    decreases a,
{
    if a == 0 {
        assert(spec_pow10(0) * spec_pow10(b) == spec_pow10(b)) by (nonlinear_arith)
            requires
                spec_pow10(0) == 1,
        ;
    } else {
        lemma_pow10_mul((a - 1) as nat, b);
        assert((10 * spec_pow10((a - 1) as nat)) * spec_pow10(b) == 10 * (spec_pow10((a - 1) as nat)
            * spec_pow10(b))) by (nonlinear_arith);
    }
}

/// The endpoints of float channel scaling: an exact zero scales to 0, an
/// exact one scales to 255, and every unit float scales into `0 ..= 255`.
pub proof fn lemma_float_channel_endpoints(f: FloatLit)
    requires
        float_wf(f),
        spec_float_in_unit(f),
    ensures
        spec_float_is_zero(f) ==> spec_float_scaled(f) == 0,
        f.whole == 1 ==> spec_float_scaled(f) == 255,
        0 <= spec_float_scaled(f) <= 255,
{
    if f.whole == 1 {
    } else {
        let ds = f.frac@;
        let k = if ds.len() <= 27 {
            ds.len() as int
        } else {
            27
        };
        let num = spec_digits_num(ds.take(k));
        let padded = num * spec_pow10((27 - k) as nat);
        assert(forall|i: int| 0 <= i < ds.take(k).len() ==> ds.take(k)[i] < 10);
        lemma_digits_num_bound(ds.take(k));
        lemma_pow10_pos((27 - k) as nat);
        lemma_pow10_pos(k as nat);
        lemma_pow10_pos(27);
        lemma_pow10_mul(k as nat, (27 - k) as nat);
        assert(num * spec_pow10((27 - k) as nat) < spec_pow10(k as nat) * spec_pow10(
            (27 - k) as nat,
        )) by (nonlinear_arith)
            requires
                num < spec_pow10(k as nat),
                spec_pow10((27 - k) as nat) >= 1,
        ;
        assert(num * spec_pow10((27 - k) as nat) >= 0) by (nonlinear_arith)
            requires
                num >= 0,
                spec_pow10((27 - k) as nat) >= 1,
        ;
        assert((255 * num) * spec_pow10((27 - k) as nat) == 255 * padded) by (nonlinear_arith)
            requires
                padded == num * spec_pow10((27 - k) as nat),
        ;
        assert(255 * padded < spec_pow10(27) * 255) by (nonlinear_arith)
            requires
                padded < spec_pow10(27),
                spec_pow10(27) >= 1,
        ;
        vstd::arithmetic::div_mod::lemma_multiply_divide_lt(255 * padded, spec_pow10(27), 255);
        vstd::arithmetic::div_mod::lemma_div_pos_is_pos(255 * padded, spec_pow10(27));
        if spec_float_is_zero(f) {
            assert(forall|i: int| 0 <= i < ds.take(k).len() ==> ds.take(k)[i] == 0);
            lemma_digits_num_zero(ds.take(k));
            assert(0 * spec_pow10((27 - k) as nat) == 0) by (nonlinear_arith);
            assert(spec_frac_scaled(ds) == 0int / spec_pow10(27));
            vstd::arithmetic::div_mod::lemma_div_of0(spec_pow10(27));
        }
    }
}

/// A side that set no color is never reverted: whatever stood in the
/// opening pair short of an explicit color, a revert request that asks a
/// reset (or asks nothing) yields no closing code for that side. Only an
/// explicit new color or an explicit no-op in the request survives mixing.
pub proof fn lemma_mix_never_resets_unset(
    set: Option<ColorChange>,
    revert: Option<ColorChange>,
)
    requires
        !(set matches Some(ColorChange::Apply(_))),
        revert is None || revert == Some(ColorChange::Reset),
    ensures
        ColorChange::spec_mix(set, revert) is None,
{
}

/// The closing text of each revert mode, whatever the opening parameters
/// were: a full revert is the bare sequence `ESC [ m`, a suppressed revert
/// is empty, and a single revert closes with the given parameter text.
pub proof fn lemma_revert_modes(s: Seq<char>)
    ensures
        spec_render(spec_string_revert(Revert::All, s)) == seq!['\u{1b}', '[', 'm'],
        spec_render(spec_string_revert(Revert::Off, s)) == Seq::<char>::empty(),
        spec_render(spec_string_revert(Revert::One, s)) == seq!['\u{1b}', '['] + s + seq!['m'],
{
    assert(spec_render(spec_string_revert(Revert::All, s)) =~= seq!['\u{1b}', '[', 'm']);
}

/// Re-embedding a generated literal as plain text is the identity: wrapping
/// any text in an empty opening and closing sequence and evaluating the
/// concat form reproduces exactly its bytes.
pub proof fn lemma_plain_reembed(s: String)
    ensures
        spec_eval_code(
            GenCodeView::Concat {
                opening: Seq::<char>::empty(),
                contents: seq![Tok::Str(s)],
                closing: Seq::<char>::empty(),
            },
        ) == Some(s@),
{
    let contents = seq![Tok::Str(s)];
    let args = crate::gen::spec_eval_args(contents, 0);
    assert(args == Some((seq![s@], Seq::<(Seq<char>, Seq<char>)>::empty())));
    assert(spec_concat_all(seq![s@]) =~= s@ + spec_concat_all(seq![s@].drop_first()));
    assert(seq![s@].drop_first() =~= Seq::<Seq<char>>::empty());
    assert(spec_concat_all(seq![s@]) =~= s@);
    assert(Seq::<char>::empty() + spec_concat_all(seq![s@]) + Seq::<char>::empty() =~= s@);
}

} // verus!
