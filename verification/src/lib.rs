//! Construction of ANSI SGR ("Select Graphic Rendition") control sequences
//! from a small invocation grammar: optional mode sigils, color
//! specifications, and template/argument lists, resolved into one of four
//! output forms (literal concatenation, compile-time substitution, deferred
//! formatting, or an owned string).
//!
//! An invocation arrives as a sequence of [`tok::Tok`] tokens. The entry
//! points parse it and yield a [`gen::GenCode`]: the generated form, with
//! its control sequences already rendered. [`gen::eval_code`] gives the
//! final text of a form whose arguments are all string literals.

use vstd::prelude::*;

pub mod gen;
pub mod laws;
pub mod sgr;
pub mod text;
pub mod tok;

use crate::gen::GenCode;
use crate::gen::spec_generate;
use crate::sgr::Sgr256;
use crate::sgr::SgrRgb;
use crate::sgr::base::SgrBase;
use crate::sgr::color::SgrColor;
use crate::sgr::color::spec_mixed_revert;
use crate::sgr::spec_256_opening;
use crate::sgr::spec_color_bg;
use crate::sgr::spec_rgb_opening;
use crate::sgr::spec_string_revert;
use crate::sgr::traits::SgrCode;
use crate::sgr::traits::spec_render;
use crate::text::fmt_u8;
use crate::text::spec_dec;
use crate::tok::ParseError;
use crate::tok::Tok;
use crate::tok::toks_wf;

verus! {

/// In a successful body parse, a template is present exactly when the
/// output mode needs one.
proof fn lemma_base_template(t: Seq<Tok>, pos: int, allow_const: bool)
    requires
        SgrBase::spec_parse(t, pos, allow_const) is Ok,
    ensures
        ({
            let m = SgrBase::spec_parse(t, pos, allow_const)->Ok_0;
            m.1 is Some <==> m.0.output.spec_needs_template()
        }),
{
}

/// In a successful `color` parse, a template is present exactly when the
/// output mode needs one.
proof fn lemma_color_template(t: Seq<Tok>, allow_const: bool)
    requires
        SgrColor::spec_parse(t, allow_const) is Ok,
    ensures
        ({
            let m = SgrColor::spec_parse(t, allow_const)->Ok_0;
            m.2 is Some <==> m.1.spec_needs_template()
        }),
{
}

/// Wraps an invocation body in a style: the `start` code opens the span and
/// the `end` code closes it (subject to the revert mode). Every named style
/// and basic-color entry point is this function with its two fixed codes.
pub fn sgr_style(start: u8, end: u8, toks: Vec<Tok>, allow_const: bool) -> (r: Result<
    GenCode,
    ParseError,
>)
    ensures
        match r {
            Ok(code) => SgrBase::spec_parse(toks@, 0, allow_const) matches Ok(m) && code@
                == spec_generate(
                m.0.output,
                spec_render(Some(spec_dec(start as int))),
                spec_render(spec_string_revert(m.0.revert, spec_dec(end as int))),
                m.1,
                m.2,
            ),
            Err(e) => SgrBase::spec_parse(toks@, 0, allow_const) matches Err(se) && se == e,
        },
{
    let ghost tv = toks@;
    match SgrBase::parse(toks, 0, allow_const) {
        Ok(base) => {
            proof {
                lemma_base_template(tv, 0, allow_const);
            }
            let fmt = base.into_format(fmt_u8(start), fmt_u8(end));
            Ok(fmt.into_code())
        },
        Err(e) => Err(e),
    }
}

/// Colors text with an 8-bit indexed color: `index ; body`.
pub fn color_256(toks: Vec<Tok>, allow_const: bool) -> (r: Result<GenCode, ParseError>)
    ensures
        match r {
            Ok(code) => Sgr256::<false>::spec_parse(toks@, allow_const) matches Ok(m) && code@
                == spec_generate(
                m.1.output,
                spec_render(Some(spec_256_opening(m.0, false))),
                spec_render(spec_string_revert(m.1.revert, spec_dec(spec_color_bg(false) + 1))),
                m.2,
                m.3,
            ),
            Err(e) => Sgr256::<false>::spec_parse(toks@, allow_const) matches Err(se) && se == e,
        },
{
    let ghost tv = toks@;
    match Sgr256::<false>::parse(toks, allow_const) {
        Ok(v) => {
            proof {
                lemma_base_template(tv, 2, allow_const);
            }
            Ok(v.into_code())
        },
        Err(e) => Err(e),
    }
}

/// Colors the background with an 8-bit indexed color: `index ; body`.
pub fn color_256_bg(toks: Vec<Tok>, allow_const: bool) -> (r: Result<GenCode, ParseError>)
    ensures
        match r {
            Ok(code) => Sgr256::<true>::spec_parse(toks@, allow_const) matches Ok(m) && code@
                == spec_generate(
                m.1.output,
                spec_render(Some(spec_256_opening(m.0, true))),
                spec_render(spec_string_revert(m.1.revert, spec_dec(spec_color_bg(true) + 1))),
                m.2,
                m.3,
            ),
            Err(e) => Sgr256::<true>::spec_parse(toks@, allow_const) matches Err(se) && se == e,
        },
{
    let ghost tv = toks@;
    match Sgr256::<true>::parse(toks, allow_const) {
        Ok(v) => {
            proof {
                lemma_base_template(tv, 2, allow_const);
            }
            Ok(v.into_code())
        },
        Err(e) => Err(e),
    }
}

/// Colors text with a 24-bit RGB value: `rgb ; body`.
pub fn color_rgb(toks: Vec<Tok>, allow_const: bool) -> (r: Result<GenCode, ParseError>)
    requires
        toks_wf(toks@),
    ensures
        match r {
            Ok(code) => SgrRgb::<false>::spec_parse(toks@, allow_const) matches Ok(m) && code@
                == spec_generate(
                m.1.output,
                spec_render(Some(spec_rgb_opening(m.0, false))),
                spec_render(spec_string_revert(m.1.revert, spec_dec(spec_color_bg(false) + 1))),
                m.2,
                m.3,
            ),
            Err(e) => SgrRgb::<false>::spec_parse(toks@, allow_const) matches Err(se) && se == e,
        },
{
    let ghost tv = toks@;
    match SgrRgb::<false>::parse(toks, allow_const) {
        Ok(v) => {
            proof {
                let p = crate::sgr::rgb::Rgb::spec_parse(tv, 0)->Ok_0.1;
                lemma_base_template(tv, p + 1, allow_const);
            }
            Ok(v.into_code())
        },
        Err(e) => Err(e),
    }
}

/// Colors the background with a 24-bit RGB value: `rgb ; body`.
pub fn color_rgb_bg(toks: Vec<Tok>, allow_const: bool) -> (r: Result<GenCode, ParseError>)
    requires
        toks_wf(toks@),
    ensures
        match r {
            Ok(code) => SgrRgb::<true>::spec_parse(toks@, allow_const) matches Ok(m) && code@
                == spec_generate(
                m.1.output,
                spec_render(Some(spec_rgb_opening(m.0, true))),
                spec_render(spec_string_revert(m.1.revert, spec_dec(spec_color_bg(true) + 1))),
                m.2,
                m.3,
            ),
            Err(e) => SgrRgb::<true>::spec_parse(toks@, allow_const) matches Err(se) && se == e,
        },
{
    let ghost tv = toks@;
    match SgrRgb::<true>::parse(toks, allow_const) {
        Ok(v) => {
            proof {
                let p = crate::sgr::rgb::Rgb::spec_parse(tv, 0)->Ok_0.1;
                lemma_base_template(tv, p + 1, allow_const);
            }
            Ok(v.into_code())
        },
        Err(e) => Err(e),
    }
}

/// The unified color invocation: a color pair, a `;`, the body, and an
/// optional `; revert` clause whose sides are mixed against what was set.
pub fn color(toks: Vec<Tok>, allow_const: bool) -> (r: Result<GenCode, ParseError>)
    requires
        toks_wf(toks@),
    ensures
        match r {
            Ok(code) => SgrColor::spec_parse(toks@, allow_const) matches Ok(m) && code@
                == spec_generate(
                m.1,
                spec_render(m.0.spec_params()),
                spec_render(spec_mixed_revert(m.0, m.4).spec_params()),
                m.2,
                m.3,
            ),
            Err(e) => SgrColor::spec_parse(toks@, allow_const) matches Err(se) && se == e,
        },
{
    let ghost tv = toks@;
    match SgrColor::parse(toks, allow_const) {
        Ok(c) => {
            proof {
                lemma_color_template(tv, allow_const);
            }
            Ok(c.into_code())
        },
        Err(e) => Err(e),
    }
}

} // verus!
