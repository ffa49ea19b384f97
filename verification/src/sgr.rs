//! The SGR invocation forms: the bare reset, style wrapping with fixed
//! opening and closing codes, and the RGB and indexed color variants.

pub mod base;
pub mod color;
pub mod rgb;
pub mod traits;

use vstd::prelude::*;

use crate::gen::GenCode;
use crate::gen::generate;
use crate::gen::spec_generate;
use crate::sgr::base::Behavior;
use crate::sgr::base::Output;
use crate::sgr::base::Revert;
use crate::sgr::base::SgrBase;
use crate::sgr::rgb::Rgb;
use crate::sgr::traits::SgrCode;
use crate::sgr::traits::spec_render;
use crate::text::fmt_u8;
use crate::text::opt_str_view;
use crate::text::spec_dec;
use crate::tok::ErrorKind;
use crate::tok::ParseError;
use crate::tok::Tok;
use crate::tok::is_punct;
use crate::tok::punct_at;
use crate::tok::toks_wf;

verus! {

/// The bare reset invocation: it reads nothing and renders as the
/// control sequence with no parameters.
pub struct SgrReset;

impl SgrReset {
    /// The reset invocation accepts any token sequence and reads none of it.
    pub fn parse(_toks: &Vec<Tok>) -> (r: SgrReset) {
        SgrReset
    }

    /// The bare reset sequence: an escape with an empty parameter list.
    pub fn render(&self) -> (r: String)
        ensures
            r@ == spec_render(Some(Seq::<char>::empty())),
    {
        let empty = String::new();
        empty.render()
    }
}

/// The SGR parameter code that introduces an extended color: 38 for the
/// foreground slot, 48 for the background slot.
pub open spec fn spec_color_bg(bg: bool) -> int {
    if bg {
        48
    } else {
        38
    }
}

/// The extended-color introducer code for one slot.
pub fn color_bg(bg: bool) -> (r: u8)
    ensures
        r as int == spec_color_bg(bg),
{
    if bg {
        48
    } else {
        38
    }
}

/// The closing parameter text a revert mode yields: the given text for a
/// single revert, an empty parameter list (a bare reset) for a full revert,
/// and no sequence at all when reverting is suppressed.
pub open spec fn spec_string_revert(revert: Revert, s: Seq<char>) -> Option<Seq<char>> {
    match revert {
        Revert::One => Some(s),
        Revert::All => Some(Seq::<char>::empty()),
        Revert::Off => None,
    }
}

/// A closing parameter string together with the revert mode that decides
/// whether it, a bare reset, or nothing at all is emitted.
pub struct StringRevert {
    pub revert: Revert,
    pub string: String,
}

impl SgrCode for StringRevert {
    open spec fn spec_params(&self) -> Option<Seq<char>> {
        spec_string_revert(self.revert, self.string@)
    }

    fn params(&self) -> (r: Option<String>) {
        match self.revert {
            Revert::One => Some(self.string.clone()),
            Revert::All => Some(String::new()),
            Revert::Off => None,
        }
    }
}

/// A style or basic-color invocation: a parsed body together with the fixed
/// opening and closing parameter strings chosen by the entry point.
pub struct SgrFormat {
    pub base: SgrBase,
    pub opening: String,
    pub closing: String,
}

impl SgrFormat {
    /// The opening parameter string, as given by the entry point.
    pub fn fmt_opening(&self) -> (r: String)
        ensures
            r@ == self.opening@,
    {
        self.opening.clone()
    }

    /// The closing parameters: the fixed closing string, under this
    /// invocation's revert mode.
    pub fn fmt_closing(&self) -> (r: StringRevert)
        ensures
            r.revert == self.base.behavior.revert,
            r.string@ == self.closing@,
    {
        StringRevert { revert: self.base.behavior.revert, string: self.closing.clone() }
    }

    /// The output mode of this invocation.
    pub fn output(&self) -> (r: Output)
        ensures
            r == self.base.behavior.output,
    {
        self.base.behavior.output
    }

    /// Resolves this invocation into one of the generated-code forms.
    pub fn into_code(self) -> (r: GenCode)
        requires
            self.base.behavior.output.spec_needs_template() <==> self.base.template is Some,
        ensures
            r@ == spec_generate(
                self.base.behavior.output,
                spec_render(Some(self.opening@)),
                spec_render(spec_string_revert(self.base.behavior.revert, self.closing@)),
                opt_str_view(self.base.template),
                self.base.contents@,
            ),
    {
        let opening = self.fmt_opening().render();
        let closing = self.fmt_closing().render();
        generate(self.base.behavior.output, opening, closing, self.base.template, self.base.contents)
    }
}

/// An RGB color invocation: a parsed body and the three channel bytes.
pub struct SgrRgb<const BG: bool> {
    pub base: SgrBase,
    pub rgb: Rgb,
}

/// The opening parameters of a direct RGB invocation:
/// `38;2;R;G;B` for the foreground slot, `48;2;R;G;B` for the background.
pub open spec fn spec_rgb_opening(rgb: Rgb, bg: bool) -> Seq<char> {
    spec_dec(spec_color_bg(bg)) + ";2;"@ + spec_dec(rgb.r as int) + ";"@ + spec_dec(rgb.g as int)
        + ";"@ + spec_dec(rgb.b as int)
}

impl<const BG: bool> SgrRgb<BG> {
    /// The opening parameter string for this color and slot.
    pub fn fmt_opening(&self) -> (r: String)
        ensures
            r@ == spec_rgb_opening(self.rgb, BG),
    {
        let mut s = fmt_u8(color_bg(BG));
        s.append(";2;");
        s.append(fmt_u8(self.rgb.r).as_str());
        s.append(";");
        s.append(fmt_u8(self.rgb.g).as_str());
        s.append(";");
        s.append(fmt_u8(self.rgb.b).as_str());
        s
    }

    /// The closing parameters: the slot's default-color code (39 or 49),
    /// under this invocation's revert mode.
    pub fn fmt_closing(&self) -> (r: StringRevert)
        ensures
            r.revert == self.base.behavior.revert,
            r.string@ == spec_dec(spec_color_bg(BG) + 1),
    {
        StringRevert { revert: self.base.behavior.revert, string: fmt_u8(color_bg(BG) + 1) }
    }

    /// The output mode of this invocation.
    pub fn output(&self) -> (r: Output)
        ensures
            r == self.base.behavior.output,
    {
        self.base.behavior.output
    }

    /// What `parse` yields: the color, then the body after a `;`.
    pub open spec fn spec_parse(t: Seq<Tok>, allow_const: bool) -> Result<
        (Rgb, Behavior, Option<Seq<char>>, Seq<Tok>),
        ParseError,
    > {
        match Rgb::spec_parse(t, 0) {
            Err(e) => Err(e),
            Ok((rgb, p)) => if p < t.len() && is_punct(t[p], ';') {
                match SgrBase::spec_parse(t, p + 1, allow_const) {
                    Err(e) => Err(e),
                    Ok((behavior, template, contents)) => Ok((rgb, behavior, template, contents)),
                }
            } else {
                Err(ParseError { kind: ErrorKind::ExpectedSemicolon, pos: p as usize })
            },
        }
    }

    /// Parses `rgb_value ; body` from the start of an invocation.
    pub fn parse(toks: Vec<Tok>, allow_const: bool) -> (r: Result<SgrRgb<BG>, ParseError>)
        requires
            toks_wf(toks@),
        ensures
            match r {
                Ok(v) => Self::spec_parse(toks@, allow_const) matches Ok(m) && v.rgb == m.0
                    && v.base.behavior == m.1 && opt_str_view(v.base.template) == m.2
                    && v.base.contents@ == m.3,
                Err(e) => Self::spec_parse(toks@, allow_const) matches Err(se) && se == e,
            },
    {
        let (rgb, pos) = match Rgb::parse(&toks, 0) {
            Ok(v) => v,
            Err(e) => {
                return Err(e);
            },
        };
        if !punct_at(&toks, pos, ';') {
            return Err(ParseError { kind: ErrorKind::ExpectedSemicolon, pos });
        }
        match SgrBase::parse(toks, pos + 1, allow_const) {
            Ok(base) => Ok(SgrRgb { base, rgb }),
            Err(e) => Err(e),
        }
    }

    /// Resolves this invocation into one of the generated-code forms.
    pub fn into_code(self) -> (r: GenCode)
        requires
            self.base.behavior.output.spec_needs_template() <==> self.base.template is Some,
        ensures
            r@ == spec_generate(
                self.base.behavior.output,
                spec_render(Some(spec_rgb_opening(self.rgb, BG))),
                spec_render(
                    spec_string_revert(self.base.behavior.revert, spec_dec(spec_color_bg(BG) + 1)),
                ),
                opt_str_view(self.base.template),
                self.base.contents@,
            ),
    {
        let opening = self.fmt_opening().render();
        let closing = self.fmt_closing().render();
        generate(self.base.behavior.output, opening, closing, self.base.template, self.base.contents)
    }
}

/// An indexed color invocation: a parsed body and the color index.
pub struct Sgr256<const BG: bool> {
    pub base: SgrBase,
    pub color: u8,
}

/// The opening parameters of an indexed color invocation:
/// `38;5;N` for the foreground slot, `48;5;N` for the background.
pub open spec fn spec_256_opening(color: u8, bg: bool) -> Seq<char> {
    spec_dec(spec_color_bg(bg)) + ";5;"@ + spec_dec(color as int)
}

impl<const BG: bool> Sgr256<BG> {
    /// The opening parameter string for this index and slot.
    pub fn fmt_opening(&self) -> (r: String)
        ensures
            r@ == spec_256_opening(self.color, BG),
    {
        let mut s = fmt_u8(color_bg(BG));
        s.append(";5;");
        s.append(fmt_u8(self.color).as_str());
        s
    }

    /// The closing parameters: the slot's default-color code (39 or 49),
    /// under this invocation's revert mode.
    pub fn fmt_closing(&self) -> (r: StringRevert)
        ensures
            r.revert == self.base.behavior.revert,
            r.string@ == spec_dec(spec_color_bg(BG) + 1),
    {
        StringRevert { revert: self.base.behavior.revert, string: fmt_u8(color_bg(BG) + 1) }
    }

    /// The output mode of this invocation.
    pub fn output(&self) -> (r: Output)
        ensures
            r == self.base.behavior.output,
    {
        self.base.behavior.output
    }

    /// What `parse` yields: the color index, then the body after a `;`.
    pub open spec fn spec_parse(t: Seq<Tok>, allow_const: bool) -> Result<
        (u8, Behavior, Option<Seq<char>>, Seq<Tok>),
        ParseError,
    > {
        if 0 < t.len() && t[0] is Int {
            let v = t[0]->Int_0;
            if v <= 255 {
                if 1 < t.len() && is_punct(t[1], ';') {
                    match SgrBase::spec_parse(t, 2, allow_const) {
                        Err(e) => Err(e),
                        Ok((behavior, template, contents)) => Ok(
                            ((v as u8), behavior, template, contents),
                        ),
                    }
                } else {
                    Err(ParseError { kind: ErrorKind::ExpectedSemicolon, pos: 1 })
                }
            } else {
                Err(ParseError { kind: ErrorKind::IntOutOfRange, pos: 0 })
            }
        } else {
            Err(ParseError { kind: ErrorKind::ExpectedInt, pos: 0 })
        }
    }

    /// Parses `index ; body` from the start of an invocation.
    pub fn parse(toks: Vec<Tok>, allow_const: bool) -> (r: Result<Sgr256<BG>, ParseError>)
        ensures
            match r {
                Ok(v) => Self::spec_parse(toks@, allow_const) matches Ok(m) && v.color == m.0
                    && v.base.behavior == m.1 && opt_str_view(v.base.template) == m.2
                    && v.base.contents@ == m.3,
                Err(e) => Self::spec_parse(toks@, allow_const) matches Err(se) && se == e,
            },
    {
        if toks.len() == 0 {
            return Err(ParseError { kind: ErrorKind::ExpectedInt, pos: 0 });
        }
        let color: u8 = match &toks[0] {
            Tok::Int(v) => {
                if *v <= 255 {
                    *v as u8
                } else {
                    return Err(ParseError { kind: ErrorKind::IntOutOfRange, pos: 0 });
                }
            },
            _ => {
                return Err(ParseError { kind: ErrorKind::ExpectedInt, pos: 0 });
            },
        };
        if !punct_at(&toks, 1, ';') {
            return Err(ParseError { kind: ErrorKind::ExpectedSemicolon, pos: 1 });
        }
        match SgrBase::parse(toks, 2, allow_const) {
            Ok(base) => Ok(Sgr256 { base, color }),
            Err(e) => Err(e),
        }
    }

    /// Resolves this invocation into one of the generated-code forms.
    pub fn into_code(self) -> (r: GenCode)
        requires
            self.base.behavior.output.spec_needs_template() <==> self.base.template is Some,
        ensures
            r@ == spec_generate(
                self.base.behavior.output,
                spec_render(Some(spec_256_opening(self.color, BG))),
                spec_render(
                    spec_string_revert(self.base.behavior.revert, spec_dec(spec_color_bg(BG) + 1)),
                ),
                opt_str_view(self.base.template),
                self.base.contents@,
            ),
    {
        let opening = self.fmt_opening().render();
        let closing = self.fmt_closing().render();
        generate(self.base.behavior.output, opening, closing, self.base.template, self.base.contents)
    }
}

} // verus!
