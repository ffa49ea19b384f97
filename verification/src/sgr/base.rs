//! The mode sigils that may prefix any invocation: an optional output sigil,
//! then an optional revert sigil, then an optional comma; and the invocation
//! body shared by every style entry point.

use vstd::prelude::*;

use crate::text::opt_str_view;
use crate::tok::ErrorKind;
use crate::tok::ParseError;
use crate::tok::Tok;
use crate::tok::is_punct;
use crate::tok::punct_at;

verus! {

/// The shape of the generated code.
#[derive(Clone, Copy, Debug, PartialEq, Eq, Structural)]
pub enum Output {
    /// Literal concatenation: a compile-time string literal.
    Concat,
    /// Compile-time template substitution: a static string (capability-gated).
    ConstFormat,
    /// Deferred formatting: a lazily-rendered argument bundle.
    Format,
    /// Eager formatting: an owned, heap-allocated string.
    String,
}

impl Output {
    /// Whether this output mode requires a template literal.
    pub open spec fn spec_needs_template(self) -> bool {
        !(self is Concat)
    }

    /// Whether this output mode requires a template literal.
    pub fn needs_template(&self) -> (r: bool)
        ensures
            r == self.spec_needs_template(),
    {
        match self {
            Self::Concat => false,
            Self::ConstFormat => true,
            Self::Format => true,
            Self::String => true,
        }
    }

    /// Whether this output mode is selected by a sigil.
    pub open spec fn spec_has_sigil(self) -> bool {
        !(self is Concat)
    }

    /// Whether this output mode is selected by a sigil.
    pub fn has_sigil(&self) -> (r: bool)
        ensures
            r == self.spec_has_sigil(),
    {
        *self != Self::Concat
    }

    /// The output sigil, if any: `@` selects the owned-string form, `%` the
    /// deferred form, `#` the const form (only under the capability; without
    /// it, the sigil is an error). No sigil selects concatenation.
    pub open spec fn spec_parse(t: Seq<Tok>, pos: int, allow_const: bool) -> Result<
        (Output, int),
        ParseError,
    > {
        if pos < t.len() && is_punct(t[pos], '@') {
            Ok((Output::String, pos + 1))
        } else if pos < t.len() && is_punct(t[pos], '%') {
            Ok((Output::Format, pos + 1))
        } else if pos < t.len() && is_punct(t[pos], '#') {
            if allow_const {
                Ok((Output::ConstFormat, pos + 1))
            } else {
                Err(ParseError { kind: ErrorKind::ConstCapability, pos: pos as usize })
            }
        } else {
            Ok((Output::Concat, pos))
        }
    }

    /// Consumes an optional output sigil; see `spec_parse`.
    pub fn parse(toks: &Vec<Tok>, pos: usize, allow_const: bool) -> (r: Result<
        (Output, usize),
        ParseError,
    >)
        requires
            pos <= toks@.len(),
        ensures
            match r {
                Ok(v) => pos <= v.1 <= toks@.len() && Self::spec_parse(toks@, pos as int, allow_const)
                    == Ok::<(Output, int), ParseError>((v.0, v.1 as int)),
                Err(e) => Self::spec_parse(toks@, pos as int, allow_const) == Err::<
                    (Output, int),
                    ParseError,
                >(e),
            },
    {
        if punct_at(toks, pos, '@') {
            Ok((Output::String, pos + 1))
        } else if punct_at(toks, pos, '%') {
            Ok((Output::Format, pos + 1))
        } else if punct_at(toks, pos, '#') {
            if allow_const {
                Ok((Output::ConstFormat, pos + 1))
            } else {
                Err(ParseError { kind: ErrorKind::ConstCapability, pos })
            }
        } else {
            Ok((Output::Concat, pos))
        }
    }
}

/// What closing control sequence ends the formatted span.
#[derive(Clone, Copy, Debug, PartialEq, Eq, Structural)]
pub enum Revert {
    /// Undo exactly the formatting this invocation set.
    One,
    /// Reset all formatting: the bare sequence with no parameters.
    All,
    /// Append no closing sequence at all.
    Off,
}

impl Revert {
    /// Whether this revert mode is selected by a sigil.
    pub open spec fn spec_has_sigil(self) -> bool {
        !(self is One)
    }

    /// Whether this revert mode is selected by a sigil.
    pub fn has_sigil(&self) -> (r: bool)
        ensures
            r == self.spec_has_sigil(),
    {
        *self != Self::One
    }

    /// The revert sigil, if any: `!` suppresses the closing sequence, `*`
    /// resets all formatting. No sigil undoes exactly what was set. Total:
    /// an absent sigil is not an error.
    pub open spec fn spec_parse(t: Seq<Tok>, pos: int) -> (Revert, int) {
        if pos < t.len() && is_punct(t[pos], '!') {
            (Revert::Off, pos + 1)
        } else if pos < t.len() && is_punct(t[pos], '*') {
            (Revert::All, pos + 1)
        } else {
            (Revert::One, pos)
        }
    }

    /// Consumes an optional revert sigil; see `spec_parse`.
    pub fn parse(toks: &Vec<Tok>, pos: usize) -> (r: (Revert, usize))
        requires
            pos <= toks@.len(),
        ensures
            pos <= r.1 <= toks@.len(),
            Self::spec_parse(toks@, pos as int) == (r.0, r.1 as int),
    {
        if punct_at(toks, pos, '!') {
            (Revert::Off, pos + 1)
        } else if punct_at(toks, pos, '*') {
            (Revert::All, pos + 1)
        } else {
            (Revert::One, pos)
        }
    }
}

/// The two mode axes of one invocation, fixed before its body is read.
#[derive(Clone, Copy, Debug, PartialEq, Eq, Structural)]
pub struct Behavior {
    pub output: Output,
    pub revert: Revert,
}

impl Behavior {
    /// An optional output sigil, then an optional revert sigil, in that
    /// order; when either was present, one optional comma after them.
    pub open spec fn spec_parse(t: Seq<Tok>, pos: int, allow_const: bool) -> Result<
        (Behavior, int),
        ParseError,
    > {
        match Output::spec_parse(t, pos, allow_const) {
            Err(e) => Err(e),
            Ok((output, p1)) => {
                let m = Revert::spec_parse(t, p1);
                let p3 = if (output.spec_has_sigil() || m.0.spec_has_sigil()) && m.1 < t.len()
                    && is_punct(t[m.1], ',') {
                    m.1 + 1
                } else {
                    m.1
                };
                Ok((Behavior { output, revert: m.0 }, p3))
            },
        }
    }

    /// Consumes the mode sigils; see `spec_parse`.
    pub fn parse(toks: &Vec<Tok>, pos: usize, allow_const: bool) -> (r: Result<
        (Behavior, usize),
        ParseError,
    >)
        requires
            pos <= toks@.len(),
        ensures
            match r {
                Ok(v) => pos <= v.1 <= toks@.len() && Self::spec_parse(toks@, pos as int, allow_const)
                    == Ok::<(Behavior, int), ParseError>((v.0, v.1 as int)),
                Err(e) => Self::spec_parse(toks@, pos as int, allow_const) == Err::<
                    (Behavior, int),
                    ParseError,
                >(e),
            },
    {
        let (output, p1) = match Output::parse(toks, pos, allow_const) {
            Ok(v) => v,
            Err(e) => {
                return Err(e);
            },
        };
        let (revert, p2) = Revert::parse(toks, p1);
        let p3 = if (output.has_sigil() || revert.has_sigil()) && punct_at(toks, p2, ',') {
            p2 + 1
        } else {
            p2
        };
        Ok((Behavior { output, revert }, p3))
    }
}

/// The parsed body of a style invocation: its behavior, the template
/// literal when the output mode needs one (an implicit `"{}"` when none was
/// written), and the remaining content tokens.
pub struct SgrBase {
    pub behavior: Behavior,
    pub template: Option<String>,
    pub contents: Vec<Tok>,
}

impl SgrBase {
    /// The body grammar: mode sigils, then, when the output mode needs a
    /// template, an optional template literal (with an optional comma after
    /// it), then the remaining tokens as contents. A template literal not
    /// followed by a comma must end the invocation. A template is present
    /// in the result exactly when the output mode needs one.
    pub open spec fn spec_parse(t: Seq<Tok>, pos: int, allow_const: bool) -> Result<
        (Behavior, Option<Seq<char>>, Seq<Tok>),
        ParseError,
    > {
        match Behavior::spec_parse(t, pos, allow_const) {
            Err(e) => Err(e),
            Ok((b, p)) => {
                let m: (Option<Seq<char>>, bool, int) = if b.output.spec_needs_template() {
                    if p < t.len() && t[p] is Str {
                        if p + 1 < t.len() && is_punct(t[p + 1], ',') {
                            (Some(t[p]->Str_0@), true, p + 2)
                        } else {
                            (Some(t[p]->Str_0@), false, p + 1)
                        }
                    } else {
                        (Some("{}"@), true, p)
                    }
                } else {
                    (None, true, p)
                };
                if m.1 {
                    Ok((b, m.0, t.subrange(m.2, t.len() as int)))
                } else if m.2 == t.len() {
                    Ok((b, m.0, Seq::<Tok>::empty()))
                } else {
                    Err(ParseError { kind: ErrorKind::UnexpectedToken, pos: m.2 as usize })
                }
            },
        }
    }

    /// Parses an invocation body from `pos` to the end; see `spec_parse`.
    pub fn parse(toks: Vec<Tok>, pos: usize, allow_const: bool) -> (r: Result<SgrBase, ParseError>)
        requires
            pos <= toks@.len(),
        ensures
            match r {
                Ok(b) => Self::spec_parse(toks@, pos as int, allow_const) matches Ok(m)
                    && b.behavior == m.0 && opt_str_view(b.template) == m.1 && b.contents@ == m.2,
                Err(e) => Self::spec_parse(toks@, pos as int, allow_const) matches Err(se) && se
                    == e,
            },
    {
        let (behavior, p) = match Behavior::parse(&toks, pos, allow_const) {
            Ok(v) => v,
            Err(e) => {
                return Err(e);
            },
        };
        let mut template: Option<String> = None;
        let mut get_more: bool = true;
        let mut p2: usize = p;
        if behavior.output.needs_template() {
            let mut found = false;
            if p < toks.len() {
                match &toks[p] {
                    Tok::Str(s) => {
                        template = Some(s.clone());
                        found = true;
                    },
                    _ => {},
                }
            }
            if found {
                if punct_at(&toks, p + 1, ',') {
                    get_more = true;
                    p2 = p + 2;
                } else {
                    get_more = false;
                    p2 = p + 1;
                }
            } else {
                template = Some(String::from_str("{}"));
                get_more = true;
                p2 = p;
            }
        }
        let mut toks = toks;
        if get_more {
            let contents = toks.split_off(p2);
            Ok(SgrBase { behavior, template, contents })
        } else if p2 == toks.len() {
            let contents: Vec<Tok> = Vec::new();
            proof {
                assert(contents@ =~= Seq::<Tok>::empty());
            }
            Ok(SgrBase { behavior, template, contents })
        } else {
            Err(ParseError { kind: ErrorKind::UnexpectedToken, pos: p2 })
        }
    }

    /// Fixes the opening and closing parameter strings chosen by a style
    /// entry point around this body.
    pub fn into_format(self, start: String, end: String) -> (r: crate::sgr::SgrFormat)
        ensures
            r.base == self,
            r.opening == start,
            r.closing == end,
    {
        crate::sgr::SgrFormat { base: self, opening: start, closing: end }
    }
}

} // verus!
