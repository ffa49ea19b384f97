//! The unified color grammar: named, indexed and RGB colors, optional
//! foreground/background pairs joined by `in`, and the mixing rule that
//! computes the closing parameters from what was set and what a revert
//! clause requests.

use vstd::prelude::*;

use crate::sgr::base::Output;
use crate::sgr::rgb::Rgb;
use crate::sgr::traits::SgrCode;
use crate::text::fmt_u8;
use crate::text::lower;
use crate::text::opt_str_view;
use crate::text::spec_dec;
use crate::text::spec_lower;
use crate::text::spec_trim;
use crate::text::str_eq;
use crate::text::trim;
use crate::tok::ErrorKind;
use crate::tok::ParseError;
use crate::tok::Tok;
use crate::tok::is_punct;
use crate::tok::punct_at;
use crate::tok::toks_wf;

verus! {

/// The SGR code that sets an extended foreground color.
pub const COLOR_SET: u8 = 38;

/// The SGR code that resets the foreground color to its default.
pub const COLOR_RESET: u8 = 39;

/// The distance from a foreground code to its background counterpart.
pub const OFFSET_BG: u8 = 10;

/// The distance from a normal color code to its bright counterpart.
pub const OFFSET_BRIGHT: u8 = 60;

/// A foreground code moved to the background slot when asked.
pub open spec fn spec_color_bg_off(color: int, bg: bool) -> int {
    if bg {
        color + OFFSET_BG
    } else {
        color
    }
}

/// Moves a code to the background slot when asked.
pub fn color_bg(color: u8, bg: bool) -> (r: u8)
    requires
        color + OFFSET_BG <= 255,
    ensures
        r as int == spec_color_bg_off(color as int, bg),
{
    if bg {
        color + OFFSET_BG
    } else {
        color
    }
}

/// A color code moved to its bright counterpart when asked.
pub open spec fn spec_color_bright(color: int, bright: bool) -> int {
    if bright {
        color + OFFSET_BRIGHT
    } else {
        color
    }
}

/// Moves a code to its bright counterpart when asked.
pub fn color_bright(color: u8, bright: bool) -> (r: u8)
    requires
        color + OFFSET_BRIGHT <= 255,
    ensures
        r as int == spec_color_bright(color as int, bright),
{
    if bright {
        color + OFFSET_BRIGHT
    } else {
        color
    }
}

/// The extended-color set code for one slot: 38 or 48.
pub fn color_set(bg: bool) -> (r: u8)
    ensures
        r as int == spec_color_bg_off(COLOR_SET as int, bg),
{
    color_bg(COLOR_SET, bg)
}

/// The default-color code for one slot: 39 or 49.
pub fn color_reset(bg: bool) -> (r: u8)
    ensures
        r as int == spec_color_bg_off(COLOR_RESET as int, bg),
{
    color_bg(COLOR_RESET, bg)
}

/// The eight fundamental colors and the explicit default.
#[derive(Clone, Copy, Debug, Hash, PartialEq, Eq, Structural)]
pub enum ColorNamed {
    Black,
    Red,
    Green,
    Yellow,
    Blue,
    Magenta,
    Cyan,
    White,
    Default,
}

impl ColorNamed {
    /// The base SGR foreground code of this name: 30 through 37, or 39 for
    /// the default color.
    pub open spec fn spec_code(self) -> int {
        match self {
            ColorNamed::Black => 30,
            ColorNamed::Red => 31,
            ColorNamed::Green => 32,
            ColorNamed::Yellow => 33,
            ColorNamed::Blue => 34,
            ColorNamed::Magenta => 35,
            ColorNamed::Cyan => 36,
            ColorNamed::White => 37,
            ColorNamed::Default => 39,
        }
    }

    /// The base SGR foreground code of this name.
    pub fn code(&self) -> (r: u8)
        ensures
            r as int == self.spec_code(),
    {
        match self {
            ColorNamed::Black => 30,
            ColorNamed::Red => 31,
            ColorNamed::Green => 32,
            ColorNamed::Yellow => 33,
            ColorNamed::Blue => 34,
            ColorNamed::Magenta => 35,
            ColorNamed::Cyan => 36,
            ColorNamed::White => 37,
            ColorNamed::Default => 39,
        }
    }
}

/// A named color with its brightness flag.
#[derive(Clone, Copy, Debug, Hash, PartialEq, Eq, Structural)]
pub struct ColorBasic {
    pub color: ColorNamed,
    pub bright: bool,
}

/// Whether a (lowered, trimmed) name starts with the word `bright`.
pub open spec fn spec_bright_prefix(t: Seq<char>) -> bool {
    t.len() >= 6 && t[0] == 'b' && t[1] == 'r' && t[2] == 'i' && t[3] == 'g' && t[4] == 'h' && t[5]
        == 't'
}

/// The color a name string denotes: case-insensitive, surrounding
/// whitespace ignored, an optional leading `bright` prefix (with or without
/// a following space), then one of the nine color names.
pub open spec fn spec_basic_of_name(s: Seq<char>) -> Option<ColorBasic> {
    let t = spec_trim(spec_lower(s));
    let bright = spec_bright_prefix(t);
    let name = spec_trim(
        if bright {
            t.subrange(6, t.len() as int)
        } else {
            t
        },
    );
    if name == "black"@ {
        Some(ColorBasic { color: ColorNamed::Black, bright })
    } else if name == "red"@ {
        Some(ColorBasic { color: ColorNamed::Red, bright })
    } else if name == "green"@ {
        Some(ColorBasic { color: ColorNamed::Green, bright })
    } else if name == "yellow"@ {
        Some(ColorBasic { color: ColorNamed::Yellow, bright })
    } else if name == "blue"@ {
        Some(ColorBasic { color: ColorNamed::Blue, bright })
    } else if name == "magenta"@ {
        Some(ColorBasic { color: ColorNamed::Magenta, bright })
    } else if name == "cyan"@ {
        Some(ColorBasic { color: ColorNamed::Cyan, bright })
    } else if name == "white"@ {
        Some(ColorBasic { color: ColorNamed::White, bright })
    } else if name == "default"@ {
        Some(ColorBasic { color: ColorNamed::Default, bright })
    } else {
        None
    }
}

/// Resolves a color name; see `spec_basic_of_name`.
pub fn basic_of_name(s: &str) -> (r: Option<ColorBasic>)
    ensures
        r == spec_basic_of_name(s@),
{
    let low = lower(s);
    let t: &str = trim(low.as_str());
    let n = t.unicode_len();
    let bright = n >= 6 && t.get_char(0) == 'b' && t.get_char(1) == 'r' && t.get_char(2) == 'i'
        && t.get_char(3) == 'g' && t.get_char(4) == 'h' && t.get_char(5) == 't';
    let rest: &str = if bright {
        t.substring_char(6, n)
    } else {
        t
    };
    let name: &str = trim(rest);
    if str_eq(name, "black") {
        Some(ColorBasic { color: ColorNamed::Black, bright })
    } else if str_eq(name, "red") {
        Some(ColorBasic { color: ColorNamed::Red, bright })
    } else if str_eq(name, "green") {
        Some(ColorBasic { color: ColorNamed::Green, bright })
    } else if str_eq(name, "yellow") {
        Some(ColorBasic { color: ColorNamed::Yellow, bright })
    } else if str_eq(name, "blue") {
        Some(ColorBasic { color: ColorNamed::Blue, bright })
    } else if str_eq(name, "magenta") {
        Some(ColorBasic { color: ColorNamed::Magenta, bright })
    } else if str_eq(name, "cyan") {
        Some(ColorBasic { color: ColorNamed::Cyan, bright })
    } else if str_eq(name, "white") {
        Some(ColorBasic { color: ColorNamed::White, bright })
    } else if str_eq(name, "default") {
        Some(ColorBasic { color: ColorNamed::Default, bright })
    } else {
        None
    }
}

impl ColorBasic {
    /// The SGR code of this color in one slot: the base code, moved up 60
    /// for a bright color and 10 for the background slot.
    pub open spec fn spec_code(&self, bg: bool) -> int {
        spec_color_bg_off(spec_color_bright(self.color.spec_code(), self.bright), bg)
    }

    /// The SGR code of this color in one slot.
    pub fn code(&self, bg: bool) -> (r: u8)
        ensures
            r as int == self.spec_code(bg),
    {
        let color = self.color.code();
        let color = color_bright(color, self.bright);
        let color = color_bg(color, bg);
        color
    }

    /// The named-color grammar: `_` denotes the default color; a string
    /// literal is resolved as a name; anything else is no named color.
    pub open spec fn spec_parse(t: Seq<Tok>, pos: int) -> Result<(ColorBasic, int), ParseError> {
        if pos < t.len() && t[pos] is Ident && t[pos]->Ident_0@ == "_"@ {
            Ok((ColorBasic { color: ColorNamed::Default, bright: false }, pos + 1))
        } else if pos < t.len() && t[pos] is Str {
            match spec_basic_of_name(t[pos]->Str_0@) {
                Some(cb) => Ok((cb, pos + 1)),
                None => Err(ParseError { kind: ErrorKind::InvalidColorName, pos: pos as usize }),
            }
        } else {
            Err(ParseError { kind: ErrorKind::ExpectedColorName, pos: pos as usize })
        }
    }

    /// Parses one named color; see `spec_parse`.
    pub fn parse(toks: &Vec<Tok>, pos: usize) -> (r: Result<(ColorBasic, usize), ParseError>)
        requires
            pos <= toks@.len(),
        ensures
            match r {
                Ok(v) => pos <= v.1 <= toks@.len() && Self::spec_parse(toks@, pos as int) == Ok::<
                    (ColorBasic, int),
                    ParseError,
                >((v.0, v.1 as int)),
                Err(e) => Self::spec_parse(toks@, pos as int) == Err::<(ColorBasic, int), ParseError>(
                    e,
                ),
            },
    {
        if pos >= toks.len() {
            return Err(ParseError { kind: ErrorKind::ExpectedColorName, pos });
        }
        match &toks[pos] {
            Tok::Ident(s) => {
                if str_eq(s.as_str(), "_") {
                    Ok((ColorBasic { color: ColorNamed::Default, bright: false }, pos + 1))
                } else {
                    Err(ParseError { kind: ErrorKind::ExpectedColorName, pos })
                }
            },
            Tok::Str(s) => match basic_of_name(s.as_str()) {
                Some(cb) => Ok((cb, pos + 1)),
                None => Err(ParseError { kind: ErrorKind::InvalidColorName, pos }),
            },
            _ => Err(ParseError { kind: ErrorKind::ExpectedColorName, pos }),
        }
    }
}

/// An 8-bit indexed color.
#[derive(Clone, Copy, Debug, Hash, PartialEq, Eq, Structural)]
pub struct Indexed(pub u8);

impl Indexed {
    /// The indexed-color grammar: a plain integer literal that fits a byte.
    pub open spec fn spec_parse(t: Seq<Tok>, pos: int) -> Result<(Indexed, int), ParseError> {
        if pos < t.len() && t[pos] is Int {
            let v = t[pos]->Int_0;
            if v <= 255 {
                Ok((Indexed(v as u8), pos + 1))
            } else {
                Err(ParseError { kind: ErrorKind::IntOutOfRange, pos: pos as usize })
            }
        } else {
            Err(ParseError { kind: ErrorKind::ExpectedInt, pos: pos as usize })
        }
    }

    /// Parses one indexed color; see `spec_parse`.
    pub fn parse(toks: &Vec<Tok>, pos: usize) -> (r: Result<(Indexed, usize), ParseError>)
        requires
            pos <= toks@.len(),
        ensures
            match r {
                Ok(v) => pos <= v.1 <= toks@.len() && Self::spec_parse(toks@, pos as int) == Ok::<
                    (Indexed, int),
                    ParseError,
                >((v.0, v.1 as int)),
                Err(e) => Self::spec_parse(toks@, pos as int) == Err::<(Indexed, int), ParseError>(
                    e,
                ),
            },
    {
        if pos >= toks.len() {
            return Err(ParseError { kind: ErrorKind::ExpectedInt, pos });
        }
        match &toks[pos] {
            Tok::Int(v) => {
                if *v <= 255 {
                    Ok((Indexed(*v as u8), pos + 1))
                } else {
                    Err(ParseError { kind: ErrorKind::IntOutOfRange, pos })
                }
            },
            _ => Err(ParseError { kind: ErrorKind::ExpectedInt, pos }),
        }
    }
}

/// Any color specification: named, indexed, or RGB.
#[derive(Clone, Copy, Debug, PartialEq, Eq, Structural)]
pub enum ColorAny {
    Basic(ColorBasic),
    Indexed(Indexed),
    Rgb(Rgb),
}

impl ColorAny {
    /// The opening parameter text of this color in one slot: a named color
    /// is its bare code; an indexed color is `38;5;N` (48 for background);
    /// an RGB color is `38;2;R;G;B` (48 for background).
    pub open spec fn spec_params(self, bg: bool) -> Seq<char> {
        match self {
            ColorAny::Basic(c) => spec_dec(c.spec_code(bg)),
            ColorAny::Indexed(i) => spec_dec(spec_color_bg_off(COLOR_SET as int, bg)) + ";5;"@
                + spec_dec(i.0 as int),
            ColorAny::Rgb(rgb) => spec_dec(spec_color_bg_off(COLOR_SET as int, bg)) + ";2;"@
                + spec_dec(rgb.r as int) + ";"@ + spec_dec(rgb.g as int) + ";"@ + spec_dec(
                rgb.b as int,
            ),
        }
    }

    /// The opening parameter text of this color in one slot.
    pub fn params(&self, bg: bool) -> (r: String)
        ensures
            r@ == self.spec_params(bg),
    {
        match self {
            ColorAny::Basic(c) => fmt_u8(c.code(bg)),
            ColorAny::Indexed(i) => {
                let mut s = fmt_u8(color_set(bg));
                s.append(";5;");
                s.append(fmt_u8(i.0).as_str());
                s
            },
            ColorAny::Rgb(rgb) => {
                let mut s = fmt_u8(color_set(bg));
                s.append(";2;");
                s.append(fmt_u8(rgb.r).as_str());
                s.append(";");
                s.append(fmt_u8(rgb.g).as_str());
                s.append(";");
                s.append(fmt_u8(rgb.b).as_str());
                s
            },
        }
    }

    /// The ordered trials of the color grammar: a named color, else an
    /// indexed color, else an RGB value. The order is load-bearing: a bare
    /// integer below 256 is indexed, never RGB.
    pub open spec fn spec_parse(t: Seq<Tok>, pos: int) -> Result<(ColorAny, int), ParseError> {
        if ColorBasic::spec_parse(t, pos) is Ok {
            let m = ColorBasic::spec_parse(t, pos)->Ok_0;
            Ok((ColorAny::Basic(m.0), m.1))
        } else if Indexed::spec_parse(t, pos) is Ok {
            let m = Indexed::spec_parse(t, pos)->Ok_0;
            Ok((ColorAny::Indexed(m.0), m.1))
        } else {
            match Rgb::spec_parse(t, pos) {
                Ok((rgb, p)) => Ok((ColorAny::Rgb(rgb), p)),
                Err(e) => Err(e),
            }
        }
    }

    /// Parses one color by ordered trials; see `spec_parse`.
    pub fn parse(toks: &Vec<Tok>, pos: usize) -> (r: Result<(ColorAny, usize), ParseError>)
        requires
            pos <= toks@.len(),
            toks_wf(toks@),
        ensures
            match r {
                Ok(v) => pos <= v.1 <= toks@.len() && Self::spec_parse(toks@, pos as int) == Ok::<
                    (ColorAny, int),
                    ParseError,
                >((v.0, v.1 as int)),
                Err(e) => Self::spec_parse(toks@, pos as int) == Err::<(ColorAny, int), ParseError>(
                    e,
                ),
            },
    {
        match ColorBasic::parse(toks, pos) {
            Ok((c, p)) => Ok((ColorAny::Basic(c), p)),
            Err(_) => match Indexed::parse(toks, pos) {
                Ok((i, p)) => Ok((ColorAny::Indexed(i), p)),
                Err(_) => match Rgb::parse(toks, pos) {
                    Ok((rgb, p)) => Ok((ColorAny::Rgb(rgb), p)),
                    Err(e) => Err(e),
                },
            },
        }
    }
}

/// What one side of a color pair asks for: an explicit color, an explicit
/// reset to the default, or no change at all.
#[derive(Clone, Copy, Debug, PartialEq, Eq, Structural)]
pub enum ColorChange {
    Apply(ColorAny),
    Reset,
    NoChange,
}

impl ColorChange {
    /// The mixing rule for one side's closing code. The initial action and
    /// the revert request combine so that a side that set a color follows
    /// its request exactly, an explicit new value or an explicit no-op in
    /// the request always wins, and a side that never set a color is never
    /// reset — even by an explicit reset request.
    pub open spec fn spec_mix(set: Option<ColorChange>, revert: Option<ColorChange>) -> Option<
        ColorChange,
    > {
        match (set, revert) {
            (Some(ColorChange::Apply(_)), r) => r,
            (_, Some(ColorChange::Apply(c))) => Some(ColorChange::Apply(c)),
            (_, Some(ColorChange::NoChange)) => Some(ColorChange::NoChange),
            _ => None,
        }
    }

    /// Combines an initial action with a revert request; see `spec_mix`.
    pub fn mix(set: Option<ColorChange>, revert: Option<ColorChange>) -> (r: Option<ColorChange>)
        ensures
            r == Self::spec_mix(set, revert),
    {
        match (set, revert) {
            (Some(ColorChange::Apply(_)), r) => r,
            (_, Some(ColorChange::Apply(c))) => Some(ColorChange::Apply(c)),
            (_, Some(ColorChange::NoChange)) => Some(ColorChange::NoChange),
            _ => None,
        }
    }

    /// The parameter text of this action in one slot: a set color's own
    /// parameters, the slot's default code for a reset, nothing for a no-op.
    pub open spec fn spec_params(self, bg: bool) -> Option<Seq<char>> {
        match self {
            ColorChange::Apply(color) => Some(color.spec_params(bg)),
            ColorChange::Reset => Some(spec_dec(spec_color_bg_off(COLOR_RESET as int, bg))),
            ColorChange::NoChange => None,
        }
    }

    /// The parameter text of this action in one slot.
    pub fn params(&self, bg: bool) -> (r: Option<String>)
        ensures
            opt_str_view(r) == self.spec_params(bg),
    {
        match self {
            ColorChange::Apply(color) => Some(color.params(bg)),
            ColorChange::Reset => Some(fmt_u8(color_reset(bg))),
            ColorChange::NoChange => None,
        }
    }

    /// The color-change grammar, total: `!` is an explicit no-op; a color
    /// that parses is an explicit set; anything else is a reset, consuming
    /// nothing.
    pub open spec fn spec_parse(t: Seq<Tok>, pos: int) -> (ColorChange, int) {
        if pos < t.len() && is_punct(t[pos], '!') {
            (ColorChange::NoChange, pos + 1)
        } else {
            match ColorAny::spec_parse(t, pos) {
                Ok((c, p)) => (ColorChange::Apply(c), p),
                Err(_) => (ColorChange::Reset, pos),
            }
        }
    }

    /// Parses one color change; see `spec_parse`. Never fails.
    pub fn parse(toks: &Vec<Tok>, pos: usize) -> (r: (ColorChange, usize))
        requires
            pos <= toks@.len(),
            toks_wf(toks@),
        ensures
            pos <= r.1 <= toks@.len(),
            Self::spec_parse(toks@, pos as int) == (r.0, r.1 as int),
    {
        if punct_at(toks, pos, '!') {
            (ColorChange::NoChange, pos + 1)
        } else {
            match ColorAny::parse(toks, pos) {
                Ok((c, p)) => (ColorChange::Apply(c), p),
                Err(_) => (ColorChange::Reset, pos),
            }
        }
    }
}

/// The joined parameter text of an optional foreground and an optional
/// background action: present sides that emit parameters are joined by `;`;
/// no emitting side means no sequence.
pub open spec fn spec_pair_params(fg: Option<ColorChange>, bg: Option<ColorChange>) -> Option<
    Seq<char>,
> {
    match (fg, bg) {
        (None, None) => None,
        (Some(f), None) => f.spec_params(false),
        (None, Some(b)) => b.spec_params(true),
        (Some(f), Some(b)) => match (f.spec_params(false), b.spec_params(true)) {
            (Some(x), Some(y)) => Some(x + ";"@ + y),
            (Some(x), None) => Some(x),
            (None, Some(y)) => Some(y),
            (None, None) => None,
        },
    }
}

/// Joins two optional sides' parameters; see `spec_pair_params`.
fn pair_params(fg: &Option<ColorChange>, bg: &Option<ColorChange>) -> (r: Option<String>)
    ensures
        opt_str_view(r) == spec_pair_params(*fg, *bg),
{
    match (fg, bg) {
        (Option::None, Option::None) => None,
        (Option::Some(f), Option::None) => f.params(false),
        (Option::None, Option::Some(b)) => b.params(true),
        (Option::Some(f), Option::Some(b)) => match (f.params(false), b.params(true)) {
            (Option::Some(x), Option::Some(y)) => {
                let mut s = x;
                s.append(";");
                s.append(y.as_str());
                Some(s)
            },
            (Option::Some(x), Option::None) => Some(x),
            (Option::None, Option::Some(y)) => Some(y),
            (Option::None, Option::None) => None,
        },
    }
}

/// The opening color pair of a `color` invocation: what each side sets.
#[derive(Clone, Copy, Debug, PartialEq, Eq, Structural)]
pub struct ColorSetPair {
    pub fg: Option<ColorChange>,
    pub bg: Option<ColorChange>,
}

/// True when the token at `pos` is the keyword `in`.
pub open spec fn spec_in_at(t: Seq<Tok>, pos: int) -> bool {
    pos < t.len() && t[pos] is Ident && t[pos]->Ident_0@ == "in"@
}

fn in_at(toks: &Vec<Tok>, pos: usize) -> (r: bool)
    requires
        pos <= toks@.len(),
    ensures
        r == spec_in_at(toks@, pos as int),
        toks@.len() <= usize::MAX,
{
    if pos < toks.len() {
        match &toks[pos] {
            Tok::Ident(s) => str_eq(s.as_str(), "in"),
            _ => false,
        }
    } else {
        false
    }
}

impl ColorSetPair {
    /// The opening-pair grammar: a bare `*` resets both sides; otherwise an
    /// optional foreground change (a bare reset counts as absent), then an
    /// optional `in` and a background change. A pair with neither side is an
    /// error.
    pub open spec fn spec_parse(t: Seq<Tok>, pos: int) -> Result<(ColorSetPair, int), ParseError> {
        if pos < t.len() && is_punct(t[pos], '*') {
            Ok(
                (
                    ColorSetPair {
                        fg: Some(ColorChange::Reset),
                        bg: Some(ColorChange::Reset),
                    },
                    pos + 1,
                ),
            )
        } else {
            let m = ColorChange::spec_parse(t, pos);
            let fg: Option<ColorChange> = if m.0 is Reset {
                None
            } else {
                Some(m.0)
            };
            let n: (Option<ColorChange>, int) = if spec_in_at(t, m.1) {
                let k = ColorChange::spec_parse(t, m.1 + 1);
                (Some(k.0), k.1)
            } else {
                (None, m.1)
            };
            if fg is None && n.0 is None {
                Err(ParseError { kind: ErrorKind::EmptyColor, pos: pos as usize })
            } else {
                Ok((ColorSetPair { fg, bg: n.0 }, n.1))
            }
        }
    }

    /// Parses the opening color pair; see `spec_parse`.
    pub fn parse(toks: &Vec<Tok>, pos: usize) -> (r: Result<(ColorSetPair, usize), ParseError>)
        requires
            pos <= toks@.len(),
            toks_wf(toks@),
        ensures
            match r {
                Ok(v) => pos <= v.1 <= toks@.len() && Self::spec_parse(toks@, pos as int) == Ok::<
                    (ColorSetPair, int),
                    ParseError,
                >((v.0, v.1 as int)),
                Err(e) => Self::spec_parse(toks@, pos as int) == Err::<
                    (ColorSetPair, int),
                    ParseError,
                >(e),
            },
    {
        if punct_at(toks, pos, '*') {
            Ok((ColorSetPair { fg: Some(ColorChange::Reset), bg: Some(ColorChange::Reset) }, pos + 1))
        } else {
            let (fgc, p1) = ColorChange::parse(toks, pos);
            let fg: Option<ColorChange> = if fgc == ColorChange::Reset {
                None
            } else {
                Some(fgc)
            };
            let (bg, p2): (Option<ColorChange>, usize) = if in_at(toks, p1) {
                let (bgc, p) = ColorChange::parse(toks, p1 + 1);
                (Some(bgc), p)
            } else {
                (None, p1)
            };
            if fg.is_none() && bg.is_none() {
                Err(ParseError { kind: ErrorKind::EmptyColor, pos })
            } else {
                Ok((ColorSetPair { fg, bg }, p2))
            }
        }
    }
}

impl SgrCode for ColorSetPair {
    open spec fn spec_params(&self) -> Option<Seq<char>> {
        spec_pair_params(self.fg, self.bg)
    }

    fn params(&self) -> (r: Option<String>) {
        pair_params(&self.fg, &self.bg)
    }
}

/// The revert clause of a `color` invocation: a per-side pair, a full
/// reset of both sides, or no closing sequence at all.
#[derive(Clone, Copy, Debug, PartialEq, Eq, Structural)]
pub enum ColorRevertPair {
    Pair { fg: Option<ColorChange>, bg: Option<ColorChange> },
    ResetAll,
    ResetNone,
}

impl ColorRevertPair {
    /// The default revert clause when none is written: ask a reset of both
    /// sides, which the mixing rule grants only to sides that set a color.
    pub open spec fn spec_reset_either() -> ColorRevertPair {
        ColorRevertPair::Pair { fg: Some(ColorChange::Reset), bg: Some(ColorChange::Reset) }
    }

    /// The default revert clause; see `spec_reset_either`.
    pub fn reset_either() -> (r: ColorRevertPair)
        ensures
            r == Self::spec_reset_either(),
    {
        ColorRevertPair::Pair { fg: Some(ColorChange::Reset), bg: Some(ColorChange::Reset) }
    }

    /// The revert-clause grammar, total: `!` suppresses both sides, `*`
    /// resets both sides fully; otherwise a foreground change and an
    /// optional `in` with a background change.
    pub open spec fn spec_parse(t: Seq<Tok>, pos: int) -> (ColorRevertPair, int) {
        if pos < t.len() && is_punct(t[pos], '!') {
            (ColorRevertPair::ResetNone, pos + 1)
        } else if pos < t.len() && is_punct(t[pos], '*') {
            (ColorRevertPair::ResetAll, pos + 1)
        } else {
            let m = ColorChange::spec_parse(t, pos);
            let n: (Option<ColorChange>, int) = if spec_in_at(t, m.1) {
                let k = ColorChange::spec_parse(t, m.1 + 1);
                (Some(k.0), k.1)
            } else {
                (None, m.1)
            };
            (ColorRevertPair::Pair { fg: Some(m.0), bg: n.0 }, n.1)
        }
    }

    /// Parses a revert clause; see `spec_parse`. Never fails.
    pub fn parse(toks: &Vec<Tok>, pos: usize) -> (r: (ColorRevertPair, usize))
        requires
            pos <= toks@.len(),
            toks_wf(toks@),
        ensures
            pos <= r.1 <= toks@.len(),
            Self::spec_parse(toks@, pos as int) == (r.0, r.1 as int),
    {
        if punct_at(toks, pos, '!') {
            (ColorRevertPair::ResetNone, pos + 1)
        } else if punct_at(toks, pos, '*') {
            (ColorRevertPair::ResetAll, pos + 1)
        } else {
            let (fgc, p1) = ColorChange::parse(toks, pos);
            let (bg, p2): (Option<ColorChange>, usize) = if in_at(toks, p1) {
                let (bgc, p) = ColorChange::parse(toks, p1 + 1);
                (Some(bgc), p)
            } else {
                (None, p1)
            };
            (ColorRevertPair::Pair { fg: Some(fgc), bg }, p2)
        }
    }
}

impl SgrCode for ColorRevertPair {
    open spec fn spec_params(&self) -> Option<Seq<char>> {
        match self {
            ColorRevertPair::Pair { fg, bg } => spec_pair_params(*fg, *bg),
            ColorRevertPair::ResetAll => Some("39;49"@),
            ColorRevertPair::ResetNone => None,
        }
    }

    fn params(&self) -> (r: Option<String>) {
        match self {
            ColorRevertPair::Pair { fg, bg } => pair_params(fg, bg),
            ColorRevertPair::ResetAll => Some(String::from_str("39;49")),
            ColorRevertPair::ResetNone => None,
        }
    }
}

/// The closing clause after mixing: each side of a written pair is combined
/// with what that side initially set; a full reset or a suppression stands
/// as written.
pub open spec fn spec_mixed_revert(set: ColorSetPair, revert: ColorRevertPair) -> ColorRevertPair {
    match revert {
        ColorRevertPair::Pair { fg, bg } => ColorRevertPair::Pair {
            fg: ColorChange::spec_mix(set.fg, fg),
            bg: ColorChange::spec_mix(set.bg, bg),
        },
        other => other,
    }
}

/// A full `color` invocation: the opening pair, the output mode, the
/// template when one is owed, the content tokens, and the revert clause as
/// written (not yet mixed).
pub struct SgrColor {
    pub color_set: ColorSetPair,
    pub output: Output,
    pub template: Option<String>,
    pub contents: Vec<Tok>,
    pub color_revert: ColorRevertPair,
}

/// The index of the first `;` at or after `pos`, if any.
pub open spec fn spec_find_semi(t: Seq<Tok>, pos: int) -> Option<int>
    decreases t.len() - pos,
{
    if pos < 0 || pos >= t.len() {
        None
    } else if is_punct(t[pos], ';') {
        Some(pos)
    } else {
        spec_find_semi(t, pos + 1)
    }
}

fn find_semi(toks: &Vec<Tok>, pos: usize) -> (r: Option<usize>)
    requires
        pos <= toks@.len(),
    ensures
        toks@.len() <= usize::MAX,
        match r {
            Some(j) => spec_find_semi(toks@, pos as int) == Some(j as int) && pos <= j
                < toks@.len(),
            None => spec_find_semi(toks@, pos as int) is None,
        },
    decreases toks@.len() - pos,
{
    if pos >= toks.len() {
        None
    } else if punct_at(toks, pos, ';') {
        Some(pos)
    } else {
        find_semi(toks, pos + 1)
    }
}

impl SgrColor {
    /// The full `color` grammar: the opening pair, a `;`, an optional
    /// output sigil (with an optional comma), the template when the output
    /// mode needs one, content tokens up to an optional `;`, and after that
    /// `;` a revert clause that must end the invocation. With no revert
    /// clause the default asks a reset of both sides.
    pub open spec fn spec_parse(t: Seq<Tok>, allow_const: bool) -> Result<
        (ColorSetPair, Output, Option<Seq<char>>, Seq<Tok>, ColorRevertPair),
        ParseError,
    > {
        match ColorSetPair::spec_parse(t, 0) {
            Err(e) => Err(e),
            Ok((set, p0)) => if !(p0 < t.len() && is_punct(t[p0], ';')) {
                Err(ParseError { kind: ErrorKind::ExpectedSemicolon, pos: p0 as usize })
            } else {
                match Output::spec_parse(t, p0 + 1, allow_const) {
                    Err(e) => Err(e),
                    Ok((output, p1)) => {
                        let p2 = if output.spec_has_sigil() && p1 < t.len() && is_punct(
                            t[p1],
                            ',',
                        ) {
                            p1 + 1
                        } else {
                            p1
                        };
                        let m: (Option<Seq<char>>, bool, int) = if output.spec_needs_template() {
                            if p2 < t.len() && t[p2] is Str {
                                if p2 + 1 < t.len() && is_punct(t[p2 + 1], ',') {
                                    (Some(t[p2]->Str_0@), true, p2 + 2)
                                } else {
                                    (Some(t[p2]->Str_0@), false, p2 + 1)
                                }
                            } else {
                                (Some("{}"@), true, p2)
                            }
                        } else {
                            (None, true, p2)
                        };
                        if !m.1 && m.2 < t.len() && !is_punct(t[m.2], ';') {
                            Err(ParseError { kind: ErrorKind::UnexpectedToken, pos: m.2 as usize })
                        } else {
                            match spec_find_semi(t, m.2) {
                                None => Ok(
                                    (
                                        set,
                                        output,
                                        m.0,
                                        t.subrange(m.2, t.len() as int),
                                        ColorRevertPair::spec_reset_either(),
                                    ),
                                ),
                                Some(s) => {
                                    let k = ColorRevertPair::spec_parse(t, s + 1);
                                    if k.1 == t.len() {
                                        Ok((set, output, m.0, t.subrange(m.2, s), k.0))
                                    } else {
                                        Err(
                                            ParseError {
                                                kind: ErrorKind::UnexpectedToken,
                                                pos: k.1 as usize,
                                            },
                                        )
                                    }
                                },
                            }
                        }
                    },
                }
            },
        }
    }

    /// Parses a full `color` invocation; see `spec_parse`.
    pub fn parse(toks: Vec<Tok>, allow_const: bool) -> (r: Result<SgrColor, ParseError>)
        requires
            toks_wf(toks@),
        ensures
            match r {
                Ok(c) => Self::spec_parse(toks@, allow_const) matches Ok(m) && c.color_set == m.0
                    && c.output == m.1 && opt_str_view(c.template) == m.2 && c.contents@ == m.3
                    && c.color_revert == m.4,
                Err(e) => Self::spec_parse(toks@, allow_const) matches Err(se) && se == e,
            },
    {
        let (set, p0) = match ColorSetPair::parse(&toks, 0) {
            Ok(v) => v,
            Err(e) => {
                return Err(e);
            },
        };
        if !punct_at(&toks, p0, ';') {
            return Err(ParseError { kind: ErrorKind::ExpectedSemicolon, pos: p0 });
        }
        let (output, p1) = match Output::parse(&toks, p0 + 1, allow_const) {
            Ok(v) => v,
            Err(e) => {
                return Err(e);
            },
        };
        let p2 = if output.has_sigil() && punct_at(&toks, p1, ',') {
            p1 + 1
        } else {
            p1
        };
        let mut template: Option<String> = None;
        let mut get_more: bool = true;
        let mut p3: usize = p2;
        if output.needs_template() {
            let mut found = false;
            if p2 < toks.len() {
                match &toks[p2] {
                    Tok::Str(s) => {
                        template = Some(s.clone());
                        found = true;
                    },
                    _ => {},
                }
            }
            if found {
                if punct_at(&toks, p2 + 1, ',') {
                    get_more = true;
                    p3 = p2 + 2;
                } else {
                    get_more = false;
                    p3 = p2 + 1;
                }
            } else {
                template = Some(String::from_str("{}"));
                get_more = true;
                p3 = p2;
            }
        }
        if !get_more && p3 < toks.len() && !punct_at(&toks, p3, ';') {
            return Err(ParseError { kind: ErrorKind::UnexpectedToken, pos: p3 });
        }
        match find_semi(&toks, p3) {
            None => {
                let mut toks = toks;
                let contents = toks.split_off(p3);
                Ok(
                    SgrColor {
                        color_set: set,
                        output,
                        template,
                        contents,
                        color_revert: ColorRevertPair::reset_either(),
                    },
                )
            },
            Some(s) => {
                let (rev, p5) = ColorRevertPair::parse(&toks, s + 1);
                if p5 == toks.len() {
                    let ghost t0 = toks@;
                    let mut toks = toks;
                    let mut contents = toks.split_off(p3);
                    let _rest = contents.split_off(s - p3);
                    proof {
                        assert(contents@ =~= t0.subrange(p3 as int, s as int));
                    }
                    Ok(SgrColor { color_set: set, output, template, contents, color_revert: rev })
                } else {
                    Err(ParseError { kind: ErrorKind::UnexpectedToken, pos: p5 })
                }
            },
        }
    }

    /// The opening pair of this invocation.
    pub fn fmt_opening(&self) -> (r: ColorSetPair)
        ensures
            r == self.color_set,
    {
        self.color_set
    }

    /// The closing clause of this invocation, after mixing each written
    /// side with what that side initially set.
    pub fn fmt_closing(&self) -> (r: ColorRevertPair)
        ensures
            r == spec_mixed_revert(self.color_set, self.color_revert),
    {
        match self.color_revert {
            ColorRevertPair::Pair { fg, bg } => ColorRevertPair::Pair {
                fg: ColorChange::mix(self.color_set.fg, fg),
                bg: ColorChange::mix(self.color_set.bg, bg),
            },
            other => other,
        }
    }

    /// The output mode of this invocation.
    pub fn output(&self) -> (r: Output)
        ensures
            r == self.output,
    {
        self.output
    }

    /// Resolves this invocation into one of the generated-code forms.
    pub fn into_code(self) -> (r: crate::gen::GenCode)
        requires
            self.output.spec_needs_template() <==> self.template is Some,
        ensures
            r@ == crate::gen::spec_generate(
                self.output,
                crate::sgr::traits::spec_render(self.color_set.spec_params()),
                crate::sgr::traits::spec_render(
                    spec_mixed_revert(self.color_set, self.color_revert).spec_params(),
                ),
                opt_str_view(self.template),
                self.contents@,
            ),
    {
        let opening = self.fmt_opening().render();
        let closing = self.fmt_closing().render();
        crate::gen::generate(self.output, opening, closing, self.template, self.contents)
    }
}

} // verus!
