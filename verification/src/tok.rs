//! The lexical token model that every parser in this crate works on.
//!
//! A macro invocation arrives as a flat sequence of tokens; a parenthesized
//! group is one token holding its own sequence. A float literal is kept as
//! its decimal parts (whole part and fraction digits) so that channel
//! scaling can be stated and verified exactly, over the digits.

use vstd::prelude::*;

verus! {

/// A float literal, as decimal text: `whole . frac[0] frac[1] ...`.
/// Each fraction entry is one decimal digit. A leading minus sign is a
/// separate `Tok::Punct('-')` token.
#[derive(Debug)]
pub struct FloatLit {
    pub whole: u64,
    pub frac: Vec<u8>,
}

/// One lexical token of a macro invocation.
#[derive(Debug)]
pub enum Tok {
    /// An identifier or keyword (`in`, `_`, argument names).
    Ident(String),
    /// A single punctuation character (`@`, `%`, `#`, `!`, `*`, `;`, `,`, `=`, `-`).
    Punct(char),
    /// An integer literal, by value.
    Int(u128),
    /// A float literal, by decimal parts.
    Float(FloatLit),
    /// A string literal, by its unescaped text.
    Str(String),
    /// A parenthesized group of tokens.
    Group(Vec<Tok>),
}

/// Every fraction entry of a float literal is one decimal digit.
pub open spec fn float_wf(f: FloatLit) -> bool {
    forall|i: int| 0 <= i < f.frac@.len() ==> f.frac@[i] < 10
}

/// Well-formedness of one token, floats only: a float literal carries
/// decimal digits. The channel parsers rely on this and on nothing deeper.
pub open spec fn float_tok_wf(t: Tok) -> bool {
    match t {
        Tok::Float(f) => float_wf(f),
        _ => true,
    }
}

/// Every float literal at the top level of the sequence carries decimal
/// digits. This is what the channel parsers ask of a group's contents.
pub open spec fn floats_wf(ts: Seq<Tok>) -> bool {
    forall|i: int| 0 <= i < ts.len() ==> #[trigger] float_tok_wf(ts[i])
}

/// Well-formedness of one top-level token: its own float digits, and those
/// of the tokens directly inside it when it is a group.
pub open spec fn tok_wf(t: Tok) -> bool {
    match t {
        Tok::Float(f) => float_wf(f),
        Tok::Group(v) => floats_wf(v@),
        _ => true,
    }
}

/// Well-formedness of a token sequence: every float literal in it, at top
/// level or directly inside a group, carries decimal digits.
pub open spec fn toks_wf(ts: Seq<Tok>) -> bool {
    forall|i: int| 0 <= i < ts.len() ==> #[trigger] tok_wf(ts[i])
}

/// Why an invocation was rejected.
#[derive(Clone, Copy, Debug, PartialEq, Eq, Structural)]
pub enum ErrorKind {
    /// The const-format output sigil was used without the capability enabled.
    ConstCapability,
    /// A color pair with neither a foreground nor a background side.
    EmptyColor,
    /// A color name string that names no known color.
    InvalidColorName,
    /// An integer RGB literal above 24 bits.
    RgbTooLarge,
    /// A string RGB literal that is not a valid hex color.
    InvalidRgbString,
    /// A float channel below zero.
    ChannelNegative,
    /// A float channel above one.
    ChannelTooLarge,
    /// An integer literal where none fits the expected range.
    IntOutOfRange,
    /// An integer literal was required and absent.
    ExpectedInt,
    /// A channel value (integer or float) was required and absent.
    ExpectedChannel,
    /// No RGB form (group, string, or integer) was found.
    ExpectedRgb,
    /// No color name string was found.
    ExpectedColorName,
    /// A `;` separator was required and absent.
    ExpectedSemicolon,
    /// A `,` separator was required and absent.
    ExpectedComma,
    /// Tokens were left over after the grammar was exhausted.
    UnexpectedToken,
}

/// A parse failure: what went wrong, and at which token.
#[derive(Clone, Copy, Debug, PartialEq, Eq, Structural)]
pub struct ParseError {
    pub kind: ErrorKind,
    /// Index of the offending token in the invocation's token sequence.
    pub pos: usize,
}

impl ParseError {
    /// The diagnostic text for this failure.
    pub fn describe(&self) -> (r: &'static str)
        ensures
            self.kind is ChannelNegative ==> r@ == "RGB channel cannot be negative"@,
            self.kind is ChannelTooLarge ==> r@ == "RGB channel cannot exceed 1.0"@,
            self.kind is RgbTooLarge ==> r@ == "RGB color value exceeds 24 bits"@,
            self.kind is EmptyColor ==> r@ == "empty color"@,
            self.kind is InvalidColorName ==> r@ == "invalid color"@,
    {
        match self.kind {
            ErrorKind::ConstCapability => "mode sigil requires the const capability",
            ErrorKind::EmptyColor => "empty color",
            ErrorKind::InvalidColorName => "invalid color",
            ErrorKind::RgbTooLarge => "RGB color value exceeds 24 bits",
            ErrorKind::InvalidRgbString => "invalid hex color string",
            ErrorKind::ChannelNegative => "RGB channel cannot be negative",
            ErrorKind::ChannelTooLarge => "RGB channel cannot exceed 1.0",
            ErrorKind::IntOutOfRange => "integer out of range",
            ErrorKind::ExpectedInt => "expected integer literal",
            ErrorKind::ExpectedChannel => "expected integer or float literal",
            ErrorKind::ExpectedRgb => "expected RGB color value",
            ErrorKind::ExpectedColorName => "expected color name",
            ErrorKind::ExpectedSemicolon => "expected `;`",
            ErrorKind::ExpectedComma => "expected `,`",
            ErrorKind::UnexpectedToken => "unexpected token",
        }
    }
}

/// True when the token at `pos` is the punctuation character `c`.
pub open spec fn is_punct(t: Tok, c: char) -> bool {
    t matches Tok::Punct(p) && p == c
}

/// Checks whether the token at `pos` is the punctuation character `c`;
/// false when the sequence is exhausted.
pub fn punct_at(toks: &Vec<Tok>, pos: usize, c: char) -> (r: bool)
    requires
        pos <= toks@.len(),
    ensures
        r == (pos < toks@.len() && is_punct(toks@[pos as int], c)),
        toks@.len() <= usize::MAX,
{
    if pos < toks.len() {
        match &toks[pos] {
            Tok::Punct(p) => *p == c,
            _ => false,
        }
    } else {
        false
    }
}

} // verus!
