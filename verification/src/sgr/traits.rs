//! The rendering contract every parameter-carrying code shares: a code
//! either names a parameter list (possibly empty) or suppresses its control
//! sequence entirely.

use vstd::prelude::*;

use crate::text::opt_str_view;
use crate::text::push_char;

verus! {

/// The full control-sequence text for a parameter list: the escape byte,
/// `[`, the parameters, and `m`; or nothing at all when no sequence is owed.
pub open spec fn spec_render(params: Option<Seq<char>>) -> Seq<char> {
    match params {
        Some(p) => seq!['\u{1b}', '['] + p + seq!['m'],
        None => Seq::<char>::empty(),
    }
}

/// One opening or closing SGR code. `params` yields the `;`-joined
/// parameter text, or nothing when no control sequence is to be emitted;
/// an empty parameter text still emits the bare sequence `ESC[m`.
pub trait SgrCode {
    /// The parameter text this code denotes.
    spec fn spec_params(&self) -> Option<Seq<char>>;

    /// The parameter text, as a string.
    fn params(&self) -> (r: Option<String>)
        ensures
            opt_str_view(r) == self.spec_params(),
    ;

    /// Renders the full control sequence, or the empty string.
    fn render(&self) -> (r: String)
        ensures
            r@ == spec_render(self.spec_params()),
    {
        match self.params() {
            Some(p) => {
                let mut s = String::new();
                push_char(&mut s, '\u{1b}');
                push_char(&mut s, '[');
                s.append(p.as_str());
                push_char(&mut s, 'm');
                proof {
                    assert(s@ =~= spec_render(self.spec_params()));
                }
                s
            },
            None => String::new(),
        }
    }
}

/// A plain string is its own parameter text; it always renders a sequence.
impl SgrCode for String {
    open spec fn spec_params(&self) -> Option<Seq<char>> {
        Some(self@)
    }

    fn params(&self) -> (r: Option<String>) {
        Some(self.clone())
    }
}

} // verus!
