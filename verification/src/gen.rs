//! The code-generation backend: the resolved output forms, and an evaluator
//! for the forms whose arguments are all string literals. The evaluator is
//! the compile-time meaning of the generated code: literal concatenation for
//! the concat form, template substitution for the templated forms.

use vstd::prelude::*;

use crate::sgr::base::Output;
use crate::text::opt_str_view;
use crate::text::push_char;
use crate::text::str_eq;
use crate::tok::Tok;
use crate::tok::is_punct;

verus! {

/// The resolved output of one invocation.
///
/// The concat form keeps its rendered opening and closing sequences apart,
/// ready for literal concatenation around the raw content tokens. The
/// templated forms (const-format, deferred format, owned string) share one
/// shape: a composed template that already carries the opening and closing
/// sequences, and the content tokens as substitution arguments.
#[derive(Debug)]
pub enum GenCode {
    Concat { opening: String, contents: Vec<Tok>, closing: String },
    Template { output: Output, template: String, contents: Vec<Tok> },
}

/// The mathematical shape of a resolved output form.
pub enum GenCodeView {
    Concat { opening: Seq<char>, contents: Seq<Tok>, closing: Seq<char> },
    Template { output: Output, template: Seq<char>, contents: Seq<Tok> },
}

impl View for GenCode {
    type V = GenCodeView;

    open spec fn view(&self) -> GenCodeView {
        match self {
            GenCode::Concat { opening, contents, closing } => GenCodeView::Concat {
                opening: opening@,
                contents: contents@,
                closing: closing@,
            },
            GenCode::Template { output, template, contents } => GenCodeView::Template {
                output: *output,
                template: template@,
                contents: contents@,
            },
        }
    }
}

/// What the generator produces from a resolved invocation: the concat form
/// for concat output, else one composed template `opening template closing`.
pub open spec fn spec_generate(
    output: Output,
    opening: Seq<char>,
    closing: Seq<char>,
    template: Option<Seq<char>>,
    contents: Seq<Tok>,
) -> GenCodeView {
    if output is Concat {
        GenCodeView::Concat { opening, contents, closing }
    } else {
        let t = match template {
            Some(t) => t,
            None => Seq::<char>::empty(),
        };
        GenCodeView::Template { output, template: opening + t + closing, contents }
    }
}

/// Resolves an invocation into its generated form. The opening and closing
/// strings are already-rendered control sequences (or empty); a template is
/// present exactly when the output mode needs one.
pub fn generate(
    output: Output,
    opening: String,
    closing: String,
    template: Option<String>,
    contents: Vec<Tok>,
) -> (r: GenCode)
    requires
        output.spec_needs_template() <==> template is Some,
    ensures
        r@ == spec_generate(output, opening@, closing@, opt_str_view(template), contents@),
{
    match output {
        Output::Concat => GenCode::Concat { opening, contents, closing },
        _ => {
            let t = match template {
                Some(t) => t,
                None => String::new(),
            };
            let mut composed = opening;
            composed.append(t.as_str());
            composed.append(closing.as_str());
            GenCode::Template { output, template: composed, contents }
        },
    }
}

/// Reads a content token sequence as a comma-separated argument list whose
/// values are all string literals: positional arguments `"v"` and named
/// arguments `name = "v"`, with an optional trailing comma. Yields nothing
/// when any argument has another shape.
pub open spec fn spec_eval_args(t: Seq<Tok>, i: int) -> Option<
    (Seq<Seq<char>>, Seq<(Seq<char>, Seq<char>)>),
>
    decreases t.len() - i,
{
    if i < 0 || i >= t.len() {
        Some((Seq::<Seq<char>>::empty(), Seq::<(Seq<char>, Seq<char>)>::empty()))
    } else if t[i] is Str {
        let v = t[i]->Str_0@;
        if i + 1 == t.len() {
            Some((seq![v], Seq::<(Seq<char>, Seq<char>)>::empty()))
        } else if is_punct(t[i + 1], ',') {
            match spec_eval_args(t, i + 2) {
                Some((pos, named)) => Some((seq![v] + pos, named)),
                None => None,
            }
        } else {
            None
        }
    } else if i + 3 <= t.len() && t[i] is Ident && is_punct(t[i + 1], '=') && t[i + 2] is Str {
        let name = t[i]->Ident_0@;
        let v = t[i + 2]->Str_0@;
        if i + 3 == t.len() {
            Some((Seq::<Seq<char>>::empty(), seq![(name, v)]))
        } else if is_punct(t[i + 3], ',') {
            match spec_eval_args(t, i + 4) {
                Some((pos, named)) => Some((pos, seq![(name, v)] + named)),
                None => None,
            }
        } else {
            None
        }
    } else {
        None
    }
}

/// Splits content tokens into positional and named string arguments; see
/// `spec_eval_args` for the accepted shape.
pub fn eval_args(toks: &Vec<Tok>, pos: usize) -> (r: Option<(Vec<String>, Vec<(String, String)>)>)
    requires
        pos <= toks@.len(),
    ensures
        match r {
            Some(a) => spec_eval_args(toks@, pos as int) == Some((a.0.deep_view(), a.1.deep_view())),
            None => spec_eval_args(toks@, pos as int) is None,
        },
    decreases toks@.len() - pos,
{
    if pos >= toks.len() {
        let p: Vec<String> = Vec::new();
        let n: Vec<(String, String)> = Vec::new();
        proof {
            assert(p.deep_view() =~= Seq::<Seq<char>>::empty());
            assert(n.deep_view() =~= Seq::<(Seq<char>, Seq<char>)>::empty());
        }
        return Some((p, n));
    }
    match &toks[pos] {
        Tok::Str(v) => {
            if pos + 1 == toks.len() {
                let mut p: Vec<String> = Vec::new();
                p.push(v.clone());
                let n: Vec<(String, String)> = Vec::new();
                proof {
                    assert(p.deep_view() =~= seq![v@]);
                    assert(n.deep_view() =~= Seq::<(Seq<char>, Seq<char>)>::empty());
                }
                Some((p, n))
            } else if crate::tok::punct_at(toks, pos + 1, ',') {
                match eval_args(toks, pos + 2) {
                    Some((mut p, n)) => {
                        p.insert(0, v.clone());
                        proof {
                            let rest = spec_eval_args(toks@, pos + 2)->Some_0;
                            assert(p.deep_view() =~= seq![v@] + rest.0);
                        }
                        Some((p, n))
                    },
                    None => None,
                }
            } else {
                None
            }
        },
        Tok::Ident(name) => {
            let n = toks.len();
            if n >= 3 && pos <= n - 3 && crate::tok::punct_at(toks, pos + 1, '=') {
                let v = match &toks[pos + 2] {
                    Tok::Str(v) => v.clone(),
                    _ => {
                        return None;
                    },
                };
                if pos + 3 == toks.len() {
                    let p: Vec<String> = Vec::new();
                    let mut n: Vec<(String, String)> = Vec::new();
                    n.push((name.clone(), v));
                    proof {
                        assert(p.deep_view() =~= Seq::<Seq<char>>::empty());
                        assert(n.deep_view() =~= seq![(name@, toks@[pos + 2]->Str_0@)]);
                    }
                    Some((p, n))
                } else if crate::tok::punct_at(toks, pos + 3, ',') {
                    match eval_args(toks, pos + 4) {
                        Some((p, mut n)) => {
                            n.insert(0, (name.clone(), v));
                            proof {
                                let rest = spec_eval_args(toks@, pos + 4)->Some_0;
                                assert(n.deep_view() =~= seq![(name@, toks@[pos + 2]->Str_0@)]
                                    + rest.1);
                            }
                            Some((p, n))
                        },
                        None => None,
                    }
                } else {
                    None
                }
            } else {
                None
            }
        },
        _ => None,
    }
}

/// The index of the first `}` at or after `i`, if any.
pub open spec fn spec_find_close(tpl: Seq<char>, i: int) -> Option<int>
    decreases tpl.len() - i,
{
    if i < 0 || i >= tpl.len() {
        None
    } else if tpl[i] == '}' {
        Some(i)
    } else {
        spec_find_close(tpl, i + 1)
    }
}

fn find_close(tpl: &str, i: usize) -> (r: Option<usize>)
    requires
        i <= tpl@.len(),
    ensures
        match r {
            Some(j) => spec_find_close(tpl@, i as int) == Some(j as int) && i <= j < tpl@.len(),
            None => spec_find_close(tpl@, i as int) is None,
        },
    decreases tpl@.len() - i,
{
    if i >= tpl.unicode_len() {
        None
    } else if tpl.get_char(i) == '}' {
        Some(i)
    } else {
        find_close(tpl, i + 1)
    }
}

/// The value bound to a name in a named-argument list: the first match.
pub open spec fn spec_lookup(named: Seq<(Seq<char>, Seq<char>)>, name: Seq<char>) -> Option<
    Seq<char>,
>
    decreases named.len(),
{
    if named.len() == 0 {
        None
    } else if named[0].0 == name {
        Some(named[0].1)
    } else {
        spec_lookup(named.drop_first(), name)
    }
}

fn lookup(named: &Vec<(String, String)>, name: &str) -> (r: Option<String>)
    ensures
        opt_str_view(r) == spec_lookup(named.deep_view(), name@),
{
    let n = named.len();
    let mut i: usize = 0;
    proof {
        assert(named.deep_view().len() == named@.len());
        assert(named.deep_view().subrange(0, n as int) =~= named.deep_view());
    }
    while i < n
        invariant
            n == named@.len(),
            i <= n,
            spec_lookup(named.deep_view(), name@) == spec_lookup(
                named.deep_view().subrange(i as int, n as int),
                name@,
            ),
        decreases n - i,
    {
        if str_eq(named[i].0.as_str(), name) {
            proof {
                assert(named.deep_view().subrange(i as int, n as int)[0] == (
                    named@[i as int].0@,
                    named@[i as int].1@,
                ));
            }
            return Some(named[i].1.clone());
        }
        proof {
            assert(named.deep_view().subrange(i as int, n as int).drop_first()
                =~= named.deep_view().subrange(i + 1, n as int));
        }
        i = i + 1;
    }
    proof {
        assert(named.deep_view().subrange(n as int, n as int) =~= Seq::<
            (Seq<char>, Seq<char>),
        >::empty());
    }
    None
}

/// Substitutes a template's placeholders with its arguments: `{}` takes the
/// next positional argument (`k` counts those already used), `{name}` takes
/// a named argument, `{{` and `}}` are literal braces. Yields nothing when
/// a placeholder has no argument or a brace is unmatched.
pub open spec fn spec_subst(
    tpl: Seq<char>,
    i: int,
    pos: Seq<Seq<char>>,
    k: int,
    named: Seq<(Seq<char>, Seq<char>)>,
) -> Option<Seq<char>>
    decreases tpl.len() - i,
{
    if i < 0 || i >= tpl.len() {
        Some(Seq::<char>::empty())
    } else if tpl[i] == '{' {
        if i + 1 < tpl.len() && tpl[i + 1] == '{' {
            match spec_subst(tpl, i + 2, pos, k, named) {
                Some(rest) => Some(seq!['{'] + rest),
                None => None,
            }
        } else if i + 1 < tpl.len() && tpl[i + 1] == '}' {
            if 0 <= k < pos.len() {
                match spec_subst(tpl, i + 2, pos, k + 1, named) {
                    Some(rest) => Some(pos[k] + rest),
                    None => None,
                }
            } else {
                None
            }
        } else {
            match spec_find_close(tpl, i + 1) {
                Some(j) => if i < j && j < tpl.len() {
                    match spec_lookup(named, tpl.subrange(i + 1, j)) {
                        Some(v) => match spec_subst(tpl, j + 1, pos, k, named) {
                            Some(rest) => Some(v + rest),
                            None => None,
                        },
                        None => None,
                    }
                } else {
                    None
                },
                None => None,
            }
        }
    } else if tpl[i] == '}' {
        if i + 1 < tpl.len() && tpl[i + 1] == '}' {
            match spec_subst(tpl, i + 2, pos, k, named) {
                Some(rest) => Some(seq!['}'] + rest),
                None => None,
            }
        } else {
            None
        }
    } else {
        match spec_subst(tpl, i + 1, pos, k, named) {
            Some(rest) => Some(seq![tpl[i]] + rest),
            None => None,
        }
    }
}

fn subst_at(tpl: &str, i: usize, pos: &Vec<String>, k: usize, named: &Vec<(String, String)>) -> (r:
    Option<String>)
    requires
        i <= tpl@.len(),
        k <= pos@.len(),
    ensures
        match r {
            Some(s) => spec_subst(tpl@, i as int, pos.deep_view(), k as int, named.deep_view())
                == Some(s@),
            None => spec_subst(tpl@, i as int, pos.deep_view(), k as int, named.deep_view())
                is None,
        },
    decreases tpl@.len() - i,
{
    let n = tpl.unicode_len();
    if i >= n {
        return Some(String::new());
    }
    let c = tpl.get_char(i);
    if c == '{' {
        if i + 1 < n && tpl.get_char(i + 1) == '{' {
            match subst_at(tpl, i + 2, pos, k, named) {
                Some(rest) => {
                    let mut s = String::new();
                    push_char(&mut s, '{');
                    s.append(rest.as_str());
                    proof {
                        assert(s@ =~= seq!['{']
                            + spec_subst(tpl@, i + 2, pos.deep_view(), k as int, named.deep_view())->Some_0);
                    }
                    Some(s)
                },
                None => None,
            }
        } else if i + 1 < n && tpl.get_char(i + 1) == '}' {
            if k < pos.len() {
                match subst_at(tpl, i + 2, pos, k + 1, named) {
                    Some(rest) => {
                        let mut s = pos[k].clone();
                        s.append(rest.as_str());
                        Some(s)
                    },
                    None => None,
                }
            } else {
                None
            }
        } else {
            match find_close(tpl, i + 1) {
                Some(j) => {
                    let name = tpl.substring_char(i + 1, j);
                    match lookup(named, name) {
                        Some(v) => match subst_at(tpl, j + 1, pos, k, named) {
                            Some(rest) => {
                                let mut s = v;
                                s.append(rest.as_str());
                                Some(s)
                            },
                            None => None,
                        },
                        None => None,
                    }
                },
                None => None,
            }
        }
    } else if c == '}' {
        if i + 1 < n && tpl.get_char(i + 1) == '}' {
            match subst_at(tpl, i + 2, pos, k, named) {
                Some(rest) => {
                    let mut s = String::new();
                    push_char(&mut s, '}');
                    s.append(rest.as_str());
                    proof {
                        assert(s@ =~= seq!['}']
                            + spec_subst(tpl@, i + 2, pos.deep_view(), k as int, named.deep_view())->Some_0);
                    }
                    Some(s)
                },
                None => None,
            }
        } else {
            None
        }
    } else {
        match subst_at(tpl, i + 1, pos, k, named) {
            Some(rest) => {
                let mut s = String::new();
                push_char(&mut s, c);
                s.append(rest.as_str());
                proof {
                    assert(s@ =~= seq![tpl@[i as int]]
                        + spec_subst(tpl@, i + 1, pos.deep_view(), k as int, named.deep_view())->Some_0);
                }
                Some(s)
            },
            None => None,
        }
    }
}

/// Substitutes every placeholder of a template with the given arguments.
pub fn subst(tpl: &str, pos: &Vec<String>, named: &Vec<(String, String)>) -> (r: Option<String>)
    ensures
        match r {
            Some(s) => spec_subst(tpl@, 0, pos.deep_view(), 0, named.deep_view()) == Some(s@),
            None => spec_subst(tpl@, 0, pos.deep_view(), 0, named.deep_view()) is None,
        },
{
    subst_at(tpl, 0, pos, 0, named)
}

/// The concatenation of a sequence of texts, in order.
pub open spec fn spec_concat_all(parts: Seq<Seq<char>>) -> Seq<char>
    decreases parts.len(),
{
    if parts.len() == 0 {
        Seq::<char>::empty()
    } else {
        parts[0] + spec_concat_all(parts.drop_first())
    }
}

fn concat_all(parts: &Vec<String>) -> (r: String)
    ensures
        r@ == spec_concat_all(parts.deep_view()),
{
    let n = parts.len();
    let mut out = String::new();
    let mut i: usize = 0;
    proof {
        assert(parts.deep_view().len() == parts@.len());
        assert(parts.deep_view().subrange(0, n as int) =~= parts.deep_view());
    }
    while i < n
        invariant
            n == parts@.len(),
            i <= n,
            out@ + spec_concat_all(parts.deep_view().subrange(i as int, n as int))
                == spec_concat_all(parts.deep_view()),
        decreases n - i,
    {
        proof {
            assert(parts.deep_view().subrange(i as int, n as int).drop_first()
                =~= parts.deep_view().subrange(i + 1, n as int));
            assert(parts.deep_view().subrange(i as int, n as int)[0] == parts@[i as int]@);
        }
        out.append(parts[i].as_str());
        i = i + 1;
    }
    proof {
        assert(parts.deep_view().subrange(n as int, n as int) =~= Seq::<Seq<char>>::empty());
    }
    out
}

/// What a generated form evaluates to when every content argument is a
/// string literal: the concat form is the opening sequence, the arguments in
/// order, and the closing sequence; a templated form is its composed
/// template with every placeholder substituted. Nothing when a content
/// token is not part of a literal argument list, when a concat form carries
/// a named argument, or when substitution fails.
pub open spec fn spec_eval_code(code: GenCodeView) -> Option<Seq<char>> {
    match code {
        GenCodeView::Concat { opening, contents, closing } => match spec_eval_args(contents, 0) {
            Some((pos, named)) => if named.len() == 0 {
                Some(opening + spec_concat_all(pos) + closing)
            } else {
                None
            },
            None => None,
        },
        GenCodeView::Template { output, template, contents } => match spec_eval_args(contents, 0) {
            Some((pos, named)) => spec_subst(template, 0, pos, 0, named),
            None => None,
        },
    }
}

/// Evaluates a generated form whose arguments are all string literals.
pub fn eval_code(code: &GenCode) -> (r: Option<String>)
    ensures
        match r {
            Some(s) => spec_eval_code(code@) == Some(s@),
            None => spec_eval_code(code@) is None,
        },
{
    match code {
        GenCode::Concat { opening, contents, closing } => match eval_args(contents, 0) {
            Some((pos, named)) => {
                if named.len() == 0 {
                    proof {
                        assert(named.deep_view().len() == 0);
                    }
                    let mut s = opening.clone();
                    s.append(concat_all(&pos).as_str());
                    s.append(closing.as_str());
                    Some(s)
                } else {
                    proof {
                        assert(named.deep_view().len() != 0);
                    }
                    None
                }
            },
            None => None,
        },
        GenCode::Template { output: _, template, contents } => match eval_args(contents, 0) {
            Some((pos, named)) => subst(template.as_str(), &pos, &named),
            None => None,
        },
    }
}

} // verus!
