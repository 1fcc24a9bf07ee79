//! The token model shared by every pipeline stage.
//!
//! A declaration is a flat sequence of tokens: identifiers, literals,
//! punctuation characters, and explicit open/close markers for the three
//! grouping delimiters. The parser tracks delimiter nesting itself, so no
//! recursive token tree is needed.

use vstd::prelude::*;

verus! {

/// A grouping delimiter: `( )`, `[ ]` or `{ }`.
#[derive(Clone, Copy, PartialEq, Eq, Structural, Debug)]
pub enum Delim {
    Paren,
    Bracket,
    Brace,
}

/// One token of a declaration.
#[derive(Debug)]
pub enum Tok {
    /// An identifier or keyword, e.g. `struct`, `read`, `TcpStream`.
    Ident(String),
    /// A literal, e.g. a tuple index or a doc string.
    Lit(String),
    /// A single punctuation character, e.g. `<`, `:`, `,`, `#`, `'`.
    Punct(char),
    /// The opening of a delimited group.
    Open(Delim),
    /// The closing of a delimited group.
    Close(Delim),
}

/// The mathematical value of a token.
pub enum TokV {
    Ident(Seq<char>),
    Lit(Seq<char>),
    Punct(char),
    Open(Delim),
    Close(Delim),
}

impl View for Tok {
    type V = TokV;

    open spec fn view(&self) -> TokV {
        match self {
            Tok::Ident(s) => TokV::Ident(s@),
            Tok::Lit(s) => TokV::Lit(s@),
            Tok::Punct(c) => TokV::Punct(*c),
            Tok::Open(d) => TokV::Open(*d),
            Tok::Close(d) => TokV::Close(*d),
        }
    }
}

/// The values of a whole token sequence.
pub open spec fn toks_view(s: Seq<Tok>) -> Seq<TokV> {
    s.map_values(|t: Tok| t@)
}

/// Appending one token appends its value.
pub proof fn lemma_toks_view_push(s: Seq<Tok>, t: Tok)
    ensures
        toks_view(s.push(t)) == toks_view(s) + seq![t@],
{
    assert(toks_view(s.push(t)) =~= toks_view(s) + seq![t@]);
}

/// A fresh token with the same value.
pub fn tok_copy(t: &Tok) -> (r: Tok)
    ensures
        r@ == t@,
{
    match t {
        Tok::Ident(s) => Tok::Ident(s.clone()),
        Tok::Lit(s) => Tok::Lit(s.clone()),
        Tok::Punct(c) => Tok::Punct(*c),
        Tok::Open(d) => Tok::Open(*d),
        Tok::Close(d) => Tok::Close(*d),
    }
}

/// Appends one token to a token vector.
pub fn push_tok(out: &mut Vec<Tok>, t: Tok)
    ensures
        toks_view(final(out)@) == toks_view(old(out)@) + seq![t@],
{
    proof {
        lemma_toks_view_push(out@, t);
    }
    out.push(t);
}

/// Appends the values of `v` to a token vector.
pub fn extend_toks(out: &mut Vec<Tok>, v: &Vec<Tok>)
    ensures
        toks_view(final(out)@) == toks_view(old(out)@) + toks_view(v@),
{
    let ghost start = toks_view(out@);
    let mut i: usize = 0;
    while i < v.len()
        invariant
            i <= v@.len(),
            toks_view(out@) == start + toks_view(v@).subrange(0, i as int),
        decreases v@.len() - i,
    {
        let ghost before = toks_view(out@);
        let t = tok_copy(&v[i]);
        push_tok(out, t);
        proof {
            assert(before + seq![v@[i as int]@] =~= start + toks_view(v@).subrange(0, i + 1));
        }
        i = i + 1;
    }
    proof {
        assert(start + toks_view(v@).subrange(0, v@.len() as int) =~= start + toks_view(v@));
    }
}

/// A fresh token vector with the same values.
pub fn copy_toks(v: &Vec<Tok>) -> (r: Vec<Tok>)
    ensures
        toks_view(r@) == toks_view(v@),
{
    let mut out: Vec<Tok> = Vec::new();
    extend_toks(&mut out, v);
    proof {
        assert(toks_view(out@) =~= toks_view(v@));
    }
    out
}

/// Whether two string slices spell the same characters.
pub fn str_eq(a: &str, b: &str) -> (r: bool)
    ensures
        r == (a@ == b@),
{
    let sa = a.to_owned();
    let sb = b.to_owned();
    sa == sb
}

/// Whether two tokens have the same value.
pub fn tok_eq(a: &Tok, b: &Tok) -> (r: bool)
    ensures
        r == (a@ == b@),
{
    match a {
        Tok::Ident(x) => match b {
            Tok::Ident(y) => x.eq(y),
            _ => false,
        },
        Tok::Lit(x) => match b {
            Tok::Lit(y) => x.eq(y),
            _ => false,
        },
        Tok::Punct(x) => match b {
            Tok::Punct(y) => x == y,
            _ => false,
        },
        Tok::Open(x) => match b {
            Tok::Open(y) => x == y,
            _ => false,
        },
        Tok::Close(x) => match b {
            Tok::Close(y) => x == y,
            _ => false,
        },
    }
}

/// Whether two token vectors have the same values.
pub fn toks_eq(a: &Vec<Tok>, b: &Vec<Tok>) -> (r: bool)
    ensures
        r == (toks_view(a@) == toks_view(b@)),
{
    if a.len() != b.len() {
        proof {
            assert(toks_view(a@).len() != toks_view(b@).len());
        }
        return false;
    }
    let mut i: usize = 0;
    while i < a.len()
        invariant
            i <= a@.len(),
            a@.len() == b@.len(),
            forall|j: int| 0 <= j < i ==> toks_view(a@)[j] == toks_view(b@)[j],
        decreases a@.len() - i,
    {
        if !tok_eq(&a[i], &b[i]) {
            proof {
                assert(toks_view(a@)[i as int] != toks_view(b@)[i as int]);
            }
            return false;
        }
        i = i + 1;
    }
    proof {
        assert(toks_view(a@) =~= toks_view(b@));
    }
    true
}

/// Whether a token is the identifier `name`.
pub fn is_ident(t: &Tok, name: &str) -> (r: bool)
    ensures
        r == (t@ == TokV::Ident(name@)),
{
    match t {
        Tok::Ident(s) => str_eq(s.as_str(), name),
        _ => false,
    }
}

/// Whether a token is the punctuation character `c`.
pub fn is_punct(t: &Tok, c: char) -> (r: bool)
    ensures
        r == (t@ == TokV::Punct(c)),
{
    match t {
        Tok::Punct(x) => *x == c,
        _ => false,
    }
}

/// The text of one punctuation character. The table covers the punctuation
/// the declaration grammar and the emitted code use; anything else renders as
/// `?`.
pub open spec fn sp_punct_text(c: char) -> Seq<char> {
    if c == '#' {
        "#"@
    } else if c == '<' {
        "<"@
    } else if c == '>' {
        ">"@
    } else if c == '=' {
        "="@
    } else if c == ',' {
        ","@
    } else if c == ':' {
        ":"@
    } else if c == ';' {
        ";"@
    } else if c == '\'' {
        "'"@
    } else if c == '&' {
        "&"@
    } else if c == '*' {
        "*"@
    } else if c == '-' {
        "-"@
    } else if c == '+' {
        "+"@
    } else if c == '!' {
        "!"@
    } else if c == '.' {
        "."@
    } else if c == '|' {
        "|"@
    } else if c == '@' {
        "@"@
    } else if c == '/' {
        "/"@
    } else if c == '%' {
        "%"@
    } else if c == '^' {
        "^"@
    } else if c == '~' {
        "~"@
    } else if c == '$' {
        "$"@
    } else {
        "?"@
    }
}

/// See [`sp_punct_text`].
pub fn punct_text(c: char) -> (r: &'static str)
    ensures
        r@ == sp_punct_text(c),
{
    if c == '#' {
        "#"
    } else if c == '<' {
        "<"
    } else if c == '>' {
        ">"
    } else if c == '=' {
        "="
    } else if c == ',' {
        ","
    } else if c == ':' {
        ":"
    } else if c == ';' {
        ";"
    } else if c == '\'' {
        "'"
    } else if c == '&' {
        "&"
    } else if c == '*' {
        "*"
    } else if c == '-' {
        "-"
    } else if c == '+' {
        "+"
    } else if c == '!' {
        "!"
    } else if c == '.' {
        "."
    } else if c == '|' {
        "|"
    } else if c == '@' {
        "@"
    } else if c == '/' {
        "/"
    } else if c == '%' {
        "%"
    } else if c == '^' {
        "^"
    } else if c == '~' {
        "~"
    } else if c == '$' {
        "$"
    } else {
        "?"
    }
}

/// The text of one token.
pub open spec fn sp_tok_text(t: TokV) -> Seq<char> {
    match t {
        TokV::Ident(s) => s,
        TokV::Lit(s) => s,
        TokV::Punct(c) => sp_punct_text(c),
        TokV::Open(Delim::Paren) => "("@,
        TokV::Open(Delim::Bracket) => "["@,
        TokV::Open(Delim::Brace) => "{"@,
        TokV::Close(Delim::Paren) => ")"@,
        TokV::Close(Delim::Bracket) => "]"@,
        TokV::Close(Delim::Brace) => "}"@,
    }
}

/// See [`sp_tok_text`].
pub fn tok_text(t: &Tok) -> (r: String)
    ensures
        r@ == sp_tok_text(t@),
{
    match t {
        Tok::Ident(s) => s.clone(),
        Tok::Lit(s) => s.clone(),
        Tok::Punct(c) => punct_text(*c).to_owned(),
        Tok::Open(Delim::Paren) => "(".to_owned(),
        Tok::Open(Delim::Bracket) => "[".to_owned(),
        Tok::Open(Delim::Brace) => "{".to_owned(),
        Tok::Close(Delim::Paren) => ")".to_owned(),
        Tok::Close(Delim::Bracket) => "]".to_owned(),
        Tok::Close(Delim::Brace) => "}".to_owned(),
    }
}

/// The texts of the tokens at or after `i`, separated by single spaces.
pub open spec fn sp_render_toks(s: Seq<TokV>, i: int) -> Seq<char>
    decreases s.len() - i,
{
    if i < 0 || i >= s.len() {
        Seq::empty()
    } else if i == s.len() - 1 {
        sp_tok_text(s[i])
    } else {
        sp_tok_text(s[i]) + " "@ + sp_render_toks(s, i + 1)
    }
}

fn render_toks_from(s: &Vec<Tok>, i: usize) -> (r: String)
    requires
        i <= s@.len(),
    ensures
        r@ == sp_render_toks(toks_view(s@), i as int),
    decreases s@.len() - i,
{
    if i >= s.len() {
        let r = String::new();
        proof {
            assert(r@ =~= sp_render_toks(toks_view(s@), i as int));
        }
        return r;
    }
    let mut out = tok_text(&s[i]);
    if i + 1 < s.len() {
        out.append(" ");
        let rest = render_toks_from(s, i + 1);
        out.append(rest.as_str());
    }
    out
}

/// The whole token sequence as text, tokens separated by single spaces.
pub fn render_toks(s: &Vec<Tok>) -> (r: String)
    ensures
        r@ == sp_render_toks(toks_view(s@), 0),
{
    render_toks_from(s, 0)
}

/// `count` copies of a sequence, one after the other.
pub open spec fn sp_repeat(s: Seq<TokV>, count: nat) -> Seq<TokV>
    decreases count,
{
    if count == 0 {
        Seq::empty()
    } else {
        sp_repeat(s, (count - 1) as nat) + s
    }
}

/// The tokens `prefix ( repeated*count suffix )`: the prefix, then a
/// parenthesized group holding `count` copies of `repeated` followed by the
/// suffix. The emitter builds positional patterns such as `Self :: V ( _ , _ ,
/// inner , .. )` with it, one `_ ,` per skipped tuple field.
pub open spec fn sp_repeat_in_parenthesis(
    prefix: Seq<TokV>,
    count: nat,
    repeated: Seq<TokV>,
    suffix: Seq<TokV>,
) -> Seq<TokV> {
    prefix + seq![TokV::Open(Delim::Paren)] + sp_repeat(repeated, count) + suffix + seq![
        TokV::Close(Delim::Paren),
    ]
}

/// See [`sp_repeat_in_parenthesis`].
pub fn repeat_in_parenthesis(
    prefix: &Vec<Tok>,
    count: usize,
    repeated: &Vec<Tok>,
    suffix: &Vec<Tok>,
) -> (r: Vec<Tok>)
    ensures
        toks_view(r@) == sp_repeat_in_parenthesis(
            toks_view(prefix@),
            count as nat,
            toks_view(repeated@),
            toks_view(suffix@),
        ),
{
    let mut out = copy_toks(prefix);
    push_tok(&mut out, Tok::Open(Delim::Paren));
    let ghost base = toks_view(prefix@) + seq![TokV::Open(Delim::Paren)];
    let mut k: usize = 0;
    while k < count
        invariant
            k <= count,
            toks_view(out@) == base + sp_repeat(toks_view(repeated@), k as nat),
        decreases count - k,
    {
        let ghost before = toks_view(out@);
        extend_toks(&mut out, repeated);
        proof {
            assert(before + toks_view(repeated@) =~= base + sp_repeat(
                toks_view(repeated@),
                (k + 1) as nat,
            ));
        }
        k = k + 1;
    }
    extend_toks(&mut out, suffix);
    push_tok(&mut out, Tok::Close(Delim::Paren));
    proof {
        assert(toks_view(out@) =~= sp_repeat_in_parenthesis(
            toks_view(prefix@),
            count as nat,
            toks_view(repeated@),
            toks_view(suffix@),
        ));
    }
    out
}

} // verus!
