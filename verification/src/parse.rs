//! Recursive-descent parser from declaration tokens to the [`crate::ast`]
//! tree.
//!
//! The grammar covers exactly the supported shapes: a named-field struct, a
//! tuple struct, or an enum of unit, named and tuple variants, each with
//! optional attributes, a generic parameter list and a `where` clause. Every
//! executable function mirrors a specification function over token values and
//! is proved to return exactly its result.

use vstd::prelude::*;
use crate::ast::{Attr, AttrV, attrs_view, Body, BodyV, Decl, DeclV, FieldList, FieldListV, GenericParam, GenericParamV, NamedField, NamedFieldV, TupleField, TupleFieldV, Variant, VariantV, named_fields_view, params_view, tuple_fields_view, variants_view};
use crate::diag::{Diag, DiagV};
use crate::tokens::{Delim, Tok, TokV, toks_view, tok_copy, push_tok, is_ident, is_punct};

verus! {

/// The index of the first closing delimiter at nesting depth zero, counting
/// every opening delimiter from `i` on; the sequence length when there is
/// none.
pub open spec fn sp_find_close(s: Seq<TokV>, i: int, depth: nat) -> int
    decreases s.len() - i,
{
    if i < 0 || i >= s.len() {
        s.len() as int
    } else {
        match s[i] {
            TokV::Open(_) => sp_find_close(s, i + 1, depth + 1),
            TokV::Close(_) => if depth == 0 {
                i
            } else {
                sp_find_close(s, i + 1, (depth - 1) as nat)
            },
            _ => sp_find_close(s, i + 1, depth),
        }
    }
}

/// See [`sp_find_close`].
pub fn find_close(s: &Vec<Tok>, i: usize) -> (k: usize)
    requires
        i <= s@.len(),
    ensures
        k == sp_find_close(toks_view(s@), i as int, 0),
        i <= k <= s@.len(),
{
    let ghost s0 = toks_view(s@);
    let mut j: usize = i;
    let mut depth: usize = 0;
    loop
        invariant
            i <= j <= s@.len(),
            depth <= j,
            s0 == toks_view(s@),
            sp_find_close(s0, i as int, 0) == sp_find_close(s0, j as int, depth as nat),
        decreases s@.len() - j,
    {
        if j == s.len() {
            return j;
        }
        match &s[j] {
            Tok::Open(_) => {
                depth = depth + 1;
            },
            Tok::Close(_) => {
                if depth == 0 {
                    return j;
                }
                depth = depth - 1;
            },
            _ => {},
        }
        j = j + 1;
    }
}

/// The end of a bound, default or type token run starting at `i`: the index
/// of the first `,`, `>` or closing delimiter at angle depth zero and
/// delimiter depth zero, where a `>` preceded by `-` is part of an `->` arrow
/// and closes nothing; the sequence length when the run reaches the end.
pub open spec fn sp_scan_ty_end(s: Seq<TokV>, i: int, angle: nat, delim: nat) -> int
    decreases s.len() - i,
{
    if i < 0 || i >= s.len() {
        s.len() as int
    } else if delim > 0 {
        match s[i] {
            TokV::Open(_) => sp_scan_ty_end(s, i + 1, angle, delim + 1),
            TokV::Close(_) => sp_scan_ty_end(s, i + 1, angle, (delim - 1) as nat),
            _ => sp_scan_ty_end(s, i + 1, angle, delim),
        }
    } else {
        match s[i] {
            TokV::Open(_) => sp_scan_ty_end(s, i + 1, angle, 1),
            TokV::Close(_) => i,
            TokV::Punct(c) => if c == '<' {
                sp_scan_ty_end(s, i + 1, angle + 1, 0)
            } else if c == '>' {
                if i >= 1 && s[i - 1] == TokV::Punct('-') {
                    sp_scan_ty_end(s, i + 1, angle, 0)
                } else if angle > 0 {
                    sp_scan_ty_end(s, i + 1, (angle - 1) as nat, 0)
                } else {
                    i
                }
            } else if c == ',' && angle == 0 {
                i
            } else {
                sp_scan_ty_end(s, i + 1, angle, 0)
            },
            _ => sp_scan_ty_end(s, i + 1, angle, 0),
        }
    }
}

/// See [`sp_scan_ty_end`].
pub fn scan_ty_end(s: &Vec<Tok>, i: usize) -> (k: usize)
    requires
        i <= s@.len(),
    ensures
        k == sp_scan_ty_end(toks_view(s@), i as int, 0, 0),
        i <= k <= s@.len(),
{
    let ghost s0 = toks_view(s@);
    let mut j: usize = i;
    let mut angle: usize = 0;
    let mut delim: usize = 0;
    loop
        invariant
            i <= j <= s@.len(),
            angle <= j,
            delim <= j,
            s0 == toks_view(s@),
            sp_scan_ty_end(s0, i as int, 0, 0) == sp_scan_ty_end(
                s0,
                j as int,
                angle as nat,
                delim as nat,
            ),
        decreases s@.len() - j,
    {
        if j == s.len() {
            return j;
        }
        if delim > 0 {
            match &s[j] {
                Tok::Open(_) => {
                    delim = delim + 1;
                },
                Tok::Close(_) => {
                    delim = delim - 1;
                },
                _ => {},
            }
        } else {
            match &s[j] {
                Tok::Open(_) => {
                    delim = 1;
                },
                Tok::Close(_) => {
                    return j;
                },
                Tok::Punct(c) => {
                    let c = *c;
                    if c == '<' {
                        angle = angle + 1;
                    } else if c == '>' {
                        let arrow = j >= 1 && is_punct(&s[j - 1], '-');
                        if arrow {
                        } else if angle > 0 {
                            angle = angle - 1;
                        } else {
                            return j;
                        }
                    } else if c == ',' && angle == 0 {
                        return j;
                    }
                },
                _ => {},
            }
        }
        j = j + 1;
    }
}

/// The end of a `where` clause starting at `i`: the index of the first `{`
/// opening or `;` at delimiter depth zero (neither is part of the clause), or
/// of a stray closing delimiter; the sequence length otherwise.
pub open spec fn sp_scan_where_end(s: Seq<TokV>, i: int, delim: nat) -> int
    decreases s.len() - i,
{
    if i < 0 || i >= s.len() {
        s.len() as int
    } else if delim > 0 {
        match s[i] {
            TokV::Open(_) => sp_scan_where_end(s, i + 1, delim + 1),
            TokV::Close(_) => sp_scan_where_end(s, i + 1, (delim - 1) as nat),
            _ => sp_scan_where_end(s, i + 1, delim),
        }
    } else {
        match s[i] {
            TokV::Open(d) => if d == Delim::Brace {
                i
            } else {
                sp_scan_where_end(s, i + 1, 1)
            },
            TokV::Close(_) => i,
            TokV::Punct(c) => if c == ';' {
                i
            } else {
                sp_scan_where_end(s, i + 1, 0)
            },
            _ => sp_scan_where_end(s, i + 1, 0),
        }
    }
}

/// See [`sp_scan_where_end`].
pub fn scan_where_end(s: &Vec<Tok>, i: usize) -> (k: usize)
    requires
        i <= s@.len(),
    ensures
        k == sp_scan_where_end(toks_view(s@), i as int, 0),
        i <= k <= s@.len(),
{
    let ghost s0 = toks_view(s@);
    let mut j: usize = i;
    let mut delim: usize = 0;
    loop
        invariant
            i <= j <= s@.len(),
            delim <= j,
            s0 == toks_view(s@),
            sp_scan_where_end(s0, i as int, 0) == sp_scan_where_end(s0, j as int, delim as nat),
        decreases s@.len() - j,
    {
        if j == s.len() {
            return j;
        }
        if delim > 0 {
            match &s[j] {
                Tok::Open(_) => {
                    delim = delim + 1;
                },
                Tok::Close(_) => {
                    delim = delim - 1;
                },
                _ => {},
            }
        } else {
            match &s[j] {
                Tok::Open(d) => {
                    if *d == Delim::Brace {
                        return j;
                    }
                    delim = 1;
                },
                Tok::Close(_) => {
                    return j;
                },
                Tok::Punct(c) => {
                    if *c == ';' {
                        return j;
                    }
                },
                _ => {},
            }
        }
        j = j + 1;
    }
}

/// The index after an optional visibility marker: `pub`, possibly followed by
/// a parenthesized restriction.
pub open spec fn sp_skip_vis(s: Seq<TokV>, i: int) -> int {
    if 0 <= i < s.len() && s[i] == TokV::Ident("pub"@) {
        if i + 1 < s.len() && s[i + 1] == TokV::Open(Delim::Paren) {
            let k = sp_find_close(s, i + 2, 0);
            if k < s.len() {
                k + 1
            } else {
                s.len() as int
            }
        } else {
            i + 1
        }
    } else {
        i
    }
}

/// See [`sp_skip_vis`].
pub fn skip_vis(s: &Vec<Tok>, i: usize) -> (k: usize)
    requires
        i <= s@.len(),
    ensures
        k == sp_skip_vis(toks_view(s@), i as int),
        i <= k <= s@.len(),
{
    if i < s.len() && is_ident(&s[i], "pub") {
        if i + 1 < s.len() && matches!(&s[i + 1], Tok::Open(Delim::Paren)) {
            let k = find_close(s, i + 2);
            if k < s.len() {
                k + 1
            } else {
                s.len()
            }
        } else {
            i + 1
        }
    } else {
        i
    }
}

/// A fresh vector of the tokens in `[from, to)`.
pub fn copy_range(s: &Vec<Tok>, from: usize, to: usize) -> (r: Vec<Tok>)
    requires
        from <= to <= s@.len(),
    ensures
        toks_view(r@) == toks_view(s@).subrange(from as int, to as int),
{
    let mut out: Vec<Tok> = Vec::new();
    let mut i: usize = from;
    while i < to
        invariant
            from <= i <= to <= s@.len(),
            toks_view(out@) == toks_view(s@).subrange(from as int, i as int),
        decreases to - i,
    {
        let ghost before = toks_view(out@);
        let t = tok_copy(&s[i]);
        push_tok(&mut out, t);
        proof {
            assert(before + seq![toks_view(s@)[i as int]] =~= toks_view(s@).subrange(
                from as int,
                i + 1,
            ));
        }
        i = i + 1;
    }
    out
}

/// The attribute list starting at `i`: each attribute is `# [ name args ]`,
/// the args being every token between the name and the matching closing
/// bracket.
pub open spec fn sp_parse_attrs(s: Seq<TokV>, i: int) -> Result<(Seq<AttrV>, int), DiagV>
    decreases s.len() - i,
{
    if !(0 <= i < s.len() && s[i] == TokV::Punct('#')) {
        Ok((Seq::empty(), i))
    } else if !(i + 1 < s.len() && s[i + 1] == TokV::Open(Delim::Bracket)) {
        Err(DiagV::UnexpectedToken)
    } else if i + 2 >= s.len() {
        Err(DiagV::UnexpectedEnd)
    } else {
        match s[i + 2] {
            TokV::Ident(name) => {
                let k = sp_find_close(s, i + 3, 0);
                if k >= s.len() {
                    Err(DiagV::UnexpectedEnd)
                } else if s[k] != TokV::Close(Delim::Bracket) {
                    Err(DiagV::UnexpectedToken)
                } else {
                    let attr = AttrV { name: name, args: s.subrange(i + 3, k) };
                    if k + 1 <= i {
                        Err(DiagV::UnexpectedToken)
                    } else {
                        match sp_parse_attrs(s, k + 1) {
                            Ok((rest, j)) => Ok((seq![attr] + rest, j)),
                            Err(e) => Err(e),
                        }
                    }
                }
            },
            _ => Err(DiagV::UnexpectedToken),
        }
    }
}

/// See [`sp_parse_attrs`].
pub fn parse_attrs(s: &Vec<Tok>, i: usize) -> (r: Result<(Vec<Attr>, usize), Diag>)
    requires
        i <= s@.len(),
    ensures
        match r {
            Ok((attrs, j)) => {
                &&& sp_parse_attrs(toks_view(s@), i as int) == Result::<(Seq<AttrV>, int), DiagV>::Ok(
                    (attrs_view(attrs@), j as int),
                )
                &&& i <= j <= s@.len()
            },
            Err(e) => sp_parse_attrs(toks_view(s@), i as int) == Result::<
                (Seq<AttrV>, int),
                DiagV,
            >::Err(e@),
        },
    decreases s@.len() - i,
{
    if !(i < s.len() && is_punct(&s[i], '#')) {
        proof {
            assert(attrs_view(Seq::<Attr>::empty()) =~= Seq::<AttrV>::empty());
        }
        return Ok((Vec::new(), i));
    }
    if !(i + 1 < s.len() && matches!(&s[i + 1], Tok::Open(Delim::Bracket))) {
        return Err(Diag::UnexpectedToken);
    }
    if i + 2 >= s.len() {
        return Err(Diag::UnexpectedEnd);
    }
    let name: String = match &s[i + 2] {
        Tok::Ident(n) => n.clone(),
        _ => {
            return Err(Diag::UnexpectedToken);
        },
    };
    let k = find_close(s, i + 3);
    if k >= s.len() {
        return Err(Diag::UnexpectedEnd);
    }
    if !matches!(&s[k], Tok::Close(Delim::Bracket)) {
        return Err(Diag::UnexpectedToken);
    }
    let args = copy_range(s, i + 3, k);
    let attr = Attr { name, args };
    match parse_attrs(s, k + 1) {
        Ok((mut rest, j)) => {
            let ghost rest0 = rest@;
            rest.insert(0, attr);
            proof {
                assert(attrs_view(rest0.insert(0, attr)) =~= seq![attr@] + attrs_view(rest0));
            }
            Ok((rest, j))
        },
        Err(e) => Err(e),
    }
}

/// One generic parameter at `i`: a lifetime or a type identifier, an optional
/// `: bounds` run, and an optional `= default` run that is dropped. A `const`
/// parameter is a hard failure.
pub open spec fn sp_parse_one_param(s: Seq<TokV>, i: int) -> Result<(GenericParamV, int), DiagV> {
    if i < 0 || i >= s.len() {
        Err(DiagV::UnexpectedEnd)
    } else {
        let head = if s[i] == TokV::Punct('\'') {
            if i + 1 >= s.len() {
                Err(DiagV::UnexpectedEnd)
            } else {
                match s[i + 1] {
                    TokV::Ident(n) => Ok((true, n, i + 2)),
                    _ => Err(DiagV::UnexpectedToken),
                }
            }
        } else {
            match s[i] {
                TokV::Ident(n) => if n == "const"@ {
                    Err(DiagV::ConstNotSupported)
                } else {
                    Ok((false, n, i + 1))
                },
                _ => Err(DiagV::UnexpectedToken),
            }
        };
        match head {
            Err(e) => Err(e),
            Ok((is_lifetime, name, j)) => {
                let (bounds, j2) = if j < s.len() && s[j] == TokV::Punct(':') {
                    let k = sp_scan_ty_end(s, j + 1, 0, 0);
                    (s.subrange(j + 1, k), k)
                } else {
                    (Seq::empty(), j)
                };
                let j3 = if j2 < s.len() && s[j2] == TokV::Punct('=') {
                    sp_scan_ty_end(s, j2 + 1, 0, 0)
                } else {
                    j2
                };
                Ok((GenericParamV { is_lifetime, name, bounds }, j3))
            },
        }
    }
}

/// See [`sp_parse_one_param`].
pub fn parse_one_param(s: &Vec<Tok>, i: usize) -> (r: Result<(GenericParam, usize), Diag>)
    requires
        i <= s@.len(),
    ensures
        match r {
            Ok((p, j)) => {
                &&& sp_parse_one_param(toks_view(s@), i as int) == Result::<
                    (GenericParamV, int),
                    DiagV,
                >::Ok((p@, j as int))
                &&& i < j <= s@.len()
            },
            Err(e) => sp_parse_one_param(toks_view(s@), i as int) == Result::<
                (GenericParamV, int),
                DiagV,
            >::Err(e@),
        },
{
    if i >= s.len() {
        return Err(Diag::UnexpectedEnd);
    }
    let (is_lifetime, name, j): (bool, String, usize) = if is_punct(&s[i], '\'') {
        if i + 1 >= s.len() {
            return Err(Diag::UnexpectedEnd);
        }
        match &s[i + 1] {
            Tok::Ident(n) => (true, n.clone(), i + 2),
            _ => {
                return Err(Diag::UnexpectedToken);
            },
        }
    } else {
        match &s[i] {
            Tok::Ident(n) => {
                if is_ident(&s[i], "const") {
                    return Err(Diag::ConstNotSupported);
                }
                (false, n.clone(), i + 1)
            },
            _ => {
                return Err(Diag::UnexpectedToken);
            },
        }
    };
    let (bounds, j2): (Vec<Tok>, usize) = if j < s.len() && is_punct(&s[j], ':') {
        let k = scan_ty_end(s, j + 1);
        (copy_range(s, j + 1, k), k)
    } else {
        (Vec::new(), j)
    };
    let j3: usize = if j2 < s.len() && is_punct(&s[j2], '=') {
        scan_ty_end(s, j2 + 1)
    } else {
        j2
    };
    proof {
        assert(toks_view(Seq::<Tok>::empty()) =~= Seq::<TokV>::empty());
    }
    Ok((GenericParam { is_lifetime, name, bounds }, j3))
}

/// The parameter list after the opening `<`: parameters separated by commas,
/// closed by a `>` at angle depth zero.
pub open spec fn sp_parse_params(s: Seq<TokV>, i: int) -> Result<(Seq<GenericParamV>, int), DiagV>
    decreases s.len() - i,
{
    if i < 0 || i >= s.len() {
        Err(DiagV::UnexpectedEnd)
    } else if s[i] == TokV::Punct('>') {
        Ok((Seq::empty(), i + 1))
    } else {
        match sp_parse_one_param(s, i) {
            Err(e) => Err(e),
            Ok((p, j)) => {
                if j >= s.len() {
                    Err(DiagV::UnexpectedEnd)
                } else if s[j] == TokV::Punct(',') {
                    if j + 1 <= i {
                        Err(DiagV::UnexpectedToken)
                    } else {
                        match sp_parse_params(s, j + 1) {
                            Err(e) => Err(e),
                            Ok((rest, k)) => Ok((seq![p] + rest, k)),
                        }
                    }
                } else if s[j] == TokV::Punct('>') {
                    Ok((seq![p], j + 1))
                } else {
                    Err(DiagV::UnexpectedToken)
                }
            },
        }
    }
}

/// See [`sp_parse_params`].
pub fn parse_params(s: &Vec<Tok>, i: usize) -> (r: Result<(Vec<GenericParam>, usize), Diag>)
    requires
        i <= s@.len(),
    ensures
        match r {
            Ok((ps, j)) => {
                &&& sp_parse_params(toks_view(s@), i as int) == Result::<
                    (Seq<GenericParamV>, int),
                    DiagV,
                >::Ok((params_view(ps@), j as int))
                &&& i <= j <= s@.len()
            },
            Err(e) => sp_parse_params(toks_view(s@), i as int) == Result::<
                (Seq<GenericParamV>, int),
                DiagV,
            >::Err(e@),
        },
    decreases s@.len() - i,
{
    if i >= s.len() {
        return Err(Diag::UnexpectedEnd);
    }
    if is_punct(&s[i], '>') {
        proof {
            assert(params_view(Seq::<GenericParam>::empty()) =~= Seq::<GenericParamV>::empty());
        }
        return Ok((Vec::new(), i + 1));
    }
    match parse_one_param(s, i) {
        Err(e) => Err(e),
        Ok((p, j)) => {
            if j >= s.len() {
                return Err(Diag::UnexpectedEnd);
            }
            if is_punct(&s[j], ',') {
                match parse_params(s, j + 1) {
                    Err(e) => Err(e),
                    Ok((mut rest, k)) => {
                        let ghost rest0 = rest@;
                        rest.insert(0, p);
                        proof {
                            assert(params_view(rest0.insert(0, p)) =~= seq![p@] + params_view(
                                rest0,
                            ));
                        }
                        Ok((rest, k))
                    },
                }
            } else if is_punct(&s[j], '>') {
                let mut one: Vec<GenericParam> = Vec::new();
                one.push(p);
                proof {
                    assert(params_view(one@) =~= seq![p@]);
                }
                Ok((one, j + 1))
            } else {
                Err(Diag::UnexpectedToken)
            }
        },
    }
}

/// The optional generic parameter list at `i`: absent, or `<` followed by
/// parameters.
pub open spec fn sp_parse_generics(s: Seq<TokV>, i: int) -> Result<(Seq<GenericParamV>, int), DiagV> {
    if 0 <= i < s.len() && s[i] == TokV::Punct('<') {
        sp_parse_params(s, i + 1)
    } else {
        Ok((Seq::empty(), i))
    }
}

/// See [`sp_parse_generics`].
pub fn parse_generics(s: &Vec<Tok>, i: usize) -> (r: Result<(Vec<GenericParam>, usize), Diag>)
    requires
        i <= s@.len(),
    ensures
        match r {
            Ok((ps, j)) => {
                &&& sp_parse_generics(toks_view(s@), i as int) == Result::<
                    (Seq<GenericParamV>, int),
                    DiagV,
                >::Ok((params_view(ps@), j as int))
                &&& i <= j <= s@.len()
            },
            Err(e) => sp_parse_generics(toks_view(s@), i as int) == Result::<
                (Seq<GenericParamV>, int),
                DiagV,
            >::Err(e@),
        },
{
    if i < s.len() && is_punct(&s[i], '<') {
        parse_params(s, i + 1)
    } else {
        proof {
            assert(params_view(Seq::<GenericParam>::empty()) =~= Seq::<GenericParamV>::empty());
        }
        Ok((Vec::new(), i))
    }
}

/// The named field list after the opening `{`: `#[attrs] vis name : Type`
/// entries separated by commas, closed by the matching `}`.
pub open spec fn sp_parse_named_fields(s: Seq<TokV>, i: int) -> Result<
    (Seq<NamedFieldV>, int),
    DiagV,
>
    decreases s.len() - i,
{
    if i < 0 || i >= s.len() {
        Err(DiagV::UnexpectedEnd)
    } else if s[i] == TokV::Close(Delim::Brace) {
        Ok((Seq::empty(), i + 1))
    } else {
        match sp_parse_attrs(s, i) {
            Err(e) => Err(e),
            Ok((attrs, j0)) => {
                let j = sp_skip_vis(s, j0);
                if j + 1 >= s.len() {
                    Err(DiagV::UnexpectedEnd)
                } else {
                    match s[j] {
                        TokV::Ident(fname) => if s[j + 1] == TokV::Punct(':') {
                            let k = sp_scan_ty_end(s, j + 2, 0, 0);
                            if k <= j + 2 {
                                Err(DiagV::UnexpectedToken)
                            } else {
                                let f = NamedFieldV {
                                    attrs,
                                    name: fname,
                                    ty: s.subrange(j + 2, k),
                                };
                                if k >= s.len() {
                                    Err(DiagV::UnexpectedEnd)
                                } else if s[k] == TokV::Punct(',') {
                                    if k + 1 <= i {
                                        Err(DiagV::UnexpectedToken)
                                    } else {
                                        match sp_parse_named_fields(s, k + 1) {
                                            Err(e) => Err(e),
                                            Ok((rest, k2)) => Ok((seq![f] + rest, k2)),
                                        }
                                    }
                                } else if s[k] == TokV::Close(Delim::Brace) {
                                    Ok((seq![f], k + 1))
                                } else {
                                    Err(DiagV::UnexpectedToken)
                                }
                            }
                        } else {
                            Err(DiagV::UnexpectedToken)
                        },
                        _ => Err(DiagV::UnexpectedToken),
                    }
                }
            },
        }
    }
}

/// See [`sp_parse_named_fields`].
pub fn parse_named_fields(s: &Vec<Tok>, i: usize) -> (r: Result<(Vec<NamedField>, usize), Diag>)
    requires
        i <= s@.len(),
    ensures
        match r {
            Ok((fs, j)) => {
                &&& sp_parse_named_fields(toks_view(s@), i as int) == Result::<
                    (Seq<NamedFieldV>, int),
                    DiagV,
                >::Ok((named_fields_view(fs@), j as int))
                &&& i <= j <= s@.len()
            },
            Err(e) => sp_parse_named_fields(toks_view(s@), i as int) == Result::<
                (Seq<NamedFieldV>, int),
                DiagV,
            >::Err(e@),
        },
    decreases s@.len() - i,
{
    if i >= s.len() {
        return Err(Diag::UnexpectedEnd);
    }
    if matches!(&s[i], Tok::Close(Delim::Brace)) {
        proof {
            assert(named_fields_view(Seq::<NamedField>::empty()) =~= Seq::<NamedFieldV>::empty());
        }
        return Ok((Vec::new(), i + 1));
    }
    match parse_attrs(s, i) {
        Err(e) => Err(e),
        Ok((attrs, j0)) => {
            let j = skip_vis(s, j0);
            if j >= s.len() || j + 1 >= s.len() {
                return Err(Diag::UnexpectedEnd);
            }
            let fname: String = match &s[j] {
                Tok::Ident(n) => n.clone(),
                _ => {
                    return Err(Diag::UnexpectedToken);
                },
            };
            if !is_punct(&s[j + 1], ':') {
                return Err(Diag::UnexpectedToken);
            }
            let k = scan_ty_end(s, j + 2);
            if k <= j + 2 {
                return Err(Diag::UnexpectedToken);
            }
            let ty = copy_range(s, j + 2, k);
            let f = NamedField { attrs, name: fname, ty };
            if k >= s.len() {
                return Err(Diag::UnexpectedEnd);
            }
            if is_punct(&s[k], ',') {
                match parse_named_fields(s, k + 1) {
                    Err(e) => Err(e),
                    Ok((mut rest, k2)) => {
                        let ghost rest0 = rest@;
                        let ghost fv = f@;
                        rest.insert(0, f);
                        proof {
                            assert(named_fields_view(rest0.insert(0, rest@[0])) =~= seq![fv]
                                + named_fields_view(rest0));
                        }
                        Ok((rest, k2))
                    },
                }
            } else if matches!(&s[k], Tok::Close(Delim::Brace)) {
                let ghost fv = f@;
                let mut one: Vec<NamedField> = Vec::new();
                one.push(f);
                proof {
                    assert(named_fields_view(one@) =~= seq![fv]);
                }
                Ok((one, k + 1))
            } else {
                Err(Diag::UnexpectedToken)
            }
        },
    }
}

/// The tuple field list after the opening `(`: `#[attrs] vis Type` entries
/// separated by commas, closed by the matching `)`.
pub open spec fn sp_parse_tuple_fields(s: Seq<TokV>, i: int) -> Result<
    (Seq<TupleFieldV>, int),
    DiagV,
>
    decreases s.len() - i,
{
    if i < 0 || i >= s.len() {
        Err(DiagV::UnexpectedEnd)
    } else if s[i] == TokV::Close(Delim::Paren) {
        Ok((Seq::empty(), i + 1))
    } else {
        match sp_parse_attrs(s, i) {
            Err(e) => Err(e),
            Ok((attrs, j0)) => {
                let j = sp_skip_vis(s, j0);
                let k = sp_scan_ty_end(s, j, 0, 0);
                if k <= j {
                    Err(DiagV::UnexpectedToken)
                } else {
                    let f = TupleFieldV { attrs, ty: s.subrange(j, k) };
                    if k >= s.len() {
                        Err(DiagV::UnexpectedEnd)
                    } else if s[k] == TokV::Punct(',') {
                        if k + 1 <= i {
                            Err(DiagV::UnexpectedToken)
                        } else {
                            match sp_parse_tuple_fields(s, k + 1) {
                                Err(e) => Err(e),
                                Ok((rest, k2)) => Ok((seq![f] + rest, k2)),
                            }
                        }
                    } else if s[k] == TokV::Close(Delim::Paren) {
                        Ok((seq![f], k + 1))
                    } else {
                        Err(DiagV::UnexpectedToken)
                    }
                }
            },
        }
    }
}

/// See [`sp_parse_tuple_fields`].
pub fn parse_tuple_fields(s: &Vec<Tok>, i: usize) -> (r: Result<(Vec<TupleField>, usize), Diag>)
    requires
        i <= s@.len(),
    ensures
        match r {
            Ok((fs, j)) => {
                &&& sp_parse_tuple_fields(toks_view(s@), i as int) == Result::<
                    (Seq<TupleFieldV>, int),
                    DiagV,
                >::Ok((tuple_fields_view(fs@), j as int))
                &&& i <= j <= s@.len()
            },
            Err(e) => sp_parse_tuple_fields(toks_view(s@), i as int) == Result::<
                (Seq<TupleFieldV>, int),
                DiagV,
            >::Err(e@),
        },
    decreases s@.len() - i,
{
    if i >= s.len() {
        return Err(Diag::UnexpectedEnd);
    }
    if matches!(&s[i], Tok::Close(Delim::Paren)) {
        proof {
            assert(tuple_fields_view(Seq::<TupleField>::empty()) =~= Seq::<TupleFieldV>::empty());
        }
        return Ok((Vec::new(), i + 1));
    }
    match parse_attrs(s, i) {
        Err(e) => Err(e),
        Ok((attrs, j0)) => {
            let j = skip_vis(s, j0);
            let k = scan_ty_end(s, j);
            if k <= j {
                return Err(Diag::UnexpectedToken);
            }
            let ty = copy_range(s, j, k);
            let f = TupleField { attrs, ty };
            if k >= s.len() {
                return Err(Diag::UnexpectedEnd);
            }
            if is_punct(&s[k], ',') {
                match parse_tuple_fields(s, k + 1) {
                    Err(e) => Err(e),
                    Ok((mut rest, k2)) => {
                        let ghost rest0 = rest@;
                        let ghost fv = f@;
                        rest.insert(0, f);
                        proof {
                            assert(tuple_fields_view(rest0.insert(0, rest@[0])) =~= seq![fv]
                                + tuple_fields_view(rest0));
                        }
                        Ok((rest, k2))
                    },
                }
            } else if matches!(&s[k], Tok::Close(Delim::Paren)) {
                let ghost fv = f@;
                let mut one: Vec<TupleField> = Vec::new();
                one.push(f);
                proof {
                    assert(tuple_fields_view(one@) =~= seq![fv]);
                }
                Ok((one, k + 1))
            } else {
                Err(Diag::UnexpectedToken)
            }
        },
    }
}

/// The variant list after the opening `{`: `#[attrs] Name`, optionally with a
/// tuple or named field list, separated by commas, closed by the matching
/// `}`.
pub open spec fn sp_parse_variants(s: Seq<TokV>, i: int) -> Result<(Seq<VariantV>, int), DiagV>
    decreases s.len() - i,
{
    if i < 0 || i >= s.len() {
        Err(DiagV::UnexpectedEnd)
    } else if s[i] == TokV::Close(Delim::Brace) {
        Ok((Seq::empty(), i + 1))
    } else {
        match sp_parse_attrs(s, i) {
            Err(e) => Err(e),
            Ok((attrs, j)) => {
                if j >= s.len() {
                    Err(DiagV::UnexpectedEnd)
                } else {
                    match s[j] {
                        TokV::Ident(vname) => {
                            let parsed_fields = if j + 1 < s.len() && s[j + 1] == TokV::Open(
                                Delim::Paren,
                            ) {
                                match sp_parse_tuple_fields(s, j + 2) {
                                    Err(e) => Err(e),
                                    Ok((fs, k)) => Ok((FieldListV::Tuple(fs), k)),
                                }
                            } else if j + 1 < s.len() && s[j + 1] == TokV::Open(Delim::Brace) {
                                match sp_parse_named_fields(s, j + 2) {
                                    Err(e) => Err(e),
                                    Ok((fs, k)) => Ok((FieldListV::Named(fs), k)),
                                }
                            } else {
                                Ok((FieldListV::Unit, j + 1))
                            };
                            match parsed_fields {
                                Err(e) => Err(e),
                                Ok((fields, j2)) => {
                                    let v = VariantV { attrs, name: vname, fields };
                                    if j2 >= s.len() {
                                        Err(DiagV::UnexpectedEnd)
                                    } else if s[j2] == TokV::Punct(',') {
                                        if j2 + 1 <= i {
                                            Err(DiagV::UnexpectedToken)
                                        } else {
                                            match sp_parse_variants(s, j2 + 1) {
                                                Err(e) => Err(e),
                                                Ok((rest, k2)) => Ok((seq![v] + rest, k2)),
                                            }
                                        }
                                    } else if s[j2] == TokV::Close(Delim::Brace) {
                                        Ok((seq![v], j2 + 1))
                                    } else {
                                        Err(DiagV::UnexpectedToken)
                                    }
                                },
                            }
                        },
                        _ => Err(DiagV::UnexpectedToken),
                    }
                }
            },
        }
    }
}

/// See [`sp_parse_variants`].
pub fn parse_variants(s: &Vec<Tok>, i: usize) -> (r: Result<(Vec<Variant>, usize), Diag>)
    requires
        i <= s@.len(),
    ensures
        match r {
            Ok((vs, j)) => {
                &&& sp_parse_variants(toks_view(s@), i as int) == Result::<
                    (Seq<VariantV>, int),
                    DiagV,
                >::Ok((variants_view(vs@), j as int))
                &&& i <= j <= s@.len()
            },
            Err(e) => sp_parse_variants(toks_view(s@), i as int) == Result::<
                (Seq<VariantV>, int),
                DiagV,
            >::Err(e@),
        },
    decreases s@.len() - i,
{
    if i >= s.len() {
        return Err(Diag::UnexpectedEnd);
    }
    if matches!(&s[i], Tok::Close(Delim::Brace)) {
        proof {
            assert(variants_view(Seq::<Variant>::empty()) =~= Seq::<VariantV>::empty());
        }
        return Ok((Vec::new(), i + 1));
    }
    match parse_attrs(s, i) {
        Err(e) => Err(e),
        Ok((attrs, j)) => {
            if j >= s.len() {
                return Err(Diag::UnexpectedEnd);
            }
            let vname: String = match &s[j] {
                Tok::Ident(n) => n.clone(),
                _ => {
                    return Err(Diag::UnexpectedToken);
                },
            };
            let parsed_fields: Result<(FieldList, usize), Diag> = if j + 1 < s.len() && matches!(
                &s[j + 1],
                Tok::Open(Delim::Paren),
            ) {
                match parse_tuple_fields(s, j + 2) {
                    Err(e) => Err(e),
                    Ok((fs, k)) => Ok((FieldList::Tuple(fs), k)),
                }
            } else if j + 1 < s.len() && matches!(&s[j + 1], Tok::Open(Delim::Brace)) {
                match parse_named_fields(s, j + 2) {
                    Err(e) => Err(e),
                    Ok((fs, k)) => Ok((FieldList::Named(fs), k)),
                }
            } else {
                Ok((FieldList::Unit, j + 1))
            };
            match parsed_fields {
                Err(e) => Err(e),
                Ok((fields, j2)) => {
                    let v = Variant { attrs, name: vname, fields };
                    if j2 >= s.len() {
                        return Err(Diag::UnexpectedEnd);
                    }
                    if is_punct(&s[j2], ',') {
                        match parse_variants(s, j2 + 1) {
                            Err(e) => Err(e),
                            Ok((mut rest, k2)) => {
                                let ghost rest0 = rest@;
                                let ghost vv = v@;
                                rest.insert(0, v);
                                proof {
                                    assert(variants_view(rest0.insert(0, rest@[0])) =~= seq![vv]
                                        + variants_view(rest0));
                                }
                                Ok((rest, k2))
                            },
                        }
                    } else if matches!(&s[j2], Tok::Close(Delim::Brace)) {
                        let ghost vv = v@;
                        let mut one: Vec<Variant> = Vec::new();
                        one.push(v);
                        proof {
                            assert(variants_view(one@) =~= seq![vv]);
                        }
                        Ok((one, j2 + 1))
                    } else {
                        Err(Diag::UnexpectedToken)
                    }
                },
            }
        },
    }
}

/// A whole declaration: outer attributes, optional visibility, then a named
/// struct, a tuple struct or an enum; anything else is an unsupported shape.
/// The whole token sequence must be consumed.
pub open spec fn sp_parse_declaration(s: Seq<TokV>) -> Result<DeclV, DiagV> {
    match sp_parse_attrs(s, 0) {
        Err(e) => Err(e),
        Ok((attrs, i0)) => {
            let i = sp_skip_vis(s, i0);
            if i >= s.len() {
                Err(DiagV::UnexpectedEnd)
            } else if s[i] == TokV::Ident("struct"@) {
                if i + 1 >= s.len() {
                    Err(DiagV::UnexpectedEnd)
                } else {
                    match s[i + 1] {
                        TokV::Ident(name) => match sp_parse_generics(s, i + 2) {
                            Err(e) => Err(e),
                            Ok((generics, j)) => {
                                if j < s.len() && s[j] == TokV::Ident("where"@) {
                                    let w = sp_scan_where_end(s, j + 1, 0);
                                    if w < s.len() && s[w] == TokV::Open(Delim::Brace) {
                                        match sp_parse_named_fields(s, w + 1) {
                                            Err(e) => Err(e),
                                            Ok((fs, k)) => if k == s.len() {
                                                Ok(
                                                    DeclV {
                                                        attrs,
                                                        name,
                                                        generics,
                                                        where_clause: s.subrange(j + 1, w),
                                                        body: BodyV::Struct(FieldListV::Named(fs)),
                                                    },
                                                )
                                            } else {
                                                Err(DiagV::UnexpectedToken)
                                            },
                                        }
                                    } else {
                                        Err(DiagV::UnexpectedToken)
                                    }
                                } else if j < s.len() && s[j] == TokV::Open(Delim::Brace) {
                                    match sp_parse_named_fields(s, j + 1) {
                                        Err(e) => Err(e),
                                        Ok((fs, k)) => if k == s.len() {
                                            Ok(
                                                DeclV {
                                                    attrs,
                                                    name,
                                                    generics,
                                                    where_clause: Seq::empty(),
                                                    body: BodyV::Struct(FieldListV::Named(fs)),
                                                },
                                            )
                                        } else {
                                            Err(DiagV::UnexpectedToken)
                                        },
                                    }
                                } else if j < s.len() && s[j] == TokV::Open(Delim::Paren) {
                                    match sp_parse_tuple_fields(s, j + 1) {
                                        Err(e) => Err(e),
                                        Ok((fs, k)) => {
                                            let (wc, k2) = if k < s.len() && s[k] == TokV::Ident(
                                                "where"@,
                                            ) {
                                                let w = sp_scan_where_end(s, k + 1, 0);
                                                (s.subrange(k + 1, w), w)
                                            } else {
                                                (Seq::empty(), k)
                                            };
                                            let k3 = if k2 < s.len() && s[k2] == TokV::Punct(';') {
                                                k2 + 1
                                            } else {
                                                k2
                                            };
                                            if k3 == s.len() {
                                                Ok(
                                                    DeclV {
                                                        attrs,
                                                        name,
                                                        generics,
                                                        where_clause: wc,
                                                        body: BodyV::Struct(FieldListV::Tuple(fs)),
                                                    },
                                                )
                                            } else {
                                                Err(DiagV::UnexpectedToken)
                                            }
                                        },
                                    }
                                } else {
                                    Err(DiagV::UnsupportedShape)
                                }
                            },
                        },
                        _ => Err(DiagV::UnexpectedToken),
                    }
                }
            } else if s[i] == TokV::Ident("enum"@) {
                if i + 1 >= s.len() {
                    Err(DiagV::UnexpectedEnd)
                } else {
                    match s[i + 1] {
                        TokV::Ident(name) => match sp_parse_generics(s, i + 2) {
                            Err(e) => Err(e),
                            Ok((generics, j)) => {
                                let (wc, j2) = if j < s.len() && s[j] == TokV::Ident("where"@) {
                                    let w = sp_scan_where_end(s, j + 1, 0);
                                    (s.subrange(j + 1, w), w)
                                } else {
                                    (Seq::empty(), j)
                                };
                                if j2 < s.len() && s[j2] == TokV::Open(Delim::Brace) {
                                    match sp_parse_variants(s, j2 + 1) {
                                        Err(e) => Err(e),
                                        Ok((vs, k)) => if k == s.len() {
                                            Ok(
                                                DeclV {
                                                    attrs,
                                                    name,
                                                    generics,
                                                    where_clause: wc,
                                                    body: BodyV::Enum(vs),
                                                },
                                            )
                                        } else {
                                            Err(DiagV::UnexpectedToken)
                                        },
                                    }
                                } else {
                                    Err(DiagV::UnexpectedToken)
                                }
                            },
                        },
                        _ => Err(DiagV::UnexpectedToken),
                    }
                }
            } else {
                Err(DiagV::UnsupportedShape)
            }
        },
    }
}

/// See [`sp_parse_declaration`].
pub fn parse_declaration(s: &Vec<Tok>) -> (r: Result<Decl, Diag>)
    ensures
        match r {
            Ok(d) => sp_parse_declaration(toks_view(s@)) == Result::<DeclV, DiagV>::Ok(d@),
            Err(e) => sp_parse_declaration(toks_view(s@)) == Result::<DeclV, DiagV>::Err(e@),
        },
{
    let attrs_r = parse_attrs(s, 0);
    let (attrs, i0) = match attrs_r {
        Err(e) => {
            return Err(e);
        },
        Ok(p) => p,
    };
    let i = skip_vis(s, i0);
    if i >= s.len() {
        return Err(Diag::UnexpectedEnd);
    }
    if is_ident(&s[i], "struct") {
        if i + 1 >= s.len() {
            return Err(Diag::UnexpectedEnd);
        }
        let name: String = match &s[i + 1] {
            Tok::Ident(n) => n.clone(),
            _ => {
                return Err(Diag::UnexpectedToken);
            },
        };
        match parse_generics(s, i + 2) {
            Err(e) => Err(e),
            Ok((generics, j)) => {
                if j < s.len() && is_ident(&s[j], "where") {
                    let w = scan_where_end(s, j + 1);
                    if w < s.len() && matches!(&s[w], Tok::Open(Delim::Brace)) {
                        match parse_named_fields(s, w + 1) {
                            Err(e) => Err(e),
                            Ok((fs, k)) => {
                                if k == s.len() {
                                    let where_clause = copy_range(s, j + 1, w);
                                    Ok(
                                        Decl {
                                            attrs,
                                            name,
                                            generics,
                                            where_clause,
                                            body: Body::Struct(FieldList::Named(fs)),
                                        },
                                    )
                                } else {
                                    Err(Diag::UnexpectedToken)
                                }
                            },
                        }
                    } else {
                        Err(Diag::UnexpectedToken)
                    }
                } else if j < s.len() && matches!(&s[j], Tok::Open(Delim::Brace)) {
                    match parse_named_fields(s, j + 1) {
                        Err(e) => Err(e),
                        Ok((fs, k)) => {
                            if k == s.len() {
                                proof {
                                    assert(toks_view(Seq::<Tok>::empty()) =~= Seq::<
                                        TokV,
                                    >::empty());
                                }
                                Ok(
                                    Decl {
                                        attrs,
                                        name,
                                        generics,
                                        where_clause: Vec::new(),
                                        body: Body::Struct(FieldList::Named(fs)),
                                    },
                                )
                            } else {
                                Err(Diag::UnexpectedToken)
                            }
                        },
                    }
                } else if j < s.len() && matches!(&s[j], Tok::Open(Delim::Paren)) {
                    match parse_tuple_fields(s, j + 1) {
                        Err(e) => Err(e),
                        Ok((fs, k)) => {
                            let (where_clause, k2): (Vec<Tok>, usize) = if k < s.len() && is_ident(
                                &s[k],
                                "where",
                            ) {
                                let w = scan_where_end(s, k + 1);
                                (copy_range(s, k + 1, w), w)
                            } else {
                                (Vec::new(), k)
                            };
                            let k3: usize = if k2 < s.len() && is_punct(&s[k2], ';') {
                                k2 + 1
                            } else {
                                k2
                            };
                            if k3 == s.len() {
                                proof {
                                    assert(toks_view(Seq::<Tok>::empty()) =~= Seq::<
                                        TokV,
                                    >::empty());
                                }
                                Ok(
                                    Decl {
                                        attrs,
                                        name,
                                        generics,
                                        where_clause,
                                        body: Body::Struct(FieldList::Tuple(fs)),
                                    },
                                )
                            } else {
                                Err(Diag::UnexpectedToken)
                            }
                        },
                    }
                } else {
                    Err(Diag::UnsupportedShape)
                }
            },
        }
    } else if is_ident(&s[i], "enum") {
        if i + 1 >= s.len() {
            return Err(Diag::UnexpectedEnd);
        }
        let name: String = match &s[i + 1] {
            Tok::Ident(n) => n.clone(),
            _ => {
                return Err(Diag::UnexpectedToken);
            },
        };
        match parse_generics(s, i + 2) {
            Err(e) => Err(e),
            Ok((generics, j)) => {
                let (where_clause, j2): (Vec<Tok>, usize) = if j < s.len() && is_ident(
                    &s[j],
                    "where",
                ) {
                    let w = scan_where_end(s, j + 1);
                    (copy_range(s, j + 1, w), w)
                } else {
                    proof {
                        assert(toks_view(Seq::<Tok>::empty()) =~= Seq::<TokV>::empty());
                    }
                    (Vec::new(), j)
                };
                if j2 < s.len() && matches!(&s[j2], Tok::Open(Delim::Brace)) {
                    match parse_variants(s, j2 + 1) {
                        Err(e) => Err(e),
                        Ok((vs, k)) => {
                            if k == s.len() {
                                Ok(
                                    Decl {
                                        attrs,
                                        name,
                                        generics,
                                        where_clause,
                                        body: Body::Enum(vs),
                                    },
                                )
                            } else {
                                Err(Diag::UnexpectedToken)
                            }
                        },
                    }
                } else {
                    Err(Diag::UnexpectedToken)
                }
            },
        }
    } else {
        Err(Diag::UnsupportedShape)
    }
}

} // verus!
