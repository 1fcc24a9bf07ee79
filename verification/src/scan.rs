//! The annotation scanner: locates, for a requested capability keyword, the
//! delegation target of a struct or of every enum variant.
//!
//! A variant's fields are scanned in declaration order and the first field
//! carrying the capability attribute wins; later matches are ignored. An enum
//! variant without a match fails the whole derivation with the
//! missing-capability diagnostic, as does a struct without one — except that
//! a named struct may instead carry the capability attribute on the
//! declaration itself, in which case the aggregate delegates to itself.

use vstd::prelude::*;
use crate::ast::{Attr, AttrV, Body, BodyV, Decl, DeclV, FieldList, FieldListV, NamedField,
    NamedFieldV, TupleField, TupleFieldV, Variant, VariantV, named_fields_view, tuple_fields_view,
    variants_view, attrs_view};
use crate::diag::{Diag, DiagV};
use crate::tokens::{Tok, TokV, toks_view, copy_toks, str_eq};

verus! {

/// How the generated code reaches the chosen field.
#[derive(Debug)]
pub enum FieldAddr {
    /// The aggregate itself (a declaration-level capability attribute).
    This,
    /// A named field.
    Named(String),
    /// A tuple field, by position.
    Index(usize),
}

pub enum FieldAddrV {
    This,
    Named(Seq<char>),
    Index(int),
}

impl View for FieldAddr {
    type V = FieldAddrV;

    open spec fn view(&self) -> FieldAddrV {
        match self {
            FieldAddr::This => FieldAddrV::This,
            FieldAddr::Named(n) => FieldAddrV::Named(n@),
            FieldAddr::Index(i) => FieldAddrV::Index(*i as int),
        }
    }
}

/// One matched field: where it sits, its declared type, and the raw argument
/// tokens of the capability attribute that matched.
#[derive(Debug)]
pub struct Found {
    pub addr: FieldAddr,
    pub ty: Vec<Tok>,
    pub args: Vec<Tok>,
}

pub struct FoundV {
    pub addr: FieldAddrV,
    pub ty: Seq<TokV>,
    pub args: Seq<TokV>,
}

impl View for Found {
    type V = FoundV;

    open spec fn view(&self) -> FoundV {
        FoundV { addr: self.addr@, ty: toks_view(self.ty@), args: toks_view(self.args@) }
    }
}

/// The delegation target of one variant (or of the single struct body, with
/// no variant name).
#[derive(Debug)]
pub struct Target {
    pub variant: Option<String>,
    pub found: Found,
}

pub struct TargetV {
    pub variant: Option<Seq<char>>,
    pub found: FoundV,
}

impl View for Target {
    type V = TargetV;

    open spec fn view(&self) -> TargetV {
        TargetV {
            variant: match &self.variant {
                Some(n) => Some(n@),
                None => None,
            },
            found: self.found@,
        }
    }
}

pub open spec fn targets_view(s: Seq<Target>) -> Seq<TargetV> {
    s.map_values(|t: Target| t@)
}

/// The first attribute at or after `i` whose name is the capability keyword.
pub open spec fn sp_first_cap_attr(attrs: Seq<AttrV>, cap: Seq<char>, i: int) -> Option<AttrV>
    decreases attrs.len() - i,
{
    if i < 0 || i >= attrs.len() {
        None
    } else if attrs[i].name == cap {
        Some(attrs[i])
    } else {
        sp_first_cap_attr(attrs, cap, i + 1)
    }
}

/// See [`sp_first_cap_attr`] (from the start of the list).
pub fn first_cap_attr(attrs: &Vec<Attr>, cap: &str) -> (r: Option<Vec<Tok>>)
    ensures
        match r {
            Some(args) => sp_first_cap_attr(attrs_view(attrs@), cap@, 0) is Some
                && sp_first_cap_attr(attrs_view(attrs@), cap@, 0)->Some_0.args == toks_view(args@),
            None => sp_first_cap_attr(attrs_view(attrs@), cap@, 0) is None,
        },
{
    let ghost av = attrs_view(attrs@);
    let mut i: usize = 0;
    while i < attrs.len()
        invariant
            i <= attrs@.len(),
            av == attrs_view(attrs@),
            sp_first_cap_attr(av, cap@, 0) == sp_first_cap_attr(av, cap@, i as int),
        decreases attrs@.len() - i,
    {
        if str_eq(attrs[i].name.as_str(), cap) {
            let args = copy_toks(&attrs[i].args);
            proof {
                assert(av[i as int].name == cap@);
                assert(sp_first_cap_attr(av, cap@, i as int) == Some(av[i as int]));
            }
            return Some(args);
        }
        i = i + 1;
    }
    None
}

/// The first named field at or after `i` carrying the capability attribute.
pub open spec fn sp_find_named(fs: Seq<NamedFieldV>, cap: Seq<char>, i: int) -> Option<FoundV>
    decreases fs.len() - i,
{
    if i < 0 || i >= fs.len() {
        None
    } else {
        match sp_first_cap_attr(fs[i].attrs, cap, 0) {
            Some(a) => Some(
                FoundV { addr: FieldAddrV::Named(fs[i].name), ty: fs[i].ty, args: a.args },
            ),
            None => sp_find_named(fs, cap, i + 1),
        }
    }
}

/// The first tuple field at or after `i` carrying the capability attribute.
pub open spec fn sp_find_tuple(fs: Seq<TupleFieldV>, cap: Seq<char>, i: int) -> Option<FoundV>
    decreases fs.len() - i,
{
    if i < 0 || i >= fs.len() {
        None
    } else {
        match sp_first_cap_attr(fs[i].attrs, cap, 0) {
            Some(a) => Some(FoundV { addr: FieldAddrV::Index(i), ty: fs[i].ty, args: a.args }),
            None => sp_find_tuple(fs, cap, i + 1),
        }
    }
}

/// The delegation target of one field list: its first field carrying the
/// capability attribute.
pub open spec fn sp_find_in_fields(fl: FieldListV, cap: Seq<char>) -> Option<FoundV> {
    match fl {
        FieldListV::Unit => None,
        FieldListV::Named(fs) => sp_find_named(fs, cap, 0),
        FieldListV::Tuple(fs) => sp_find_tuple(fs, cap, 0),
    }
}

/// See [`sp_find_in_fields`]: the first field of `fields` carrying the
/// capability attribute named `cap`, with its position, declared type and the
/// matching attribute's raw arguments.
pub fn find_annotated(fields: &FieldList, cap: &str) -> (r: Option<Found>)
    ensures
        match r {
            Some(f) => sp_find_in_fields(fields@, cap@) == Some(f@),
            None => sp_find_in_fields(fields@, cap@) is None,
        },
{
    match fields {
        FieldList::Unit => None,
        FieldList::Named(fs) => {
            let ghost fsv = named_fields_view(fs@);
            let mut i: usize = 0;
            while i < fs.len()
                invariant
                    i <= fs@.len(),
                    fsv == named_fields_view(fs@),
                    fields@ == FieldListV::Named(fsv),
                    sp_find_named(fsv, cap@, 0) == sp_find_named(fsv, cap@, i as int),
                decreases fs@.len() - i,
            {
                match first_cap_attr(&fs[i].attrs, cap) {
                    Some(args) => {
                        let f = Found {
                            addr: FieldAddr::Named(fs[i].name.clone()),
                            ty: copy_toks(&fs[i].ty),
                            args,
                        };
                        proof {
                            assert(fsv[i as int] == fs@[i as int]@);
                            assert(sp_find_named(fsv, cap@, i as int) == Some(f@));
                            assert(fields@ == FieldListV::Named(fsv));
                        }
                        return Some(f);
                    },
                    None => {},
                }
                i = i + 1;
            }
            None
        },
        FieldList::Tuple(fs) => {
            let ghost fsv = tuple_fields_view(fs@);
            let mut i: usize = 0;
            while i < fs.len()
                invariant
                    i <= fs@.len(),
                    fsv == tuple_fields_view(fs@),
                    fields@ == FieldListV::Tuple(fsv),
                    sp_find_tuple(fsv, cap@, 0) == sp_find_tuple(fsv, cap@, i as int),
                decreases fs@.len() - i,
            {
                match first_cap_attr(&fs[i].attrs, cap) {
                    Some(args) => {
                        let f = Found {
                            addr: FieldAddr::Index(i),
                            ty: copy_toks(&fs[i].ty),
                            args,
                        };
                        proof {
                            assert(fsv[i as int] == fs@[i as int]@);
                            assert(sp_find_tuple(fsv, cap@, i as int) == Some(f@));
                            assert(fields@ == FieldListV::Tuple(fsv));
                        }
                        return Some(f);
                    },
                    None => {},
                }
                i = i + 1;
            }
            None
        },
    }
}

/// The delegation targets of every variant at or after `i`; the
/// missing-capability diagnostic as soon as one variant has none.
pub open spec fn sp_scan_variants(vs: Seq<VariantV>, cap: Seq<char>, i: int) -> Result<
    Seq<TargetV>,
    DiagV,
>
    decreases vs.len() - i,
{
    if i < 0 || i >= vs.len() {
        Ok(Seq::empty())
    } else {
        match sp_find_in_fields(vs[i].fields, cap) {
            Some(f) => match sp_scan_variants(vs, cap, i + 1) {
                Ok(rest) => Ok(seq![TargetV { variant: Some(vs[i].name), found: f }] + rest),
                Err(e) => Err(e),
            },
            None => Err(DiagV::MissingCapability(cap)),
        }
    }
}

/// The delegation targets of a whole declaration, one per variant for an
/// enum, exactly one for a struct. A named struct whose fields have no match
/// falls back to a capability attribute on the declaration itself, which
/// addresses the aggregate as a whole.
pub open spec fn sp_find_annotated_multi(d: DeclV, cap: Seq<char>) -> Result<Seq<TargetV>, DiagV> {
    match d.body {
        BodyV::Enum(vs) => sp_scan_variants(vs, cap, 0),
        BodyV::Struct(fl) => match sp_find_in_fields(fl, cap) {
            Some(f) => Ok(seq![TargetV { variant: None, found: f }]),
            None => match fl {
                FieldListV::Named(_) => match sp_first_cap_attr(d.attrs, cap, 0) {
                    Some(a) => Ok(
                        seq![
                            TargetV {
                                variant: None,
                                found: FoundV {
                                    addr: FieldAddrV::This,
                                    ty: Seq::empty(),
                                    args: a.args,
                                },
                            },
                        ],
                    ),
                    None => Err(DiagV::MissingCapability(cap)),
                },
                _ => Err(DiagV::MissingCapability(cap)),
            },
        },
    }
}

/// Recursive worker for the enum case of [`find_annotated_multi`].
fn scan_variants(vs: &Vec<Variant>, cap: &str, i: usize) -> (r: Result<Vec<Target>, Diag>)
    requires
        i <= vs@.len(),
    ensures
        match r {
            Ok(ts) => sp_scan_variants(variants_view(vs@), cap@, i as int) == Result::<
                Seq<TargetV>,
                DiagV,
            >::Ok(targets_view(ts@)),
            Err(e) => sp_scan_variants(variants_view(vs@), cap@, i as int) == Result::<
                Seq<TargetV>,
                DiagV,
            >::Err(e@),
        },
    decreases vs@.len() - i,
{
    if i >= vs.len() {
        proof {
            assert(targets_view(Seq::<Target>::empty()) =~= Seq::<TargetV>::empty());
        }
        return Ok(Vec::new());
    }
    match find_annotated(&vs[i].fields, cap) {
        Some(f) => {
            let t = Target { variant: Some(vs[i].name.clone()), found: f };
            match scan_variants(vs, cap, i + 1) {
                Ok(mut rest) => {
                    let ghost rest0 = rest@;
                    let ghost tv = t@;
                    rest.insert(0, t);
                    proof {
                        assert(targets_view(rest0.insert(0, rest@[0])) =~= seq![tv] + targets_view(
                            rest0,
                        ));
                    }
                    Ok(rest)
                },
                Err(e) => Err(e),
            }
        },
        None => Err(Diag::MissingCapability(cap.to_owned())),
    }
}

/// See [`sp_find_annotated_multi`].
pub fn find_annotated_multi(d: &Decl, cap: &str) -> (r: Result<Vec<Target>, Diag>)
    ensures
        match r {
            Ok(ts) => sp_find_annotated_multi(d@, cap@) == Result::<Seq<TargetV>, DiagV>::Ok(
                targets_view(ts@),
            ),
            Err(e) => sp_find_annotated_multi(d@, cap@) == Result::<Seq<TargetV>, DiagV>::Err(e@),
        },
{
    match &d.body {
        Body::Enum(vs) => scan_variants(vs, cap, 0),
        Body::Struct(fl) => {
            match find_annotated(fl, cap) {
                Some(f) => {
                    let t = Target { variant: None, found: f };
                    let ghost tv = t@;
                    let mut one: Vec<Target> = Vec::new();
                    one.push(t);
                    proof {
                        assert(targets_view(one@) =~= seq![tv]);
                    }
                    Ok(one)
                },
                None => {
                    let is_named = matches!(fl, FieldList::Named(_));
                    if is_named {
                        match first_cap_attr(&d.attrs, cap) {
                            Some(args) => {
                                let t = Target {
                                    variant: None,
                                    found: Found { addr: FieldAddr::This, ty: Vec::new(), args },
                                };
                                let ghost tv = t@;
                                let mut one: Vec<Target> = Vec::new();
                                one.push(t);
                                proof {
                                    assert(toks_view(Seq::<Tok>::empty()) =~= Seq::<TokV>::empty());
                                    assert(targets_view(one@) =~= seq![tv]);
                                }
                                Ok(one)
                            },
                            None => Err(Diag::MissingCapability(cap.to_owned())),
                        }
                    } else {
                        Err(Diag::MissingCapability(cap.to_owned()))
                    }
                },
            }
        },
    }
}

/// Whether some attribute in the list is the capability attribute.
pub open spec fn sp_has_cap_attr(attrs: Seq<AttrV>, cap: Seq<char>) -> bool {
    exists|j: int| 0 <= j < attrs.len() && attrs[j].name == cap
}

/// Whether some field of the list carries the capability attribute.
pub open spec fn sp_fields_have_cap(fl: FieldListV, cap: Seq<char>) -> bool {
    match fl {
        FieldListV::Unit => false,
        FieldListV::Named(fs) => exists|j: int|
            0 <= j < fs.len() && sp_has_cap_attr(fs[j].attrs, cap),
        FieldListV::Tuple(fs) => exists|j: int|
            0 <= j < fs.len() && sp_has_cap_attr(fs[j].attrs, cap),
    }
}

/// The first capability attribute exists exactly when some attribute matches.
pub proof fn lemma_first_cap_attr_some(attrs: Seq<AttrV>, cap: Seq<char>, i: int)
    requires
        0 <= i <= attrs.len(),
    ensures
        sp_first_cap_attr(attrs, cap, i) is Some <==> exists|j: int|
            i <= j < attrs.len() && attrs[j].name == cap,
    decreases attrs.len() - i,
{
    if i < attrs.len() {
        lemma_first_cap_attr_some(attrs, cap, i + 1);
        if attrs[i].name == cap {
            assert(i <= i < attrs.len() && attrs[i].name == cap);
        }
    }
}

/// A field list's target exists exactly when some field carries the
/// capability attribute.
pub proof fn lemma_find_in_fields_some(fl: FieldListV, cap: Seq<char>)
    ensures
        sp_find_in_fields(fl, cap) is Some <==> sp_fields_have_cap(fl, cap),
{
    match fl {
        FieldListV::Unit => {},
        FieldListV::Named(fs) => {
            lemma_find_named_some(fs, cap, 0);
        },
        FieldListV::Tuple(fs) => {
            lemma_find_tuple_some(fs, cap, 0);
        },
    }
}

proof fn lemma_find_named_some(fs: Seq<NamedFieldV>, cap: Seq<char>, i: int)
    requires
        0 <= i <= fs.len(),
    ensures
        sp_find_named(fs, cap, i) is Some <==> exists|j: int|
            i <= j < fs.len() && sp_has_cap_attr(fs[j].attrs, cap),
    decreases fs.len() - i,
{
    if i < fs.len() {
        lemma_find_named_some(fs, cap, i + 1);
        lemma_first_cap_attr_some(fs[i].attrs, cap, 0);
        if sp_has_cap_attr(fs[i].attrs, cap) {
            assert(i <= i < fs.len() && sp_has_cap_attr(fs[i].attrs, cap));
        }
    }
}

proof fn lemma_find_tuple_some(fs: Seq<TupleFieldV>, cap: Seq<char>, i: int)
    requires
        0 <= i <= fs.len(),
    ensures
        sp_find_tuple(fs, cap, i) is Some <==> exists|j: int|
            i <= j < fs.len() && sp_has_cap_attr(fs[j].attrs, cap),
    decreases fs.len() - i,
{
    if i < fs.len() {
        lemma_find_tuple_some(fs, cap, i + 1);
        lemma_first_cap_attr_some(fs[i].attrs, cap, 0);
        if sp_has_cap_attr(fs[i].attrs, cap) {
            assert(i <= i < fs.len() && sp_has_cap_attr(fs[i].attrs, cap));
        }
    }
}

/// When every variant has a capability field, the scan succeeds with one
/// target per variant, each naming its variant and holding its first
/// annotated field.
pub proof fn lemma_scan_variants_ok(vs: Seq<VariantV>, cap: Seq<char>, i: int)
    requires
        0 <= i <= vs.len(),
        forall|k: int| i <= k < vs.len() ==> sp_fields_have_cap(#[trigger] vs[k].fields, cap),
    ensures
        sp_scan_variants(vs, cap, i) is Ok,
        sp_scan_variants(vs, cap, i)->Ok_0.len() == vs.len() - i,
        forall|k: int|
            0 <= k < vs.len() - i ==> (#[trigger] sp_scan_variants(vs, cap, i)->Ok_0[k]).variant
                == Some(vs[i + k].name) && sp_scan_variants(vs, cap, i)->Ok_0[k].found
                == sp_find_in_fields(vs[i + k].fields, cap)->Some_0,
    decreases vs.len() - i,
{
    if i < vs.len() {
        lemma_find_in_fields_some(vs[i].fields, cap);
        lemma_scan_variants_ok(vs, cap, i + 1);
        let t = TargetV {
            variant: Some(vs[i].name),
            found: sp_find_in_fields(vs[i].fields, cap)->Some_0,
        };
        let rest = sp_scan_variants(vs, cap, i + 1)->Ok_0;
        assert(sp_scan_variants(vs, cap, i)->Ok_0 == seq![t] + rest);
        assert forall|k: int| 0 <= k < vs.len() - i implies (#[trigger] sp_scan_variants(
            vs,
            cap,
            i,
        )->Ok_0[k]).variant == Some(vs[i + k].name) && sp_scan_variants(vs, cap, i)->Ok_0[k].found
            == sp_find_in_fields(vs[i + k].fields, cap)->Some_0 by {
            if k == 0 {
                assert((seq![t] + rest)[0] == t);
            } else {
                assert((seq![t] + rest)[k] == rest[k - 1]);
                assert(rest[k - 1].variant == Some(vs[(i + 1) + (k - 1)].name));
                assert(rest[k - 1].found == sp_find_in_fields(vs[(i + 1) + (k - 1)].fields, cap)->Some_0);
            }
        }
    }
}

/// When some variant has no capability field, the scan fails with the
/// missing-capability diagnostic.
pub proof fn lemma_scan_variants_missing(vs: Seq<VariantV>, cap: Seq<char>, i: int, bad: int)
    requires
        0 <= i <= bad < vs.len(),
        !sp_fields_have_cap(vs[bad].fields, cap),
    ensures
        sp_scan_variants(vs, cap, i) == Result::<Seq<TargetV>, DiagV>::Err(
            DiagV::MissingCapability(cap),
        ),
    decreases vs.len() - i,
{
    lemma_find_in_fields_some(vs[i].fields, cap);
    if i == bad {
    } else {
        lemma_scan_variants_missing(vs, cap, i + 1, bad);
        if sp_find_in_fields(vs[i].fields, cap) is None {
        }
    }
}

} // verus!
