//! The abstract syntax tree of a supported declaration.
//!
//! Exactly three shapes exist: named-field struct, tuple struct, and enum
//! whose variants may each be unit, named-field or tuple-field. Field types
//! and bounds are kept as raw token runs; the later stages only compare them
//! and test which identifiers they mention.

use vstd::prelude::*;
use crate::tokens::{Tok, TokV, toks_view};

verus! {

/// One attribute on a declaration, variant or field: `# [ name args ]`.
/// For a capability attribute such as `#[read(as_ref)]`, `args` is the raw
/// token run after the name, here `( as_ref )`.
#[derive(Debug)]
pub struct Attr {
    pub name: String,
    pub args: Vec<Tok>,
}

pub struct AttrV {
    pub name: Seq<char>,
    pub args: Seq<TokV>,
}

impl View for Attr {
    type V = AttrV;

    open spec fn view(&self) -> AttrV {
        AttrV { name: self.name@, args: toks_view(self.args@) }
    }
}

/// The values of an attribute list.
pub open spec fn attrs_view(s: Seq<Attr>) -> Seq<AttrV> {
    s.map_values(|a: Attr| a@)
}

/// One generic parameter of the declaration header, bounds split off and any
/// default dropped.
#[derive(Debug)]
pub struct GenericParam {
    /// Whether the parameter is a lifetime (`'a`) rather than a type.
    pub is_lifetime: bool,
    pub name: String,
    /// Every bound the header gave the parameter, inline or not, as raw
    /// tokens; empty when it had none.
    pub bounds: Vec<Tok>,
}

pub struct GenericParamV {
    pub is_lifetime: bool,
    pub name: Seq<char>,
    pub bounds: Seq<TokV>,
}

impl View for GenericParam {
    type V = GenericParamV;

    open spec fn view(&self) -> GenericParamV {
        GenericParamV {
            is_lifetime: self.is_lifetime,
            name: self.name@,
            bounds: toks_view(self.bounds@),
        }
    }
}

pub open spec fn params_view(s: Seq<GenericParam>) -> Seq<GenericParamV> {
    s.map_values(|p: GenericParam| p@)
}

/// A named field: `#[attrs] name : Type`.
#[derive(Debug)]
pub struct NamedField {
    pub attrs: Vec<Attr>,
    pub name: String,
    pub ty: Vec<Tok>,
}

pub struct NamedFieldV {
    pub attrs: Seq<AttrV>,
    pub name: Seq<char>,
    pub ty: Seq<TokV>,
}

impl View for NamedField {
    type V = NamedFieldV;

    open spec fn view(&self) -> NamedFieldV {
        NamedFieldV {
            attrs: attrs_view(self.attrs@),
            name: self.name@,
            ty: toks_view(self.ty@),
        }
    }
}

pub open spec fn named_fields_view(s: Seq<NamedField>) -> Seq<NamedFieldV> {
    s.map_values(|f: NamedField| f@)
}

/// A positional field: `#[attrs] Type`.
#[derive(Debug)]
pub struct TupleField {
    pub attrs: Vec<Attr>,
    pub ty: Vec<Tok>,
}

pub struct TupleFieldV {
    pub attrs: Seq<AttrV>,
    pub ty: Seq<TokV>,
}

impl View for TupleField {
    type V = TupleFieldV;

    open spec fn view(&self) -> TupleFieldV {
        TupleFieldV { attrs: attrs_view(self.attrs@), ty: toks_view(self.ty@) }
    }
}

pub open spec fn tuple_fields_view(s: Seq<TupleField>) -> Seq<TupleFieldV> {
    s.map_values(|f: TupleField| f@)
}

/// The field list of a struct or of one enum variant.
#[derive(Debug)]
pub enum FieldList {
    Unit,
    Named(Vec<NamedField>),
    Tuple(Vec<TupleField>),
}

pub enum FieldListV {
    Unit,
    Named(Seq<NamedFieldV>),
    Tuple(Seq<TupleFieldV>),
}

impl View for FieldList {
    type V = FieldListV;

    open spec fn view(&self) -> FieldListV {
        match self {
            FieldList::Unit => FieldListV::Unit,
            FieldList::Named(fs) => FieldListV::Named(named_fields_view(fs@)),
            FieldList::Tuple(fs) => FieldListV::Tuple(tuple_fields_view(fs@)),
        }
    }
}

/// One enum variant: a case identifier with its own field list.
#[derive(Debug)]
pub struct Variant {
    pub attrs: Vec<Attr>,
    pub name: String,
    pub fields: FieldList,
}

pub struct VariantV {
    pub attrs: Seq<AttrV>,
    pub name: Seq<char>,
    pub fields: FieldListV,
}

impl View for Variant {
    type V = VariantV;

    open spec fn view(&self) -> VariantV {
        VariantV {
            attrs: attrs_view(self.attrs@),
            name: self.name@,
            fields: self.fields@,
        }
    }
}

pub open spec fn variants_view(s: Seq<Variant>) -> Seq<VariantV> {
    s.map_values(|v: Variant| v@)
}

/// The body of a declaration: one struct field list, or an enum's variants.
#[derive(Debug)]
pub enum Body {
    Struct(FieldList),
    Enum(Vec<Variant>),
}

pub enum BodyV {
    Struct(FieldListV),
    Enum(Seq<VariantV>),
}

impl View for Body {
    type V = BodyV;

    open spec fn view(&self) -> BodyV {
        match self {
            Body::Struct(fs) => BodyV::Struct(fs@),
            Body::Enum(vs) => BodyV::Enum(variants_view(vs@)),
        }
    }
}

/// A parsed declaration: attributes, name, generic parameters, the raw tokens
/// of its `where` clause, and the body.
#[derive(Debug)]
pub struct Decl {
    pub attrs: Vec<Attr>,
    pub name: String,
    pub generics: Vec<GenericParam>,
    pub where_clause: Vec<Tok>,
    pub body: Body,
}

pub struct DeclV {
    pub attrs: Seq<AttrV>,
    pub name: Seq<char>,
    pub generics: Seq<GenericParamV>,
    pub where_clause: Seq<TokV>,
    pub body: BodyV,
}

impl View for Decl {
    type V = DeclV;

    open spec fn view(&self) -> DeclV {
        DeclV {
            attrs: attrs_view(self.attrs@),
            name: self.name@,
            generics: params_view(self.generics@),
            where_clause: toks_view(self.where_clause@),
            body: self.body@,
        }
    }
}

} // verus!
