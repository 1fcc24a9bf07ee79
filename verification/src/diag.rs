//! Diagnostics: every pipeline stage reports failure as a [`Diag`] value.
//!
//! No stage recovers or retries; the first failure aborts the derivation and
//! surfaces as a single diagnostic.

use vstd::prelude::*;
use vstd::string::StringExecFns;

verus! {

/// A terminal derivation failure.
#[derive(Debug)]
pub enum Diag {
    /// The declaration is not a named struct, a tuple struct or an enum.
    UnsupportedShape,
    /// A `const` generic parameter was encountered.
    ConstNotSupported,
    /// A token other than the grammar allows at this point.
    UnexpectedToken,
    /// The declaration ended before the grammar was satisfied.
    UnexpectedEnd,
    /// No field carries the named capability attribute.
    MissingCapability(String),
    /// A capability attribute has arguments outside the permitted set; the
    /// payload is the offending attribute content, e.g. `read ( bogus )`.
    InvalidAttribute(String),
}

/// The mathematical value of a diagnostic.
pub enum DiagV {
    UnsupportedShape,
    ConstNotSupported,
    UnexpectedToken,
    UnexpectedEnd,
    MissingCapability(Seq<char>),
    InvalidAttribute(Seq<char>),
}

impl View for Diag {
    type V = DiagV;

    open spec fn view(&self) -> DiagV {
        match self {
            Diag::UnsupportedShape => DiagV::UnsupportedShape,
            Diag::ConstNotSupported => DiagV::ConstNotSupported,
            Diag::UnexpectedToken => DiagV::UnexpectedToken,
            Diag::UnexpectedEnd => DiagV::UnexpectedEnd,
            Diag::MissingCapability(c) => DiagV::MissingCapability(c@),
            Diag::InvalidAttribute(a) => DiagV::InvalidAttribute(a@),
        }
    }
}

/// The user-visible text of a diagnostic.
pub open spec fn sp_message(d: DiagV) -> Seq<char> {
    match d {
        DiagV::UnsupportedShape => "unsupported declaration shape"@,
        DiagV::ConstNotSupported => "const not yet supported"@,
        DiagV::UnexpectedToken => "unexpected token in declaration"@,
        DiagV::UnexpectedEnd => "unexpected end of declaration"@,
        DiagV::MissingCapability(c) => "No #["@ + c + "] field found"@,
        DiagV::InvalidAttribute(a) => "Invalid #"@ + a + " attribute"@,
    }
}

impl Diag {
    /// See [`sp_message`].
    pub fn message(&self) -> (r: String)
        ensures
            r@ == sp_message(self@),
    {
        match self {
            Diag::UnsupportedShape => "unsupported declaration shape".to_owned(),
            Diag::ConstNotSupported => "const not yet supported".to_owned(),
            Diag::UnexpectedToken => "unexpected token in declaration".to_owned(),
            Diag::UnexpectedEnd => "unexpected end of declaration".to_owned(),
            Diag::MissingCapability(c) => {
                let mut s = "No #[".to_owned();
                s.append(c.as_str());
                s.append("] field found");
                s
            },
            Diag::InvalidAttribute(a) => {
                let mut s = "Invalid #".to_owned();
                s.append(a.as_str());
                s.append(" attribute");
                s
            },
        }
    }
}

} // verus!
