//! The derivation entry points, one per supported trait family.
//!
//! Each takes the token sequence of one type declaration and returns the
//! generated implementation block(s) as Rust source text, or the diagnostic
//! that aborted the derivation: the unsupported-shape or parse failure, the
//! `const not yet supported` failure, the missing-capability failure, or the
//! invalid-attribute failure.

use vstd::prelude::*;
use crate::diag::{Diag, DiagV};
use crate::emit::{emit_impls, sp_impls_text};
use crate::parse::{parse_declaration, sp_parse_declaration};
use crate::synth::{TraitKind, derive_impl, sp_derive_impl};
use crate::tokens::{Tok, TokV, toks_view};

verus! {

/// The generated source text of one derivation: parse, scan, resolve,
/// synthesize and emit, composed.
pub open spec fn sp_derive(s: Seq<TokV>, kind: TraitKind) -> Result<Seq<char>, DiagV> {
    match sp_parse_declaration(s) {
        Err(e) => Err(e),
        Ok(d) => match sp_derive_impl(d, kind) {
            Err(e) => Err(e),
            Ok(bs) => Ok(sp_impls_text(bs, 0)),
        },
    }
}

/// See [`sp_derive`].
pub fn derive_for(input: &Vec<Tok>, kind: TraitKind) -> (r: Result<String, Diag>)
    ensures
        match r {
            Ok(s) => sp_derive(toks_view(input@), kind) == Result::<Seq<char>, DiagV>::Ok(s@),
            Err(e) => sp_derive(toks_view(input@), kind) == Result::<Seq<char>, DiagV>::Err(e@),
        },
{
    match parse_declaration(input) {
        Err(e) => Err(e),
        Ok(d) => match derive_impl(&d, kind) {
            Err(e) => Err(e),
            Ok(bs) => Ok(emit_impls(&bs)),
        },
    }
}

/// Derives `std::io::Read`: delegates `read` to the field marked `#[read]`,
/// honouring `as_ref`, `deref`, `duck` and per-operation overrides.
pub fn derive_io_read(input: &Vec<Tok>) -> (r: Result<String, Diag>)
    ensures
        match r {
            Ok(s) => sp_derive(toks_view(input@), TraitKind::Read) == Result::<
                Seq<char>,
                DiagV,
            >::Ok(s@),
            Err(e) => sp_derive(toks_view(input@), TraitKind::Read) == Result::<
                Seq<char>,
                DiagV,
            >::Err(e@),
        },
{
    derive_for(input, TraitKind::Read)
}

/// Derives `std::io::BufRead`: delegates `fill_buf`, `consume`,
/// `read_until`, `skip_until` and `read_line` to the field marked `#[read]`.
pub fn derive_io_bufread(input: &Vec<Tok>) -> (r: Result<String, Diag>)
    ensures
        match r {
            Ok(s) => sp_derive(toks_view(input@), TraitKind::BufRead) == Result::<
                Seq<char>,
                DiagV,
            >::Ok(s@),
            Err(e) => sp_derive(toks_view(input@), TraitKind::BufRead) == Result::<
                Seq<char>,
                DiagV,
            >::Err(e@),
        },
{
    derive_for(input, TraitKind::BufRead)
}

/// Derives `std::io::Write`: delegates `write` and `flush` to the field
/// marked `#[write]`.
pub fn derive_io_write(input: &Vec<Tok>) -> (r: Result<String, Diag>)
    ensures
        match r {
            Ok(s) => sp_derive(toks_view(input@), TraitKind::Write) == Result::<
                Seq<char>,
                DiagV,
            >::Ok(s@),
            Err(e) => sp_derive(toks_view(input@), TraitKind::Write) == Result::<
                Seq<char>,
                DiagV,
            >::Err(e@),
        },
{
    derive_for(input, TraitKind::Write)
}

/// Derives `tokio::io::AsyncRead`: delegates `poll_read` to the field marked
/// `#[read]`, re-deriving the pinned receiver for the chosen strategy.
pub fn derive_io_async_read(input: &Vec<Tok>) -> (r: Result<String, Diag>)
    ensures
        match r {
            Ok(s) => sp_derive(toks_view(input@), TraitKind::AsyncRead) == Result::<
                Seq<char>,
                DiagV,
            >::Ok(s@),
            Err(e) => sp_derive(toks_view(input@), TraitKind::AsyncRead) == Result::<
                Seq<char>,
                DiagV,
            >::Err(e@),
        },
{
    derive_for(input, TraitKind::AsyncRead)
}

/// Derives `tokio::io::AsyncWrite`: delegates `poll_write`, `poll_flush`,
/// `poll_shutdown`, `is_write_vectored` and `poll_write_vectored` to the
/// field marked `#[write]`.
pub fn derive_io_async_write(input: &Vec<Tok>) -> (r: Result<String, Diag>)
    ensures
        match r {
            Ok(s) => sp_derive(toks_view(input@), TraitKind::AsyncWrite) == Result::<
                Seq<char>,
                DiagV,
            >::Ok(s@),
            Err(e) => sp_derive(toks_view(input@), TraitKind::AsyncWrite) == Result::<
                Seq<char>,
                DiagV,
            >::Err(e@),
        },
{
    derive_for(input, TraitKind::AsyncWrite)
}

/// Derives the Unix file-descriptor traits `std::os::fd::AsFd` and
/// `std::os::fd::AsRawFd` from the field marked `#[descriptor]`.
pub fn derive_io_as_file_descriptor(input: &Vec<Tok>) -> (r: Result<String, Diag>)
    ensures
        match r {
            Ok(s) => sp_derive(toks_view(input@), TraitKind::AsFileDescriptor) == Result::<
                Seq<char>,
                DiagV,
            >::Ok(s@),
            Err(e) => sp_derive(toks_view(input@), TraitKind::AsFileDescriptor) == Result::<
                Seq<char>,
                DiagV,
            >::Err(e@),
        },
{
    derive_for(input, TraitKind::AsFileDescriptor)
}

/// Derives the Unix socket-descriptor traits (`std::os::fd::AsFd` and
/// `std::os::fd::AsRawFd`) from the field marked `#[descriptor]`.
pub fn derive_io_as_socket_descriptor(input: &Vec<Tok>) -> (r: Result<String, Diag>)
    ensures
        match r {
            Ok(s) => sp_derive(toks_view(input@), TraitKind::AsSocketDescriptor) == Result::<
                Seq<char>,
                DiagV,
            >::Ok(s@),
            Err(e) => sp_derive(toks_view(input@), TraitKind::AsSocketDescriptor) == Result::<
                Seq<char>,
                DiagV,
            >::Err(e@),
        },
{
    derive_for(input, TraitKind::AsSocketDescriptor)
}

} // verus!
