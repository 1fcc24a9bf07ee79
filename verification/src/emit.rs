//! The code emitter: renders a synthesized implementation block as Rust
//! source text.
//!
//! Every generated method narrows the receiver to the chosen field (binding
//! it through a pattern), adapts it to the operation's receiver shape — a
//! plain borrow for synchronous operations, a re-derived pinned reference
//! for polling operations — and forwards to the field's own implementation,
//! to its inherent method under the duck strategy, or to the user-named
//! override function. For an enum, one `match` dispatches on the active
//! variant. Descriptor derivations render the Unix descriptor traits.

use vstd::prelude::*;
use vstd::string::StringExecFns;
use crate::ast::{GenericParam, GenericParamV, params_view};
use crate::scan::{FieldAddr, FieldAddrV};
use crate::resolve::Strategy;
use crate::synth::{ArmV, Arm, Bound, BoundV, ImplBlock, ImplBlockV, Method, MethodV, Op,
    TargetTrait, arms_view, bounds_view, impls_view, methods_view, op_name, sp_op_name};
use crate::tokens::{Tok, TokV, toks_view, sp_render_toks, render_toks};

verus! {

/// The receiver shape of a primitive operation.
#[derive(Clone, Copy, PartialEq, Eq, Structural, Debug)]
pub enum RecvMode {
    /// `&mut self`.
    Mut,
    /// `&self`.
    Ref,
    /// `self: std::pin::Pin<&mut Self>`.
    Pin,
}

/// The receiver shape of each operation.
pub open spec fn sp_op_mode(op: Op) -> RecvMode {
    match op {
        Op::Read => RecvMode::Mut,
        Op::FillBuf => RecvMode::Mut,
        Op::Consume => RecvMode::Mut,
        Op::ReadUntil => RecvMode::Mut,
        Op::SkipUntil => RecvMode::Mut,
        Op::ReadLine => RecvMode::Mut,
        Op::Write => RecvMode::Mut,
        Op::Flush => RecvMode::Mut,
        Op::PollRead => RecvMode::Pin,
        Op::PollWrite => RecvMode::Pin,
        Op::PollFlush => RecvMode::Pin,
        Op::PollShutdown => RecvMode::Pin,
        Op::IsWriteVectored => RecvMode::Ref,
        Op::PollWriteVectored => RecvMode::Pin,
        Op::AsFdOp => RecvMode::Ref,
        Op::AsRawFdOp => RecvMode::Ref,
    }
}

/// See [`sp_op_mode`].
pub fn op_mode(op: Op) -> (r: RecvMode)
    ensures
        r == sp_op_mode(op),
{
    match op {
        Op::Read => RecvMode::Mut,
        Op::FillBuf => RecvMode::Mut,
        Op::Consume => RecvMode::Mut,
        Op::ReadUntil => RecvMode::Mut,
        Op::SkipUntil => RecvMode::Mut,
        Op::ReadLine => RecvMode::Mut,
        Op::Write => RecvMode::Mut,
        Op::Flush => RecvMode::Mut,
        Op::PollRead => RecvMode::Pin,
        Op::PollWrite => RecvMode::Pin,
        Op::PollFlush => RecvMode::Pin,
        Op::PollShutdown => RecvMode::Pin,
        Op::IsWriteVectored => RecvMode::Ref,
        Op::PollWriteVectored => RecvMode::Pin,
        Op::AsFdOp => RecvMode::Ref,
        Op::AsRawFdOp => RecvMode::Ref,
    }
}

/// The full path of a target trait.
pub open spec fn sp_trait_path(t: TargetTrait) -> Seq<char> {
    match t {
        TargetTrait::StdRead => "std::io::Read"@,
        TargetTrait::StdBufRead => "std::io::BufRead"@,
        TargetTrait::StdWrite => "std::io::Write"@,
        TargetTrait::TokioAsyncRead => "tokio::io::AsyncRead"@,
        TargetTrait::TokioAsyncWrite => "tokio::io::AsyncWrite"@,
        TargetTrait::AsFd => "std::os::fd::AsFd"@,
        TargetTrait::AsRawFd => "std::os::fd::AsRawFd"@,
    }
}

/// See [`sp_trait_path`].
pub fn trait_path(t: TargetTrait) -> (r: &'static str)
    ensures
        r@ == sp_trait_path(t),
{
    match t {
        TargetTrait::StdRead => "std::io::Read",
        TargetTrait::StdBufRead => "std::io::BufRead",
        TargetTrait::StdWrite => "std::io::Write",
        TargetTrait::TokioAsyncRead => "tokio::io::AsyncRead",
        TargetTrait::TokioAsyncWrite => "tokio::io::AsyncWrite",
        TargetTrait::AsFd => "std::os::fd::AsFd",
        TargetTrait::AsRawFd => "std::os::fd::AsRawFd",
    }
}

/// The signature of each generated method.
pub open spec fn sp_op_sig(op: Op) -> Seq<char> {
    match op {
        Op::Read => "fn read(&mut self, buf: &mut [u8]) -> std::io::Result<usize>"@,
        Op::FillBuf => "fn fill_buf(&mut self) -> std::io::Result<&[u8]>"@,
        Op::Consume => "fn consume(&mut self, amt: usize)"@,
        Op::ReadUntil => "fn read_until(&mut self, byte: u8, buf: &mut Vec<u8>) -> std::io::Result<usize>"@,
        Op::SkipUntil => "fn skip_until(&mut self, byte: u8) -> std::io::Result<usize>"@,
        Op::ReadLine => "fn read_line(&mut self, buf: &mut String) -> std::io::Result<usize>"@,
        Op::Write => "fn write(&mut self, buf: &[u8]) -> std::io::Result<usize>"@,
        Op::Flush => "fn flush(&mut self) -> std::io::Result<()>"@,
        Op::PollRead => "fn poll_read(self: std::pin::Pin<&mut Self>, cx: &mut std::task::Context<'_>, buf: &mut tokio::io::ReadBuf<'_>) -> std::task::Poll<std::io::Result<()>>"@,
        Op::PollWrite => "fn poll_write(self: std::pin::Pin<&mut Self>, cx: &mut std::task::Context<'_>, buf: &[u8]) -> std::task::Poll<std::io::Result<usize>>"@,
        Op::PollFlush => "fn poll_flush(self: std::pin::Pin<&mut Self>, cx: &mut std::task::Context<'_>) -> std::task::Poll<std::io::Result<()>>"@,
        Op::PollShutdown => "fn poll_shutdown(self: std::pin::Pin<&mut Self>, cx: &mut std::task::Context<'_>) -> std::task::Poll<std::io::Result<()>>"@,
        Op::IsWriteVectored => "fn is_write_vectored(&self) -> bool"@,
        Op::PollWriteVectored => "fn poll_write_vectored(self: std::pin::Pin<&mut Self>, cx: &mut std::task::Context<'_>, bufs: &[std::io::IoSlice<'_>]) -> std::task::Poll<std::io::Result<usize>>"@,
        Op::AsFdOp => "fn as_fd(&self) -> std::os::fd::BorrowedFd<'_>"@,
        Op::AsRawFdOp => "fn as_raw_fd(&self) -> std::os::fd::RawFd"@,
    }
}

/// See [`sp_op_sig`].
pub fn op_sig(op: Op) -> (r: &'static str)
    ensures
        r@ == sp_op_sig(op),
{
    match op {
        Op::Read => "fn read(&mut self, buf: &mut [u8]) -> std::io::Result<usize>",
        Op::FillBuf => "fn fill_buf(&mut self) -> std::io::Result<&[u8]>",
        Op::Consume => "fn consume(&mut self, amt: usize)",
        Op::ReadUntil => "fn read_until(&mut self, byte: u8, buf: &mut Vec<u8>) -> std::io::Result<usize>",
        Op::SkipUntil => "fn skip_until(&mut self, byte: u8) -> std::io::Result<usize>",
        Op::ReadLine => "fn read_line(&mut self, buf: &mut String) -> std::io::Result<usize>",
        Op::Write => "fn write(&mut self, buf: &[u8]) -> std::io::Result<usize>",
        Op::Flush => "fn flush(&mut self) -> std::io::Result<()>",
        Op::PollRead => "fn poll_read(self: std::pin::Pin<&mut Self>, cx: &mut std::task::Context<'_>, buf: &mut tokio::io::ReadBuf<'_>) -> std::task::Poll<std::io::Result<()>>",
        Op::PollWrite => "fn poll_write(self: std::pin::Pin<&mut Self>, cx: &mut std::task::Context<'_>, buf: &[u8]) -> std::task::Poll<std::io::Result<usize>>",
        Op::PollFlush => "fn poll_flush(self: std::pin::Pin<&mut Self>, cx: &mut std::task::Context<'_>) -> std::task::Poll<std::io::Result<()>>",
        Op::PollShutdown => "fn poll_shutdown(self: std::pin::Pin<&mut Self>, cx: &mut std::task::Context<'_>) -> std::task::Poll<std::io::Result<()>>",
        Op::IsWriteVectored => "fn is_write_vectored(&self) -> bool",
        Op::PollWriteVectored => "fn poll_write_vectored(self: std::pin::Pin<&mut Self>, cx: &mut std::task::Context<'_>, bufs: &[std::io::IoSlice<'_>]) -> std::task::Poll<std::io::Result<usize>>",
        Op::AsFdOp => "fn as_fd(&self) -> std::os::fd::BorrowedFd<'_>",
        Op::AsRawFdOp => "fn as_raw_fd(&self) -> std::os::fd::RawFd",
    }
}

/// The non-receiver arguments each operation passes on.
pub open spec fn sp_op_args(op: Op) -> Seq<char> {
    match op {
        Op::Read => "buf"@,
        Op::FillBuf => ""@,
        Op::Consume => "amt"@,
        Op::ReadUntil => "byte, buf"@,
        Op::SkipUntil => "byte"@,
        Op::ReadLine => "buf"@,
        Op::Write => "buf"@,
        Op::Flush => ""@,
        Op::PollRead => "cx, buf"@,
        Op::PollWrite => "cx, buf"@,
        Op::PollFlush => "cx"@,
        Op::PollShutdown => "cx"@,
        Op::IsWriteVectored => ""@,
        Op::PollWriteVectored => "cx, bufs"@,
        Op::AsFdOp => ""@,
        Op::AsRawFdOp => ""@,
    }
}

/// See [`sp_op_args`].
pub fn op_args(op: Op) -> (r: &'static str)
    ensures
        r@ == sp_op_args(op),
{
    match op {
        Op::Read => "buf",
        Op::FillBuf => "",
        Op::Consume => "amt",
        Op::ReadUntil => "byte, buf",
        Op::SkipUntil => "byte",
        Op::ReadLine => "buf",
        Op::Write => "buf",
        Op::Flush => "",
        Op::PollRead => "cx, buf",
        Op::PollWrite => "cx, buf",
        Op::PollFlush => "cx",
        Op::PollShutdown => "cx",
        Op::IsWriteVectored => "",
        Op::PollWriteVectored => "cx, bufs",
        Op::AsFdOp => "",
        Op::AsRawFdOp => "",
    }
}

/// The name the narrowed receiver is bound to: the field's own name for a
/// named field, `inner` for a tuple field, `this` for the aggregate itself.
pub open spec fn sp_var_of(addr: FieldAddrV) -> Seq<char> {
    match addr {
        FieldAddrV::This => "this"@,
        FieldAddrV::Named(f) => f,
        FieldAddrV::Index(_) => "inner"@,
    }
}

/// See [`sp_var_of`].
pub fn var_of(addr: &FieldAddr) -> (r: String)
    ensures
        r@ == sp_var_of(addr@),
{
    match addr {
        FieldAddr::This => "this".to_owned(),
        FieldAddr::Named(f) => f.clone(),
        FieldAddr::Index(_) => "inner".to_owned(),
    }
}

/// `k` skipped positions of a tuple pattern: `_ , ` repeated.
pub open spec fn sp_skips(k: nat) -> Seq<char>
    decreases k,
{
    if k == 0 {
        Seq::empty()
    } else {
        sp_skips((k - 1) as nat) + "_, "@
    }
}

/// See [`sp_skips`].
pub fn skips(k: usize) -> (r: String)
    ensures
        r@ == sp_skips(k as nat),
{
    let mut s = String::new();
    let mut i: usize = 0;
    proof {
        assert(s@ =~= sp_skips(0));
    }
    while i < k
        invariant
            i <= k,
            s@ == sp_skips(i as nat),
        decreases k - i,
    {
        s.append("_, ");
        i = i + 1;
    }
    s
}

/// The narrowed receiver, adapted to the operation's receiver shape by the
/// target's strategy: the binding itself for the direct strategy (re-pinned
/// for polling operations), the reference conversion for `as_ref`, the
/// dereference for `deref`. The duck strategy uses the binding directly; its
/// calls are inherent.
pub open spec fn sp_recv(var: Seq<char>, st: Strategy, mode: RecvMode) -> Seq<char> {
    match st {
        Strategy::Direct => match mode {
            RecvMode::Pin => "unsafe { std::pin::Pin::new_unchecked("@ + var + ") }"@,
            _ => var,
        },
        Strategy::AsRefConv => match mode {
            RecvMode::Mut => var + ".as_mut()"@,
            RecvMode::Ref => var + ".as_ref()"@,
            RecvMode::Pin => "std::pin::Pin::new("@ + var + ".as_mut())"@,
        },
        Strategy::TransparentUnwrap => match mode {
            RecvMode::Mut => "std::ops::DerefMut::deref_mut("@ + var + ")"@,
            RecvMode::Ref => "std::ops::Deref::deref("@ + var + ")"@,
            RecvMode::Pin => "std::pin::Pin::new(std::ops::DerefMut::deref_mut("@ + var + "))"@,
        },
        Strategy::Duck => var,
    }
}

/// See [`sp_recv`].
pub fn recv_text(var: &String, st: Strategy, mode: RecvMode) -> (r: String)
    ensures
        r@ == sp_recv(var@, st, mode),
{
    match st {
        Strategy::Direct => match mode {
            RecvMode::Pin => {
                let mut s = "unsafe { std::pin::Pin::new_unchecked(".to_owned();
                s.append(var.as_str());
                s.append(") }");
                s
            },
            _ => var.clone(),
        },
        Strategy::AsRefConv => match mode {
            RecvMode::Mut => {
                let mut s = var.clone();
                s.append(".as_mut()");
                s
            },
            RecvMode::Ref => {
                let mut s = var.clone();
                s.append(".as_ref()");
                s
            },
            RecvMode::Pin => {
                let mut s = "std::pin::Pin::new(".to_owned();
                s.append(var.as_str());
                s.append(".as_mut())");
                s
            },
        },
        Strategy::TransparentUnwrap => match mode {
            RecvMode::Mut => {
                let mut s = "std::ops::DerefMut::deref_mut(".to_owned();
                s.append(var.as_str());
                s.append(")");
                s
            },
            RecvMode::Ref => {
                let mut s = "std::ops::Deref::deref(".to_owned();
                s.append(var.as_str());
                s.append(")");
                s
            },
            RecvMode::Pin => {
                let mut s = "std::pin::Pin::new(std::ops::DerefMut::deref_mut(".to_owned();
                s.append(var.as_str());
                s.append("))");
                s
            },
        },
        Strategy::Duck => var.clone(),
    }
}

/// The call one arm performs: the override function applied to the adapted
/// receiver, the field's inherent method under the duck strategy, or the
/// trait method of the field's own implementation.
pub open spec fn sp_call(a: ArmV, op: Op, tpath: Seq<char>) -> Seq<char> {
    let var = sp_var_of(a.addr);
    let recv = sp_recv(var, a.strategy, sp_op_mode(op));
    let args = sp_op_args(op);
    let tail = if args.len() == 0 {
        Seq::<char>::empty()
    } else {
        ", "@ + args
    };
    match a.call {
        crate::synth::CallV::Override(f) => f + "("@ + recv + tail + ")"@,
        crate::synth::CallV::Forward => if a.strategy == Strategy::Duck {
            var + "."@ + sp_op_name(op) + "("@ + args + ")"@
        } else {
            tpath + "::"@ + sp_op_name(op) + "("@ + recv + tail + ")"@
        },
    }
}

/// See [`sp_call`].
pub fn call_text(a: &Arm, op: Op, tpath: &str) -> (r: String)
    ensures
        r@ == sp_call(a@, op, tpath@),
{
    let var = var_of(&a.addr);
    let recv = recv_text(&var, a.strategy, op_mode(op));
    let args = op_args(op);
    let tail: String = if args.is_empty() {
        String::new()
    } else {
        let mut t = ", ".to_owned();
        t.append(args);
        t
    };
    proof {
        if sp_op_args(op).len() == 0 {
            assert(tail@ =~= Seq::<char>::empty());
        }
    }
    match &a.call {
        crate::synth::Call::Override(f) => {
            let mut s = f.clone();
            s.append("(");
            s.append(recv.as_str());
            s.append(tail.as_str());
            s.append(")");
            s
        },
        crate::synth::Call::Forward => {
            if matches!(a.strategy, Strategy::Duck) {
                let mut s = var.clone();
                s.append(".");
                s.append(op_name(op));
                s.append("(");
                s.append(args);
                s.append(")");
                s
            } else {
                let mut s = tpath.to_owned();
                s.append("::");
                s.append(op_name(op));
                s.append("(");
                s.append(recv.as_str());
                s.append(tail.as_str());
                s.append(")");
                s
            }
        },
    }
}

/// The binding that narrows `this` to the chosen field of a struct body.
pub open spec fn sp_narrow_struct(addr: FieldAddrV) -> Seq<char> {
    match addr {
        FieldAddrV::This => Seq::empty(),
        FieldAddrV::Named(f) => "let Self { "@ + f + ", .. } = this; "@,
        FieldAddrV::Index(k) => "let Self ( "@ + sp_skips(if k >= 0 {
            k as nat
        } else {
            0
        }) + "inner, .. ) = this; "@,
    }
}

/// See [`sp_narrow_struct`].
pub fn narrow_struct(addr: &FieldAddr) -> (r: String)
    ensures
        r@ == sp_narrow_struct(addr@),
{
    match addr {
        FieldAddr::This => String::new(),
        FieldAddr::Named(f) => {
            let mut s = "let Self { ".to_owned();
            s.append(f.as_str());
            s.append(", .. } = this; ");
            s
        },
        FieldAddr::Index(k) => {
            let mut s = "let Self ( ".to_owned();
            let sk = skips(*k);
            s.append(sk.as_str());
            s.append("inner, .. ) = this; ");
            s
        },
    }
}

/// The pattern of one enum dispatch arm.
pub open spec fn sp_arm_pattern(a: ArmV) -> Seq<char> {
    let v = match a.variant {
        Some(n) => n,
        None => Seq::empty(),
    };
    match a.addr {
        FieldAddrV::This => "Self::"@ + v,
        FieldAddrV::Named(f) => "Self::"@ + v + " { "@ + f + ", .. }"@,
        FieldAddrV::Index(k) => "Self::"@ + v + " ( "@ + sp_skips(if k >= 0 {
            k as nat
        } else {
            0
        }) + "inner, .. )"@,
    }
}

/// See [`sp_arm_pattern`].
pub fn arm_pattern(a: &Arm) -> (r: String)
    ensures
        r@ == sp_arm_pattern(a@),
{
    let mut s = "Self::".to_owned();
    match &a.variant {
        Some(n) => {
            s.append(n.as_str());
        },
        None => {},
    }
    proof {
        if a.variant is None {
            assert("Self::"@ + Seq::<char>::empty() =~= "Self::"@);
        }
    }
    match &a.addr {
        FieldAddr::This => s,
        FieldAddr::Named(f) => {
            s.append(" { ");
            s.append(f.as_str());
            s.append(", .. }");
            s
        },
        FieldAddr::Index(k) => {
            s.append(" ( ");
            let sk = skips(*k);
            s.append(sk.as_str());
            s.append("inner, .. )");
            s
        },
    }
}

/// The binding of the whole receiver every method body opens with.
pub open spec fn sp_base(mode: RecvMode) -> Seq<char> {
    match mode {
        RecvMode::Pin => "let this = unsafe { self.get_unchecked_mut() }; "@,
        _ => "let this = self; "@,
    }
}

/// See [`sp_base`].
pub fn base_text(mode: RecvMode) -> (r: &'static str)
    ensures
        r@ == sp_base(mode),
{
    match mode {
        RecvMode::Pin => "let this = unsafe { self.get_unchecked_mut() }; ",
        _ => "let this = self; ",
    }
}

/// The dispatch arms of an enum method, in declaration order.
pub open spec fn sp_arms_text(arms: Seq<ArmV>, op: Op, tpath: Seq<char>, i: int) -> Seq<char>
    decreases arms.len() - i,
{
    if i < 0 || i >= arms.len() {
        Seq::empty()
    } else {
        sp_arm_pattern(arms[i]) + " => { "@ + sp_call(arms[i], op, tpath) + " } "@
            + sp_arms_text(arms, op, tpath, i + 1)
    }
}

fn arms_text(arms: &Vec<Arm>, op: Op, tpath: &str, i: usize) -> (r: String)
    ensures
        r@ == sp_arms_text(arms_view(arms@), op, tpath@, i as int),
    decreases arms@.len() - i,
{
    if i >= arms.len() {
        let r = String::new();
        proof {
            assert(r@ =~= sp_arms_text(arms_view(arms@), op, tpath@, i as int));
        }
        return r;
    }
    let mut s = arm_pattern(&arms[i]);
    s.append(" => { ");
    let c = call_text(&arms[i], op, tpath);
    s.append(c.as_str());
    s.append(" } ");
    let rest = arms_text(arms, op, tpath, i + 1);
    s.append(rest.as_str());
    s
}

/// One method's body: the receiver binding, then either the single struct
/// arm's narrowing and call, or a `match` dispatching on the variants.
pub open spec fn sp_method_body(m: MethodV, tpath: Seq<char>) -> Seq<char> {
    let mode = sp_op_mode(m.op);
    if m.arms.len() == 1 && m.arms[0].variant is None {
        sp_base(mode) + sp_narrow_struct(m.arms[0].addr) + sp_call(m.arms[0], m.op, tpath)
    } else {
        sp_base(mode) + "match this { "@ + sp_arms_text(m.arms, m.op, tpath, 0) + "}"@
    }
}

fn method_body(m: &Method, tpath: &str) -> (r: String)
    ensures
        r@ == sp_method_body(m@, tpath@),
{
    let mode = op_mode(m.op);
    let single = m.arms.len() == 1 && m.arms[0].variant.is_none();
    if single {
        let mut s = base_text(mode).to_owned();
        let n = narrow_struct(&m.arms[0].addr);
        s.append(n.as_str());
        let c = call_text(&m.arms[0], m.op, tpath);
        s.append(c.as_str());
        proof {
            assert(arms_view(m.arms@)[0] == m.arms@[0]@);
        }
        s
    } else {
        let mut s = base_text(mode).to_owned();
        s.append("match this { ");
        let a = arms_text(&m.arms, m.op, tpath, 0);
        s.append(a.as_str());
        s.append("}");
        s
    }
}

/// One full method: signature and braced body.
pub open spec fn sp_method_text(m: MethodV, tpath: Seq<char>) -> Seq<char> {
    sp_op_sig(m.op) + " { "@ + sp_method_body(m, tpath) + " }"@
}

fn method_text(m: &Method, tpath: &str) -> (r: String)
    ensures
        r@ == sp_method_text(m@, tpath@),
{
    let mut s = op_sig(m.op).to_owned();
    s.append(" { ");
    let b = method_body(m, tpath);
    s.append(b.as_str());
    s.append(" }");
    s
}

/// Every method of the block, space separated.
pub open spec fn sp_methods_text(ms: Seq<MethodV>, tpath: Seq<char>, i: int) -> Seq<char>
    decreases ms.len() - i,
{
    if i < 0 || i >= ms.len() {
        Seq::empty()
    } else {
        sp_method_text(ms[i], tpath) + " "@ + sp_methods_text(ms, tpath, i + 1)
    }
}

fn methods_text(ms: &Vec<Method>, tpath: &str, i: usize) -> (r: String)
    ensures
        r@ == sp_methods_text(methods_view(ms@), tpath@, i as int),
    decreases ms@.len() - i,
{
    if i >= ms.len() {
        let r = String::new();
        proof {
            assert(r@ =~= sp_methods_text(methods_view(ms@), tpath@, i as int));
        }
        return r;
    }
    let mut s = method_text(&ms[i], tpath);
    s.append(" ");
    let rest = methods_text(ms, tpath, i + 1);
    s.append(rest.as_str());
    s
}

/// One bare generic parameter, bounds stripped: `'a` or `T`.
pub open spec fn sp_param_text(p: GenericParamV) -> Seq<char> {
    if p.is_lifetime {
        "'"@ + p.name
    } else {
        p.name
    }
}

fn param_text(p: &GenericParam) -> (r: String)
    ensures
        r@ == sp_param_text(p@),
{
    if p.is_lifetime {
        let mut s = "'".to_owned();
        s.append(p.name.as_str());
        s
    } else {
        p.name.clone()
    }
}

/// The bare parameter list, comma separated.
pub open spec fn sp_params_text(ps: Seq<GenericParamV>, i: int) -> Seq<char>
    decreases ps.len() - i,
{
    if i < 0 || i >= ps.len() {
        Seq::empty()
    } else if i == ps.len() - 1 {
        sp_param_text(ps[i])
    } else {
        sp_param_text(ps[i]) + ", "@ + sp_params_text(ps, i + 1)
    }
}

fn params_text(ps: &Vec<GenericParam>, i: usize) -> (r: String)
    ensures
        r@ == sp_params_text(params_view(ps@), i as int),
    decreases ps@.len() - i,
{
    if i >= ps.len() {
        let r = String::new();
        proof {
            assert(r@ =~= sp_params_text(params_view(ps@), i as int));
        }
        return r;
    }
    let mut s = param_text(&ps[i]);
    if i + 1 < ps.len() {
        s.append(", ");
        let rest = params_text(ps, i + 1);
        s.append(rest.as_str());
    }
    s
}

/// The angle-bracketed bare generic list; empty when the declaration has no
/// parameters.
pub open spec fn sp_generics_angle(ps: Seq<GenericParamV>) -> Seq<char> {
    if ps.len() == 0 {
        Seq::empty()
    } else {
        "<"@ + sp_params_text(ps, 0) + ">"@
    }
}

fn generics_angle(ps: &Vec<GenericParam>) -> (r: String)
    ensures
        r@ == sp_generics_angle(params_view(ps@)),
{
    if ps.len() == 0 {
        let r = String::new();
        proof {
            assert(r@ =~= sp_generics_angle(params_view(ps@)));
        }
        return r;
    }
    let mut s = "<".to_owned();
    let p = params_text(ps, 0);
    s.append(p.as_str());
    s.append(">");
    s
}

/// The subject of one synthesized bound: the field type itself, or the
/// placeholder implementation the support trait guarantees.
pub open spec fn sp_bound_text(b: BoundV, tpath: Seq<char>) -> Seq<char> {
    match b {
        BoundV::FieldTy(ty) => sp_render_toks(ty, 0),
        BoundV::Placeholder => "<() as derive_io::IsSupported<&'static dyn "@ + tpath + ">>::Type"@,
    }
}

fn bound_text(b: &Bound, tpath: &str) -> (r: String)
    ensures
        r@ == sp_bound_text(b@, tpath@),
{
    match b {
        Bound::FieldTy(ty) => render_toks(ty),
        Bound::Placeholder => {
            let mut s = "<() as derive_io::IsSupported<&'static dyn ".to_owned();
            s.append(tpath);
            s.append(">>::Type");
            s
        },
    }
}

/// Every synthesized bound, each constraining its subject to the trait,
/// comma terminated.
pub open spec fn sp_bounds_text(bs: Seq<BoundV>, tpath: Seq<char>, i: int) -> Seq<char>
    decreases bs.len() - i,
{
    if i < 0 || i >= bs.len() {
        Seq::empty()
    } else {
        sp_bound_text(bs[i], tpath) + ": "@ + tpath + ", "@ + sp_bounds_text(bs, tpath, i + 1)
    }
}

fn bounds_text(bs: &Vec<Bound>, tpath: &str, i: usize) -> (r: String)
    ensures
        r@ == sp_bounds_text(bounds_view(bs@), tpath@, i as int),
    decreases bs@.len() - i,
{
    if i >= bs.len() {
        let r = String::new();
        proof {
            assert(r@ =~= sp_bounds_text(bounds_view(bs@), tpath@, i as int));
        }
        return r;
    }
    let mut s = bound_text(&bs[i], tpath);
    s.append(": ");
    s.append(tpath);
    s.append(", ");
    let rest = bounds_text(bs, tpath, i + 1);
    s.append(rest.as_str());
    s
}

/// The bounds the declaration's own generic parameters carried inline, each
/// normalized to `param: bounds` and comma terminated — the normalizer's
/// second fragment.
pub open spec fn sp_params_where(ps: Seq<GenericParamV>, i: int) -> Seq<char>
    decreases ps.len() - i,
{
    if i < 0 || i >= ps.len() {
        Seq::empty()
    } else if ps[i].bounds.len() == 0 {
        sp_params_where(ps, i + 1)
    } else {
        sp_param_text(ps[i]) + ": "@ + sp_render_toks(ps[i].bounds, 0) + ", "@ + sp_params_where(
            ps,
            i + 1,
        )
    }
}

fn params_where(ps: &Vec<GenericParam>, i: usize) -> (r: String)
    ensures
        r@ == sp_params_where(params_view(ps@), i as int),
    decreases ps@.len() - i,
{
    if i >= ps.len() {
        let r = String::new();
        proof {
            assert(r@ =~= sp_params_where(params_view(ps@), i as int));
        }
        return r;
    }
    if ps[i].bounds.len() == 0 {
        params_where(ps, i + 1)
    } else {
        let mut s = param_text(&ps[i]);
        s.append(": ");
        let bt = render_toks(&ps[i].bounds);
        s.append(bt.as_str());
        s.append(", ");
        let rest = params_where(ps, i + 1);
        s.append(rest.as_str());
        s
    }
}

/// Whether any generic parameter carried a bound.
pub open spec fn sp_any_param_bounds(ps: Seq<GenericParamV>, i: int) -> bool
    decreases ps.len() - i,
{
    if i < 0 || i >= ps.len() {
        false
    } else {
        ps[i].bounds.len() > 0 || sp_any_param_bounds(ps, i + 1)
    }
}

fn any_param_bounds(ps: &Vec<GenericParam>, i: usize) -> (r: bool)
    ensures
        r == sp_any_param_bounds(params_view(ps@), i as int),
    decreases ps@.len() - i,
{
    if i >= ps.len() {
        false
    } else {
        ps[i].bounds.len() > 0 || any_param_bounds(ps, i + 1)
    }
}

/// The whole `where` section: the synthesized bounds, then the normalized
/// bounds of the declaration's own generic parameters, then its original
/// `where` clause; empty when all three are.
pub open spec fn sp_where_text(b: ImplBlockV, tpath: Seq<char>) -> Seq<char> {
    if b.bounds.len() == 0 && b.where_clause.len() == 0 && !sp_any_param_bounds(b.generics, 0) {
        " "@
    } else {
        " where "@ + sp_bounds_text(b.bounds, tpath, 0) + sp_params_where(b.generics, 0) + (
        if b.where_clause.len() == 0 {
            Seq::empty()
        } else {
            sp_render_toks(b.where_clause, 0) + " "@
        })
    }
}

/// One whole implementation block as text.
pub open spec fn sp_impl_text(b: ImplBlockV) -> Seq<char> {
    let tpath = sp_trait_path(b.target);
    "impl"@ + sp_generics_angle(b.generics) + " "@ + tpath + " for "@ + b.self_name
        + sp_generics_angle(b.generics) + sp_where_text(b, tpath) + "{ "@ + sp_methods_text(
        b.methods,
        tpath,
        0,
    ) + "}"@
}

/// See [`sp_impl_text`].
pub fn emit_impl(b: &ImplBlock) -> (r: String)
    ensures
        r@ == sp_impl_text(b@),
{
    let tpath = trait_path(b.target);
    let mut s = "impl".to_owned();
    let g = generics_angle(&b.generics);
    s.append(g.as_str());
    s.append(" ");
    s.append(tpath);
    s.append(" for ");
    s.append(b.self_name.as_str());
    s.append(g.as_str());
    let w: String = if b.bounds.len() == 0 && b.where_clause.len() == 0 && !any_param_bounds(
        &b.generics,
        0,
    ) {
        " ".to_owned()
    } else {
        let mut w = " where ".to_owned();
        let bt = bounds_text(&b.bounds, tpath, 0);
        w.append(bt.as_str());
        let pw = params_where(&b.generics, 0);
        w.append(pw.as_str());
        let tail: String = if b.where_clause.len() == 0 {
            String::new()
        } else {
            let mut t = render_toks(&b.where_clause);
            t.append(" ");
            t
        };
        proof {
            if b@.where_clause.len() == 0 {
                assert(tail@ =~= Seq::<char>::empty());
            }
        }
        w.append(tail.as_str());
        w
    };
    s.append(w.as_str());
    s.append("{ ");
    let m = methods_text(&b.methods, tpath, 0);
    s.append(m.as_str());
    s.append("}");
    s
}

/// Every block of one derivation, blank-line separated.
pub open spec fn sp_impls_text(bs: Seq<ImplBlockV>, i: int) -> Seq<char>
    decreases bs.len() - i,
{
    if i < 0 || i >= bs.len() {
        Seq::empty()
    } else if i == bs.len() - 1 {
        sp_impl_text(bs[i])
    } else {
        sp_impl_text(bs[i]) + "\n\n"@ + sp_impls_text(bs, i + 1)
    }
}

/// See [`sp_impls_text`].
pub fn emit_impls(bs: &Vec<ImplBlock>) -> (r: String)
    ensures
        r@ == sp_impls_text(impls_view(bs@), 0),
{
    emit_impls_from(bs, 0)
}

fn emit_impls_from(bs: &Vec<ImplBlock>, i: usize) -> (r: String)
    ensures
        r@ == sp_impls_text(impls_view(bs@), i as int),
    decreases bs@.len() - i,
{
    if i >= bs.len() {
        let r = String::new();
        proof {
            assert(r@ =~= sp_impls_text(impls_view(bs@), i as int));
        }
        return r;
    }
    let mut s = emit_impl(&bs[i]);
    if i + 1 < bs.len() {
        s.append("\n\n");
        let rest = emit_impls_from(bs, i + 1);
        s.append(rest.as_str());
    }
    s
}

} // verus!
