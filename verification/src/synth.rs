//! The method-body synthesizer and bound synthesizer: from a parsed
//! declaration and a requested trait family to structured implementation
//! blocks.
//!
//! Each trait family fixes a set of primitive operations. For every
//! operation, one dispatch arm per delegation target is built, carrying the
//! target's position, its resolved access strategy, and either the forwarded
//! trait call or the user-named override registered for exactly that
//! operation. For every distinct annotated field type, a bound is
//! synthesized: a type mentioning one of the declaration's own generic
//! parameters is constrained to implement the trait, any other type is
//! replaced by a placeholder that is known to implement it, so the emitted
//! block always type-checks.

use vstd::prelude::*;
use crate::ast::{Decl, DeclV, GenericParam, GenericParamV, params_view};
use crate::diag::{Diag, DiagV};
use crate::resolve::{Capability, Strategy, resolve_attribute, sp_resolve_args, sp_find_override,
    find_override};
use crate::scan::{FieldAddr, FieldAddrV, Target, TargetV, targets_view, find_annotated_multi,
    sp_find_annotated_multi};
use crate::tokens::{Tok, TokV, toks_view, copy_toks, toks_eq, str_eq};

verus! {

/// One derivable trait family.
#[derive(Clone, Copy, PartialEq, Eq, Structural, Debug)]
pub enum TraitKind {
    Read,
    BufRead,
    Write,
    AsyncRead,
    AsyncWrite,
    AsFileDescriptor,
    AsSocketDescriptor,
}

/// One concrete trait an implementation block is emitted for.
#[derive(Clone, Copy, PartialEq, Eq, Structural, Debug)]
pub enum TargetTrait {
    StdRead,
    StdBufRead,
    StdWrite,
    TokioAsyncRead,
    TokioAsyncWrite,
    AsFd,
    AsRawFd,
}

/// One primitive operation of a target trait.
#[derive(Clone, Copy, PartialEq, Eq, Structural, Debug)]
pub enum Op {
    Read,
    FillBuf,
    Consume,
    ReadUntil,
    SkipUntil,
    ReadLine,
    Write,
    Flush,
    PollRead,
    PollWrite,
    PollFlush,
    PollShutdown,
    IsWriteVectored,
    PollWriteVectored,
    AsFdOp,
    AsRawFdOp,
}

/// The capability keyword a trait family scans for.
pub open spec fn sp_cap_of(kind: TraitKind) -> Capability {
    match kind {
        TraitKind::Read => Capability::Read,
        TraitKind::BufRead => Capability::Read,
        TraitKind::AsyncRead => Capability::Read,
        TraitKind::Write => Capability::Write,
        TraitKind::AsyncWrite => Capability::Write,
        TraitKind::AsFileDescriptor => Capability::Descriptor,
        TraitKind::AsSocketDescriptor => Capability::Descriptor,
    }
}

/// See [`sp_cap_of`].
pub fn cap_of(kind: TraitKind) -> (r: Capability)
    ensures
        r == sp_cap_of(kind),
{
    match kind {
        TraitKind::Read => Capability::Read,
        TraitKind::BufRead => Capability::Read,
        TraitKind::AsyncRead => Capability::Read,
        TraitKind::Write => Capability::Write,
        TraitKind::AsyncWrite => Capability::Write,
        TraitKind::AsFileDescriptor => Capability::Descriptor,
        TraitKind::AsSocketDescriptor => Capability::Descriptor,
    }
}

/// The concrete traits a family derives. The two descriptor families each
/// yield the borrowed and the raw descriptor trait.
pub open spec fn sp_traits_of(kind: TraitKind) -> Seq<TargetTrait> {
    match kind {
        TraitKind::Read => seq![TargetTrait::StdRead],
        TraitKind::BufRead => seq![TargetTrait::StdBufRead],
        TraitKind::Write => seq![TargetTrait::StdWrite],
        TraitKind::AsyncRead => seq![TargetTrait::TokioAsyncRead],
        TraitKind::AsyncWrite => seq![TargetTrait::TokioAsyncWrite],
        TraitKind::AsFileDescriptor => seq![TargetTrait::AsFd, TargetTrait::AsRawFd],
        TraitKind::AsSocketDescriptor => seq![TargetTrait::AsFd, TargetTrait::AsRawFd],
    }
}

/// See [`sp_traits_of`].
pub fn traits_of(kind: TraitKind) -> (r: Vec<TargetTrait>)
    ensures
        r@ == sp_traits_of(kind),
{
    let mut v: Vec<TargetTrait> = Vec::new();
    match kind {
        TraitKind::Read => {
            v.push(TargetTrait::StdRead);
        },
        TraitKind::BufRead => {
            v.push(TargetTrait::StdBufRead);
        },
        TraitKind::Write => {
            v.push(TargetTrait::StdWrite);
        },
        TraitKind::AsyncRead => {
            v.push(TargetTrait::TokioAsyncRead);
        },
        TraitKind::AsyncWrite => {
            v.push(TargetTrait::TokioAsyncWrite);
        },
        TraitKind::AsFileDescriptor => {
            v.push(TargetTrait::AsFd);
            v.push(TargetTrait::AsRawFd);
        },
        TraitKind::AsSocketDescriptor => {
            v.push(TargetTrait::AsFd);
            v.push(TargetTrait::AsRawFd);
        },
    }
    proof {
        assert(v@ =~= sp_traits_of(kind));
    }
    v
}

/// The fixed primitive operations of one target trait, in emission order.
pub open spec fn sp_ops_of(t: TargetTrait) -> Seq<Op> {
    match t {
        TargetTrait::StdRead => seq![Op::Read],
        TargetTrait::StdBufRead => seq![
            Op::FillBuf,
            Op::Consume,
            Op::ReadUntil,
            Op::SkipUntil,
            Op::ReadLine,
        ],
        TargetTrait::StdWrite => seq![Op::Write, Op::Flush],
        TargetTrait::TokioAsyncRead => seq![Op::PollRead],
        TargetTrait::TokioAsyncWrite => seq![
            Op::PollWrite,
            Op::PollFlush,
            Op::PollShutdown,
            Op::IsWriteVectored,
            Op::PollWriteVectored,
        ],
        TargetTrait::AsFd => seq![Op::AsFdOp],
        TargetTrait::AsRawFd => seq![Op::AsRawFdOp],
    }
}

/// See [`sp_ops_of`].
pub fn ops_of(t: TargetTrait) -> (r: Vec<Op>)
    ensures
        r@ == sp_ops_of(t),
{
    let mut v: Vec<Op> = Vec::new();
    match t {
        TargetTrait::StdRead => {
            v.push(Op::Read);
        },
        TargetTrait::StdBufRead => {
            v.push(Op::FillBuf);
            v.push(Op::Consume);
            v.push(Op::ReadUntil);
            v.push(Op::SkipUntil);
            v.push(Op::ReadLine);
        },
        TargetTrait::StdWrite => {
            v.push(Op::Write);
            v.push(Op::Flush);
        },
        TargetTrait::TokioAsyncRead => {
            v.push(Op::PollRead);
        },
        TargetTrait::TokioAsyncWrite => {
            v.push(Op::PollWrite);
            v.push(Op::PollFlush);
            v.push(Op::PollShutdown);
            v.push(Op::IsWriteVectored);
            v.push(Op::PollWriteVectored);
        },
        TargetTrait::AsFd => {
            v.push(Op::AsFdOp);
        },
        TargetTrait::AsRawFd => {
            v.push(Op::AsRawFdOp);
        },
    }
    proof {
        assert(v@ =~= sp_ops_of(t));
    }
    v
}

/// The method name of one primitive operation; overrides are looked up under
/// exactly this name.
pub open spec fn sp_op_name(op: Op) -> Seq<char> {
    match op {
        Op::Read => "read"@,
        Op::FillBuf => "fill_buf"@,
        Op::Consume => "consume"@,
        Op::ReadUntil => "read_until"@,
        Op::SkipUntil => "skip_until"@,
        Op::ReadLine => "read_line"@,
        Op::Write => "write"@,
        Op::Flush => "flush"@,
        Op::PollRead => "poll_read"@,
        Op::PollWrite => "poll_write"@,
        Op::PollFlush => "poll_flush"@,
        Op::PollShutdown => "poll_shutdown"@,
        Op::IsWriteVectored => "is_write_vectored"@,
        Op::PollWriteVectored => "poll_write_vectored"@,
        Op::AsFdOp => "as_fd"@,
        Op::AsRawFdOp => "as_raw_fd"@,
    }
}

/// See [`sp_op_name`].
pub fn op_name(op: Op) -> (r: &'static str)
    ensures
        r@ == sp_op_name(op),
{
    match op {
        Op::Read => "read",
        Op::FillBuf => "fill_buf",
        Op::Consume => "consume",
        Op::ReadUntil => "read_until",
        Op::SkipUntil => "skip_until",
        Op::ReadLine => "read_line",
        Op::Write => "write",
        Op::Flush => "flush",
        Op::PollRead => "poll_read",
        Op::PollWrite => "poll_write",
        Op::PollFlush => "poll_flush",
        Op::PollShutdown => "poll_shutdown",
        Op::IsWriteVectored => "is_write_vectored",
        Op::PollWriteVectored => "poll_write_vectored",
        Op::AsFdOp => "as_fd",
        Op::AsRawFdOp => "as_raw_fd",
    }
}

/// How the chosen operation is called on a delegation target.
#[derive(Debug)]
pub enum Call {
    /// Forward to the field's own implementation (the trait method, or the
    /// inherent method under the duck strategy).
    Forward,
    /// Call the user-named override function instead; the field's own
    /// implementation is never invoked.
    Override(String),
}

pub enum CallV {
    Forward,
    Override(Seq<char>),
}

impl View for Call {
    type V = CallV;

    open spec fn view(&self) -> CallV {
        match self {
            Call::Forward => CallV::Forward,
            Call::Override(f) => CallV::Override(f@),
        }
    }
}

/// One dispatch arm of a generated method: which variant it serves, where
/// the delegated-to field sits, how the receiver is narrowed, and what is
/// called.
#[derive(Debug)]
pub struct Arm {
    pub variant: Option<String>,
    pub addr: FieldAddr,
    pub strategy: Strategy,
    pub call: Call,
}

pub struct ArmV {
    pub variant: Option<Seq<char>>,
    pub addr: FieldAddrV,
    pub strategy: Strategy,
    pub call: CallV,
}

impl View for Arm {
    type V = ArmV;

    open spec fn view(&self) -> ArmV {
        ArmV {
            variant: match &self.variant {
                Some(n) => Some(n@),
                None => None,
            },
            addr: self.addr@,
            strategy: self.strategy,
            call: self.call@,
        }
    }
}

pub open spec fn arms_view(s: Seq<Arm>) -> Seq<ArmV> {
    s.map_values(|a: Arm| a@)
}

/// One generated method: a primitive operation with one arm per delegation
/// target.
#[derive(Debug)]
pub struct Method {
    pub op: Op,
    pub arms: Vec<Arm>,
}

pub struct MethodV {
    pub op: Op,
    pub arms: Seq<ArmV>,
}

impl View for Method {
    type V = MethodV;

    open spec fn view(&self) -> MethodV {
        MethodV { op: self.op, arms: arms_view(self.arms@) }
    }
}

pub open spec fn methods_view(s: Seq<Method>) -> Seq<MethodV> {
    s.map_values(|m: Method| m@)
}

/// One synthesized bound of the emitted `where` clause.
#[derive(Debug)]
pub enum Bound {
    /// The field type itself must implement the trait (it mentions one of
    /// the declaration's own generic parameters).
    FieldTy(Vec<Tok>),
    /// The field type is independent of the declaration's parameters: bound
    /// a placeholder type that implements the trait for certain.
    Placeholder,
}

pub enum BoundV {
    FieldTy(Seq<TokV>),
    Placeholder,
}

impl View for Bound {
    type V = BoundV;

    open spec fn view(&self) -> BoundV {
        match self {
            Bound::FieldTy(ty) => BoundV::FieldTy(toks_view(ty@)),
            Bound::Placeholder => BoundV::Placeholder,
        }
    }
}

pub open spec fn bounds_view(s: Seq<Bound>) -> Seq<BoundV> {
    s.map_values(|b: Bound| b@)
}

/// One full implementation block, ready for emission.
#[derive(Debug)]
pub struct ImplBlock {
    pub target: TargetTrait,
    pub self_name: String,
    pub generics: Vec<GenericParam>,
    pub where_clause: Vec<Tok>,
    pub bounds: Vec<Bound>,
    pub methods: Vec<Method>,
}

pub struct ImplBlockV {
    pub target: TargetTrait,
    pub self_name: Seq<char>,
    pub generics: Seq<GenericParamV>,
    pub where_clause: Seq<TokV>,
    pub bounds: Seq<BoundV>,
    pub methods: Seq<MethodV>,
}

impl View for ImplBlock {
    type V = ImplBlockV;

    open spec fn view(&self) -> ImplBlockV {
        ImplBlockV {
            target: self.target,
            self_name: self.self_name@,
            generics: params_view(self.generics@),
            where_clause: toks_view(self.where_clause@),
            bounds: bounds_view(self.bounds@),
            methods: methods_view(self.methods@),
        }
    }
}

pub open spec fn impls_view(s: Seq<ImplBlock>) -> Seq<ImplBlockV> {
    s.map_values(|b: ImplBlock| b@)
}

/// Whether some parameter at or after `j` is named `n`.
pub open spec fn sp_param_named(params: Seq<GenericParamV>, n: Seq<char>, j: int) -> bool
    decreases params.len() - j,
{
    if j < 0 || j >= params.len() {
        false
    } else {
        params[j].name == n || sp_param_named(params, n, j + 1)
    }
}

/// Whether the type's token run mentions, at or after `i`, an identifier
/// that names one of the declaration's own generic parameters.
pub open spec fn sp_ty_mentions(ty: Seq<TokV>, params: Seq<GenericParamV>, i: int) -> bool
    decreases ty.len() - i,
{
    if i < 0 || i >= ty.len() {
        false
    } else {
        (match ty[i] {
            TokV::Ident(n) => sp_param_named(params, n, 0),
            _ => false,
        }) || sp_ty_mentions(ty, params, i + 1)
    }
}

fn param_named(params: &Vec<GenericParam>, n: &str, j: usize) -> (r: bool)
    ensures
        r == sp_param_named(params_view(params@), n@, j as int),
    decreases params@.len() - j,
{
    if j >= params.len() {
        false
    } else {
        str_eq(params[j].name.as_str(), n) || param_named(params, n, j + 1)
    }
}

/// See [`sp_ty_mentions`]: whether the field type depends on one of the
/// declaration's own generic parameters.
pub fn type_has_generic(ty: &Vec<Tok>, params: &Vec<GenericParam>) -> (r: bool)
    ensures
        r == sp_ty_mentions(toks_view(ty@), params_view(params@), 0),
{
    type_has_generic_from(ty, params, 0)
}

fn type_has_generic_from(ty: &Vec<Tok>, params: &Vec<GenericParam>, i: usize) -> (r: bool)
    ensures
        r == sp_ty_mentions(toks_view(ty@), params_view(params@), i as int),
    decreases ty@.len() - i,
{
    if i >= ty.len() {
        false
    } else {
        let here = match &ty[i] {
            Tok::Ident(n) => param_named(params, n.as_str(), 0),
            _ => false,
        };
        here || type_has_generic_from(ty, params, i + 1)
    }
}

/// The non-empty field types of the targets at or after `i`, in order (a
/// target addressing the aggregate itself has none).
pub open spec fn sp_collect_tys(targets: Seq<TargetV>, i: int) -> Seq<Seq<TokV>>
    decreases targets.len() - i,
{
    if i < 0 || i >= targets.len() {
        Seq::empty()
    } else if targets[i].found.ty.len() > 0 {
        seq![targets[i].found.ty] + sp_collect_tys(targets, i + 1)
    } else {
        sp_collect_tys(targets, i + 1)
    }
}

fn collect_tys(targets: &Vec<Target>, i: usize) -> (r: Vec<Vec<Tok>>)
    ensures
        r@.map_values(|t: Vec<Tok>| toks_view(t@)) == sp_collect_tys(
            targets_view(targets@),
            i as int,
        ),
    decreases targets@.len() - i,
{
    if i >= targets.len() {
        let r: Vec<Vec<Tok>> = Vec::new();
        proof {
            assert(r@.map_values(|t: Vec<Tok>| toks_view(t@)) =~= Seq::<Seq<TokV>>::empty());
        }
        return r;
    }
    if targets[i].found.ty.len() > 0 {
        let ty = copy_toks(&targets[i].found.ty);
        let ghost tyv = toks_view(ty@);
        let mut rest = collect_tys(targets, i + 1);
        let ghost rest0 = rest@;
        rest.insert(0, ty);
        proof {
            assert(rest0.insert(0, rest@[0]).map_values(|t: Vec<Tok>| toks_view(t@)) =~= seq![tyv]
                + rest0.map_values(|t: Vec<Tok>| toks_view(t@)));
        }
        rest
    } else {
        collect_tys(targets, i + 1)
    }
}

/// Whether the type occurs among the first `end` collected types.
pub open spec fn sp_ty_among(tys: Seq<Seq<TokV>>, ty: Seq<TokV>, j: int, end: int) -> bool
    decreases end - j,
{
    if j < 0 || j >= end || end > tys.len() {
        false
    } else {
        tys[j] == ty || sp_ty_among(tys, ty, j + 1, end)
    }
}

/// The collected types with every repetition of an earlier type removed.
pub open spec fn sp_dedup_tys(tys: Seq<Seq<TokV>>, i: int) -> Seq<Seq<TokV>>
    decreases tys.len() - i,
{
    if i < 0 || i >= tys.len() {
        Seq::empty()
    } else if sp_ty_among(tys, tys[i], 0, i) {
        sp_dedup_tys(tys, i + 1)
    } else {
        seq![tys[i]] + sp_dedup_tys(tys, i + 1)
    }
}

fn ty_among(tys: &Vec<Vec<Tok>>, ty: &Vec<Tok>, j: usize, end: usize) -> (r: bool)
    requires
        end <= tys@.len(),
    ensures
        r == sp_ty_among(
            tys@.map_values(|t: Vec<Tok>| toks_view(t@)),
            toks_view(ty@),
            j as int,
            end as int,
        ),
    decreases end - j,
{
    if j >= end {
        false
    } else {
        toks_eq(&tys[j], ty) || ty_among(tys, ty, j + 1, end)
    }
}

fn dedup_tys(tys: &Vec<Vec<Tok>>, i: usize) -> (r: Vec<Vec<Tok>>)
    ensures
        r@.map_values(|t: Vec<Tok>| toks_view(t@)) == sp_dedup_tys(
            tys@.map_values(|t: Vec<Tok>| toks_view(t@)),
            i as int,
        ),
    decreases tys@.len() - i,
{
    if i >= tys.len() {
        let r: Vec<Vec<Tok>> = Vec::new();
        proof {
            assert(r@.map_values(|t: Vec<Tok>| toks_view(t@)) =~= Seq::<Seq<TokV>>::empty());
        }
        return r;
    }
    if ty_among(tys, &tys[i], 0, i) {
        dedup_tys(tys, i + 1)
    } else {
        let ty = copy_toks(&tys[i]);
        let ghost tyv = toks_view(ty@);
        let mut rest = dedup_tys(tys, i + 1);
        let ghost rest0 = rest@;
        rest.insert(0, ty);
        proof {
            assert(rest0.insert(0, rest@[0]).map_values(|t: Vec<Tok>| toks_view(t@)) =~= seq![tyv]
                + rest0.map_values(|t: Vec<Tok>| toks_view(t@)));
        }
        rest
    }
}

/// The synthesized bounds for the deduplicated field types at or after `i`:
/// the type itself when it depends on an own generic parameter, the
/// placeholder otherwise.
pub open spec fn sp_bounds(tys: Seq<Seq<TokV>>, params: Seq<GenericParamV>, i: int) -> Seq<BoundV>
    decreases tys.len() - i,
{
    if i < 0 || i >= tys.len() {
        Seq::empty()
    } else {
        let b = if sp_ty_mentions(tys[i], params, 0) {
            BoundV::FieldTy(tys[i])
        } else {
            BoundV::Placeholder
        };
        seq![b] + sp_bounds(tys, params, i + 1)
    }
}

fn bounds_for(tys: &Vec<Vec<Tok>>, params: &Vec<GenericParam>, i: usize) -> (r: Vec<Bound>)
    ensures
        bounds_view(r@) == sp_bounds(
            tys@.map_values(|t: Vec<Tok>| toks_view(t@)),
            params_view(params@),
            i as int,
        ),
    decreases tys@.len() - i,
{
    if i >= tys.len() {
        proof {
            assert(bounds_view(Seq::<Bound>::empty()) =~= Seq::<BoundV>::empty());
        }
        return Vec::new();
    }
    let b: Bound = if type_has_generic(&tys[i], params) {
        Bound::FieldTy(copy_toks(&tys[i]))
    } else {
        Bound::Placeholder
    };
    let ghost bv = b@;
    let mut rest = bounds_for(tys, params, i + 1);
    let ghost rest0 = rest@;
    rest.insert(0, b);
    proof {
        assert(bounds_view(rest0.insert(0, rest@[0])) =~= seq![bv] + bounds_view(rest0));
    }
    rest
}

/// The dispatch arm one target contributes to one operation's method: its
/// resolved strategy, and the override registered under the operation's name
/// if there is one, the forwarded call otherwise.
pub open spec fn sp_arm(t: TargetV, cap: Capability, op: Op) -> Result<ArmV, DiagV> {
    match sp_resolve_args(t.found.args, cap) {
        Err(e) => Err(e),
        Ok(res) => Ok(
            ArmV {
                variant: t.variant,
                addr: t.found.addr,
                strategy: res.strategy,
                call: match sp_find_override(res.overrides, sp_op_name(op), 0) {
                    Some(f) => CallV::Override(f),
                    None => CallV::Forward,
                },
            },
        ),
    }
}

fn arm_for(t: &Target, cap: Capability, op: Op) -> (r: Result<Arm, Diag>)
    ensures
        match r {
            Ok(a) => sp_arm(t@, cap, op) == Result::<ArmV, DiagV>::Ok(a@),
            Err(e) => sp_arm(t@, cap, op) == Result::<ArmV, DiagV>::Err(e@),
        },
{
    match resolve_attribute(&t.found.args, cap) {
        Err(e) => Err(e),
        Ok(res) => {
            let call: Call = match find_override(&res.overrides, op_name(op)) {
                Some(f) => Call::Override(f),
                None => Call::Forward,
            };
            let variant: Option<String> = match &t.variant {
                Some(n) => Some(n.clone()),
                None => None,
            };
            let addr: FieldAddr = match &t.found.addr {
                FieldAddr::This => FieldAddr::This,
                FieldAddr::Named(n) => FieldAddr::Named(n.clone()),
                FieldAddr::Index(k) => FieldAddr::Index(*k),
            };
            Ok(Arm { variant, addr, strategy: res.strategy, call })
        },
    }
}

/// The arms of one operation's method, one per target at or after `i`.
pub open spec fn sp_arms(targets: Seq<TargetV>, cap: Capability, op: Op, i: int) -> Result<
    Seq<ArmV>,
    DiagV,
>
    decreases targets.len() - i,
{
    if i < 0 || i >= targets.len() {
        Ok(Seq::empty())
    } else {
        match sp_arm(targets[i], cap, op) {
            Err(e) => Err(e),
            Ok(a) => match sp_arms(targets, cap, op, i + 1) {
                Err(e) => Err(e),
                Ok(rest) => Ok(seq![a] + rest),
            },
        }
    }
}

fn arms_for(targets: &Vec<Target>, cap: Capability, op: Op, i: usize) -> (r: Result<
    Vec<Arm>,
    Diag,
>)
    ensures
        match r {
            Ok(arms) => sp_arms(targets_view(targets@), cap, op, i as int) == Result::<
                Seq<ArmV>,
                DiagV,
            >::Ok(arms_view(arms@)),
            Err(e) => sp_arms(targets_view(targets@), cap, op, i as int) == Result::<
                Seq<ArmV>,
                DiagV,
            >::Err(e@),
        },
    decreases targets@.len() - i,
{
    if i >= targets.len() {
        proof {
            assert(arms_view(Seq::<Arm>::empty()) =~= Seq::<ArmV>::empty());
        }
        return Ok(Vec::new());
    }
    match arm_for(&targets[i], cap, op) {
        Err(e) => Err(e),
        Ok(a) => match arms_for(targets, cap, op, i + 1) {
            Err(e) => Err(e),
            Ok(mut rest) => {
                let ghost rest0 = rest@;
                let ghost av = a@;
                rest.insert(0, a);
                proof {
                    assert(arms_view(rest0.insert(0, rest@[0])) =~= seq![av] + arms_view(rest0));
                }
                Ok(rest)
            },
        },
    }
}

/// The methods of one target trait: one per primitive operation, in order.
pub open spec fn sp_methods(
    targets: Seq<TargetV>,
    cap: Capability,
    ops: Seq<Op>,
    i: int,
) -> Result<Seq<MethodV>, DiagV>
    decreases ops.len() - i,
{
    if i < 0 || i >= ops.len() {
        Ok(Seq::empty())
    } else {
        match sp_arms(targets, cap, ops[i], 0) {
            Err(e) => Err(e),
            Ok(arms) => match sp_methods(targets, cap, ops, i + 1) {
                Err(e) => Err(e),
                Ok(rest) => Ok(seq![MethodV { op: ops[i], arms }] + rest),
            },
        }
    }
}

fn methods_for(targets: &Vec<Target>, cap: Capability, ops: &Vec<Op>, i: usize) -> (r: Result<
    Vec<Method>,
    Diag,
>)
    ensures
        match r {
            Ok(ms) => sp_methods(targets_view(targets@), cap, ops@, i as int) == Result::<
                Seq<MethodV>,
                DiagV,
            >::Ok(methods_view(ms@)),
            Err(e) => sp_methods(targets_view(targets@), cap, ops@, i as int) == Result::<
                Seq<MethodV>,
                DiagV,
            >::Err(e@),
        },
    decreases ops@.len() - i,
{
    if i >= ops.len() {
        proof {
            assert(methods_view(Seq::<Method>::empty()) =~= Seq::<MethodV>::empty());
        }
        return Ok(Vec::new());
    }
    match arms_for(targets, cap, ops[i], 0) {
        Err(e) => Err(e),
        Ok(arms) => {
            let m = Method { op: ops[i], arms };
            match methods_for(targets, cap, ops, i + 1) {
                Err(e) => Err(e),
                Ok(mut rest) => {
                    let ghost rest0 = rest@;
                    let ghost mv = m@;
                    rest.insert(0, m);
                    proof {
                        assert(methods_view(rest0.insert(0, rest@[0])) =~= seq![mv] + methods_view(
                            rest0,
                        ));
                    }
                    Ok(rest)
                },
            }
        },
    }
}

fn copy_params(params: &Vec<GenericParam>) -> (r: Vec<GenericParam>)
    ensures
        params_view(r@) == params_view(params@),
{
    let mut out: Vec<GenericParam> = Vec::new();
    let mut i: usize = 0;
    while i < params.len()
        invariant
            i <= params@.len(),
            params_view(out@) == params_view(params@).subrange(0, i as int),
        decreases params@.len() - i,
    {
        let ghost before = params_view(out@);
        let p = GenericParam {
            is_lifetime: params[i].is_lifetime,
            name: params[i].name.clone(),
            bounds: copy_toks(&params[i].bounds),
        };
        let ghost pv = p@;
        out.push(p);
        proof {
            assert(params_view(out@) =~= before + seq![pv]);
            assert(before + seq![params_view(params@)[i as int]] =~= params_view(
                params@,
            ).subrange(0, i + 1));
        }
        i = i + 1;
    }
    proof {
        assert(params_view(params@).subrange(0, params@.len() as int) =~= params_view(params@));
    }
    out
}

/// The implementation block for one target trait.
pub open spec fn sp_impl_block(d: DeclV, targets: Seq<TargetV>, cap: Capability, t: TargetTrait) -> Result<
    ImplBlockV,
    DiagV,
> {
    match sp_methods(targets, cap, sp_ops_of(t), 0) {
        Err(e) => Err(e),
        Ok(methods) => Ok(
            ImplBlockV {
                target: t,
                self_name: d.name,
                generics: d.generics,
                where_clause: d.where_clause,
                bounds: sp_bounds(sp_dedup_tys(sp_collect_tys(targets, 0), 0), d.generics, 0),
                methods,
            },
        ),
    }
}

fn impl_block_for(d: &Decl, targets: &Vec<Target>, cap: Capability, t: TargetTrait) -> (r: Result<
    ImplBlock,
    Diag,
>)
    ensures
        match r {
            Ok(b) => sp_impl_block(d@, targets_view(targets@), cap, t) == Result::<
                ImplBlockV,
                DiagV,
            >::Ok(b@),
            Err(e) => sp_impl_block(d@, targets_view(targets@), cap, t) == Result::<
                ImplBlockV,
                DiagV,
            >::Err(e@),
        },
{
    let ops = ops_of(t);
    match methods_for(targets, cap, &ops, 0) {
        Err(e) => Err(e),
        Ok(methods) => {
            let tys = collect_tys(targets, 0);
            let deduped = dedup_tys(&tys, 0);
            let bounds = bounds_for(&deduped, &d.generics, 0);
            Ok(
                ImplBlock {
                    target: t,
                    self_name: d.name.clone(),
                    generics: copy_params(&d.generics),
                    where_clause: copy_toks(&d.where_clause),
                    bounds,
                    methods,
                },
            )
        },
    }
}

/// The implementation blocks for the target traits at or after `i`.
pub open spec fn sp_impl_blocks(
    d: DeclV,
    targets: Seq<TargetV>,
    cap: Capability,
    tts: Seq<TargetTrait>,
    i: int,
) -> Result<Seq<ImplBlockV>, DiagV>
    decreases tts.len() - i,
{
    if i < 0 || i >= tts.len() {
        Ok(Seq::empty())
    } else {
        match sp_impl_block(d, targets, cap, tts[i]) {
            Err(e) => Err(e),
            Ok(b) => match sp_impl_blocks(d, targets, cap, tts, i + 1) {
                Err(e) => Err(e),
                Ok(rest) => Ok(seq![b] + rest),
            },
        }
    }
}

fn impl_blocks_for(
    d: &Decl,
    targets: &Vec<Target>,
    cap: Capability,
    tts: &Vec<TargetTrait>,
    i: usize,
) -> (r: Result<Vec<ImplBlock>, Diag>)
    ensures
        match r {
            Ok(bs) => sp_impl_blocks(d@, targets_view(targets@), cap, tts@, i as int) == Result::<
                Seq<ImplBlockV>,
                DiagV,
            >::Ok(impls_view(bs@)),
            Err(e) => sp_impl_blocks(d@, targets_view(targets@), cap, tts@, i as int) == Result::<
                Seq<ImplBlockV>,
                DiagV,
            >::Err(e@),
        },
    decreases tts@.len() - i,
{
    if i >= tts.len() {
        proof {
            assert(impls_view(Seq::<ImplBlock>::empty()) =~= Seq::<ImplBlockV>::empty());
        }
        return Ok(Vec::new());
    }
    match impl_block_for(d, targets, cap, tts[i]) {
        Err(e) => Err(e),
        Ok(b) => match impl_blocks_for(d, targets, cap, tts, i + 1) {
            Err(e) => Err(e),
            Ok(mut rest) => {
                let ghost rest0 = rest@;
                let ghost bv = b@;
                rest.insert(0, b);
                proof {
                    assert(impls_view(rest0.insert(0, rest@[0])) =~= seq![bv] + impls_view(rest0));
                }
                Ok(rest)
            },
        },
    }
}

/// The implementation blocks a derivation produces for one declaration: the
/// annotation scan, the per-target strategy resolution and the method and
/// bound synthesis, composed.
pub open spec fn sp_derive_impl(d: DeclV, kind: TraitKind) -> Result<Seq<ImplBlockV>, DiagV> {
    let cap = sp_cap_of(kind);
    match sp_find_annotated_multi(d, sp_cap_keyword_of(kind)) {
        Err(e) => Err(e),
        Ok(targets) => sp_impl_blocks(d, targets, cap, sp_traits_of(kind), 0),
    }
}

/// The capability keyword the family scans for, as text.
pub open spec fn sp_cap_keyword_of(kind: TraitKind) -> Seq<char> {
    crate::resolve::sp_cap_keyword(sp_cap_of(kind))
}

/// See [`sp_derive_impl`].
pub fn derive_impl(d: &Decl, kind: TraitKind) -> (r: Result<Vec<ImplBlock>, Diag>)
    ensures
        match r {
            Ok(bs) => sp_derive_impl(d@, kind) == Result::<Seq<ImplBlockV>, DiagV>::Ok(
                impls_view(bs@),
            ),
            Err(e) => sp_derive_impl(d@, kind) == Result::<Seq<ImplBlockV>, DiagV>::Err(e@),
        },
{
    let cap = cap_of(kind);
    match find_annotated_multi(d, cap.keyword()) {
        Err(e) => Err(e),
        Ok(targets) => {
            let tts = traits_of(kind);
            impl_blocks_for(d, &targets, cap, &tts, 0)
        },
    }
}

} // verus!
