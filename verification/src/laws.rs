//! The general properties of the derivation pipeline, stated and proved over
//! the specification functions the executable stages are verified against.

use vstd::prelude::*;
use crate::ast::{DeclV, BodyV, FieldListV, GenericParamV, VariantV};
use crate::diag::DiagV;
use crate::emit::{RecvMode, sp_call, sp_op_args, sp_op_mode, sp_recv, sp_var_of};
use crate::resolve::{ArgItemV, Capability, OverridePairV, ResolvedV, Strategy, sp_args_items, sp_find_override,
    sp_has_bare_key, sp_items_ok, sp_overrides_of, sp_resolve_args, sp_strategy_of};
use crate::scan::{TargetV, lemma_find_in_fields_some, lemma_scan_variants_missing,
    lemma_scan_variants_ok, sp_fields_have_cap, sp_find_annotated_multi, sp_find_in_fields,
    sp_scan_variants};
use crate::synth::{ArmV, BoundV, CallV, ImplBlockV, MethodV, Op, TraitKind, sp_arm, sp_arms,
    sp_bounds, sp_cap_of, sp_cap_keyword_of, sp_derive_impl, sp_impl_block, sp_impl_blocks,
    sp_methods, sp_op_name, sp_ops_of, sp_param_named, sp_traits_of, sp_ty_mentions};
use crate::synth::TargetTrait;
use crate::derive::sp_derive;
use crate::tokens::TokV;

verus! {

/// Every target's attribute arguments resolve without a diagnostic.
pub open spec fn sp_targets_resolvable(targets: Seq<TargetV>, cap: Capability) -> bool {
    forall|k: int|
        0 <= k < targets.len() ==> sp_resolve_args(
            (#[trigger] targets[k]).found.args,
            cap,
        ) is Ok
}

/// With resolvable targets, arm synthesis succeeds and yields, in order, the
/// arm of each target.
pub proof fn lemma_arms_structure(targets: Seq<TargetV>, cap: Capability, op: Op, i: int)
    requires
        0 <= i <= targets.len(),
        sp_targets_resolvable(targets, cap),
    ensures
        sp_arms(targets, cap, op, i) is Ok,
        sp_arms(targets, cap, op, i)->Ok_0.len() == targets.len() - i,
        forall|k: int|
            0 <= k < targets.len() - i ==> (#[trigger] sp_arms(targets, cap, op, i)->Ok_0[k])
                == sp_arm(targets[i + k], cap, op)->Ok_0,
    decreases targets.len() - i,
{
    if i < targets.len() {
        lemma_arms_structure(targets, cap, op, i + 1);
        let a = sp_arm(targets[i], cap, op)->Ok_0;
        let rest = sp_arms(targets, cap, op, i + 1)->Ok_0;
        assert(sp_arm(targets[i], cap, op) is Ok);
        assert(sp_arms(targets, cap, op, i)->Ok_0 == seq![a] + rest);
        assert forall|k: int| 0 <= k < targets.len() - i implies (#[trigger] sp_arms(
            targets,
            cap,
            op,
            i,
        )->Ok_0[k]) == sp_arm(targets[i + k], cap, op)->Ok_0 by {
            if k == 0 {
                assert((seq![a] + rest)[0] == a);
            } else {
                assert((seq![a] + rest)[k] == rest[k - 1]);
                assert(rest[k - 1] == sp_arm(targets[(i + 1) + (k - 1)], cap, op)->Ok_0);
            }
        }
    }
}

/// With resolvable targets, method synthesis succeeds and yields one method
/// per operation, in order, with that operation's arms.
pub proof fn lemma_methods_structure(targets: Seq<TargetV>, cap: Capability, ops: Seq<Op>, i: int)
    requires
        0 <= i <= ops.len(),
        sp_targets_resolvable(targets, cap),
    ensures
        sp_methods(targets, cap, ops, i) is Ok,
        sp_methods(targets, cap, ops, i)->Ok_0.len() == ops.len() - i,
        forall|k: int|
            0 <= k < ops.len() - i ==> (#[trigger] sp_methods(targets, cap, ops, i)->Ok_0[k]).op
                == ops[i + k] && sp_methods(targets, cap, ops, i)->Ok_0[k].arms == sp_arms(
                targets,
                cap,
                ops[i + k],
                0,
            )->Ok_0,
    decreases ops.len() - i,
{
    if i < ops.len() {
        lemma_arms_structure(targets, cap, ops[i], 0);
        lemma_methods_structure(targets, cap, ops, i + 1);
        let m = MethodV { op: ops[i], arms: sp_arms(targets, cap, ops[i], 0)->Ok_0 };
        let rest = sp_methods(targets, cap, ops, i + 1)->Ok_0;
        assert(sp_methods(targets, cap, ops, i)->Ok_0 == seq![m] + rest);
        assert forall|k: int| 0 <= k < ops.len() - i implies (#[trigger] sp_methods(
            targets,
            cap,
            ops,
            i,
        )->Ok_0[k]).op == ops[i + k] && sp_methods(targets, cap, ops, i)->Ok_0[k].arms == sp_arms(
            targets,
            cap,
            ops[i + k],
            0,
        )->Ok_0 by {
            if k == 0 {
                assert((seq![m] + rest)[0] == m);
            } else {
                assert((seq![m] + rest)[k] == rest[k - 1]);
                assert(rest[k - 1].op == ops[(i + 1) + (k - 1)]);
                assert(rest[k - 1].arms == sp_arms(targets, cap, ops[(i + 1) + (k - 1)], 0)->Ok_0);
            }
        }
    }
}

/// With resolvable targets, block synthesis succeeds and yields one block
/// per target trait, in order.
pub proof fn lemma_impl_blocks_structure(
    d: DeclV,
    targets: Seq<TargetV>,
    cap: Capability,
    tts: Seq<TargetTrait>,
    i: int,
)
    requires
        0 <= i <= tts.len(),
        sp_targets_resolvable(targets, cap),
    ensures
        sp_impl_blocks(d, targets, cap, tts, i) is Ok,
        sp_impl_blocks(d, targets, cap, tts, i)->Ok_0.len() == tts.len() - i,
        forall|k: int|
            0 <= k < tts.len() - i ==> (#[trigger] sp_impl_blocks(d, targets, cap, tts, i)->Ok_0[k])
                == sp_impl_block(d, targets, cap, tts[i + k])->Ok_0,
        forall|k: int|
            0 <= k < tts.len() - i ==> sp_impl_block(d, targets, cap, #[trigger] tts[i + k]) is Ok,
    decreases tts.len() - i,
{
    if i < tts.len() {
        lemma_methods_structure(targets, cap, sp_ops_of(tts[i]), 0);
        lemma_impl_blocks_structure(d, targets, cap, tts, i + 1);
        let b = sp_impl_block(d, targets, cap, tts[i])->Ok_0;
        let rest = sp_impl_blocks(d, targets, cap, tts, i + 1)->Ok_0;
        assert(sp_impl_block(d, targets, cap, tts[i]) is Ok);
        assert(sp_impl_blocks(d, targets, cap, tts, i)->Ok_0 == seq![b] + rest);
        assert forall|k: int| 0 <= k < tts.len() - i implies (#[trigger] sp_impl_blocks(
            d,
            targets,
            cap,
            tts,
            i,
        )->Ok_0[k]) == sp_impl_block(d, targets, cap, tts[i + k])->Ok_0 by {
            if k == 0 {
                assert((seq![b] + rest)[0] == b);
            } else {
                assert((seq![b] + rest)[k] == rest[k - 1]);
                assert(rest[k - 1] == sp_impl_block(d, targets, cap, tts[(i + 1) + (k - 1)])->Ok_0);
            }
        }
        assert forall|k: int| 0 <= k < tts.len() - i implies sp_impl_block(
            d,
            targets,
            cap,
            #[trigger] tts[i + k],
        ) is Ok by {
            if k == 0 {
                assert(sp_impl_block(d, targets, cap, tts[i]) is Ok);
            } else {
                assert(sp_impl_block(d, targets, cap, tts[(i + 1) + (k - 1)]) is Ok);
            }
        }
    }
}

/// The synthesized blocks of a successful derivation.
pub open spec fn sp_blocks(d: DeclV, kind: TraitKind) -> Seq<ImplBlockV> {
    sp_derive_impl(d, kind)->Ok_0
}

/// One method delegates to exactly the first annotated field of every
/// variant: one arm per variant, in declaration order, each naming its
/// variant and addressing that variant's first field carrying the
/// capability attribute.
pub open spec fn sp_method_reaches(m: MethodV, vs: Seq<VariantV>, kw: Seq<char>) -> bool {
    &&& m.arms.len() == vs.len()
    &&& forall|k: int|
        0 <= k < vs.len() ==> (#[trigger] m.arms[k]).variant == Some(vs[k].name) && m.arms[k].addr
            == sp_find_in_fields(vs[k].fields, kw)->Some_0.addr
}

/// For an enum whose every variant has a field carrying the requested
/// capability attribute with resolvable arguments, the derivation succeeds,
/// and every generated method dispatches to exactly the first annotated
/// field of each variant.
pub proof fn lemma_annotated_enum_found(d: DeclV, kind: TraitKind, vs: Seq<VariantV>)
    requires
        d.body == BodyV::Enum(vs),
        forall|k: int|
            0 <= k < vs.len() ==> sp_fields_have_cap(
                (#[trigger] vs[k]).fields,
                sp_cap_keyword_of(kind),
            ),
        forall|k: int|
            0 <= k < vs.len() ==> sp_resolve_args(
                sp_find_in_fields((#[trigger] vs[k]).fields, sp_cap_keyword_of(kind))->Some_0.args,
                sp_cap_of(kind),
            ) is Ok,
    ensures
        sp_derive_impl(d, kind) is Ok,
        forall|t: int, mi: int|
            0 <= t < sp_blocks(d, kind).len() && 0 <= mi < sp_blocks(d, kind)[t].methods.len()
                ==> sp_method_reaches(
                #[trigger] sp_blocks(d, kind)[t].methods[mi],
                vs,
                sp_cap_keyword_of(kind),
            ),
{
    let kw = sp_cap_keyword_of(kind);
    let cap = sp_cap_of(kind);
    lemma_scan_variants_ok(vs, kw, 0);
    let targets = sp_scan_variants(vs, kw, 0)->Ok_0;
    assert(sp_find_annotated_multi(d, kw) == Result::<Seq<TargetV>, DiagV>::Ok(targets));
    assert forall|k: int| 0 <= k < targets.len() implies sp_resolve_args(
        (#[trigger] targets[k]).found.args,
        cap,
    ) is Ok by {
        assert(targets[k].found == sp_find_in_fields(vs[0 + k].fields, kw)->Some_0);
    }
    lemma_impl_blocks_structure(d, targets, cap, sp_traits_of(kind), 0);
    assert forall|t: int, mi: int|
        0 <= t < sp_blocks(d, kind).len() && 0 <= mi < sp_blocks(d, kind)[t].methods.len()
            implies sp_method_reaches(
        #[trigger] sp_blocks(d, kind)[t].methods[mi],
        vs,
        kw,
    ) by {
        let tts = sp_traits_of(kind);
        let b = sp_blocks(d, kind)[t];
        assert(b == sp_impl_block(d, targets, cap, tts[0 + t])->Ok_0);
        lemma_methods_structure(targets, cap, sp_ops_of(tts[t]), 0);
        let ops = sp_ops_of(tts[t]);
        assert(b.methods == sp_methods(targets, cap, ops, 0)->Ok_0);
        let m = b.methods[mi];
        assert(m.arms == sp_arms(targets, cap, ops[0 + mi], 0)->Ok_0);
        lemma_arms_structure(targets, cap, ops[mi], 0);
        assert forall|k: int| 0 <= k < vs.len() implies (#[trigger] m.arms[k]).variant == Some(
            vs[k].name,
        ) && m.arms[k].addr == sp_find_in_fields(vs[k].fields, kw)->Some_0.addr by {
            assert(m.arms[k] == sp_arm(targets[0 + k], cap, ops[mi])->Ok_0);
            assert(targets[k].variant == Some(vs[0 + k].name));
            assert(targets[k].found == sp_find_in_fields(vs[0 + k].fields, kw)->Some_0);
        }
    }
}

/// For a struct with a field carrying the capability attribute with
/// resolvable arguments, the derivation succeeds, and every generated method
/// has exactly one arm addressing that first annotated field.
pub proof fn lemma_annotated_struct_found(d: DeclV, kind: TraitKind, fl: FieldListV)
    requires
        d.body == BodyV::Struct(fl),
        sp_fields_have_cap(fl, sp_cap_keyword_of(kind)),
        sp_resolve_args(
            sp_find_in_fields(fl, sp_cap_keyword_of(kind))->Some_0.args,
            sp_cap_of(kind),
        ) is Ok,
    ensures
        sp_derive_impl(d, kind) is Ok,
        forall|t: int, mi: int|
            0 <= t < sp_blocks(d, kind).len() && 0 <= mi < sp_blocks(d, kind)[t].methods.len()
                ==> (#[trigger] sp_blocks(d, kind)[t].methods[mi]).arms.len() == 1 && sp_blocks(
                d,
                kind,
            )[t].methods[mi].arms[0].variant is None && sp_blocks(d, kind)[t].methods[mi].arms[0].addr
                == sp_find_in_fields(fl, sp_cap_keyword_of(kind))->Some_0.addr,
{
    let kw = sp_cap_keyword_of(kind);
    let cap = sp_cap_of(kind);
    lemma_find_in_fields_some(fl, kw);
    let f = sp_find_in_fields(fl, kw)->Some_0;
    let targets = seq![TargetV { variant: None, found: f }];
    assert(sp_find_annotated_multi(d, kw) == Result::<Seq<TargetV>, DiagV>::Ok(targets));
    assert forall|k: int| 0 <= k < targets.len() implies sp_resolve_args(
        (#[trigger] targets[k]).found.args,
        cap,
    ) is Ok by {
        assert(targets[k] == targets[0]);
    }
    lemma_impl_blocks_structure(d, targets, cap, sp_traits_of(kind), 0);
    assert forall|t: int, mi: int|
        0 <= t < sp_blocks(d, kind).len() && 0 <= mi < sp_blocks(d, kind)[t].methods.len()
            implies (#[trigger] sp_blocks(d, kind)[t].methods[mi]).arms.len() == 1 && sp_blocks(
        d,
        kind,
    )[t].methods[mi].arms[0].variant is None && sp_blocks(d, kind)[t].methods[mi].arms[0].addr
        == f.addr by {
        let tts = sp_traits_of(kind);
        let b = sp_blocks(d, kind)[t];
        assert(b == sp_impl_block(d, targets, cap, tts[0 + t])->Ok_0);
        lemma_methods_structure(targets, cap, sp_ops_of(tts[t]), 0);
        let ops = sp_ops_of(tts[t]);
        let m = b.methods[mi];
        assert(m.arms == sp_arms(targets, cap, ops[0 + mi], 0)->Ok_0);
        lemma_arms_structure(targets, cap, ops[mi], 0);
        assert(m.arms[0] == sp_arm(targets[0int], cap, ops[mi])->Ok_0);
    }
}

/// For an enum with some variant carrying the capability attribute on no
/// field, the derivation fails with exactly the missing-capability
/// diagnostic.
pub proof fn lemma_missing_capability_fails(d: DeclV, kind: TraitKind, vs: Seq<VariantV>, bad: int)
    requires
        d.body == BodyV::Enum(vs),
        0 <= bad < vs.len(),
        !sp_fields_have_cap(vs[bad].fields, sp_cap_keyword_of(kind)),
    ensures
        sp_derive_impl(d, kind) == Result::<Seq<ImplBlockV>, DiagV>::Err(
            DiagV::MissingCapability(sp_cap_keyword_of(kind)),
        ),
{
    let kw = sp_cap_keyword_of(kind);
    lemma_scan_variants_missing(vs, kw, 0, bad);
}

/// An empty capability attribute resolves to the direct strategy with no
/// overrides.
pub proof fn lemma_empty_args_direct(args: Seq<TokV>, cap: Capability)
    requires
        args.len() == 0,
    ensures
        sp_resolve_args(args, cap) == Result::<ResolvedV, DiagV>::Ok(
            ResolvedV { strategy: Strategy::Direct, overrides: Seq::empty() },
        ),
{
    assert(sp_args_items(args) == Some(Seq::<ArgItemV>::empty()));
    assert(sp_items_ok(Seq::<ArgItemV>::empty(), cap, 0));
    assert(!sp_has_bare_key(Seq::<ArgItemV>::empty(), "duck"@, 0));
    assert(sp_strategy_of(Seq::<ArgItemV>::empty()) == Strategy::Direct);
    assert(sp_overrides_of(Seq::<ArgItemV>::empty(), 0) =~= Seq::<OverridePairV>::empty());
}

/// Under the direct strategy, the narrowed receiver the generated body calls
/// through is referentially the field binding itself — no conversion or
/// adapter stands between them (polling operations re-pin the same binding) —
/// and the emitted call forwards on it to the trait's own method.
pub proof fn lemma_direct_strategy(t: TargetV, cap: Capability, op: Op, tpath: Seq<char>)
    requires
        t.found.args.len() == 0,
    ensures
        sp_arm(t, cap, op) == Result::<ArmV, DiagV>::Ok(
            ArmV {
                variant: t.variant,
                addr: t.found.addr,
                strategy: Strategy::Direct,
                call: CallV::Forward,
            },
        ),
        sp_op_mode(op) != RecvMode::Pin ==> sp_recv(
            sp_var_of(t.found.addr),
            Strategy::Direct,
            sp_op_mode(op),
        ) == sp_var_of(t.found.addr),
        sp_call(sp_arm(t, cap, op)->Ok_0, op, tpath) == tpath + "::"@ + sp_op_name(op) + "("@
            + sp_recv(sp_var_of(t.found.addr), Strategy::Direct, sp_op_mode(op)) + sp_args_tail(op)
            + ")"@,
{
    lemma_empty_args_direct(t.found.args, cap);
}

/// The comma-separated argument tail of a forwarded call.
pub open spec fn sp_args_tail(op: Op) -> Seq<char> {
    if sp_op_args(op).len() == 0 {
        Seq::empty()
    } else {
        ", "@ + sp_op_args(op)
    }
}

/// Each delegation key selects exactly its strategy: a capability attribute
/// whose single argument is `as_ref`, `deref` or `duck` resolves to the
/// reference-conversion, transparent-unwrap or duck strategy, with no
/// overrides.
pub proof fn lemma_delegation_keys_select_strategy(cap: Capability)
    ensures
        sp_resolve_args(
            seq![
                TokV::Open(crate::tokens::Delim::Paren),
                TokV::Ident("as_ref"@),
                TokV::Close(crate::tokens::Delim::Paren),
            ],
            cap,
        ) == Result::<ResolvedV, DiagV>::Ok(
            ResolvedV { strategy: Strategy::AsRefConv, overrides: Seq::empty() },
        ),
        sp_resolve_args(
            seq![
                TokV::Open(crate::tokens::Delim::Paren),
                TokV::Ident("deref"@),
                TokV::Close(crate::tokens::Delim::Paren),
            ],
            cap,
        ) == Result::<ResolvedV, DiagV>::Ok(
            ResolvedV { strategy: Strategy::TransparentUnwrap, overrides: Seq::empty() },
        ),
        sp_resolve_args(
            seq![
                TokV::Open(crate::tokens::Delim::Paren),
                TokV::Ident("duck"@),
                TokV::Close(crate::tokens::Delim::Paren),
            ],
            cap,
        ) == Result::<ResolvedV, DiagV>::Ok(
            ResolvedV { strategy: Strategy::Duck, overrides: Seq::empty() },
        ),
{
    reveal_strlit("as_ref");
    reveal_strlit("deref");
    reveal_strlit("duck");
    lemma_one_key_resolves("as_ref"@, cap);
    lemma_one_key_resolves("deref"@, cap);
    lemma_one_key_resolves("duck"@, cap);
    assert(("as_ref"@).len() == 6 && ("deref"@).len() == 5 && ("duck"@).len() == 4);
    let items_a = seq![ArgItemV { key: "as_ref"@, value: None }];
    assert(!sp_has_bare_key(items_a, "duck"@, 1));
    assert(!sp_has_bare_key(items_a, "deref"@, 1));
    assert(sp_has_bare_key(items_a, "as_ref"@, 0));
    assert(sp_strategy_of(items_a) == Strategy::AsRefConv);
    let items_d = seq![ArgItemV { key: "deref"@, value: None }];
    assert(!sp_has_bare_key(items_d, "duck"@, 1));
    assert(sp_has_bare_key(items_d, "deref"@, 0));
    assert(sp_strategy_of(items_d) == Strategy::TransparentUnwrap);
    let items_k = seq![ArgItemV { key: "duck"@, value: None }];
    assert(sp_has_bare_key(items_k, "duck"@, 0));
    assert(sp_strategy_of(items_k) == Strategy::Duck);
}

/// A single bare delegation key resolves to the strategy the key lookup
/// chain selects.
proof fn lemma_one_key_resolves(key: Seq<char>, cap: Capability)
    requires
        key == "as_ref"@ || key == "deref"@ || key == "duck"@,
    ensures
        sp_resolve_args(
            seq![
                TokV::Open(crate::tokens::Delim::Paren),
                TokV::Ident(key),
                TokV::Close(crate::tokens::Delim::Paren),
            ],
            cap,
        ) == Result::<ResolvedV, DiagV>::Ok(
            ResolvedV {
                strategy: sp_strategy_of(seq![ArgItemV { key: key, value: None }]),
                overrides: Seq::empty(),
            },
        ),
{
    let args = seq![
        TokV::Open(crate::tokens::Delim::Paren),
        TokV::Ident(key),
        TokV::Close(crate::tokens::Delim::Paren),
    ];
    let items = seq![ArgItemV { key: key, value: None }];
    assert(crate::resolve::sp_parse_items(args, 1, 2) == Some(items));
    assert(sp_args_items(args) == Some(items));
    assert(crate::resolve::sp_item_valid(items[0], cap));
    assert(crate::resolve::sp_key_absent(items, key, 1));
    assert(crate::resolve::sp_bare_absent(items, 1));
    assert(sp_items_ok(items, cap, 1));
    assert(sp_items_ok(items, cap, 0));
    assert(sp_overrides_of(items, 1) =~= Seq::<OverridePairV>::empty());
    assert(sp_overrides_of(items, 0) =~= Seq::<OverridePairV>::empty());
}

/// The `as_ref` and `deref` keys resolve to the reference-conversion and
/// transparent-unwrap strategies, and the generated receiver applies exactly
/// that conversion to the field binding before forwarding.
pub proof fn lemma_conversion_strategies(var: Seq<char>)
    ensures
        sp_recv(var, Strategy::AsRefConv, RecvMode::Mut) == var + ".as_mut()"@,
        sp_recv(var, Strategy::AsRefConv, RecvMode::Ref) == var + ".as_ref()"@,
        sp_recv(var, Strategy::TransparentUnwrap, RecvMode::Mut) == "std::ops::DerefMut::deref_mut("@
            + var + ")"@,
        sp_recv(var, Strategy::TransparentUnwrap, RecvMode::Ref) == "std::ops::Deref::deref("@ + var
            + ")"@,
{
}

/// When an override function is registered under exactly the operation's
/// name, the generated arm calls the override — applied once, to the adapted
/// receiver and the operation's normal arguments — and never the forwarded
/// default; every other operation keeps the forwarded call.
pub proof fn lemma_override_replaces_forward(
    t: TargetV,
    cap: Capability,
    op: Op,
    res: ResolvedV,
    tpath: Seq<char>,
)
    requires
        sp_resolve_args(t.found.args, cap) == Result::<ResolvedV, DiagV>::Ok(res),
    ensures
        sp_find_override(res.overrides, sp_op_name(op), 0) matches Some(f) ==> sp_arm(
            t,
            cap,
            op,
        )->Ok_0.call == CallV::Override(f) && sp_arm(t, cap, op)->Ok_0.call != CallV::Forward
            && sp_call(sp_arm(t, cap, op)->Ok_0, op, tpath) == f + "("@ + sp_recv(
            sp_var_of(t.found.addr),
            res.strategy,
            sp_op_mode(op),
        ) + sp_args_tail(op) + ")"@,
        sp_find_override(res.overrides, sp_op_name(op), 0) is None ==> sp_arm(
            t,
            cap,
            op,
        )->Ok_0.call == CallV::Forward,
{
}

/// Some parameter at or after `j` is named `n` exactly when the recursive
/// scan says so.
pub proof fn lemma_param_named_exists(params: Seq<GenericParamV>, n: Seq<char>, j: int)
    requires
        0 <= j <= params.len(),
    ensures
        sp_param_named(params, n, j) <==> exists|l: int|
            j <= l < params.len() && (#[trigger] params[l]).name == n,
    decreases params.len() - j,
{
    if j < params.len() {
        lemma_param_named_exists(params, n, j + 1);
        if params[j].name == n {
            assert(j <= j < params.len() && params[j].name == n);
        }
    }
}

/// A type mentions a generic parameter exactly when some identifier token of
/// its run names one.
pub proof fn lemma_ty_mentions_exists(ty: Seq<TokV>, params: Seq<GenericParamV>, i: int)
    requires
        0 <= i <= ty.len(),
    ensures
        sp_ty_mentions(ty, params, i) <==> exists|j: int|
            i <= j < ty.len() && ((#[trigger] ty[j]) matches TokV::Ident(n) && sp_param_named(
                params,
                n,
                0,
            )),
    decreases ty.len() - i,
{
    if i < ty.len() {
        lemma_ty_mentions_exists(ty, params, i + 1);
        match ty[i] {
            TokV::Ident(n) => {
                if sp_param_named(params, n, 0) {
                    assert(i <= i < ty.len() && (ty[i] matches TokV::Ident(nn) && sp_param_named(
                        params,
                        nn,
                        0,
                    )));
                }
            },
            _ => {},
        }
    }
}

/// The bound synthesizer emits, for every deduplicated field type in order,
/// the type's own bound when it depends on one of the declaration's generic
/// parameters, and the placeholder bound when it does not.
pub proof fn lemma_bound_synthesis(tys: Seq<Seq<TokV>>, params: Seq<GenericParamV>, i: int)
    requires
        0 <= i <= tys.len(),
    ensures
        sp_bounds(tys, params, i).len() == tys.len() - i,
        forall|k: int|
            0 <= k < tys.len() - i ==> (#[trigger] sp_bounds(tys, params, i)[k]) == (
            if sp_ty_mentions(tys[i + k], params, 0) {
                BoundV::FieldTy(tys[i + k])
            } else {
                BoundV::Placeholder
            }),
    decreases tys.len() - i,
{
    if i < tys.len() {
        lemma_bound_synthesis(tys, params, i + 1);
        let b = if sp_ty_mentions(tys[i], params, 0) {
            BoundV::FieldTy(tys[i])
        } else {
            BoundV::Placeholder
        };
        let rest = sp_bounds(tys, params, i + 1);
        assert(sp_bounds(tys, params, i) == seq![b] + rest);
        assert forall|k: int| 0 <= k < tys.len() - i implies (#[trigger] sp_bounds(
            tys,
            params,
            i,
        )[k]) == (if sp_ty_mentions(tys[i + k], params, 0) {
            BoundV::FieldTy(tys[i + k])
        } else {
            BoundV::Placeholder
        }) by {
            if k == 0 {
                assert((seq![b] + rest)[0] == b);
            } else {
                assert((seq![b] + rest)[k] == rest[k - 1]);
            }
        }
    }
}

/// Re-deriving the same trait for the same declaration yields identical
/// generated code: the whole pipeline is a function of the declaration's
/// token values alone, with no other source of variation.
pub proof fn lemma_derivation_deterministic(s1: Seq<TokV>, s2: Seq<TokV>, kind: TraitKind)
    requires
        s1 == s2,
    ensures
        sp_derive(s1, kind) == sp_derive(s2, kind),
{
}

} // verus!
