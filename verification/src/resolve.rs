//! The delegation-strategy resolver: validates the argument list of a
//! capability attribute and decides how the generated code reaches the inner
//! value.
//!
//! The permitted arguments depend on the capability family:
//!
//! - `read` and `descriptor` allow at most one delegation key (`as_ref`,
//!   `deref`, `duck`) and at most one `<operation> = <function>` override
//!   pair for that family's primitive operation;
//! - `write` allows at most one delegation key plus any combination of
//!   override pairs for its five primitive operations, each at most once.
//!
//! The delegation keys are mutually exclusive: naming two of them at once is
//! rejected, as is any repeated or unknown key. An empty argument list means
//! the direct strategy.

use vstd::prelude::*;
use vstd::string::StringExecFns;
use crate::diag::{Diag, DiagV};
use crate::tokens::{Delim, Tok, TokV, toks_view, sp_render_toks, render_toks, str_eq};

verus! {

/// How the generated body narrows the receiver to the usable inner value.
#[derive(Clone, Copy, PartialEq, Eq, Structural, Debug)]
pub enum Strategy {
    /// Use the field itself.
    Direct,
    /// Convert the field with `AsRef`/`AsMut` first.
    AsRefConv,
    /// Unwrap the field with `Deref`/`DerefMut` first.
    TransparentUnwrap,
    /// Call inherent methods of the field's own type, no trait required.
    Duck,
}

/// The capability keyword a derivation scans for.
#[derive(Clone, Copy, PartialEq, Eq, Structural, Debug)]
pub enum Capability {
    Read,
    Write,
    Descriptor,
}

/// The keyword text of a capability.
pub open spec fn sp_cap_keyword(c: Capability) -> Seq<char> {
    match c {
        Capability::Read => "read"@,
        Capability::Write => "write"@,
        Capability::Descriptor => "descriptor"@,
    }
}

impl Capability {
    /// See [`sp_cap_keyword`].
    pub fn keyword(&self) -> (r: &'static str)
        ensures
            r@ == sp_cap_keyword(*self),
    {
        match self {
            Capability::Read => "read",
            Capability::Write => "write",
            Capability::Descriptor => "descriptor",
        }
    }
}

/// One parsed attribute argument: a bare key, or a `key = value` pair.
#[derive(Debug)]
pub struct ArgItem {
    pub key: String,
    pub value: Option<String>,
}

pub struct ArgItemV {
    pub key: Seq<char>,
    pub value: Option<Seq<char>>,
}

impl View for ArgItem {
    type V = ArgItemV;

    open spec fn view(&self) -> ArgItemV {
        ArgItemV {
            key: self.key@,
            value: match &self.value {
                Some(v) => Some(v@),
                None => None,
            },
        }
    }
}

pub open spec fn items_view(s: Seq<ArgItem>) -> Seq<ArgItemV> {
    s.map_values(|a: ArgItem| a@)
}

/// One per-operation override: the operation's key and the user-named
/// function that replaces the forwarded call.
#[derive(Debug)]
pub struct OverridePair {
    pub key: String,
    pub func: String,
}

pub struct OverridePairV {
    pub key: Seq<char>,
    pub func: Seq<char>,
}

impl View for OverridePair {
    type V = OverridePairV;

    open spec fn view(&self) -> OverridePairV {
        OverridePairV { key: self.key@, func: self.func@ }
    }
}

pub open spec fn overrides_view(s: Seq<OverridePair>) -> Seq<OverridePairV> {
    s.map_values(|o: OverridePair| o@)
}

/// A resolved capability attribute: the access strategy and the override
/// substitution table, in declaration order.
#[derive(Debug)]
pub struct Resolved {
    pub strategy: Strategy,
    pub overrides: Vec<OverridePair>,
}

pub struct ResolvedV {
    pub strategy: Strategy,
    pub overrides: Seq<OverridePairV>,
}

impl View for Resolved {
    type V = ResolvedV;

    open spec fn view(&self) -> ResolvedV {
        ResolvedV { strategy: self.strategy, overrides: overrides_view(self.overrides@) }
    }
}

/// The argument items in `[i, end)`: identifiers or `key = value` pairs
/// separated by commas, a trailing comma allowed; `None` for any other
/// shape.
pub open spec fn sp_parse_items(s: Seq<TokV>, i: int, end: int) -> Option<Seq<ArgItemV>>
    decreases end - i,
{
    if i < 0 || i >= end || end > s.len() {
        Some(Seq::empty())
    } else {
        match s[i] {
            TokV::Ident(k) => {
                if i + 1 < end && s[i + 1] == TokV::Punct('=') {
                    if i + 2 < end {
                        match s[i + 2] {
                            TokV::Ident(v) => {
                                let item = ArgItemV { key: k, value: Some(v) };
                                if i + 3 >= end {
                                    Some(seq![item])
                                } else if s[i + 3] == TokV::Punct(',') {
                                    match sp_parse_items(s, i + 4, end) {
                                        Some(rest) => Some(seq![item] + rest),
                                        None => None,
                                    }
                                } else {
                                    None
                                }
                            },
                            _ => None,
                        }
                    } else {
                        None
                    }
                } else {
                    let item = ArgItemV { key: k, value: None };
                    if i + 1 >= end {
                        Some(seq![item])
                    } else if s[i + 1] == TokV::Punct(',') {
                        match sp_parse_items(s, i + 2, end) {
                            Some(rest) => Some(seq![item] + rest),
                            None => None,
                        }
                    } else {
                        None
                    }
                }
            },
            _ => None,
        }
    }
}

/// See [`sp_parse_items`].
fn parse_items(s: &Vec<Tok>, i: usize, end: usize) -> (r: Option<Vec<ArgItem>>)
    requires
        end <= s@.len(),
    ensures
        match r {
            Some(items) => sp_parse_items(toks_view(s@), i as int, end as int) == Some(
                items_view(items@),
            ),
            None => sp_parse_items(toks_view(s@), i as int, end as int) is None,
        },
    decreases end - i,
{
    if i >= end {
        proof {
            assert(items_view(Seq::<ArgItem>::empty()) =~= Seq::<ArgItemV>::empty());
        }
        return Some(Vec::new());
    }
    let k: String = match &s[i] {
        Tok::Ident(n) => n.clone(),
        _ => {
            return None;
        },
    };
    if i + 1 < end && matches!(&s[i + 1], Tok::Punct('=')) {
        if i + 2 >= end {
            return None;
        }
        let v: String = match &s[i + 2] {
            Tok::Ident(n) => n.clone(),
            _ => {
                return None;
            },
        };
        let item = ArgItem { key: k, value: Some(v) };
        if i + 3 >= end {
            let ghost iv = item@;
            let mut one: Vec<ArgItem> = Vec::new();
            one.push(item);
            proof {
                assert(items_view(one@) =~= seq![iv]);
            }
            Some(one)
        } else if matches!(&s[i + 3], Tok::Punct(',')) {
            match parse_items(s, i + 4, end) {
                Some(mut rest) => {
                    let ghost rest0 = rest@;
                    let ghost iv = item@;
                    rest.insert(0, item);
                    proof {
                        assert(items_view(rest0.insert(0, rest@[0])) =~= seq![iv] + items_view(
                            rest0,
                        ));
                    }
                    Some(rest)
                },
                None => None,
            }
        } else {
            None
        }
    } else {
        let item = ArgItem { key: k, value: None };
        if i + 1 >= end {
            let ghost iv = item@;
            let mut one: Vec<ArgItem> = Vec::new();
            one.push(item);
            proof {
                assert(items_view(one@) =~= seq![iv]);
            }
            Some(one)
        } else if matches!(&s[i + 1], Tok::Punct(',')) {
            match parse_items(s, i + 2, end) {
                Some(mut rest) => {
                    let ghost rest0 = rest@;
                    let ghost iv = item@;
                    rest.insert(0, item);
                    proof {
                        assert(items_view(rest0.insert(0, rest@[0])) =~= seq![iv] + items_view(
                            rest0,
                        ));
                    }
                    Some(rest)
                },
                None => None,
            }
        } else {
            None
        }
    }
}

/// The items of a raw capability argument run: empty, or a parenthesized
/// item list.
pub open spec fn sp_args_items(args: Seq<TokV>) -> Option<Seq<ArgItemV>> {
    if args.len() == 0 {
        Some(Seq::empty())
    } else if args.len() >= 2 && args[0] == TokV::Open(Delim::Paren) && args[args.len() - 1]
        == TokV::Close(Delim::Paren) {
        sp_parse_items(args, 1, args.len() - 1)
    } else {
        None
    }
}

/// See [`sp_args_items`].
pub fn args_items(args: &Vec<Tok>) -> (r: Option<Vec<ArgItem>>)
    ensures
        match r {
            Some(items) => sp_args_items(toks_view(args@)) == Some(items_view(items@)),
            None => sp_args_items(toks_view(args@)) is None,
        },
{
    if args.len() == 0 {
        proof {
            assert(items_view(Seq::<ArgItem>::empty()) =~= Seq::<ArgItemV>::empty());
        }
        return Some(Vec::new());
    }
    if args.len() >= 2 && matches!(&args[0], Tok::Open(Delim::Paren)) && matches!(
        &args[args.len() - 1],
        Tok::Close(Delim::Paren),
    ) {
        parse_items(args, 1, args.len() - 1)
    } else {
        None
    }
}

/// Whether a key names a delegation strategy.
pub open spec fn sp_delegation_key(k: Seq<char>) -> bool {
    k == "as_ref"@ || k == "deref"@ || k == "duck"@
}

/// Whether a key may carry an override function for the capability family.
pub open spec fn sp_override_key(cap: Capability, k: Seq<char>) -> bool {
    match cap {
        Capability::Read => k == "poll_read"@,
        Capability::Write => k == "poll_write"@ || k == "poll_flush"@ || k == "poll_shutdown"@
            || k == "is_write_vectored"@ || k == "poll_write_vectored"@,
        Capability::Descriptor => k == "as_fd"@ || k == "as_raw_fd"@ || k == "as_handle"@ || k
            == "as_raw_handle"@ || k == "as_socket"@ || k == "as_raw_socket"@,
    }
}

/// Whether one argument item is permitted for the capability.
pub open spec fn sp_item_valid(item: ArgItemV, cap: Capability) -> bool {
    match item.value {
        None => sp_delegation_key(item.key),
        Some(_) => sp_override_key(cap, item.key),
    }
}

/// No item at or after `i` has the key `k`.
pub open spec fn sp_key_absent(items: Seq<ArgItemV>, k: Seq<char>, i: int) -> bool
    decreases items.len() - i,
{
    if i < 0 || i >= items.len() {
        true
    } else {
        items[i].key != k && sp_key_absent(items, k, i + 1)
    }
}

/// No bare delegation key stands at or after `i`.
pub open spec fn sp_bare_absent(items: Seq<ArgItemV>, i: int) -> bool
    decreases items.len() - i,
{
    if i < 0 || i >= items.len() {
        true
    } else {
        items[i].value is Some && sp_bare_absent(items, i + 1)
    }
}

/// No override pair stands at or after `i`.
pub open spec fn sp_pair_absent(items: Seq<ArgItemV>, i: int) -> bool
    decreases items.len() - i,
{
    if i < 0 || i >= items.len() {
        true
    } else {
        items[i].value is None && sp_pair_absent(items, i + 1)
    }
}

/// Every item at or after `i` is permitted, no key repeats, at most one
/// delegation key stands in the list, and outside the `write` family at most
/// one override pair does.
pub open spec fn sp_items_ok(items: Seq<ArgItemV>, cap: Capability, i: int) -> bool
    decreases items.len() - i,
{
    if i < 0 || i >= items.len() {
        true
    } else {
        sp_item_valid(items[i], cap) && sp_key_absent(items, items[i].key, i + 1) && (
        items[i].value is None ==> sp_bare_absent(items, i + 1)) && ((items[i].value is Some && cap
            != Capability::Write) ==> sp_pair_absent(items, i + 1)) && sp_items_ok(
            items,
            cap,
            i + 1,
        )
    }
}

/// Whether the bare key `k` stands at or after `i`.
pub open spec fn sp_has_bare_key(items: Seq<ArgItemV>, k: Seq<char>, i: int) -> bool
    decreases items.len() - i,
{
    if i < 0 || i >= items.len() {
        false
    } else {
        (items[i].key == k && items[i].value is None) || sp_has_bare_key(items, k, i + 1)
    }
}

/// The strategy the delegation keys select; `Direct` when none is present.
pub open spec fn sp_strategy_of(items: Seq<ArgItemV>) -> Strategy {
    if sp_has_bare_key(items, "duck"@, 0) {
        Strategy::Duck
    } else if sp_has_bare_key(items, "deref"@, 0) {
        Strategy::TransparentUnwrap
    } else if sp_has_bare_key(items, "as_ref"@, 0) {
        Strategy::AsRefConv
    } else {
        Strategy::Direct
    }
}

/// The override pairs among the items at or after `i`, in order.
pub open spec fn sp_overrides_of(items: Seq<ArgItemV>, i: int) -> Seq<OverridePairV>
    decreases items.len() - i,
{
    if i < 0 || i >= items.len() {
        Seq::empty()
    } else {
        match items[i].value {
            Some(v) => seq![OverridePairV { key: items[i].key, func: v }] + sp_overrides_of(
                items,
                i + 1,
            ),
            None => sp_overrides_of(items, i + 1),
        }
    }
}

/// The diagnostic payload for an invalid capability attribute: the keyword
/// followed by the raw argument text.
pub open spec fn sp_attr_text(cap: Capability, args: Seq<TokV>) -> Seq<char> {
    sp_cap_keyword(cap) + " "@ + sp_render_toks(args, 0)
}

/// The resolved strategy and override table of one capability attribute, or
/// the invalid-attribute diagnostic naming the offending content.
pub open spec fn sp_resolve_args(args: Seq<TokV>, cap: Capability) -> Result<ResolvedV, DiagV> {
    match sp_args_items(args) {
        None => Err(DiagV::InvalidAttribute(sp_attr_text(cap, args))),
        Some(items) => if sp_items_ok(items, cap, 0) {
            Ok(ResolvedV { strategy: sp_strategy_of(items), overrides: sp_overrides_of(items, 0) })
        } else {
            Err(DiagV::InvalidAttribute(sp_attr_text(cap, args)))
        },
    }
}

fn key_absent(items: &Vec<ArgItem>, k: &str, i: usize) -> (r: bool)
    ensures
        r == sp_key_absent(items_view(items@), k@, i as int),
    decreases items@.len() - i,
{
    if i >= items.len() {
        true
    } else {
        !str_eq(items[i].key.as_str(), k) && key_absent(items, k, i + 1)
    }
}

fn bare_absent(items: &Vec<ArgItem>, i: usize) -> (r: bool)
    ensures
        r == sp_bare_absent(items_view(items@), i as int),
    decreases items@.len() - i,
{
    if i >= items.len() {
        true
    } else {
        items[i].value.is_some() && bare_absent(items, i + 1)
    }
}

fn pair_absent(items: &Vec<ArgItem>, i: usize) -> (r: bool)
    ensures
        r == sp_pair_absent(items_view(items@), i as int),
    decreases items@.len() - i,
{
    if i >= items.len() {
        true
    } else {
        items[i].value.is_none() && pair_absent(items, i + 1)
    }
}

fn has_bare_key(items: &Vec<ArgItem>, k: &str, i: usize) -> (r: bool)
    ensures
        r == sp_has_bare_key(items_view(items@), k@, i as int),
    decreases items@.len() - i,
{
    if i >= items.len() {
        false
    } else {
        (str_eq(items[i].key.as_str(), k) && items[i].value.is_none()) || has_bare_key(
            items,
            k,
            i + 1,
        )
    }
}

fn item_valid(item: &ArgItem, cap: Capability) -> (r: bool)
    ensures
        r == sp_item_valid(item@, cap),
{
    let k = item.key.as_str();
    match &item.value {
        None => str_eq(k, "as_ref") || str_eq(k, "deref") || str_eq(k, "duck"),
        Some(_) => match cap {
            Capability::Read => str_eq(k, "poll_read"),
            Capability::Write => str_eq(k, "poll_write") || str_eq(k, "poll_flush") || str_eq(
                k,
                "poll_shutdown",
            ) || str_eq(k, "is_write_vectored") || str_eq(k, "poll_write_vectored"),
            Capability::Descriptor => str_eq(k, "as_fd") || str_eq(k, "as_raw_fd") || str_eq(
                k,
                "as_handle",
            ) || str_eq(k, "as_raw_handle") || str_eq(k, "as_socket") || str_eq(
                k,
                "as_raw_socket",
            ),
        },
    }
}

fn items_ok(items: &Vec<ArgItem>, cap: Capability, i: usize) -> (r: bool)
    ensures
        r == sp_items_ok(items_view(items@), cap, i as int),
    decreases items@.len() - i,
{
    if i >= items.len() {
        true
    } else {
        item_valid(&items[i], cap) && key_absent(items, items[i].key.as_str(), i + 1) && (
        items[i].value.is_some() || bare_absent(items, i + 1)) && (!(items[i].value.is_some()
            && !matches!(cap, Capability::Write)) || pair_absent(items, i + 1)) && items_ok(
            items,
            cap,
            i + 1,
        )
    }
}

fn overrides_of(items: &Vec<ArgItem>, i: usize) -> (r: Vec<OverridePair>)
    ensures
        overrides_view(r@) == sp_overrides_of(items_view(items@), i as int),
    decreases items@.len() - i,
{
    if i >= items.len() {
        proof {
            assert(overrides_view(Seq::<OverridePair>::empty()) =~= Seq::<OverridePairV>::empty());
        }
        return Vec::new();
    }
    match &items[i].value {
        Some(v) => {
            let p = OverridePair { key: items[i].key.clone(), func: v.clone() };
            let mut rest = overrides_of(items, i + 1);
            let ghost rest0 = rest@;
            let ghost pv = p@;
            rest.insert(0, p);
            proof {
                assert(overrides_view(rest0.insert(0, rest@[0])) =~= seq![pv] + overrides_view(
                    rest0,
                ));
            }
            rest
        },
        None => overrides_of(items, i + 1),
    }
}

/// See [`sp_resolve_args`]: resolves one capability attribute's raw argument
/// tokens to its strategy and override table, or reports exactly why they are
/// invalid.
pub fn resolve_attribute(args: &Vec<Tok>, cap: Capability) -> (r: Result<Resolved, Diag>)
    ensures
        match r {
            Ok(res) => sp_resolve_args(toks_view(args@), cap) == Result::<ResolvedV, DiagV>::Ok(
                res@,
            ),
            Err(e) => sp_resolve_args(toks_view(args@), cap) == Result::<ResolvedV, DiagV>::Err(
                e@,
            ),
        },
{
    match args_items(args) {
        None => Err(Diag::InvalidAttribute(attr_text(cap, args))),
        Some(items) => {
            if items_ok(&items, cap, 0) {
                let strategy: Strategy = if has_bare_key(&items, "duck", 0) {
                    Strategy::Duck
                } else if has_bare_key(&items, "deref", 0) {
                    Strategy::TransparentUnwrap
                } else if has_bare_key(&items, "as_ref", 0) {
                    Strategy::AsRefConv
                } else {
                    Strategy::Direct
                };
                let overrides = overrides_of(&items, 0);
                Ok(Resolved { strategy, overrides })
            } else {
                Err(Diag::InvalidAttribute(attr_text(cap, args)))
            }
        },
    }
}

/// See [`sp_attr_text`].
fn attr_text(cap: Capability, args: &Vec<Tok>) -> (r: String)
    ensures
        r@ == sp_attr_text(cap, toks_view(args@)),
{
    let mut s = cap.keyword().to_owned();
    s.append(" ");
    let rendered = render_toks(args);
    s.append(rendered.as_str());
    s
}

/// The override function registered for the key at or after `i`, if any: the
/// first matching pair wins.
pub open spec fn sp_find_override(ovs: Seq<OverridePairV>, key: Seq<char>, i: int) -> Option<
    Seq<char>,
>
    decreases ovs.len() - i,
{
    if i < 0 || i >= ovs.len() {
        None
    } else if ovs[i].key == key {
        Some(ovs[i].func)
    } else {
        sp_find_override(ovs, key, i + 1)
    }
}

/// See [`sp_find_override`] (from the start of the table).
pub fn find_override(ovs: &Vec<OverridePair>, key: &str) -> (r: Option<String>)
    ensures
        match r {
            Some(f) => sp_find_override(overrides_view(ovs@), key@, 0) == Some(f@),
            None => sp_find_override(overrides_view(ovs@), key@, 0) is None,
        },
{
    find_override_from(ovs, key, 0)
}

fn find_override_from(ovs: &Vec<OverridePair>, key: &str, i: usize) -> (r: Option<String>)
    ensures
        match r {
            Some(f) => sp_find_override(overrides_view(ovs@), key@, i as int) == Some(f@),
            None => sp_find_override(overrides_view(ovs@), key@, i as int) is None,
        },
    decreases ovs@.len() - i,
{
    if i >= ovs.len() {
        None
    } else if str_eq(ovs[i].key.as_str(), key) {
        Some(ovs[i].func.clone())
    } else {
        find_override_from(ovs, key, i + 1)
    }
}

/// Whether the key stands among the attribute's argument items, bare or as a
/// pair.
pub open spec fn sp_if_meta(args: Seq<TokV>, needle: Seq<char>) -> bool {
    match sp_args_items(args) {
        Some(items) => !sp_key_absent(items, needle, 0),
        None => false,
    }
}

/// See [`sp_if_meta`]: whether the attribute's argument list names the key at
/// all.
pub fn if_meta(args: &Vec<Tok>, needle: &str) -> (r: bool)
    ensures
        r == sp_if_meta(toks_view(args@), needle@),
{
    match args_items(args) {
        Some(items) => !key_absent(&items, needle, 0),
        None => false,
    }
}

/// The value bound to the key among the attribute's argument pairs, if any.
pub open spec fn sp_extract_meta(args: Seq<TokV>, needle: Seq<char>) -> Option<Seq<char>> {
    match sp_args_items(args) {
        Some(items) => sp_lookup_value(items, needle, 0),
        None => None,
    }
}

/// The value of the first `needle = value` pair at or after `i`.
pub open spec fn sp_lookup_value(items: Seq<ArgItemV>, needle: Seq<char>, i: int) -> Option<
    Seq<char>,
>
    decreases items.len() - i,
{
    if i < 0 || i >= items.len() {
        None
    } else if items[i].key == needle && items[i].value is Some {
        items[i].value
    } else {
        sp_lookup_value(items, needle, i + 1)
    }
}

/// See [`sp_extract_meta`]: the function bound to the operation key in the
/// attribute's arguments, if one was supplied.
pub fn extract_meta(args: &Vec<Tok>, needle: &str) -> (r: Option<String>)
    ensures
        match r {
            Some(v) => sp_extract_meta(toks_view(args@), needle@) == Some(v@),
            None => sp_extract_meta(toks_view(args@), needle@) is None,
        },
{
    match args_items(args) {
        Some(items) => lookup_value(&items, needle, 0),
        None => None,
    }
}

fn lookup_value(items: &Vec<ArgItem>, needle: &str, i: usize) -> (r: Option<String>)
    ensures
        match r {
            Some(v) => sp_lookup_value(items_view(items@), needle@, i as int) == Some(v@),
            None => sp_lookup_value(items_view(items@), needle@, i as int) is None,
        },
    decreases items@.len() - i,
{
    if i >= items.len() {
        None
    } else {
        let key_matches = str_eq(items[i].key.as_str(), needle);
        match &items[i].value {
            Some(v) if key_matches => Some(v.clone()),
            _ => lookup_value(items, needle, i + 1),
        }
    }
}

} // verus!
