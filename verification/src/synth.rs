use vstd::prelude::*;
use vstd::string::StringExecFns;

use crate::model::{
    Attr, AttrV, DelegationSpec, DelegationSpecV, FnSig, FnSigV, ImplBlock, ImplBlockV, ImplItem,
    ImplItemV, Param, ParamV, ReceiverKind, TraitDecl, TraitDeclV, TraitItem, TraitItemV,
    attrs_view, clone_sig, impl_items_view, lemma_impl_items_view_push, params_view, string_eq,
    trait_items_view,
};
use crate::token::{Delim, TokV, Token, clone_tokens, stream_view};
use crate::token::{lemma_stream_view_concat, lemma_stream_view_push};

verus! {

/// The two-colon path separator.
pub open spec fn path_sep() -> Seq<TokV> {
    seq![TokV::Punct { ch: ':' }, TokV::Punct { ch: ':' }]
}

/// `inner_ty::name`: the type-level path by which associated constants and
/// associated types of the delegate type are reached.
pub open spec fn inner_item_path(inner_ty: Seq<TokV>, name: Seq<char>) -> Seq<TokV> {
    inner_ty + path_sep() + seq![TokV::Ident { name }]
}

/// `self.field`
pub open spec fn self_field_tokens(field: Seq<char>) -> Seq<TokV> {
    seq![TokV::Ident { name: "self"@ }, TokV::Punct { ch: '.' }, TokV::Ident { name: field }]
}

/// The receiver-adjusted delegate expression: the field itself, a reference
/// to it, or a mutable reference to it.
pub open spec fn recv_tokens(k: ReceiverKind, field: Seq<char>) -> Seq<TokV>
    recommends
        k == ReceiverKind::ByValue || k == ReceiverKind::ByRef || k == ReceiverKind::ByMutRef,
{
    match k {
        ReceiverKind::ByValue => self_field_tokens(field),
        ReceiverKind::ByRef => seq![TokV::Punct { ch: '&' }] + self_field_tokens(field),
        ReceiverKind::ByMutRef => seq![
            TokV::Punct { ch: '&' },
            TokV::Ident { name: "mut"@ },
        ] + self_field_tokens(field),
        _ => Seq::empty(),
    }
}

/// The parameter patterns in order, separated by commas.
pub open spec fn joined_pats(params: Seq<ParamV>) -> Seq<TokV>
    decreases params,
{
    if params.len() == 0 {
        Seq::empty()
    } else if params.len() == 1 {
        params[0].pat
    } else {
        joined_pats(params.drop_last()) + seq![TokV::Punct { ch: ',' }] + params.last().pat
    }
}

/// The body of a directly forwarded function:
/// `TraitName::method(<receiver-adjusted delegate>, arg, ...)`.
pub open spec fn forward_call(
    trait_name: Seq<char>,
    method: Seq<char>,
    k: ReceiverKind,
    field: Seq<char>,
    params: Seq<ParamV>,
) -> Seq<TokV> {
    seq![TokV::Ident { name: trait_name }] + path_sep() + seq![TokV::Ident { name: method }]
        + seq![
        TokV::Group {
            delim: Delim::Paren,
            tokens: recv_tokens(k, field) + seq![TokV::Punct { ch: ',' }] + joined_pats(params),
        },
    ]
}

/// The composed projection `|__x| &get(__x).field` through which a
/// shared-ownership forwarding call narrows one delegation level deeper.
pub open spec fn rc_projection(get: Seq<TokV>, field: Seq<char>) -> Seq<TokV> {
    seq![
        TokV::Punct { ch: '|' },
        TokV::Ident { name: "__x"@ },
        TokV::Punct { ch: '|' },
        TokV::Punct { ch: '&' },
    ] + get + seq![
        TokV::Group { delim: Delim::Paren, tokens: seq![TokV::Ident { name: "__x"@ }] },
        TokV::Punct { ch: '.' },
        TokV::Ident { name: field },
    ]
}

/// The body of a shared-ownership forwarded function:
/// `TraitName::method(this, |__x| &get(__x).field, rest, ...)`.
pub open spec fn rc_forward_call(
    trait_name: Seq<char>,
    method: Seq<char>,
    this: Seq<TokV>,
    get: Seq<TokV>,
    field: Seq<char>,
    rest: Seq<ParamV>,
) -> Seq<TokV> {
    seq![TokV::Ident { name: trait_name }] + path_sep() + seq![TokV::Ident { name: method }]
        + seq![
        TokV::Group {
            delim: Delim::Paren,
            tokens: this + seq![TokV::Punct { ch: ',' }] + rc_projection(get, field)
                + seq![TokV::Punct { ch: ',' }] + joined_pats(rest),
        },
    ]
}

/// Append `::` to `out`.
fn push_path_sep(out: &mut Vec<Token>)
    ensures
        stream_view(final(out)@) == stream_view(old(out)@) + path_sep(),
{
    let c1 = Token::Punct { ch: ':' };
    proof {
        lemma_stream_view_push(out@, c1);
    }
    out.push(c1);
    let c2 = Token::Punct { ch: ':' };
    proof {
        lemma_stream_view_push(out@, c2);
    }
    out.push(c2);
    proof {
        assert(stream_view(final(out)@) =~= stream_view(old(out)@) + path_sep());
    }
}

/// Append a copy of `ts` to `out`.
fn push_tokens(ts: &Vec<Token>, out: &mut Vec<Token>)
    ensures
        stream_view(final(out)@) == stream_view(old(out)@) + stream_view(ts@),
{
    let mut copy = clone_tokens(ts);
    proof {
        lemma_stream_view_concat(out@, copy@);
    }
    out.append(&mut copy);
}

/// Append one identifier token with the given text.
fn push_ident(name: &String, out: &mut Vec<Token>)
    ensures
        stream_view(final(out)@) == stream_view(old(out)@) + seq![TokV::Ident { name: name@ }],
{
    let t = Token::Ident { name: name.clone() };
    proof {
        lemma_stream_view_push(out@, t);
    }
    out.push(t);
}

/// Append one punctuation token.
fn push_punct(ch: char, out: &mut Vec<Token>)
    ensures
        stream_view(final(out)@) == stream_view(old(out)@) + seq![TokV::Punct { ch }],
{
    let t = Token::Punct { ch };
    proof {
        lemma_stream_view_push(out@, t);
    }
    out.push(t);
}

/// Build the tokens of `inner_ty::name`.
pub fn make_inner_path(inner_ty: &Vec<Token>, name: &String) -> (r: Vec<Token>)
    ensures
        stream_view(r@) == inner_item_path(stream_view(inner_ty@), name@),
{
    let mut out = clone_tokens(inner_ty);
    push_path_sep(&mut out);
    push_ident(name, &mut out);
    proof {
        assert(stream_view(out@) =~= inner_item_path(stream_view(inner_ty@), name@));
    }
    out
}

/// Append the patterns of `params[start..]`, comma separated, to `out`.
#[verifier::rlimit(100)]
fn push_joined_pats(params: &Vec<Param>, start: usize, out: &mut Vec<Token>)
    requires
        start <= params@.len(),
    ensures
        stream_view(final(out)@) == stream_view(old(out)@) + joined_pats(
            params_view(params@).skip(start as int),
        ),
{
    let ghost whole = params_view(params@).skip(start as int);
    let mut i: usize = start;
    while i < params.len()
        invariant
            start <= i <= params@.len(),
            whole == params_view(params@).skip(start as int),
            stream_view(out@) == stream_view(old(out)@) + joined_pats(
                params_view(params@).subrange(start as int, i as int),
            ),
        decreases params@.len() - i,
    {
        if i > start {
            push_punct(',', out);
        }
        push_tokens(&params[i].pat, out);
        proof {
            let prev = params_view(params@).subrange(start as int, i as int);
            let cur = params_view(params@).subrange(start as int, i + 1);
            assert(cur.drop_last() =~= prev);
            assert(cur.last() == params@[i as int]@);
            if i > start {
                assert(stream_view(out@) == stream_view(old(out)@) + joined_pats(cur));
            } else {
                assert(cur.len() == 1);
                assert(joined_pats(cur) == params@[i as int]@.pat);
                assert(stream_view(out@) =~= stream_view(old(out)@) + joined_pats(cur));
            }
        }
        i += 1;
    }
    proof {
        assert(params_view(params@).subrange(start as int, params@.len() as int) =~= whole);
    }
}

/// Build the body tokens of a direct forwarding call.
pub fn make_forward_call(
    trait_name: &String,
    sig: &FnSig,
    field: &String,
) -> (r: Vec<Token>)
    requires
        sig.receiver == ReceiverKind::ByValue || sig.receiver == ReceiverKind::ByRef
            || sig.receiver == ReceiverKind::ByMutRef,
    ensures
        stream_view(r@) == forward_call(trait_name@, sig@.name, sig@.receiver, field@, sig@.params),
{
    let mut args: Vec<Token> = Vec::new();
    match sig.receiver {
        ReceiverKind::ByRef => {
            push_punct('&', &mut args);
        },
        ReceiverKind::ByMutRef => {
            push_punct('&', &mut args);
            let m = String::from_str("mut");
            push_ident(&m, &mut args);
        },
        _ => {},
    }
    let s = String::from_str("self");
    push_ident(&s, &mut args);
    push_punct('.', &mut args);
    push_ident(field, &mut args);
    push_punct(',', &mut args);
    push_joined_pats(&sig.params, 0, &mut args);
    proof {
        assert(params_view(sig.params@).skip(0) =~= params_view(sig.params@));
        assert(stream_view(args@) =~= recv_tokens(sig@.receiver, field@) + seq![
            TokV::Punct { ch: ',' },
        ] + joined_pats(sig@.params));
    }
    let mut out: Vec<Token> = Vec::new();
    push_ident(trait_name, &mut out);
    push_path_sep(&mut out);
    push_ident(&sig.name, &mut out);
    let g = Token::Group { delim: Delim::Paren, tokens: args };
    proof {
        lemma_stream_view_push(out@, g);
    }
    out.push(g);
    proof {
        assert(stream_view(out@) =~= forward_call(
            trait_name@,
            sig@.name,
            sig@.receiver,
            field@,
            sig@.params,
        ));
    }
    out
}

/// Build the body tokens of a shared-ownership forwarding call.
pub fn make_rc_forward_call(trait_name: &String, sig: &FnSig, field: &String) -> (r: Vec<Token>)
    requires
        sig@.params.len() >= 2,
    ensures
        stream_view(r@) == rc_forward_call(
            trait_name@,
            sig@.name,
            sig@.params[0].pat,
            sig@.params[1].pat,
            field@,
            sig@.params.skip(2),
        ),
{
    let mut args: Vec<Token> = Vec::new();
    push_tokens(&sig.params[0].pat, &mut args);
    push_punct(',', &mut args);
    push_punct('|', &mut args);
    let x = String::from_str("__x");
    push_ident(&x, &mut args);
    push_punct('|', &mut args);
    push_punct('&', &mut args);
    push_tokens(&sig.params[1].pat, &mut args);
    let mut xarg: Vec<Token> = Vec::new();
    push_ident(&x, &mut xarg);
    let xg = Token::Group { delim: Delim::Paren, tokens: xarg };
    proof {
        lemma_stream_view_push(args@, xg);
    }
    args.push(xg);
    push_punct('.', &mut args);
    push_ident(field, &mut args);
    push_punct(',', &mut args);
    push_joined_pats(&sig.params, 2, &mut args);
    proof {
        assert(stream_view(args@) =~= sig@.params[0].pat + seq![TokV::Punct { ch: ',' }]
            + rc_projection(sig@.params[1].pat, field@) + seq![TokV::Punct { ch: ',' }]
            + joined_pats(sig@.params.skip(2)));
    }
    let mut out: Vec<Token> = Vec::new();
    push_ident(trait_name, &mut out);
    push_path_sep(&mut out);
    push_ident(&sig.name, &mut out);
    let g = Token::Group { delim: Delim::Paren, tokens: args };
    proof {
        lemma_stream_view_push(out@, g);
    }
    out.push(g);
    proof {
        assert(stream_view(out@) =~= rc_forward_call(
            trait_name@,
            sig@.name,
            sig@.params[0].pat,
            sig@.params[1].pat,
            field@,
            sig@.params.skip(2),
        ));
    }
    out
}


/// Whether the implementation block already supplies a constant of this name.
pub open spec fn has_const(items: Seq<ImplItemV>, name: Seq<char>) -> bool {
    exists|i: int|
        0 <= i < items.len() && (#[trigger] items[i] matches ImplItemV::Const { name: n, .. }
            && n == name)
}

/// Whether the implementation block already supplies a function of this name.
pub open spec fn has_fn(items: Seq<ImplItemV>, name: Seq<char>) -> bool {
    exists|i: int|
        0 <= i < items.len() && (#[trigger] items[i] matches ImplItemV::Fn { sig, .. }
            && sig.name == name)
}

/// Whether the implementation block already supplies a type of this name.
pub open spec fn has_type(items: Seq<ImplItemV>, name: Seq<char>) -> bool {
    exists|i: int|
        0 <= i < items.len() && (#[trigger] items[i] matches ImplItemV::Type { name: n, .. }
            && n == name)
}

/// Whether any attribute in the list is the shared-ownership marker.
pub open spec fn has_rc_attr(attrs: Seq<AttrV>) -> bool {
    exists|i: int| 0 <= i < attrs.len() && (#[trigger] attrs[i]).name == "rc"@
}

fn contains_const(items: &Vec<ImplItem>, name: &String) -> (r: bool)
    ensures
        r == has_const(impl_items_view(items@), name@),
{
    let ghost iv = impl_items_view(items@);
    let mut i: usize = 0;
    while i < items.len()
        invariant
            i <= items.len(),
            iv == impl_items_view(items@),
            forall|j: int|
                0 <= j < i ==> !(#[trigger] iv[j] matches ImplItemV::Const { name: n, .. }
                    && n == name@),
        decreases items.len() - i,
    {
        match &items[i] {
            ImplItem::Const { name: n, .. } => {
                if string_eq(n, name) {
                    proof {
                        assert(iv[i as int] matches ImplItemV::Const { name: nn, .. } && nn
                            == name@);
                    }
                    return true;
                }
            },
            _ => {},
        }
        i += 1;
    }
    false
}

fn contains_fn(items: &Vec<ImplItem>, name: &String) -> (r: bool)
    ensures
        r == has_fn(impl_items_view(items@), name@),
{
    let ghost iv = impl_items_view(items@);
    let mut i: usize = 0;
    while i < items.len()
        invariant
            i <= items.len(),
            iv == impl_items_view(items@),
            forall|j: int|
                0 <= j < i ==> !(#[trigger] iv[j] matches ImplItemV::Fn { sig, .. }
                    && sig.name == name@),
        decreases items.len() - i,
    {
        match &items[i] {
            ImplItem::Fn { sig, .. } => {
                if string_eq(&sig.name, name) {
                    proof {
                        assert(iv[i as int] matches ImplItemV::Fn { sig: s, .. } && s.name
                            == name@);
                    }
                    return true;
                }
            },
            _ => {},
        }
        i += 1;
    }
    false
}

fn contains_type(items: &Vec<ImplItem>, name: &String) -> (r: bool)
    ensures
        r == has_type(impl_items_view(items@), name@),
{
    let ghost iv = impl_items_view(items@);
    let mut i: usize = 0;
    while i < items.len()
        invariant
            i <= items.len(),
            iv == impl_items_view(items@),
            forall|j: int|
                0 <= j < i ==> !(#[trigger] iv[j] matches ImplItemV::Type { name: n, .. }
                    && n == name@),
        decreases items.len() - i,
    {
        match &items[i] {
            ImplItem::Type { name: n, .. } => {
                if string_eq(n, name) {
                    proof {
                        assert(iv[i as int] matches ImplItemV::Type { name: nn, .. } && nn
                            == name@);
                    }
                    return true;
                }
            },
            _ => {},
        }
        i += 1;
    }
    false
}

/// Whether any attribute in the list is named `rc`.
pub fn contains_rc_attr(attrs: &Vec<Attr>) -> (r: bool)
    ensures
        r == has_rc_attr(attrs_view(attrs@)),
{
    let ghost av = attrs_view(attrs@);
    let rc = String::from_str("rc");
    let mut i: usize = 0;
    while i < attrs.len()
        invariant
            i <= attrs.len(),
            av == attrs_view(attrs@),
            rc@ == "rc"@,
            forall|j: int| 0 <= j < i ==> (#[trigger] av[j]).name != "rc"@,
        decreases attrs.len() - i,
    {
        if string_eq(&attrs[i].name, &rc) {
            proof {
                assert(av[i as int].name == "rc"@);
            }
            return true;
        }
        i += 1;
    }
    false
}

/// The forwarding constant: `const NAME: TY = inner_ty::NAME;`.
pub open spec fn forward_const(name: Seq<char>, ty: Seq<TokV>, inner_ty: Seq<TokV>) -> ImplItemV {
    ImplItemV::Const { name, ty, value: inner_item_path(inner_ty, name) }
}

/// The forwarding type: `type NAME = inner_ty::NAME;`.
pub open spec fn forward_type(name: Seq<char>, inner_ty: Seq<TokV>) -> ImplItemV {
    ImplItemV::Type { name, value: inner_item_path(inner_ty, name) }
}

/// The directly forwarded function: the trait item's own signature over a
/// body that calls the delegate.
pub open spec fn forward_fn(sig: FnSigV, trait_name: Seq<char>, field: Seq<char>) -> ImplItemV {
    ImplItemV::Fn {
        sig,
        body: forward_call(trait_name, sig.name, sig.receiver, field, sig.params),
    }
}

/// The shared-ownership forwarded function: the first parameter is handed on,
/// the second is composed with the field projection, the rest follow by name.
pub open spec fn forward_rc_fn(sig: FnSigV, trait_name: Seq<char>, field: Seq<char>) -> ImplItemV
    recommends
        sig.params.len() >= 2,
{
    ImplItemV::Fn {
        sig,
        body: rc_forward_call(
            trait_name,
            sig.name,
            sig.params[0].pat,
            sig.params[1].pat,
            field,
            sig.params.skip(2),
        ),
    }
}

/// A shared-ownership item that must be synthesized but whose signature
/// cannot be forwarded: it has a receiver or fewer than two parameters.
pub open spec fn rc_malformed(it: TraitItemV, impl_items: Seq<ImplItemV>) -> bool {
    &&& it matches TraitItemV::Fn { attrs, sig, .. }
    &&& has_rc_attr(attrs)
    &&& !has_fn(impl_items, sig.name)
    &&& (sig.receiver != ReceiverKind::Absent || sig.params.len() < 2)
}

pub open spec fn any_rc_malformed(items: Seq<TraitItemV>, impl_items: Seq<ImplItemV>) -> bool {
    exists|i: int| 0 <= i < items.len() && rc_malformed(#[trigger] items[i], impl_items)
}

/// `i` indexes the first item whose shared-ownership signature is malformed.
pub open spec fn first_rc_malformed(
    items: Seq<TraitItemV>,
    impl_items: Seq<ImplItemV>,
    i: int,
) -> bool {
    &&& 0 <= i < items.len()
    &&& rc_malformed(items[i], impl_items)
    &&& forall|j: int| 0 <= j < i ==> !rc_malformed(#[trigger] items[j], impl_items)
}

/// What one trait item contributes to the completed implementation block:
/// nothing if the block already names it or its receiver cannot be forwarded,
/// and exactly one forwarding item otherwise.
pub open spec fn synth_item(
    it: TraitItemV,
    impl_items: Seq<ImplItemV>,
    trait_name: Seq<char>,
    field: Seq<char>,
    inner_ty: Seq<TokV>,
) -> Seq<ImplItemV> {
    match it {
        TraitItemV::Const { name, ty, .. } => if has_const(impl_items, name) {
            Seq::empty()
        } else {
            seq![forward_const(name, ty, inner_ty)]
        },
        TraitItemV::Type { name, .. } => if has_type(impl_items, name) {
            Seq::empty()
        } else {
            seq![forward_type(name, inner_ty)]
        },
        TraitItemV::Fn { attrs, sig, .. } => if has_fn(impl_items, sig.name) {
            Seq::empty()
        } else if has_rc_attr(attrs) {
            seq![forward_rc_fn(sig, trait_name, field)]
        } else {
            match sig.receiver {
                ReceiverKind::ByValue => seq![forward_fn(sig, trait_name, field)],
                ReceiverKind::ByRef => seq![forward_fn(sig, trait_name, field)],
                ReceiverKind::ByMutRef => seq![forward_fn(sig, trait_name, field)],
                _ => Seq::empty(),
            }
        },
    }
}

/// Everything the trait items contribute, in trait order.
pub open spec fn synth_items(
    items: Seq<TraitItemV>,
    impl_items: Seq<ImplItemV>,
    trait_name: Seq<char>,
    field: Seq<char>,
    inner_ty: Seq<TokV>,
) -> Seq<ImplItemV>
    decreases items.len(),
{
    if items.len() == 0 {
        Seq::empty()
    } else {
        synth_items(items.drop_last(), impl_items, trait_name, field, inner_ty) + synth_item(
            items.last(),
            impl_items,
            trait_name,
            field,
            inner_ty,
        )
    }
}

pub proof fn lemma_synth_items_push(
    items: Seq<TraitItemV>,
    x: TraitItemV,
    impl_items: Seq<ImplItemV>,
    trait_name: Seq<char>,
    field: Seq<char>,
    inner_ty: Seq<TokV>,
)
    ensures
        synth_items(items.push(x), impl_items, trait_name, field, inner_ty) == synth_items(
            items,
            impl_items,
            trait_name,
            field,
            inner_ty,
        ) + synth_item(x, impl_items, trait_name, field, inner_ty),
{
    assert(items.push(x).drop_last() =~= items);
    assert(items.push(x).last() == x);
}

/// The completed implementation block: the user's items verbatim, then one
/// forwarding item for every trait item the block does not name.
pub open spec fn spec_synthesize(tr: TraitDeclV, d: DelegationSpecV, ib: ImplBlockV) -> ImplBlockV {
    ImplBlockV {
        generics: ib.generics,
        trait_path: ib.trait_path,
        self_ty: ib.self_ty,
        items: ib.items + synth_items(tr.items, ib.items, tr.name, d.field, d.inner_ty),
    }
}

/// Why a shared-ownership signature cannot be forwarded.
#[derive(Debug, PartialEq, Eq)]
pub enum SynthError {
    /// The first argument is missing or the function has a receiver.
    RcFirstArg { fn_name: String },
    /// The second argument, the projection, is missing.
    RcSecondArg { fn_name: String },
}

#[verifier::ext_equal]
pub ghost enum SynthErrorV {
    RcFirstArg { fn_name: Seq<char> },
    RcSecondArg { fn_name: Seq<char> },
}

impl View for SynthError {
    type V = SynthErrorV;

    open spec fn view(&self) -> SynthErrorV {
        match self {
            SynthError::RcFirstArg { fn_name } => SynthErrorV::RcFirstArg { fn_name: fn_name@ },
            SynthError::RcSecondArg { fn_name } => SynthErrorV::RcSecondArg { fn_name: fn_name@ },
        }
    }
}

/// The error reported for one malformed shared-ownership item.
pub open spec fn err_view_for(it: TraitItemV) -> SynthErrorV
    recommends
        it is Fn,
{
    let sig = it->Fn_sig;
    if sig.receiver != ReceiverKind::Absent || sig.params.len() == 0 {
        SynthErrorV::RcFirstArg { fn_name: sig.name }
    } else {
        SynthErrorV::RcSecondArg { fn_name: sig.name }
    }
}

impl SynthError {
    /// The diagnostic text shown at the offending trait definition.
    pub fn message(&self) -> (r: String)
        ensures
            *self is RcFirstArg ==> r@ == "Expected at least 2 items and no receiver."@,
            *self is RcSecondArg ==> r@ == "Expected at least 2 items."@,
    {
        match self {
            SynthError::RcFirstArg { .. } => String::from_str(
                "Expected at least 2 items and no receiver.",
            ),
            SynthError::RcSecondArg { .. } => String::from_str("Expected at least 2 items."),
        }
    }
}

fn make_forward_const(name: &String, ty: &Vec<Token>, inner_ty: &Vec<Token>) -> (r: ImplItem)
    ensures
        r@ == forward_const(name@, stream_view(ty@), stream_view(inner_ty@)),
{
    ImplItem::Const {
        name: name.clone(),
        ty: clone_tokens(ty),
        value: make_inner_path(inner_ty, name),
    }
}

fn make_forward_type(name: &String, inner_ty: &Vec<Token>) -> (r: ImplItem)
    ensures
        r@ == forward_type(name@, stream_view(inner_ty@)),
{
    ImplItem::Type { name: name.clone(), value: make_inner_path(inner_ty, name) }
}

fn make_forward_fn(trait_name: &String, sig: &FnSig, field: &String) -> (r: ImplItem)
    requires
        sig.receiver == ReceiverKind::ByValue || sig.receiver == ReceiverKind::ByRef
            || sig.receiver == ReceiverKind::ByMutRef,
    ensures
        r@ == forward_fn(sig@, trait_name@, field@),
{
    ImplItem::Fn { sig: clone_sig(sig), body: make_forward_call(trait_name, sig, field) }
}

fn make_rc_forward_fn(trait_name: &String, sig: &FnSig, field: &String) -> (r: ImplItem)
    requires
        sig@.params.len() >= 2,
    ensures
        r@ == forward_rc_fn(sig@, trait_name@, field@),
{
    ImplItem::Fn { sig: clone_sig(sig), body: make_rc_forward_call(trait_name, sig, field) }
}

pub proof fn lemma_impl_items_view_concat(a: Seq<ImplItem>, b: Seq<ImplItem>)
    ensures
        impl_items_view(a + b) == impl_items_view(a) + impl_items_view(b),
{
    assert(impl_items_view(a + b) =~= impl_items_view(a) + impl_items_view(b));
}

/// Complete the implementation block against the trait: every trait item the
/// block does not already name gains a forwarding definition, in trait order;
/// items the block names are left exactly as supplied.  The one failure is a
/// shared-ownership item that must be synthesized but has a receiver or fewer
/// than two parameters.
pub fn synthesize(tr: &TraitDecl, d: &DelegationSpec, ib: ImplBlock) -> (r: Result<
    ImplBlock,
    SynthError,
>)
    ensures
        (r is Err) == any_rc_malformed(tr@.items, ib@.items),
        r matches Ok(out) ==> out@ == spec_synthesize(tr@, d@, ib@),
        r matches Err(e) ==> exists|i: int|
            #[trigger] first_rc_malformed(tr@.items, ib@.items, i) && e@ == err_view_for(
                tr@.items[i],
            ),
{
    let ghost items_v = tr@.items;
    let ghost impls_v = ib@.items;
    let mut extended: Vec<ImplItem> = Vec::new();
    let mut i: usize = 0;
    while i < tr.items.len()
        invariant
            i <= tr.items.len(),
            items_v == trait_items_view(tr.items@),
            impls_v == impl_items_view(ib.items@),
            items_v == tr@.items,
            impls_v == ib@.items,
            impl_items_view(extended@) == synth_items(
                items_v.take(i as int),
                impls_v,
                tr@.name,
                d@.field,
                d@.inner_ty,
            ),
            forall|j: int| 0 <= j < i ==> !rc_malformed(#[trigger] items_v[j], impls_v),
        decreases tr.items.len() - i,
    {
        proof {
            assert(items_v.take(i + 1) =~= items_v.take(i as int).push(items_v[i as int]));
            lemma_synth_items_push(
                items_v.take(i as int),
                items_v[i as int],
                impls_v,
                tr@.name,
                d@.field,
                d@.inner_ty,
            );
        }
        match &tr.items[i] {
            TraitItem::Const { name, ty, .. } => {
                if !contains_const(&ib.items, name) {
                    let item = make_forward_const(name, ty, &d.inner_ty);
                    proof {
                        lemma_impl_items_view_push(extended@, item);
                    }
                    extended.push(item);
                } else {
                    proof {
                        assert(impl_items_view(extended@) =~= impl_items_view(extended@)
                            + synth_item(
                            items_v[i as int],
                            impls_v,
                            tr@.name,
                            d@.field,
                            d@.inner_ty,
                        ));
                    }
                }
            },
            TraitItem::Type { name, .. } => {
                if !contains_type(&ib.items, name) {
                    let item = make_forward_type(name, &d.inner_ty);
                    proof {
                        lemma_impl_items_view_push(extended@, item);
                    }
                    extended.push(item);
                } else {
                    proof {
                        assert(impl_items_view(extended@) =~= impl_items_view(extended@)
                            + synth_item(
                            items_v[i as int],
                            impls_v,
                            tr@.name,
                            d@.field,
                            d@.inner_ty,
                        ));
                    }
                }
            },
            TraitItem::Fn { attrs, sig, .. } => {
                if !contains_fn(&ib.items, &sig.name) {
                    if contains_rc_attr(attrs) {
                        let bad_receiver = match sig.receiver {
                            ReceiverKind::Absent => false,
                            _ => true,
                        };
                        if bad_receiver || sig.params.len() == 0 {
                            proof {
                                assert(rc_malformed(items_v[i as int], impls_v));
                                assert(first_rc_malformed(items_v, impls_v, i as int));
                            }
                            return Err(SynthError::RcFirstArg { fn_name: sig.name.clone() });
                        }
                        if sig.params.len() == 1 {
                            proof {
                                assert(rc_malformed(items_v[i as int], impls_v));
                                assert(first_rc_malformed(items_v, impls_v, i as int));
                            }
                            return Err(SynthError::RcSecondArg { fn_name: sig.name.clone() });
                        }
                        let item = make_rc_forward_fn(&tr.name, sig, &d.field);
                        proof {
                            lemma_impl_items_view_push(extended@, item);
                        }
                        extended.push(item);
                    } else {
                        let supported = match sig.receiver {
                            ReceiverKind::ByValue => true,
                            ReceiverKind::ByRef => true,
                            ReceiverKind::ByMutRef => true,
                            _ => false,
                        };
                        if supported {
                            let item = make_forward_fn(&tr.name, sig, &d.field);
                            proof {
                                lemma_impl_items_view_push(extended@, item);
                            }
                            extended.push(item);
                        } else {
                            proof {
                                assert(impl_items_view(extended@) =~= impl_items_view(extended@)
                                    + synth_item(
                                    items_v[i as int],
                                    impls_v,
                                    tr@.name,
                                    d@.field,
                                    d@.inner_ty,
                                ));
                            }
                        }
                    }
                } else {
                    proof {
                        assert(impl_items_view(extended@) =~= impl_items_view(extended@)
                            + synth_item(
                            items_v[i as int],
                            impls_v,
                            tr@.name,
                            d@.field,
                            d@.inner_ty,
                        ));
                    }
                }
            },
        }
        i += 1;
    }
    proof {
        assert(items_v.take(tr.items@.len() as int) =~= items_v);
        assert(!any_rc_malformed(items_v, impls_v));
    }
    let ImplBlock { generics, trait_path, self_ty, items } = ib;
    let mut items = items;
    proof {
        lemma_impl_items_view_concat(items@, extended@);
    }
    items.append(&mut extended);
    let out = ImplBlock { generics, trait_path, self_ty, items };
    proof {
        assert(out@ =~= spec_synthesize(tr@, d@, ImplBlockV {
            generics: out@.generics,
            trait_path: out@.trait_path,
            self_ty: out@.self_ty,
            items: impls_v,
        }));
    }
    Ok(out)
}

} // verus!
