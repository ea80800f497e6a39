use vstd::prelude::*;

use crate::token::{Token, TokV, clone_tokens, stream_view};

verus! {

/// How an instance function takes its receiver.
#[derive(Clone, Copy, PartialEq, Eq, Structural, Debug)]
pub enum ReceiverKind {
    /// An associated function: no receiver at all.
    Absent,
    /// `self`
    ByValue,
    /// `&self`
    ByRef,
    /// `&mut self`
    ByMutRef,
    /// A typed receiver such as `self: Box<Self>`.
    Unsupported,
}

/// An attribute on a trait or on one of its functions, reduced to what the
/// transformations read: its path name, whether it carries a parenthesized
/// argument list, and the argument tokens.
#[derive(Debug, PartialEq, Eq)]
pub struct Attr {
    pub name: String,
    pub is_list: bool,
    pub args: Vec<Token>,
}

#[verifier::ext_equal]
pub ghost struct AttrV {
    pub name: Seq<char>,
    pub is_list: bool,
    pub args: Seq<TokV>,
}

impl View for Attr {
    type V = AttrV;

    open spec fn view(&self) -> AttrV {
        AttrV { name: self.name@, is_list: self.is_list, args: stream_view(self.args@) }
    }
}

/// One named parameter of a trait function, the receiver excluded.
#[derive(Debug, PartialEq, Eq)]
pub struct Param {
    pub pat: Vec<Token>,
    pub ty: Vec<Token>,
}

#[verifier::ext_equal]
pub ghost struct ParamV {
    pub pat: Seq<TokV>,
    pub ty: Seq<TokV>,
}

impl View for Param {
    type V = ParamV;

    open spec fn view(&self) -> ParamV {
        ParamV { pat: stream_view(self.pat@), ty: stream_view(self.ty@) }
    }
}

/// The signature of a trait function: its name, generic tokens, receiver
/// shape, ordered parameters, and return-type tokens.
#[derive(Debug, PartialEq, Eq)]
pub struct FnSig {
    pub name: String,
    pub generics: Vec<Token>,
    pub receiver: ReceiverKind,
    pub params: Vec<Param>,
    pub output: Vec<Token>,
}

#[verifier::ext_equal]
pub ghost struct FnSigV {
    pub name: Seq<char>,
    pub generics: Seq<TokV>,
    pub receiver: ReceiverKind,
    pub params: Seq<ParamV>,
    pub output: Seq<TokV>,
}

impl View for FnSig {
    type V = FnSigV;

    open spec fn view(&self) -> FnSigV {
        FnSigV {
            name: self.name@,
            generics: stream_view(self.generics@),
            receiver: self.receiver,
            params: params_view(self.params@),
            output: stream_view(self.output@),
        }
    }
}

pub open spec fn params_view(ps: Seq<Param>) -> Seq<ParamV> {
    ps.map_values(|p: Param| p@)
}

pub open spec fn attrs_view(attrs: Seq<Attr>) -> Seq<AttrV> {
    attrs.map_values(|a: Attr| a@)
}

pub open spec fn opt_stream_view(o: Option<Vec<Token>>) -> Option<Seq<TokV>> {
    match o {
        Option::Some(v) => Option::Some(stream_view(v@)),
        Option::None => Option::None,
    }
}

/// One item of a trait declaration: an associated constant, a function, or an
/// associated type, each with an optional default.
#[derive(Debug, PartialEq, Eq)]
pub enum TraitItem {
    Const { name: String, ty: Vec<Token>, default: Option<Vec<Token>> },
    Fn { attrs: Vec<Attr>, sig: FnSig, default: Option<Vec<Token>> },
    Type { name: String, default: Option<Vec<Token>> },
}

#[verifier::ext_equal]
pub ghost enum TraitItemV {
    Const { name: Seq<char>, ty: Seq<TokV>, default: Option<Seq<TokV>> },
    Fn { attrs: Seq<AttrV>, sig: FnSigV, default: Option<Seq<TokV>> },
    Type { name: Seq<char>, default: Option<Seq<TokV>> },
}

impl View for TraitItem {
    type V = TraitItemV;

    open spec fn view(&self) -> TraitItemV {
        match self {
            TraitItem::Const { name, ty, default } => TraitItemV::Const {
                name: name@,
                ty: stream_view(ty@),
                default: opt_stream_view(*default),
            },
            TraitItem::Fn { attrs, sig, default } => TraitItemV::Fn {
                attrs: attrs_view(attrs@),
                sig: sig@,
                default: opt_stream_view(*default),
            },
            TraitItem::Type { name, default } => TraitItemV::Type {
                name: name@,
                default: opt_stream_view(*default),
            },
        }
    }
}

pub open spec fn trait_items_view(items: Seq<TraitItem>) -> Seq<TraitItemV> {
    items.map_values(|it: TraitItem| it@)
}

/// A trait declaration: attributes, visibility tokens (empty when private),
/// name, generic tokens, and items.
#[derive(Debug, PartialEq, Eq)]
pub struct TraitDecl {
    pub attrs: Vec<Attr>,
    pub vis: Vec<Token>,
    pub name: String,
    pub generics: Vec<Token>,
    pub items: Vec<TraitItem>,
}

#[verifier::ext_equal]
pub ghost struct TraitDeclV {
    pub attrs: Seq<AttrV>,
    pub vis: Seq<TokV>,
    pub name: Seq<char>,
    pub generics: Seq<TokV>,
    pub items: Seq<TraitItemV>,
}

impl View for TraitDecl {
    type V = TraitDeclV;

    open spec fn view(&self) -> TraitDeclV {
        TraitDeclV {
            attrs: attrs_view(self.attrs@),
            vis: stream_view(self.vis@),
            name: self.name@,
            generics: stream_view(self.generics@),
            items: trait_items_view(self.items@),
        }
    }
}

/// One item of an implementation block; each carries its body or value.
#[derive(Debug, PartialEq, Eq)]
pub enum ImplItem {
    Const { name: String, ty: Vec<Token>, value: Vec<Token> },
    Fn { sig: FnSig, body: Vec<Token> },
    Type { name: String, value: Vec<Token> },
}

#[verifier::ext_equal]
pub ghost enum ImplItemV {
    Const { name: Seq<char>, ty: Seq<TokV>, value: Seq<TokV> },
    Fn { sig: FnSigV, body: Seq<TokV> },
    Type { name: Seq<char>, value: Seq<TokV> },
}

impl View for ImplItem {
    type V = ImplItemV;

    open spec fn view(&self) -> ImplItemV {
        match self {
            ImplItem::Const { name, ty, value } => ImplItemV::Const {
                name: name@,
                ty: stream_view(ty@),
                value: stream_view(value@),
            },
            ImplItem::Fn { sig, body } => ImplItemV::Fn { sig: sig@, body: stream_view(body@) },
            ImplItem::Type { name, value } => ImplItemV::Type {
                name: name@,
                value: stream_view(value@),
            },
        }
    }
}

pub open spec fn impl_items_view(items: Seq<ImplItem>) -> Seq<ImplItemV> {
    items.map_values(|it: ImplItem| it@)
}

/// An implementation block: generic tokens, the path of the implemented
/// trait, the implementing type's tokens, and the supplied items.
#[derive(Debug, PartialEq, Eq)]
pub struct ImplBlock {
    pub generics: Vec<Token>,
    pub trait_path: Vec<Token>,
    pub self_ty: Vec<Token>,
    pub items: Vec<ImplItem>,
}

#[verifier::ext_equal]
pub ghost struct ImplBlockV {
    pub generics: Seq<TokV>,
    pub trait_path: Seq<TokV>,
    pub self_ty: Seq<TokV>,
    pub items: Seq<ImplItemV>,
}

impl View for ImplBlock {
    type V = ImplBlockV;

    open spec fn view(&self) -> ImplBlockV {
        ImplBlockV {
            generics: stream_view(self.generics@),
            trait_path: stream_view(self.trait_path@),
            self_ty: stream_view(self.self_ty@),
            items: impl_items_view(self.items@),
        }
    }
}

/// The delegation designation supplied at an invocation: which field of the
/// implementing type is the delegate, and the tokens of that field's type.
#[derive(Debug, PartialEq, Eq)]
pub struct DelegationSpec {
    pub field: String,
    pub inner_ty: Vec<Token>,
}

#[verifier::ext_equal]
pub ghost struct DelegationSpecV {
    pub field: Seq<char>,
    pub inner_ty: Seq<TokV>,
}

impl View for DelegationSpec {
    type V = DelegationSpecV;

    open spec fn view(&self) -> DelegationSpecV {
        DelegationSpecV { field: self.field@, inner_ty: stream_view(self.inner_ty@) }
    }
}

pub proof fn lemma_attrs_view_push(s: Seq<Attr>, x: Attr)
    ensures
        attrs_view(s.push(x)) == attrs_view(s).push(x@),
{
    assert(attrs_view(s.push(x)) =~= attrs_view(s).push(x@));
}

pub proof fn lemma_params_view_push(s: Seq<Param>, x: Param)
    ensures
        params_view(s.push(x)) == params_view(s).push(x@),
{
    assert(params_view(s.push(x)) =~= params_view(s).push(x@));
}

pub proof fn lemma_impl_items_view_push(s: Seq<ImplItem>, x: ImplItem)
    ensures
        impl_items_view(s.push(x)) == impl_items_view(s).push(x@),
{
    assert(impl_items_view(s.push(x)) =~= impl_items_view(s).push(x@));
}

/// Two strings are equal exactly when their character sequences are.
pub fn string_eq(a: &String, b: &String) -> (r: bool)
    ensures
        r == (a@ == b@),
{
    a.eq(b)
}

/// An exact copy of an attribute.
pub fn clone_attr(a: &Attr) -> (r: Attr)
    ensures
        r@ == a@,
{
    Attr { name: a.name.clone(), is_list: a.is_list, args: clone_tokens(&a.args) }
}

/// An exact copy of a parameter.
pub fn clone_param(p: &Param) -> (r: Param)
    ensures
        r@ == p@,
{
    Param { pat: clone_tokens(&p.pat), ty: clone_tokens(&p.ty) }
}

/// An exact copy of a parameter list.
pub fn clone_params(ps: &Vec<Param>) -> (r: Vec<Param>)
    ensures
        params_view(r@) == params_view(ps@),
{
    let mut out: Vec<Param> = Vec::new();
    let mut i: usize = 0;
    while i < ps.len()
        invariant
            i <= ps.len(),
            params_view(out@) == params_view(ps@.take(i as int)),
        decreases ps.len() - i,
    {
        let p = clone_param(&ps[i]);
        proof {
            lemma_params_view_push(out@, p);
            lemma_params_view_push(ps@.take(i as int), ps@[i as int]);
            assert(ps@.take(i + 1) =~= ps@.take(i as int).push(ps@[i as int]));
        }
        out.push(p);
        i += 1;
    }
    proof {
        assert(ps@.take(ps@.len() as int) =~= ps@);
    }
    out
}

/// An exact copy of a function signature.
pub fn clone_sig(s: &FnSig) -> (r: FnSig)
    ensures
        r@ == s@,
{
    FnSig {
        name: s.name.clone(),
        generics: clone_tokens(&s.generics),
        receiver: s.receiver,
        params: clone_params(&s.params),
        output: clone_tokens(&s.output),
    }
}

/// An exact copy of an optional token stream.
pub fn clone_opt_tokens(o: &Option<Vec<Token>>) -> (r: Option<Vec<Token>>)
    ensures
        opt_stream_view(r) == opt_stream_view(*o),
{
    match o {
        Option::Some(v) => Option::Some(clone_tokens(v)),
        Option::None => Option::None,
    }
}

} // verus!
