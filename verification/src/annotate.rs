use vstd::prelude::*;
use vstd::string::StringExecFns;

use crate::model::{
    Attr, AttrV, FnSig, FnSigV, Param, ParamV, TraitDecl, TraitDeclV, TraitItem, TraitItemV,
    attrs_view, clone_attr, clone_opt_tokens, clone_sig, lemma_attrs_view_push, params_view,
    string_eq, trait_items_view,
};
use crate::rewrite::{decr_stream, decratify};
use crate::token::{TokV, Token, clone_tokens, lemma_stream_view_len, stream_view};

verus! {

/// The snake-case rendering that the name converter produces for a string.
pub uninterp spec fn snake_of(s: Seq<char>) -> Seq<char>;

/// Relies on convert_case's `Casing::to_case` with `Case::Snake`: the result
/// is a function of the input characters alone.
#[verifier::external_body]
fn to_snake_case(s: &str) -> (r: String)
    ensures
        r@ == snake_of(s@),
{
    convert_case::Casing::to_case(&s, convert_case::Case::Snake)
}

/// An `#[import(..)]` attribute: recognized by name and list form.
pub open spec fn is_import_attr(a: AttrV) -> bool {
    a.name == "import"@ && a.is_list
}

/// The function attributes kept on the trait's public copy: everything not
/// named `rc`.
pub open spec fn strip_rc_attrs(attrs: Seq<AttrV>) -> Seq<AttrV> {
    attrs.filter(|a: AttrV| a.name != "rc"@)
}

/// A trait item as the public copy of the trait shows it: the
/// shared-ownership markers are removed, everything else stays.
pub open spec fn public_item(it: TraitItemV) -> TraitItemV {
    match it {
        TraitItemV::Fn { attrs, sig, default } => TraitItemV::Fn {
            attrs: strip_rc_attrs(attrs),
            sig,
            default,
        },
        _ => it,
    }
}

/// The public copy of the trait: import attributes removed from the trait,
/// shared-ownership markers removed from its functions, defaults kept.
pub open spec fn public_trait(tr: TraitDeclV) -> TraitDeclV {
    TraitDeclV {
        attrs: tr.attrs.filter(|a: AttrV| !is_import_attr(a)),
        vis: tr.vis,
        name: tr.name,
        generics: tr.generics,
        items: tr.items.map_values(|it: TraitItemV| public_item(it)),
    }
}

/// The import paths collected from the trait's attributes, each with its
/// self-reference rewritten.
pub open spec fn spec_imports(attrs: Seq<AttrV>) -> Seq<Seq<TokV>> {
    attrs.filter(|a: AttrV| is_import_attr(a)).map_values(|a: AttrV| decr_stream(a.args))
}

/// The item with its default body or value removed.
pub open spec fn erase_default(it: TraitItemV) -> TraitItemV {
    match it {
        TraitItemV::Const { name, ty, .. } => TraitItemV::Const {
            name,
            ty,
            default: Option::None,
        },
        TraitItemV::Fn { attrs, sig, .. } => TraitItemV::Fn { attrs, sig, default: Option::None },
        TraitItemV::Type { name, .. } => TraitItemV::Type { name, default: Option::None },
    }
}

pub open spec fn decr_attr(a: AttrV) -> AttrV {
    AttrV { name: a.name, is_list: a.is_list, args: decr_stream(a.args) }
}

pub open spec fn decr_param(p: ParamV) -> ParamV {
    ParamV { pat: decr_stream(p.pat), ty: decr_stream(p.ty) }
}

pub open spec fn decr_sig(s: FnSigV) -> FnSigV {
    FnSigV {
        name: s.name,
        generics: decr_stream(s.generics),
        receiver: s.receiver,
        params: s.params.map_values(|p: ParamV| decr_param(p)),
        output: decr_stream(s.output),
    }
}

pub open spec fn decr_opt(o: Option<Seq<TokV>>) -> Option<Seq<TokV>> {
    match o {
        Option::Some(ts) => Option::Some(decr_stream(ts)),
        Option::None => Option::None,
    }
}

/// The item with every token field rewritten.
pub open spec fn decr_item(it: TraitItemV) -> TraitItemV {
    match it {
        TraitItemV::Const { name, ty, default } => TraitItemV::Const {
            name,
            ty: decr_stream(ty),
            default: decr_opt(default),
        },
        TraitItemV::Fn { attrs, sig, default } => TraitItemV::Fn {
            attrs: attrs.map_values(|a: AttrV| decr_attr(a)),
            sig: decr_sig(sig),
            default: decr_opt(default),
        },
        TraitItemV::Type { name, default } => TraitItemV::Type {
            name,
            default: decr_opt(default),
        },
    }
}

/// The copy of the trait embedded in the generated macro: every default
/// erased, then every token field's self-reference rewritten; all attributes
/// kept, the shared-ownership markers among them.
pub open spec fn embedded_trait(tr: TraitDeclV) -> TraitDeclV {
    TraitDeclV {
        attrs: tr.attrs.map_values(|a: AttrV| decr_attr(a)),
        vis: decr_stream(tr.vis),
        name: tr.name,
        generics: decr_stream(tr.generics),
        items: tr.items.map_values(|it: TraitItemV| decr_item(erase_default(it))),
    }
}

/// The override argument, when it is a single bare identifier.
pub open spec fn parsed_override(args: Seq<TokV>) -> Option<Seq<char>> {
    if args.len() == 1 && args[0] is Ident {
        Option::Some(args[0]->Ident_name)
    } else {
        Option::None
    }
}

/// The generated macro's name: the override identifier when one parses, and
/// `impl_` before the snake-case trait name otherwise.
pub open spec fn spec_macro_name(args: Seq<TokV>, trait_name: Seq<char>) -> Seq<char> {
    match parsed_override(args) {
        Option::Some(n) => n,
        Option::None => "impl_"@ + snake_of(trait_name),
    }
}

pub open spec fn imports_view(imports: Seq<Vec<Token>>) -> Seq<Seq<TokV>> {
    imports.map_values(|v: Vec<Token>| stream_view(v@))
}

pub proof fn lemma_filter_push<A>(s: Seq<A>, pred: spec_fn(A) -> bool, x: A)
    ensures
        s.push(x).filter(pred) == if pred(x) {
            s.filter(pred).push(x)
        } else {
            s.filter(pred)
        },
{
    reveal(Seq::filter);
    assert(s.push(x).drop_last() =~= s);
    assert(s.push(x).last() == x);
}

/// Both artifacts of the trait annotator, with the collected imports, the
/// generated macro's name, and whether that macro is exported.
#[derive(Debug, PartialEq, Eq)]
pub struct Annotated {
    pub public_trait: TraitDecl,
    pub embedded: TraitDecl,
    pub imports: Vec<Vec<Token>>,
    pub macro_name: String,
    pub exported: bool,
}

fn decr_attr_exec(a: &Attr) -> (r: Attr)
    ensures
        r@ == decr_attr(a@),
{
    Attr { name: a.name.clone(), is_list: a.is_list, args: decratify(&a.args) }
}

fn decr_attrs_exec(attrs: &Vec<Attr>) -> (r: Vec<Attr>)
    ensures
        attrs_view(r@) == attrs_view(attrs@).map_values(|a: AttrV| decr_attr(a)),
{
    let mut out: Vec<Attr> = Vec::new();
    let mut i: usize = 0;
    while i < attrs.len()
        invariant
            i <= attrs.len(),
            out@.len() == i,
            forall|j: int| 0 <= j < i ==> (#[trigger] out@[j])@ == decr_attr(attrs@[j]@),
        decreases attrs.len() - i,
    {
        out.push(decr_attr_exec(&attrs[i]));
        i += 1;
    }
    proof {
        assert(attrs_view(out@) =~= attrs_view(attrs@).map_values(|a: AttrV| decr_attr(a)));
    }
    out
}

fn strip_rc_exec(attrs: &Vec<Attr>) -> (r: Vec<Attr>)
    ensures
        attrs_view(r@) == strip_rc_attrs(attrs_view(attrs@)),
{
    let ghost av = attrs_view(attrs@);
    let rc = String::from_str("rc");
    let mut out: Vec<Attr> = Vec::new();
    let mut i: usize = 0;
    while i < attrs.len()
        invariant
            i <= attrs.len(),
            av == attrs_view(attrs@),
            rc@ == "rc"@,
            attrs_view(out@) == av.take(i as int).filter(|a: AttrV| a.name != "rc"@),
        decreases attrs.len() - i,
    {
        proof {
            assert(av.take(i + 1) =~= av.take(i as int).push(av[i as int]));
            lemma_filter_push(av.take(i as int), |a: AttrV| a.name != "rc"@, av[i as int]);
        }
        if !string_eq(&attrs[i].name, &rc) {
            let a = clone_attr(&attrs[i]);
            proof {
                lemma_attrs_view_push(out@, a);
            }
            out.push(a);
        }
        i += 1;
    }
    proof {
        assert(av.take(av.len() as int) =~= av);
    }
    out
}

fn decr_param_exec(p: &Param) -> (r: Param)
    ensures
        r@ == decr_param(p@),
{
    Param { pat: decratify(&p.pat), ty: decratify(&p.ty) }
}

fn decr_sig_exec(s: &FnSig) -> (r: FnSig)
    ensures
        r@ == decr_sig(s@),
{
    let mut params: Vec<Param> = Vec::new();
    let mut i: usize = 0;
    while i < s.params.len()
        invariant
            i <= s.params.len(),
            params@.len() == i,
            forall|j: int| 0 <= j < i ==> (#[trigger] params@[j])@ == decr_param(s.params@[j]@),
        decreases s.params.len() - i,
    {
        params.push(decr_param_exec(&s.params[i]));
        i += 1;
    }
    proof {
        assert(params_view(params@) =~= params_view(s.params@).map_values(
            |p: ParamV| decr_param(p),
        ));
    }
    FnSig {
        name: s.name.clone(),
        generics: decratify(&s.generics),
        receiver: s.receiver,
        params,
        output: decratify(&s.output),
    }
}

/// The embedded form of one trait item: default erased, tokens rewritten.
fn embed_item_exec(it: &TraitItem) -> (r: TraitItem)
    ensures
        r@ == decr_item(erase_default(it@)),
{
    match it {
        TraitItem::Const { name, ty, .. } => TraitItem::Const {
            name: name.clone(),
            ty: decratify(ty),
            default: Option::None,
        },
        TraitItem::Fn { attrs, sig, .. } => TraitItem::Fn {
            attrs: decr_attrs_exec(attrs),
            sig: decr_sig_exec(sig),
            default: Option::None,
        },
        TraitItem::Type { name, .. } => TraitItem::Type { name: name.clone(), default: Option::None },
    }
}

/// The public form of one trait item: markers stripped, default kept.
fn public_item_exec(it: &TraitItem) -> (r: TraitItem)
    ensures
        r@ == public_item(it@),
{
    match it {
        TraitItem::Const { name, ty, default } => TraitItem::Const {
            name: name.clone(),
            ty: clone_tokens(ty),
            default: clone_opt_tokens(default),
        },
        TraitItem::Fn { attrs, sig, default } => TraitItem::Fn {
            attrs: strip_rc_exec(attrs),
            sig: clone_sig(sig),
            default: clone_opt_tokens(default),
        },
        TraitItem::Type { name, default } => TraitItem::Type {
            name: name.clone(),
            default: clone_opt_tokens(default),
        },
    }
}

/// The trait annotator: from one trait declaration and the attribute's
/// argument tokens, produce the public copy of the trait, the copy embedded
/// in the generated macro, the rewritten import paths, the macro's name, and
/// whether the macro is exported beyond the defining scope.
pub fn annotate(tr: &TraitDecl, args: &Vec<Token>) -> (r: Annotated)
    ensures
        r.public_trait@ == public_trait(tr@),
        r.embedded@ == embedded_trait(tr@),
        imports_view(r.imports@) == spec_imports(tr@.attrs),
        r.macro_name@ == spec_macro_name(stream_view(args@), tr@.name),
        r.exported == (tr@.vis.len() != 0),
{
    let ghost av = attrs_view(tr.attrs@);
    let import_name = String::from_str("import");
    let mut public_attrs: Vec<Attr> = Vec::new();
    let mut embedded_attrs: Vec<Attr> = Vec::new();
    let mut imports: Vec<Vec<Token>> = Vec::new();
    let mut i: usize = 0;
    while i < tr.attrs.len()
        invariant
            i <= tr.attrs.len(),
            av == attrs_view(tr.attrs@),
            import_name@ == "import"@,
            attrs_view(public_attrs@) == av.take(i as int).filter(|a: AttrV| !is_import_attr(a)),
            embedded_attrs@.len() == i,
            forall|j: int|
                0 <= j < i ==> (#[trigger] embedded_attrs@[j])@ == decr_attr(tr.attrs@[j]@),
            imports_view(imports@) == av.take(i as int).filter(|a: AttrV| is_import_attr(a)).map_values(
                |a: AttrV| decr_stream(a.args),
            ),
        decreases tr.attrs.len() - i,
    {
        proof {
            assert(av.take(i + 1) =~= av.take(i as int).push(av[i as int]));
            lemma_filter_push(av.take(i as int), |a: AttrV| !is_import_attr(a), av[i as int]);
            lemma_filter_push(av.take(i as int), |a: AttrV| is_import_attr(a), av[i as int]);
        }
        let a = &tr.attrs[i];
        if string_eq(&a.name, &import_name) && a.is_list {
            let path = decratify(&a.args);
            proof {
                assert(imports_view(imports@.push(path)) =~= imports_view(imports@).push(
                    stream_view(path@),
                ));
            }
            imports.push(path);
        } else {
            let c = clone_attr(a);
            proof {
                lemma_attrs_view_push(public_attrs@, c);
            }
            public_attrs.push(c);
        }
        embedded_attrs.push(decr_attr_exec(a));
        i += 1;
    }
    proof {
        assert(av.take(av.len() as int) =~= av);
    }
    let mut public_items: Vec<TraitItem> = Vec::new();
    let mut embedded_items: Vec<TraitItem> = Vec::new();
    let mut k: usize = 0;
    while k < tr.items.len()
        invariant
            k <= tr.items.len(),
            public_items@.len() == k,
            embedded_items@.len() == k,
            forall|j: int|
                0 <= j < k ==> (#[trigger] public_items@[j])@ == public_item(tr.items@[j]@),
            forall|j: int|
                0 <= j < k ==> (#[trigger] embedded_items@[j])@ == decr_item(
                    erase_default(tr.items@[j]@),
                ),
        decreases tr.items.len() - k,
    {
        public_items.push(public_item_exec(&tr.items[k]));
        embedded_items.push(embed_item_exec(&tr.items[k]));
        k += 1;
    }
    let macro_name = if args.len() == 1 {
        match &args[0] {
            Token::Ident { name } => name.clone(),
            _ => derive_macro_name(&tr.name),
        }
    } else {
        derive_macro_name(&tr.name)
    };
    let exported = tr.vis.len() > 0;
    proof {
        lemma_stream_view_len(tr.vis@);
        lemma_stream_view_len(args@);
        if stream_view(args@).len() == 1 {
            crate::token::lemma_stream_view_index(args@, 0);
        }
        assert(attrs_view(embedded_attrs@) =~= av.map_values(|a: AttrV| decr_attr(a)));
        assert(trait_items_view(public_items@) =~= trait_items_view(tr.items@).map_values(
            |it: TraitItemV| public_item(it),
        ));
        assert(trait_items_view(embedded_items@) =~= trait_items_view(tr.items@).map_values(
            |it: TraitItemV| decr_item(erase_default(it)),
        ));
    }
    let out = Annotated {
        public_trait: TraitDecl {
            attrs: public_attrs,
            vis: clone_tokens(&tr.vis),
            name: tr.name.clone(),
            generics: clone_tokens(&tr.generics),
            items: public_items,
        },
        embedded: TraitDecl {
            attrs: embedded_attrs,
            vis: decratify(&tr.vis),
            name: tr.name.clone(),
            generics: decratify(&tr.generics),
            items: embedded_items,
        },
        imports,
        macro_name,
        exported,
    };
    proof {
        assert(out.public_trait@ =~= public_trait(tr@));
        assert(out.embedded@ =~= embedded_trait(tr@));
    }
    out
}

/// The fallback macro name: `impl_` before the snake-case trait name.
fn derive_macro_name(trait_name: &String) -> (r: String)
    ensures
        r@ == "impl_"@ + snake_of(trait_name@),
{
    let snake = to_snake_case(trait_name.as_str());
    let mut out = String::from_str("impl_");
    out.append(snake.as_str());
    out
}

} // verus!
