use trait_deref::annotate::annotate;
use trait_deref::model::{Attr, FnSig, Param, ReceiverKind, TraitDecl, TraitItem};
use trait_deref::token::Token;

fn id(s: &str) -> Token {
    Token::Ident { name: String::from(s) }
}

fn pu(c: char) -> Token {
    Token::Punct { ch: c }
}

fn rc_fn_item() -> TraitItem {
    TraitItem::Fn {
        attrs: vec![
            Attr { name: String::from("rc"), is_list: false, args: vec![] },
            Attr { name: String::from("doc"), is_list: true, args: vec![id("hidden")] },
        ],
        sig: FnSig {
            name: String::from("get"),
            generics: vec![],
            receiver: ReceiverKind::Absent,
            params: vec![
                Param { pat: vec![id("this")], ty: vec![] },
                Param { pat: vec![id("get")], ty: vec![] },
            ],
            output: vec![],
        },
        default: Some(vec![id("body")]),
    }
}

fn sample_trait() -> TraitDecl {
    TraitDecl {
        attrs: vec![
            Attr {
                name: String::from("import"),
                is_list: true,
                args: vec![id("crate"), pu(':'), pu(':'), id("Card")],
            },
            Attr { name: String::from("import"), is_list: false, args: vec![] },
            Attr { name: String::from("doc"), is_list: true, args: vec![id("x")] },
        ],
        vis: vec![id("pub")],
        name: String::from("MyTrait"),
        generics: vec![],
        items: vec![
            TraitItem::Const {
                name: String::from("B"),
                ty: vec![id("i32")],
                default: Some(vec![Token::Lit { text: String::from("2") }]),
            },
            rc_fn_item(),
            TraitItem::Type {
                name: String::from("Item"),
                default: Some(vec![id("i32")]),
            },
        ],
    }
}

#[test]
fn derives_snake_case_macro_name() {
    let tr = sample_trait();
    let out = annotate(&tr, &vec![]);
    assert_eq!(out.macro_name, "impl_my_trait");
}

#[test]
fn honors_override_name() {
    let tr = sample_trait();
    let out = annotate(&tr, &vec![id("inherit_my_trait")]);
    assert_eq!(out.macro_name, "inherit_my_trait");
}

#[test]
fn falls_back_when_override_is_no_ident() {
    let tr = sample_trait();
    let out = annotate(&tr, &vec![pu('#')]);
    assert_eq!(out.macro_name, "impl_my_trait");
    let out2 = annotate(&tr, &vec![id("a"), id("b")]);
    assert_eq!(out2.macro_name, "impl_my_trait");
}

#[test]
fn collects_and_rewrites_imports() {
    let tr = sample_trait();
    let out = annotate(&tr, &vec![]);
    assert_eq!(out.imports.len(), 1);
    assert_eq!(
        out.imports[0],
        vec![pu('$'), id("crate"), pu(':'), pu(':'), id("Card")]
    );
}

#[test]
fn public_copy_strips_markers_and_keeps_defaults() {
    let tr = sample_trait();
    let out = annotate(&tr, &vec![]);
    // the list-form import attribute is gone; the bare one and the doc stay
    assert_eq!(out.public_trait.attrs.len(), 2);
    assert_eq!(out.public_trait.attrs[0].name, "import");
    assert!(!out.public_trait.attrs[0].is_list);
    assert_eq!(out.public_trait.attrs[1].name, "doc");
    match &out.public_trait.items[1] {
        TraitItem::Fn { attrs, default, .. } => {
            assert_eq!(attrs.len(), 1);
            assert_eq!(attrs[0].name, "doc");
            assert_eq!(default.as_deref(), Some(&[id("body")][..]));
        },
        other => panic!("not a function: {:?}", other),
    }
    match &out.public_trait.items[0] {
        TraitItem::Const { default, .. } => {
            assert!(default.is_some());
        },
        other => panic!("not a constant: {:?}", other),
    }
}

#[test]
fn embedded_copy_erases_defaults_and_keeps_markers() {
    let tr = sample_trait();
    let out = annotate(&tr, &vec![]);
    assert_eq!(out.embedded.attrs.len(), 3);
    assert_eq!(
        out.embedded.attrs[0].args,
        vec![pu('$'), id("crate"), pu(':'), pu(':'), id("Card")]
    );
    match &out.embedded.items[0] {
        TraitItem::Const { default, .. } => assert!(default.is_none()),
        other => panic!("not a constant: {:?}", other),
    }
    match &out.embedded.items[1] {
        TraitItem::Fn { attrs, default, .. } => {
            assert_eq!(attrs.len(), 2);
            assert_eq!(attrs[0].name, "rc");
            assert!(default.is_none());
        },
        other => panic!("not a function: {:?}", other),
    }
    match &out.embedded.items[2] {
        TraitItem::Type { default, .. } => assert!(default.is_none()),
        other => panic!("not a type: {:?}", other),
    }
}

#[test]
fn exported_follows_visibility() {
    let tr = sample_trait();
    assert!(annotate(&tr, &vec![]).exported);
    let mut private_tr = sample_trait();
    private_tr.vis = vec![];
    assert!(!annotate(&private_tr, &vec![]).exported);
}
