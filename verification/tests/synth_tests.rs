use trait_deref::model::{
    Attr, DelegationSpec, FnSig, ImplBlock, ImplItem, Param, ReceiverKind, TraitDecl, TraitItem,
};
use trait_deref::synth::{SynthError, synthesize};
use trait_deref::token::{Delim, Token};

fn id(s: &str) -> Token {
    Token::Ident { name: String::from(s) }
}

fn pu(c: char) -> Token {
    Token::Punct { ch: c }
}

fn grp(d: Delim, ts: Vec<Token>) -> Token {
    Token::Group { delim: d, tokens: ts }
}

fn param(name: &str) -> Param {
    Param { pat: vec![id(name)], ty: vec![] }
}

fn sig_with(name: &str, receiver: ReceiverKind, params: Vec<Param>) -> FnSig {
    FnSig { name: String::from(name), generics: vec![], receiver, params, output: vec![] }
}

fn trait_with(items: Vec<TraitItem>) -> TraitDecl {
    TraitDecl {
        attrs: vec![],
        vis: vec![],
        name: String::from("Widget"),
        generics: vec![],
        items,
    }
}

fn delegation() -> DelegationSpec {
    DelegationSpec { field: String::from("inner"), inner_ty: vec![id("T")] }
}

fn empty_block() -> ImplBlock {
    ImplBlock {
        generics: vec![],
        trait_path: vec![id("Widget")],
        self_ty: vec![id("Wrap")],
        items: vec![],
    }
}

#[test]
fn empty_trait_leaves_block_alone() {
    let tr = trait_with(vec![]);
    let ib = ImplBlock {
        generics: vec![id("T")],
        trait_path: vec![id("Widget")],
        self_ty: vec![id("Wrap")],
        items: vec![ImplItem::Type { name: String::from("Out"), value: vec![id("u8")] }],
    };
    let out = synthesize(&tr, &delegation(), ib).unwrap();
    assert_eq!(out.generics, vec![id("T")]);
    assert_eq!(out.items.len(), 1);
    assert_eq!(
        out.items[0],
        ImplItem::Type { name: String::from("Out"), value: vec![id("u8")] }
    );
}

fn forwarded_body(method: &str, args: Vec<Token>) -> Vec<Token> {
    vec![
        id("Widget"),
        pu(':'),
        pu(':'),
        id(method),
        grp(Delim::Paren, args),
    ]
}

#[test]
fn receiver_shapes_route_the_field() {
    let tr = trait_with(vec![
        TraitItem::Fn {
            attrs: vec![],
            sig: sig_with("by_value", ReceiverKind::ByValue, vec![]),
            default: None,
        },
        TraitItem::Fn {
            attrs: vec![],
            sig: sig_with("by_ref", ReceiverKind::ByRef, vec![param("x")]),
            default: None,
        },
        TraitItem::Fn {
            attrs: vec![],
            sig: sig_with("by_mut", ReceiverKind::ByMutRef, vec![param("x"), param("y")]),
            default: None,
        },
        TraitItem::Fn {
            attrs: vec![],
            sig: sig_with("assoc", ReceiverKind::Absent, vec![param("x")]),
            default: None,
        },
        TraitItem::Fn {
            attrs: vec![],
            sig: sig_with("boxed", ReceiverKind::Unsupported, vec![]),
            default: None,
        },
    ]);
    let out = synthesize(&tr, &delegation(), empty_block()).unwrap();
    assert_eq!(out.items.len(), 3);
    assert_eq!(
        out.items[0],
        ImplItem::Fn {
            sig: sig_with("by_value", ReceiverKind::ByValue, vec![]),
            body: forwarded_body(
                "by_value",
                vec![id("self"), pu('.'), id("inner"), pu(',')],
            ),
        }
    );
    assert_eq!(
        out.items[1],
        ImplItem::Fn {
            sig: sig_with("by_ref", ReceiverKind::ByRef, vec![param("x")]),
            body: forwarded_body(
                "by_ref",
                vec![pu('&'), id("self"), pu('.'), id("inner"), pu(','), id("x")],
            ),
        }
    );
    assert_eq!(
        out.items[2],
        ImplItem::Fn {
            sig: sig_with("by_mut", ReceiverKind::ByMutRef, vec![param("x"), param("y")]),
            body: forwarded_body(
                "by_mut",
                vec![
                    pu('&'),
                    id("mut"),
                    id("self"),
                    pu('.'),
                    id("inner"),
                    pu(','),
                    id("x"),
                    pu(','),
                    id("y"),
                ],
            ),
        }
    );
}

fn rc_attr() -> Attr {
    Attr { name: String::from("rc"), is_list: false, args: vec![] }
}

#[test]
fn rc_with_one_parameter_is_refused() {
    let tr = trait_with(vec![TraitItem::Fn {
        attrs: vec![rc_attr()],
        sig: sig_with("get", ReceiverKind::Absent, vec![param("this")]),
        default: None,
    }]);
    let err = synthesize(&tr, &delegation(), empty_block()).unwrap_err();
    assert_eq!(err, SynthError::RcSecondArg { fn_name: String::from("get") });
    assert_eq!(err.message(), "Expected at least 2 items.");
}

#[test]
fn rc_with_receiver_is_refused() {
    let tr = trait_with(vec![TraitItem::Fn {
        attrs: vec![rc_attr()],
        sig: sig_with("get", ReceiverKind::ByRef, vec![param("this"), param("get")]),
        default: None,
    }]);
    let err = synthesize(&tr, &delegation(), empty_block()).unwrap_err();
    assert_eq!(err, SynthError::RcFirstArg { fn_name: String::from("get") });
    assert_eq!(err.message(), "Expected at least 2 items and no receiver.");
}

#[test]
fn rc_with_no_parameters_is_refused() {
    let tr = trait_with(vec![TraitItem::Fn {
        attrs: vec![rc_attr()],
        sig: sig_with("get", ReceiverKind::Absent, vec![]),
        default: None,
    }]);
    let err = synthesize(&tr, &delegation(), empty_block()).unwrap_err();
    assert_eq!(err, SynthError::RcFirstArg { fn_name: String::from("get") });
}

#[test]
fn supplied_rc_item_is_never_checked() {
    let tr = trait_with(vec![TraitItem::Fn {
        attrs: vec![rc_attr()],
        sig: sig_with("get", ReceiverKind::Absent, vec![param("this")]),
        default: None,
    }]);
    let ib = ImplBlock {
        generics: vec![],
        trait_path: vec![id("Widget")],
        self_ty: vec![id("Wrap")],
        items: vec![ImplItem::Fn {
            sig: sig_with("get", ReceiverKind::Absent, vec![param("this")]),
            body: vec![id("provided")],
        }],
    };
    let out = synthesize(&tr, &delegation(), ib).unwrap();
    assert_eq!(out.items.len(), 1);
}

#[test]
fn rc_forwarding_composes_projection() {
    let tr = trait_with(vec![TraitItem::Fn {
        attrs: vec![rc_attr()],
        sig: sig_with(
            "get",
            ReceiverKind::Absent,
            vec![param("this"), param("get"), param("extra")],
        ),
        default: None,
    }]);
    let out = synthesize(&tr, &delegation(), empty_block()).unwrap();
    assert_eq!(out.items.len(), 1);
    assert_eq!(
        out.items[0],
        ImplItem::Fn {
            sig: sig_with(
                "get",
                ReceiverKind::Absent,
                vec![param("this"), param("get"), param("extra")],
            ),
            body: forwarded_body(
                "get",
                vec![
                    id("this"),
                    pu(','),
                    pu('|'),
                    id("__x"),
                    pu('|'),
                    pu('&'),
                    id("get"),
                    grp(Delim::Paren, vec![id("__x")]),
                    pu('.'),
                    id("inner"),
                    pu(','),
                    id("extra"),
                ],
            ),
        }
    );
}

#[test]
fn default_never_reaches_the_forwarding() {
    let with_default = trait_with(vec![TraitItem::Const {
        name: String::from("K"),
        ty: vec![id("i32")],
        default: Some(vec![Token::Lit { text: String::from("2") }]),
    }]);
    let without_default = trait_with(vec![TraitItem::Const {
        name: String::from("K"),
        ty: vec![id("i32")],
        default: None,
    }]);
    let a = synthesize(&with_default, &delegation(), empty_block()).unwrap();
    let b = synthesize(&without_default, &delegation(), empty_block()).unwrap();
    assert_eq!(a.items, b.items);
    assert_eq!(
        a.items[0],
        ImplItem::Const {
            name: String::from("K"),
            ty: vec![id("i32")],
            value: vec![id("T"), pu(':'), pu(':'), id("K")],
        }
    );
}
