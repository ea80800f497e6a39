use trait_deref::rewrite::decratify;
use trait_deref::token::{Delim, Token};

fn id(s: &str) -> Token {
    Token::Ident { name: String::from(s) }
}

fn pu(c: char) -> Token {
    Token::Punct { ch: c }
}

fn grp(d: Delim, ts: Vec<Token>) -> Token {
    Token::Group { delim: d, tokens: ts }
}

#[test]
fn rewrites_bare_self_reference() {
    let ts = vec![id("crate"), pu(':'), pu(':'), id("Card")];
    let out = decratify(&ts);
    assert_eq!(out, vec![pu('$'), id("crate"), pu(':'), pu(':'), id("Card")]);
}

#[test]
fn rewrites_inside_nested_groups() {
    let ts = vec![grp(
        Delim::Brace,
        vec![
            id("use"),
            grp(Delim::Paren, vec![id("crate"), pu(':'), pu(':'), id("Deck")]),
        ],
    )];
    let out = decratify(&ts);
    assert_eq!(
        out,
        vec![grp(
            Delim::Brace,
            vec![
                id("use"),
                grp(
                    Delim::Paren,
                    vec![pu('$'), id("crate"), pu(':'), pu(':'), id("Deck")]
                ),
            ],
        )]
    );
}

#[test]
fn leaves_other_tokens_alone() {
    let ts = vec![
        id("crates"),
        Token::Lit { text: String::from("\"crate\"") },
        pu('@'),
        id("my_crate"),
    ];
    let out = decratify(&ts);
    assert_eq!(out, ts);
}

#[test]
fn rewrites_every_occurrence() {
    let ts = vec![id("crate"), pu(','), id("crate")];
    let out = decratify(&ts);
    assert_eq!(
        out,
        vec![pu('$'), id("crate"), pu(','), pu('$'), id("crate")]
    );
}

#[test]
fn empty_stream_stays_empty() {
    let ts: Vec<Token> = vec![];
    assert_eq!(decratify(&ts), vec![]);
}
