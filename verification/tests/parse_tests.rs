use trait_deref::parse::{ParseError, parse_header, split_input};
use trait_deref::token::{Delim, Token};

fn id(s: &str) -> Token {
    Token::Ident { name: String::from(s) }
}

fn pu(c: char) -> Token {
    Token::Punct { ch: c }
}

fn grp(d: Delim, ts: Vec<Token>) -> Token {
    Token::Group { delim: d, tokens: ts }
}

#[test]
fn splits_two_braced_groups() {
    let ts = vec![
        grp(Delim::Brace, vec![id("trait"), id("T")]),
        grp(Delim::Brace, vec![pu('@'), id("rest")]),
    ];
    let (tr, ib) = split_input(ts).unwrap();
    assert_eq!(tr, vec![id("trait"), id("T")]);
    assert_eq!(ib, vec![pu('@'), id("rest")]);
}

#[test]
fn rejects_missing_trait_group() {
    assert_eq!(split_input(vec![]), Err(ParseError::ExpectedTraitGroup));
    assert_eq!(
        split_input(vec![id("x"), grp(Delim::Brace, vec![])]),
        Err(ParseError::ExpectedTraitGroup)
    );
    assert_eq!(
        split_input(vec![grp(Delim::Paren, vec![]), grp(Delim::Brace, vec![])]),
        Err(ParseError::ExpectedTraitGroup)
    );
}

#[test]
fn rejects_missing_impl_group() {
    assert_eq!(
        split_input(vec![grp(Delim::Brace, vec![])]),
        Err(ParseError::ExpectedImplGroup)
    );
    assert_eq!(
        split_input(vec![grp(Delim::Brace, vec![]), id("x")]),
        Err(ParseError::ExpectedImplGroup)
    );
}

#[test]
fn rejects_trailing_tokens() {
    assert_eq!(
        split_input(vec![
            grp(Delim::Brace, vec![]),
            grp(Delim::Brace, vec![]),
            id("x"),
        ]),
        Err(ParseError::TrailingTokens)
    );
}

fn good_invocation() -> Vec<Token> {
    vec![
        pu('@'),
        grp(Delim::Bracket, vec![id("base"), pu(':'), id("T")]),
        id("impl"),
        grp(Delim::Brace, vec![]),
    ]
}

#[test]
fn parses_delegation_header() {
    let (d, rest) = parse_header(good_invocation()).unwrap();
    assert_eq!(d.field, "base");
    assert_eq!(d.inner_ty, vec![id("T")]);
    assert_eq!(rest, vec![id("impl"), grp(Delim::Brace, vec![])]);
}

#[test]
fn parses_longer_inner_type() {
    let ts = vec![
        pu('@'),
        grp(
            Delim::Bracket,
            vec![id("base"), pu(':'), id("Base"), pu('<'), id("T"), pu('>')],
        ),
        id("impl"),
    ];
    let (d, _rest) = parse_header(ts).unwrap();
    assert_eq!(d.inner_ty, vec![id("Base"), pu('<'), id("T"), pu('>')]);
}

#[test]
fn rejects_header_shapes() {
    assert_eq!(parse_header(vec![]), Err(ParseError::ExpectedAt));
    assert_eq!(
        parse_header(vec![id("x")]),
        Err(ParseError::ExpectedAt)
    );
    assert_eq!(
        parse_header(vec![pu('@')]),
        Err(ParseError::ExpectedDelegationBracket)
    );
    assert_eq!(
        parse_header(vec![pu('@'), grp(Delim::Paren, vec![])]),
        Err(ParseError::ExpectedDelegationBracket)
    );
    assert_eq!(
        parse_header(vec![pu('@'), grp(Delim::Bracket, vec![])]),
        Err(ParseError::ExpectedFieldName)
    );
    assert_eq!(
        parse_header(vec![pu('@'), grp(Delim::Bracket, vec![pu(':')])]),
        Err(ParseError::ExpectedFieldName)
    );
    assert_eq!(
        parse_header(vec![pu('@'), grp(Delim::Bracket, vec![id("base")])]),
        Err(ParseError::ExpectedColon)
    );
    assert_eq!(
        parse_header(vec![
            pu('@'),
            grp(Delim::Bracket, vec![id("base"), pu(':')]),
        ]),
        Err(ParseError::ExpectedInnerType)
    );
    assert_eq!(
        parse_header(vec![
            pu('@'),
            grp(Delim::Bracket, vec![id("base"), pu(':'), id("T")]),
        ]),
        Err(ParseError::ExpectedImplBlock)
    );
}
