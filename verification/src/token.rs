use vstd::prelude::*;

verus! {

/// The delimiter of a token group: parentheses, square brackets, or braces.
#[derive(Clone, Copy, PartialEq, Eq, Structural, Debug)]
pub enum Delim {
    Paren,
    Bracket,
    Brace,
}

/// One token of a source stream: a delimited group of nested tokens, an
/// identifier, a single punctuation character, or a literal.
#[derive(Debug, PartialEq, Eq)]
pub enum Token {
    Group { delim: Delim, tokens: Vec<Token> },
    Ident { name: String },
    Punct { ch: char },
    Lit { text: String },
}

/// The mathematical shape of a token: groups carry sequences, identifiers
/// and literals carry character sequences.
#[verifier::ext_equal]
pub ghost enum TokV {
    Group { delim: Delim, tokens: Seq<TokV> },
    Ident { name: Seq<char> },
    Punct { ch: char },
    Lit { text: Seq<char> },
}

pub open spec fn tok_view(t: Token) -> TokV
    decreases t,
{
    match t {
        Token::Group { delim, tokens } => TokV::Group { delim, tokens: stream_view(tokens@) },
        Token::Ident { name } => TokV::Ident { name: name@ },
        Token::Punct { ch } => TokV::Punct { ch },
        Token::Lit { text } => TokV::Lit { text: text@ },
    }
}

pub open spec fn stream_view(ts: Seq<Token>) -> Seq<TokV>
    decreases ts,
{
    if ts.len() == 0 {
        Seq::empty()
    } else {
        stream_view(ts.drop_last()) + seq![tok_view(ts.last())]
    }
}

impl View for Token {
    type V = TokV;

    open spec fn view(&self) -> TokV {
        tok_view(*self)
    }
}

pub proof fn lemma_stream_view_len(ts: Seq<Token>)
    ensures
        stream_view(ts).len() == ts.len(),
    decreases ts,
{
    if ts.len() > 0 {
        lemma_stream_view_len(ts.drop_last());
    }
}

pub proof fn lemma_stream_view_index(ts: Seq<Token>, i: int)
    requires
        0 <= i < ts.len(),
    ensures
        stream_view(ts).len() == ts.len(),
        stream_view(ts)[i] == tok_view(ts[i]),
    decreases ts,
{
    lemma_stream_view_len(ts);
    lemma_stream_view_len(ts.drop_last());
    if i < ts.len() - 1 {
        lemma_stream_view_index(ts.drop_last(), i);
        assert(ts.drop_last()[i] == ts[i]);
    }
}

pub proof fn lemma_stream_view_push(ts: Seq<Token>, t: Token)
    ensures
        stream_view(ts.push(t)) == stream_view(ts) + seq![tok_view(t)],
{
    assert(ts.push(t).drop_last() =~= ts);
    assert(ts.push(t).last() == t);
}

pub proof fn lemma_stream_view_concat(a: Seq<Token>, b: Seq<Token>)
    ensures
        stream_view(a + b) == stream_view(a) + stream_view(b),
    decreases b,
{
    if b.len() == 0 {
        assert(a + b =~= a);
        assert(stream_view(a) + stream_view(b) =~= stream_view(a));
    } else {
        lemma_stream_view_concat(a, b.drop_last());
        assert((a + b).drop_last() =~= a + b.drop_last());
        assert((a + b).last() == b.last());
        assert(stream_view(a + b) =~= stream_view(a) + stream_view(b));
    }
}

pub proof fn lemma_stream_view_subrange(ts: Seq<Token>, a: int, b: int)
    requires
        0 <= a <= b <= ts.len(),
    ensures
        stream_view(ts.subrange(a, b)) == stream_view(ts).subrange(a, b),
{
    lemma_stream_view_len(ts);
    lemma_stream_view_len(ts.subrange(a, b));
    assert forall|i: int| 0 <= i < b - a implies stream_view(ts.subrange(a, b))[i] == stream_view(
        ts,
    ).subrange(a, b)[i] by {
        lemma_stream_view_index(ts.subrange(a, b), i);
        lemma_stream_view_index(ts, a + i);
    }
    assert(stream_view(ts.subrange(a, b)) =~= stream_view(ts).subrange(a, b));
}

/// An exact copy of one token, component by component.
pub fn clone_token(t: &Token) -> (r: Token)
    ensures
        tok_view(r) == tok_view(*t),
    decreases *t,
{
    match t {
        Token::Group { delim, tokens } => Token::Group { delim: *delim, tokens: clone_tokens(tokens) },
        Token::Ident { name } => Token::Ident { name: name.clone() },
        Token::Punct { ch } => Token::Punct { ch: *ch },
        Token::Lit { text } => Token::Lit { text: text.clone() },
    }
}

/// An exact copy of a token stream.
pub fn clone_tokens(ts: &Vec<Token>) -> (r: Vec<Token>)
    ensures
        stream_view(r@) == stream_view(ts@),
    decreases ts@,
{
    let mut out: Vec<Token> = Vec::new();
    let mut i: usize = 0;
    while i < ts.len()
        invariant
            i <= ts.len(),
            stream_view(out@) == stream_view(ts@.take(i as int)),
        decreases ts.len() - i,
    {
        let t = clone_token(&ts[i]);
        proof {
            assert(ts@.take(i + 1) =~= ts@.take(i as int).push(ts@[i as int]));
            lemma_stream_view_push(ts@.take(i as int), ts@[i as int]);
            lemma_stream_view_push(out@, t);
        }
        out.push(t);
        i += 1;
    }
    proof {
        assert(ts@.take(ts@.len() as int) =~= ts@);
    }
    out
}

} // verus!
