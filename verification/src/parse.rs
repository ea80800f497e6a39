use vstd::prelude::*;

use crate::model::DelegationSpec;
use crate::token::{
    Delim, TokV, Token, lemma_stream_view_index, lemma_stream_view_len, lemma_stream_view_subrange,
    stream_view,
};

verus! {

/// Why an invocation's token stream was rejected.
#[derive(Clone, Copy, PartialEq, Eq, Structural, Debug)]
pub enum ParseError {
    /// The input does not begin with a braced trait declaration.
    ExpectedTraitGroup,
    /// The braced trait declaration is not followed by a braced block.
    ExpectedImplGroup,
    /// Tokens remain after the two braced blocks.
    TrailingTokens,
    /// The invocation does not begin with `@`.
    ExpectedAt,
    /// `@` is not followed by a bracketed delegation header.
    ExpectedDelegationBracket,
    /// The delegation header does not begin with a field identifier.
    ExpectedFieldName,
    /// The field identifier is not followed by `:`.
    ExpectedColon,
    /// No tokens follow the `:` inside the delegation header.
    ExpectedInnerType,
    /// No implementation block follows the delegation header.
    ExpectedImplBlock,
}

/// The whole input of the second-stage expansion: exactly two braced groups,
/// the captured trait and then the invocation.
pub open spec fn well_formed_input(ts: Seq<TokV>) -> bool {
    &&& ts.len() == 2
    &&& ts[0] matches TokV::Group { delim: Delim::Brace, .. }
    &&& ts[1] matches TokV::Group { delim: Delim::Brace, .. }
}

pub open spec fn input_err(ts: Seq<TokV>) -> ParseError
    recommends
        !well_formed_input(ts),
{
    if !(ts.len() >= 1 && ts[0] matches TokV::Group { delim: Delim::Brace, .. }) {
        ParseError::ExpectedTraitGroup
    } else if !(ts.len() >= 2 && ts[1] matches TokV::Group { delim: Delim::Brace, .. }) {
        ParseError::ExpectedImplGroup
    } else {
        ParseError::TrailingTokens
    }
}

/// Split the input of the second-stage expansion into the captured trait's
/// tokens and the invocation's tokens: the two braced groups' contents.
pub fn split_input(ts: Vec<Token>) -> (r: Result<(Vec<Token>, Vec<Token>), ParseError>)
    ensures
        (r is Ok) == well_formed_input(stream_view(ts@)),
        r matches Ok((tr, ib)) ==> {
            &&& stream_view(ts@)[0] == (TokV::Group {
                delim: Delim::Brace,
                tokens: stream_view(tr@),
            })
            &&& stream_view(ts@)[1] == (TokV::Group {
                delim: Delim::Brace,
                tokens: stream_view(ib@),
            })
        },
        r matches Err(e) ==> e == input_err(stream_view(ts@)),
{
    let ghost entry = ts@;
    let ghost orig = stream_view(ts@);
    proof {
        lemma_stream_view_len(entry);
        if entry.len() > 0 {
            lemma_stream_view_index(entry, 0);
        }
        if entry.len() > 1 {
            lemma_stream_view_index(entry, 1);
        }
    }
    let mut ts = ts;
    if ts.len() == 0 {
        return Err(ParseError::ExpectedTraitGroup);
    }
    let first = ts.remove(0);
    proof {
        assert(ts@ =~= entry.skip(1));
    }
    let tr = match first {
        Token::Group { delim: Delim::Brace, tokens } => tokens,
        _ => {
            return Err(ParseError::ExpectedTraitGroup);
        },
    };
    if ts.len() == 0 {
        return Err(ParseError::ExpectedImplGroup);
    }
    let second = ts.remove(0);
    proof {
        assert(second == entry[1]);
        assert(ts@ =~= entry.skip(2));
    }
    let ib = match second {
        Token::Group { delim: Delim::Brace, tokens } => tokens,
        _ => {
            return Err(ParseError::ExpectedImplGroup);
        },
    };
    if ts.len() != 0 {
        return Err(ParseError::TrailingTokens);
    }
    Ok((tr, ib))
}

/// A well-formed invocation: `@`, a bracketed `field : Type` header with at
/// least one type token, and a nonempty implementation block after it.
pub open spec fn well_formed_header(ts: Seq<TokV>) -> bool {
    &&& ts.len() >= 3
    &&& ts[0] matches TokV::Punct { ch: '@' }
    &&& (ts[1] matches TokV::Group { delim: Delim::Bracket, tokens: inner } && {
        &&& inner.len() >= 3
        &&& inner[0] is Ident
        &&& inner[1] matches TokV::Punct { ch: ':' }
    })
}

pub open spec fn header_err(ts: Seq<TokV>) -> ParseError
    recommends
        !well_formed_header(ts),
{
    if !(ts.len() >= 1 && ts[0] matches TokV::Punct { ch: '@' }) {
        ParseError::ExpectedAt
    } else if !(ts.len() >= 2 && ts[1] matches TokV::Group { delim: Delim::Bracket, .. }) {
        ParseError::ExpectedDelegationBracket
    } else {
        let inner = ts[1]->Group_tokens;
        if !(inner.len() >= 1 && inner[0] is Ident) {
            ParseError::ExpectedFieldName
        } else if !(inner.len() >= 2 && inner[1] matches TokV::Punct { ch: ':' }) {
            ParseError::ExpectedColon
        } else if inner.len() < 3 {
            ParseError::ExpectedInnerType
        } else {
            ParseError::ExpectedImplBlock
        }
    }
}

/// Parse the invocation: take the `@[field: Type]` delegation header off the
/// front and hand back the delegation designation and the implementation
/// block's tokens.
pub fn parse_header(ts: Vec<Token>) -> (r: Result<(DelegationSpec, Vec<Token>), ParseError>)
    ensures
        (r is Ok) == well_formed_header(stream_view(ts@)),
        r matches Ok((d, rest)) ==> {
            &&& d@.field == stream_view(ts@)[1]->Group_tokens[0]->Ident_name
            &&& d@.inner_ty == stream_view(ts@)[1]->Group_tokens.skip(2)
            &&& stream_view(rest@) == stream_view(ts@).skip(2)
        },
        r matches Err(e) ==> e == header_err(stream_view(ts@)),
{
    let ghost entry = ts@;
    let ghost orig = stream_view(ts@);
    proof {
        lemma_stream_view_len(entry);
        if entry.len() > 0 {
            lemma_stream_view_index(entry, 0);
        }
        if entry.len() > 1 {
            lemma_stream_view_index(entry, 1);
        }
    }
    let mut ts = ts;
    if ts.len() == 0 {
        return Err(ParseError::ExpectedAt);
    }
    let first = ts.remove(0);
    proof {
        assert(ts@ =~= entry.skip(1));
    }
    match first {
        Token::Punct { ch: '@' } => {},
        _ => {
            return Err(ParseError::ExpectedAt);
        },
    }
    if ts.len() == 0 {
        return Err(ParseError::ExpectedDelegationBracket);
    }
    let second = ts.remove(0);
    proof {
        assert(second == entry[1]);
        assert(ts@ =~= entry.skip(2));
    }
    let mut inner = match second {
        Token::Group { delim: Delim::Bracket, tokens } => tokens,
        _ => {
            return Err(ParseError::ExpectedDelegationBracket);
        },
    };
    let ghost inner_entry = inner@;
    let ghost ginner = stream_view(inner_entry);
    proof {
        assert(orig[1]->Group_tokens == ginner);
        lemma_stream_view_len(inner_entry);
        if inner_entry.len() > 0 {
            lemma_stream_view_index(inner_entry, 0);
        }
        if inner_entry.len() > 1 {
            lemma_stream_view_index(inner_entry, 1);
        }
    }
    if inner.len() == 0 {
        return Err(ParseError::ExpectedFieldName);
    }
    let f = inner.remove(0);
    proof {
        assert(inner@ =~= inner_entry.skip(1));
    }
    let field = match f {
        Token::Ident { name } => name,
        _ => {
            return Err(ParseError::ExpectedFieldName);
        },
    };
    if inner.len() == 0 {
        return Err(ParseError::ExpectedColon);
    }
    let c = inner.remove(0);
    proof {
        assert(c == inner_entry[1]);
        assert(inner@ =~= inner_entry.skip(2));
    }
    match c {
        Token::Punct { ch: ':' } => {},
        _ => {
            return Err(ParseError::ExpectedColon);
        },
    }
    if inner.len() == 0 {
        return Err(ParseError::ExpectedInnerType);
    }
    if ts.len() == 0 {
        return Err(ParseError::ExpectedImplBlock);
    }
    proof {
        lemma_stream_view_subrange(inner_entry, 2, inner_entry.len() as int);
        assert(inner_entry.skip(2) =~= inner_entry.subrange(2, inner_entry.len() as int));
        assert(ginner.subrange(2, ginner.len() as int) =~= ginner.skip(2));
        lemma_stream_view_subrange(entry, 2, entry.len() as int);
        assert(entry.skip(2) =~= entry.subrange(2, entry.len() as int));
        assert(orig.subrange(2, orig.len() as int) =~= orig.skip(2));
    }
    Ok((DelegationSpec { field, inner_ty: inner }, ts))
}

} // verus!
