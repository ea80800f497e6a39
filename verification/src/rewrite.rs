use vstd::prelude::*;
use vstd::string::StringExecFns;

use crate::token::{Delim, Token, TokV, stream_view, tok_view};
use crate::token::lemma_stream_view_push;

verus! {

/// What one token becomes: an identifier that is exactly `crate` gains a
/// leading `$`, a group is rewritten throughout its nested stream, and every
/// other token passes through unchanged.
pub open spec fn decr_tok(t: TokV) -> Seq<TokV>
    decreases t,
{
    match t {
        TokV::Group { delim, tokens } => seq![TokV::Group { delim, tokens: decr_stream(tokens) }],
        TokV::Ident { name } => if name == "crate"@ {
            seq![TokV::Punct { ch: '$' }, TokV::Ident { name }]
        } else {
            seq![t]
        },
        _ => seq![t],
    }
}

/// The rewrite of a whole stream, token by token.
pub open spec fn decr_stream(ts: Seq<TokV>) -> Seq<TokV>
    decreases ts,
{
    if ts.len() == 0 {
        Seq::empty()
    } else {
        decr_stream(ts.drop_last()) + decr_tok(ts.last())
    }
}

pub proof fn lemma_decr_stream_push(ts: Seq<TokV>, t: TokV)
    ensures
        decr_stream(ts.push(t)) == decr_stream(ts) + decr_tok(t),
{
    assert(ts.push(t).drop_last() =~= ts);
    assert(ts.push(t).last() == t);
}

pub proof fn lemma_decr_stream_concat(a: Seq<TokV>, b: Seq<TokV>)
    ensures
        decr_stream(a + b) == decr_stream(a) + decr_stream(b),
    decreases b,
{
    if b.len() == 0 {
        assert(a + b =~= a);
        assert(decr_stream(a) + decr_stream(b) =~= decr_stream(a));
    } else {
        lemma_decr_stream_concat(a, b.drop_last());
        assert((a + b).drop_last() =~= a + b.drop_last());
        assert((a + b).last() == b.last());
        assert(decr_stream(a) + decr_stream(b.drop_last()) + decr_tok(b.last()) =~= decr_stream(a)
            + decr_stream(b));
    }
}

/// Whether this identifier text is exactly the reserved self-reference.
fn is_crate_name(name: &String) -> (r: bool)
    ensures
        r == (name@ == "crate"@),
{
    let c = String::from_str("crate");
    *name == c
}

/// Append the rewrite of one token to `out`.
fn decratify_into(t: &Token, out: &mut Vec<Token>)
    ensures
        stream_view(final(out)@) == stream_view(old(out)@) + decr_tok(tok_view(*t)),
    decreases *t,
{
    match t {
        Token::Group { delim, tokens } => {
            let inner = decratify(tokens);
            let g = Token::Group { delim: *delim, tokens: inner };
            proof {
                lemma_stream_view_push(out@, g);
            }
            out.push(g);
        },
        Token::Ident { name } => {
            if is_crate_name(name) {
                let p = Token::Punct { ch: '$' };
                proof {
                    lemma_stream_view_push(out@, p);
                }
                out.push(p);
            }
            let id = Token::Ident { name: name.clone() };
            proof {
                lemma_stream_view_push(out@, id);
            }
            out.push(id);
        },
        Token::Punct { ch } => {
            let p = Token::Punct { ch: *ch };
            proof {
                lemma_stream_view_push(out@, p);
            }
            out.push(p);
        },
        Token::Lit { text } => {
            let l = Token::Lit { text: text.clone() };
            proof {
                lemma_stream_view_push(out@, l);
            }
            out.push(l);
        },
    }
}

/// Replace every identifier `crate` in the stream, at any nesting depth, by
/// `$` followed by that identifier; all other tokens pass through unchanged.
pub fn decratify(ts: &Vec<Token>) -> (r: Vec<Token>)
    ensures
        stream_view(r@) == decr_stream(stream_view(ts@)),
    decreases ts@,
{
    let mut out: Vec<Token> = Vec::new();
    let mut i: usize = 0;
    while i < ts.len()
        invariant
            i <= ts.len(),
            stream_view(out@) == decr_stream(stream_view(ts@.take(i as int))),
        decreases ts.len() - i,
    {
        decratify_into(&ts[i], &mut out);
        proof {
            assert(ts@.take(i + 1) =~= ts@.take(i as int).push(ts@[i as int]));
            lemma_stream_view_push(ts@.take(i as int), ts@[i as int]);
            lemma_decr_stream_push(stream_view(ts@.take(i as int)), tok_view(ts@[i as int]));
            assert(stream_view(ts@.take(i as int)).push(tok_view(ts@[i as int])) =~= stream_view(
                ts@.take(i as int),
            ) + seq![tok_view(ts@[i as int])]);
        }
        i += 1;
    }
    proof {
        assert(ts@.take(ts@.len() as int) =~= ts@);
    }
    out
}

} // verus!
