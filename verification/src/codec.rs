//! Tokens and their bytes: the lower half of the snapshot format.
//!
//! A snapshot is a sequence of tokens, each a number or a text. A number is
//! written as the byte 0 and its eight bytes, the least significant first; a
//! text as the byte 1, the length of its UTF-8 form written as a number's
//! eight bytes, and that form.

use vstd::prelude::*;
use vstd::bytes::{spec_u64_from_le_bytes, spec_u64_to_le_bytes, u64_from_le_bytes, u64_to_le_bytes};
use vstd::slice::{slice_subrange, slice_to_vec};

use vstd::utf8::{decode_utf8, encode_utf8, valid_utf8};
use crate::text::elem_views;

verus! {

/// One token of a snapshot.
#[derive(Debug)]
pub enum Token {
    Num(u64),
    Text(String),
}

pub enum TokenView {
    Num(u64),
    Text(Seq<char>),
}

impl View for Token {
    type V = TokenView;

    open spec fn view(&self) -> TokenView {
        match self {
            Token::Num(n) => TokenView::Num(*n),
            Token::Text(s) => TokenView::Text(s@),
        }
    }
}

/// The length of a text's UTF-8 form can be written as a number.
pub open spec fn fits(t: TokenView) -> bool {
    match t {
        TokenView::Num(_) => true,
        TokenView::Text(s) => encode_utf8(s).len() <= u64::MAX,
    }
}

/// Every token of `ts` fits.
pub open spec fn all_fit(ts: Seq<TokenView>) -> bool {
    forall|i: int| 0 <= i < ts.len() ==> fits(#[trigger] ts[i])
}

/// The bytes of one token.
pub open spec fn token_bytes(t: TokenView) -> Seq<u8> {
    match t {
        TokenView::Num(n) => seq![0u8] + spec_u64_to_le_bytes(n),
        TokenView::Text(s) => seq![1u8] + spec_u64_to_le_bytes(encode_utf8(s).len() as u64)
            + encode_utf8(s),
    }
}

/// The bytes of a sequence of tokens: those of each, in order.
pub open spec fn tokens_bytes(ts: Seq<TokenView>) -> Seq<u8>
    decreases ts.len(),
{
    if ts.len() == 0 {
        Seq::empty()
    } else {
        token_bytes(ts[0]) + tokens_bytes(ts.drop_first())
    }
}

/// The tokens that `b` is the bytes of; nothing where `b` is not the bytes
/// of any sequence of tokens.
pub open spec fn bytes_tokens(b: Seq<u8>) -> Option<Seq<TokenView>>
    decreases b.len(),
{
    if b.len() == 0 {
        Some(Seq::empty())
    } else if b.len() < 9 {
        None
    } else {
        let n = spec_u64_from_le_bytes(b.subrange(1, 9));
        if b[0] == 0 {
            match bytes_tokens(b.skip(9)) {
                Some(rest) => Some(seq![TokenView::Num(n)] + rest),
                None => None,
            }
        } else if b[0] == 1 && n <= b.len() - 9 && valid_utf8(b.subrange(9, 9 + n)) {
            match bytes_tokens(b.skip(9 + n)) {
                Some(rest) => Some(
                    seq![TokenView::Text(decode_utf8(b.subrange(9, 9 + n)))] + rest,
                ),
                None => None,
            }
        } else {
            None
        }
    }
}

/// The bytes of tokens lead back to the tokens.
pub proof fn lemma_tokens_round_trip(ts: Seq<TokenView>)
    requires
        all_fit(ts),
    ensures
        bytes_tokens(tokens_bytes(ts)) == Some(ts),
    decreases ts.len(),
{
    vstd::bytes::lemma_auto_spec_u64_to_from_le_bytes();
    if ts.len() > 0 {
        let rest = ts.drop_first();
        assert(all_fit(rest)) by {
            assert forall|i: int| 0 <= i < rest.len() implies fits(#[trigger] rest[i]) by {
                assert(rest[i] == ts[i + 1]);
            }
        }
        lemma_tokens_round_trip(rest);
        let b = tokens_bytes(ts);
        let tail = tokens_bytes(rest);
        assert(fits(ts[0]));
        match ts[0] {
            TokenView::Num(n) => {
                let le = spec_u64_to_le_bytes(n);
                assert(b == (seq![0u8] + le) + tail);
                assert(b.subrange(1, 9) =~= le);
                assert(b.skip(9) =~= tail);
                assert(seq![TokenView::Num(n)] + rest =~= ts);
            },
            TokenView::Text(s) => {
                let body = encode_utf8(s);
                let le = spec_u64_to_le_bytes(body.len() as u64);
                assert(b == (seq![1u8] + le + body) + tail);
                assert(b.subrange(1, 9) =~= le);
                assert(b.subrange(9, 9 + body.len() as int) =~= body);
                assert(b.skip(9 + body.len() as int) =~= tail);
                vstd::utf8::encode_utf8_valid_utf8(s);
                vstd::utf8::encode_utf8_decode_utf8(s);
                assert(seq![TokenView::Text(s)] + rest =~= ts);
            },
        }
    }
}

/// `String::from_utf8`: the text whose UTF-8 form `bytes` is, or nothing
/// where `bytes` is not such a form.
#[verifier::external_body]
fn text_from_utf8(bytes: Vec<u8>) -> (r: Option<String>)
    ensures
        match r {
            Some(s) => valid_utf8(bytes@) && s@ == decode_utf8(bytes@),
            None => !valid_utf8(bytes@),
        },
{
    String::from_utf8(bytes).ok()
}

/// Writes tokens as bytes.
pub fn encode_tokens(tokens: &Vec<Token>) -> (r: Vec<u8>)
    ensures
        r@ == tokens_bytes(elem_views(tokens@)),
        bytes_tokens(r@) == Some(elem_views(tokens@)),
{
    let ghost ts = elem_views(tokens@);
    let mut out: Vec<u8> = Vec::new();
    let mut i: usize = 0;
    proof {
        assert(ts.skip(0) =~= ts);
        assert(out@ + tokens_bytes(ts) =~= tokens_bytes(ts));
    }
    while i < tokens.len()
        invariant
            i <= tokens@.len(),
            ts == elem_views(tokens@),
            out@ + tokens_bytes(ts.skip(i as int)) == tokens_bytes(ts),
            forall|j: int| 0 <= j < i ==> fits(#[trigger] ts[j]),
        decreases tokens.len() - i,
    {
        let ghost before = out@;
        let ghost rest = ts.skip(i as int);
        proof {
            assert(rest[0] == tokens@[i as int]@);
            assert(rest.drop_first() =~= ts.skip(i + 1));
        }
        match &tokens[i] {
            Token::Num(n) => {
                out.push(0);
                let mut le = u64_to_le_bytes(*n);
                out.append(&mut le);
            },
            Token::Text(s) => {
                out.push(1);
                let body = s.as_str().as_bytes();
                let mut le = u64_to_le_bytes(body.len() as u64);
                out.append(&mut le);
                let mut copy = slice_to_vec(body);
                out.append(&mut copy);
            },
        }
        proof {
            assert(out@ =~= before + token_bytes(ts[i as int]));
            assert((before + token_bytes(ts[i as int])) + tokens_bytes(ts.skip(i + 1)) =~= before
                + (token_bytes(ts[i as int]) + tokens_bytes(ts.skip(i + 1))));
        }
        i += 1;
    }
    proof {
        assert(ts.skip(tokens@.len() as int) =~= Seq::empty());
        assert(out@ + Seq::empty() =~= out@);
        lemma_tokens_round_trip(ts);
    }
    out
}

/// What remains to be read: the tokens read so far, followed by those of
/// the bytes left.
pub open spec fn joined_tokens(done: Seq<TokenView>, left: Option<Seq<TokenView>>) -> Option<
    Seq<TokenView>,
> {
    match left {
        Some(rest) => Some(done + rest),
        None => None,
    }
}

/// Reads bytes as tokens.
pub fn decode_tokens(bytes: &[u8]) -> (r: Option<Vec<Token>>)
    ensures
        match r {
            Some(ts) => bytes_tokens(bytes@) == Some(elem_views(ts@)),
            None => bytes_tokens(bytes@) is None,
        },
{
    let ghost all = bytes@;
    let mut out: Vec<Token> = Vec::new();
    let mut pos: usize = 0;
    proof {
        assert(all.skip(0) =~= all);
        assert(elem_views(out@) =~= Seq::empty());
        match bytes_tokens(all) {
            Some(rest) => {
                assert(Seq::<TokenView>::empty() + rest =~= rest);
            },
            None => {},
        }
    }
    while pos < bytes.len()
        invariant
            pos <= bytes@.len(),
            all == bytes@,
            bytes_tokens(all) == joined_tokens(
                elem_views(out@),
                bytes_tokens(all.skip(pos as int)),
            ),
        decreases bytes@.len() - pos,
    {
        let ghost b = all.skip(pos as int);
        let ghost done = elem_views(out@);
        if bytes.len() - pos < 9 {
            return None;
        }
        let tag = bytes[pos];
        let n = u64_from_le_bytes(slice_subrange(bytes, pos + 1, pos + 9));
        proof {
            assert(b[0] == all[pos as int]);
            assert(b.subrange(1, 9) =~= all.subrange(pos + 1, pos + 9));
            assert(b.skip(9) =~= all.skip(pos + 9));
        }
        if tag == 0 {
            out.push(Token::Num(n));
            proof {
                assert(elem_views(out@) =~= done.push(TokenView::Num(n)));
                match bytes_tokens(b.skip(9)) {
                    Some(rest) => {
                        assert(done + (seq![TokenView::Num(n)] + rest) =~= done.push(
                            TokenView::Num(n),
                        ) + rest);
                    },
                    None => {},
                }
            }
            pos = pos + 9;
        } else if tag == 1 {
            if n > (bytes.len() - pos - 9) as u64 {
                return None;
            }
            let len = n as usize;
            let body = slice_to_vec(slice_subrange(bytes, pos + 9, pos + 9 + len));
            proof {
                assert(b.subrange(9, 9 + n) =~= all.subrange(pos + 9, pos + 9 + len));
                assert(b.skip(9 + n) =~= all.skip(pos + 9 + len));
            }
            match text_from_utf8(body) {
                None => {
                    return None;
                },
                Some(s) => {
                    let ghost t = TokenView::Text(s@);
                    out.push(Token::Text(s));
                    proof {
                        assert(elem_views(out@) =~= done.push(t));
                        match bytes_tokens(b.skip(9 + n)) {
                            Some(rest) => {
                                assert(done + (seq![t] + rest) =~= done.push(t) + rest);
                            },
                            None => {},
                        }
                    }
                },
            }
            pos = pos + 9 + len;
        } else {
            return None;
        }
    }
    proof {
        assert(all.skip(pos as int) =~= Seq::empty());
        assert(elem_views(out@) + Seq::<TokenView>::empty() =~= elem_views(out@));
    }
    Some(out)
}

} // verus!
