//! Splits one identifier, string literal or byte string literal token into
//! the sequence of character or byte literals it is made of, each carrying
//! the span of the original token.

pub mod classify;
pub mod engine;
pub mod tokens;

use crate::classify::{
    classified, classify, error_at, is_shape, parse_map, ClassificationError, Expected,
};
use crate::engine::{bytes_at, characters_at, explode_input, uniform, AtomicLiteral};
use crate::tokens::{
    accepted, byte_string_of, end_position, ident_of, is_name_tree, is_punct_tree, read_tokens,
    text_of, token_of, tree_span, token_trees, trees_of, Lexeme, Token,
};
use proc_macro2::{Span, TokenStream, TokenTree};
use vstd::prelude::*;

verus! {

/// `r` is what the token `t` explodes into.
pub open spec fn token_explodes_to(t: Token, r: Seq<AtomicLiteral>) -> bool {
    match t.lexeme {
        Lexeme::Text(s) => characters_at(r, s@, t.position),
        Lexeme::Name(s) => characters_at(r, s@, t.position),
        Lexeme::Bytes(b) => bytes_at(r, b@, t.position),
        _ => false,
    }
}

/// `r` is the outcome of exploding `tokens`, where `end` is the position of
/// the end of the input.
pub open spec fn exploded_tokens(
    tokens: Seq<Token>,
    end: Span,
    r: Result<Vec<AtomicLiteral>, ClassificationError>,
) -> bool {
    match r {
        Ok(v) => tokens.len() == 1 && is_shape(tokens[0].lexeme) && token_explodes_to(
            tokens[0],
            v@,
        ),
        Err(e) => classified(tokens, end, Err(e)),
    }
}

/// Classifies `tokens` and explodes what they hold.
pub fn explode_tokens(tokens: &Vec<Token>, end: Span) -> (r: Result<
    Vec<AtomicLiteral>,
    ClassificationError,
>)
    ensures
        exploded_tokens(tokens@, end, r),
{
    match classify(tokens, end) {
        Ok(input) => Ok(explode_input(&input)),
        Err(e) => Err(e),
    }
}

/// `r` is what the token tree `tree` explodes into.
pub open spec fn tree_explodes_to(tree: TokenTree, r: Seq<AtomicLiteral>) -> bool {
    if text_of(tree) is Some {
        characters_at(r, (text_of(tree)->0).0, (text_of(tree)->0).1)
    } else if ident_of(tree) is Some {
        characters_at(r, (ident_of(tree)->0).0, (ident_of(tree)->0).1)
    } else if byte_string_of(tree) is Some {
        bytes_at(r, (byte_string_of(tree)->0).0, (byte_string_of(tree)->0).1)
    } else {
        false
    }
}

/// `r` is the outcome of exploding a stream of the token trees `trees`:
/// exactly one string literal, name or byte string literal is accepted;
/// otherwise the error names the first tree that is out of place, or the end
/// of the input.
pub open spec fn stream_exploded(
    trees: Seq<TokenTree>,
    r: Result<Vec<AtomicLiteral>, ClassificationError>,
) -> bool {
    if trees.len() == 0 {
        r is Err && r->Err_0.expected == Expected::Literal && r->Err_0.at_end
    } else if !accepted(trees[0]) {
        r == Err::<Vec<AtomicLiteral>, _>(error_at(Expected::Literal, false, tree_span(trees[0])))
    } else if trees.len() > 1 {
        r == Err::<Vec<AtomicLiteral>, _>(error_at(Expected::Nothing, false, tree_span(trees[1])))
    } else {
        r is Ok && tree_explodes_to(trees[0], r->Ok_0@)
    }
}

/// Explodes a token stream that holds one string literal, name or byte
/// string literal.
pub fn explode(tokens: &TokenStream) -> (r: Result<Vec<AtomicLiteral>, ClassificationError>)
    ensures
        stream_exploded(trees_of(*tokens), r),
        r matches Ok(v) ==> uniform(v@),
{
    let trees = token_trees(tokens);
    let read = read_tokens(&trees);
    let r = explode_tokens(&read, end_position());
    proof {
        if trees.len() > 0 {
            assert(token_of(trees[0], read[0]));
        }
        if trees.len() > 1 {
            assert(token_of(trees[1], read[1]));
        }
    }
    r
}

/// An input exploded under an operation.
#[derive(Debug)]
pub struct MapExplosion {
    /// The operation's name, as it was written.
    pub operation: TokenTree,
    /// The operation is followed by `!`.
    pub bang: bool,
    /// The literals, each to be handed to the operation.
    pub elements: Vec<AtomicLiteral>,
}

/// Where the `,` stands among `trees`: after the operation's name, and after
/// its `!` if there is one.
pub open spec fn operation_end(trees: Seq<TokenTree>) -> int {
    if trees.len() > 1 && is_punct_tree(trees[1], '!') {
        2
    } else {
        1
    }
}

/// `r` is the outcome of exploding a stream of the token trees `trees` that
/// should hold an operation's name, an optional `!`, a `,` and one string
/// literal, name or byte string literal.
pub open spec fn stream_map_exploded(
    trees: Seq<TokenTree>,
    r: Result<MapExplosion, ClassificationError>,
) -> bool {
    let k = operation_end(trees);
    if trees.len() == 0 {
        r is Err && r->Err_0.expected == Expected::Operation && r->Err_0.at_end
    } else if !is_name_tree(trees[0]) {
        r == Err::<MapExplosion, _>(error_at(Expected::Operation, false, tree_span(trees[0])))
    } else if trees.len() <= k {
        r is Err && r->Err_0.expected == Expected::Separator && r->Err_0.at_end
    } else if !is_punct_tree(trees[k], ',') {
        r == Err::<MapExplosion, _>(error_at(Expected::Separator, false, tree_span(trees[k])))
    } else if trees.len() == k + 1 {
        r is Err && r->Err_0.expected == Expected::Literal && r->Err_0.at_end
    } else if !accepted(trees[k + 1]) {
        r == Err::<MapExplosion, _>(error_at(Expected::Literal, false, tree_span(trees[k + 1])))
    } else if trees.len() > k + 2 {
        r == Err::<MapExplosion, _>(error_at(Expected::Nothing, false, tree_span(trees[k + 2])))
    } else {
        &&& r is Ok
        &&& r->Ok_0.operation == trees[0]
        &&& r->Ok_0.bang == (k == 2)
        &&& tree_explodes_to(trees[k + 1], r->Ok_0.elements@)
    }
}

/// Explodes a token stream that holds an operation's name, an optional `!`,
/// a `,` and one string literal, name or byte string literal.
pub fn explode_map(tokens: &TokenStream) -> (r: Result<MapExplosion, ClassificationError>)
    ensures
        stream_map_exploded(trees_of(*tokens), r),
        r matches Ok(m) ==> uniform(m.elements@),
{
    let mut trees = token_trees(tokens);
    let read = read_tokens(&trees);
    proof {
        assert forall|i: int| 0 <= i < trees.len() implies token_of(trees[i], read[i]) by {}
    }
    match parse_map(&read, end_position()) {
        Ok(m) => {
            let elements = explode_input(&m.input);
            let operation = trees.remove(0);
            Ok(MapExplosion { operation, bang: m.bang, elements })
        },
        Err(e) => Err(e),
    }
}

/// An empty string literal or byte string literal is accepted, and explodes
/// into no literal at all.
pub proof fn empty_literal_explodes_to_nothing(
    t: Token,
    end: Span,
    r: Result<Vec<AtomicLiteral>, ClassificationError>,
)
    requires
        (t.lexeme is Text && t.lexeme->Text_0@.len() == 0) || (t.lexeme is Bytes
            && t.lexeme->Bytes_0@.len() == 0),
        exploded_tokens(seq![t], end, r),
    ensures
        r is Ok,
        r->Ok_0@.len() == 0,
{
}

/// A token that is neither a string literal, a name nor a byte string literal
/// is refused, with an error at that token's position.
pub proof fn other_token_is_refused(
    t: Token,
    end: Span,
    r: Result<Vec<AtomicLiteral>, ClassificationError>,
)
    requires
        !is_shape(t.lexeme),
        exploded_tokens(seq![t], end, r),
    ensures
        r == Err::<Vec<AtomicLiteral>, _>(error_at(Expected::Literal, false, t.position)),
{
}

/// A stream whose first token tree is neither a string literal, a name nor a
/// byte string literal is refused with an error at that tree's position,
/// whatever follows it.
pub proof fn stream_with_other_token_is_refused(
    trees: Seq<TokenTree>,
    r: Result<Vec<AtomicLiteral>, ClassificationError>,
)
    requires
        trees.len() > 0,
        !accepted(trees[0]),
        stream_exploded(trees, r),
    ensures
        r == Err::<Vec<AtomicLiteral>, _>(error_at(Expected::Literal, false, tree_span(trees[0]))),
{
}

} // verus!
