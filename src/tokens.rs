//! The boundary with `proc_macro2` and `syn`: the outside types the library
//! carries, the calls that read a token stream, and the plain model of a
//! token that the rest of the library works on.

use proc_macro2::{Span, TokenStream, TokenTree};
use vstd::prelude::*;

verus! {

/// A location in the source, carried unchanged from a token to every
/// literal made from it.
#[verifier::external_type_specification]
#[verifier::external_body]
pub struct ExSpan(Span);

#[verifier::external_type_specification]
#[verifier::external_body]
pub struct ExTokenStream(TokenStream);

#[verifier::external_type_specification]
#[verifier::external_body]
pub struct ExTokenTree(TokenTree);

/// What one token tree reads as.
#[derive(Debug)]
pub enum Lexeme {
    /// A string literal, with its escapes resolved.
    Text(String),
    /// An identifier that is not a keyword, as written.
    Name(String),
    /// A byte string literal, with its escapes resolved.
    Bytes(Vec<u8>),
    /// A punctuation character.
    Punct(char),
    /// Any other token: another literal, a keyword, a group.
    Other,
}

/// One token tree of the input: what it reads as, and where it stands.
#[derive(Debug)]
pub struct Token {
    pub lexeme: Lexeme,
    pub position: Span,
}

/// The token trees of a stream, in order.
pub uninterp spec fn trees_of(s: TokenStream) -> Seq<TokenTree>;

/// Where a token tree stands.
pub uninterp spec fn span_of(t: TokenTree) -> Span;

/// The decoded value and the span of a tree that is a string literal.
pub uninterp spec fn text_of(t: TokenTree) -> Option<(Seq<char>, Span)>;

/// The text and the span of a tree that is an identifier other than a
/// keyword.
pub uninterp spec fn ident_of(t: TokenTree) -> Option<(Seq<char>, Span)>;

/// The decoded bytes and the span of a tree that is a byte string literal.
pub uninterp spec fn byte_string_of(t: TokenTree) -> Option<(Seq<u8>, Span)>;

/// The character of a tree that is a punctuation mark.
pub uninterp spec fn punct_of(t: TokenTree) -> Option<char>;

/// Relies on `IntoIterator for proc_macro2::TokenStream`: the stream's
/// token trees, in order.
#[verifier::external_body]
pub(crate) fn token_trees(tokens: &TokenStream) -> (r: Vec<TokenTree>)
    ensures
        r@ == trees_of(*tokens),
{
    tokens.clone().into_iter().collect()
}

/// Relies on `proc_macro2::TokenTree::span`: where the tree stands.
#[verifier::external_body]
fn tree_position(tree: &TokenTree) -> (r: Span)
    ensures
        r == span_of(*tree),
{
    tree.span()
}

/// Relies on `proc_macro2::Span::call_site`: the position given to an error
/// at the end of the input.
#[verifier::external_body]
pub(crate) fn end_position() -> Span {
    Span::call_site()
}

/// Relies on `syn::parse2::<syn::LitStr>`, `syn::LitStr::value` and
/// `syn::LitStr::span`: the decoded value and the literal's span, where the
/// tree is a string literal.
#[verifier::external_body]
fn read_text(tree: &TokenTree) -> (r: Option<(String, Span)>)
    ensures
        r is Some == text_of(*tree) is Some,
        r matches Some(p) ==> p.0@ == (text_of(*tree)->0).0 && p.1 == (text_of(*tree)->0).1,
{
    syn::parse2::<syn::LitStr>(TokenStream::from(tree.clone())).ok().map(|lit| (lit.value(), lit.span()))
}

/// Relies on `syn::parse2::<syn::Ident>`, which refuses keywords, and on
/// `proc_macro2::Ident`'s `to_string` and `span`: the identifier as written
/// and its span, where the tree is one.
#[verifier::external_body]
fn read_name(tree: &TokenTree) -> (r: Option<(String, Span)>)
    ensures
        r is Some == ident_of(*tree) is Some,
        r matches Some(p) ==> p.0@ == (ident_of(*tree)->0).0 && p.1 == (ident_of(*tree)->0).1,
{
    syn::parse2::<syn::Ident>(TokenStream::from(tree.clone())).ok().map(|id| (id.to_string(), id.span()))
}

/// Relies on `syn::parse2::<syn::LitByteStr>`, `syn::LitByteStr::value` and
/// `syn::LitByteStr::span`: the decoded bytes and the literal's span, where
/// the tree is a byte string literal.
#[verifier::external_body]
fn read_bytes(tree: &TokenTree) -> (r: Option<(Vec<u8>, Span)>)
    ensures
        r is Some == byte_string_of(*tree) is Some,
        r matches Some(p) ==> p.0@ == (byte_string_of(*tree)->0).0 && p.1 == (byte_string_of(
            *tree,
        )->0).1,
{
    syn::parse2::<syn::LitByteStr>(TokenStream::from(tree.clone())).ok().map(|lit| (lit.value(), lit.span()))
}

/// Relies on `proc_macro2::Punct::as_char`: the character, where the tree is
/// a punctuation mark.
#[verifier::external_body]
fn read_punct(tree: &TokenTree) -> (r: Option<char>)
    ensures
        r == punct_of(*tree),
{
    match tree {
        TokenTree::Punct(p) => Some(p.as_char()),
        _ => None,
    }
}

/// The tree is a string literal, a name or a byte string literal.
pub open spec fn accepted(tree: TokenTree) -> bool {
    text_of(tree) is Some || ident_of(tree) is Some || byte_string_of(tree) is Some
}

/// The tree reads as a name.
pub open spec fn is_name_tree(tree: TokenTree) -> bool {
    text_of(tree) is None && ident_of(tree) is Some
}

/// The tree reads as the punctuation character `c`.
pub open spec fn is_punct_tree(tree: TokenTree, c: char) -> bool {
    !accepted(tree) && punct_of(tree) == Some(c)
}

/// Where what a tree reads as stands: the span that the parser gives a
/// string literal, a name or a byte string literal, and otherwise the tree's
/// own span.
pub open spec fn tree_span(tree: TokenTree) -> Span {
    if text_of(tree) is Some {
        (text_of(tree)->0).1
    } else if ident_of(tree) is Some {
        (ident_of(tree)->0).1
    } else if byte_string_of(tree) is Some {
        (byte_string_of(tree)->0).1
    } else {
        span_of(tree)
    }
}

/// `t` is what `tree` reads as: a string literal first, then a name, then a
/// byte string literal, each at the span that the parser gives it; then a
/// punctuation mark, and otherwise something else, at the tree's span.
pub open spec fn token_of(tree: TokenTree, t: Token) -> bool {
    if text_of(tree) is Some {
        t.lexeme is Text && t.lexeme->Text_0@ == (text_of(tree)->0).0 && t.position == (text_of(
            tree,
        )->0).1
    } else if ident_of(tree) is Some {
        t.lexeme is Name && t.lexeme->Name_0@ == (ident_of(tree)->0).0 && t.position == (ident_of(
            tree,
        )->0).1
    } else if byte_string_of(tree) is Some {
        t.lexeme is Bytes && t.lexeme->Bytes_0@ == (byte_string_of(tree)->0).0 && t.position
            == (byte_string_of(tree)->0).1
    } else if punct_of(tree) is Some {
        t.lexeme is Punct && t.lexeme->Punct_0 == punct_of(tree)->0 && t.position == span_of(tree)
    } else {
        t.lexeme is Other && t.position == span_of(tree)
    }
}

/// Reads one token tree, trying in turn a string literal, a name, a byte
/// string literal and a punctuation mark.
pub fn read_token(tree: &TokenTree) -> (r: Token)
    ensures
        token_of(*tree, r),
{
    if let Some((s, position)) = read_text(tree) {
        Token { lexeme: Lexeme::Text(s), position }
    } else if let Some((s, position)) = read_name(tree) {
        Token { lexeme: Lexeme::Name(s), position }
    } else if let Some((b, position)) = read_bytes(tree) {
        Token { lexeme: Lexeme::Bytes(b), position }
    } else if let Some(c) = read_punct(tree) {
        Token { lexeme: Lexeme::Punct(c), position: tree_position(tree) }
    } else {
        Token { lexeme: Lexeme::Other, position: tree_position(tree) }
    }
}

/// Reads each tree of `trees`, in order.
pub fn read_tokens(trees: &Vec<TokenTree>) -> (r: Vec<Token>)
    ensures
        r.len() == trees.len(),
        forall|i: int| 0 <= i < r.len() ==> token_of(trees[i], #[trigger] r[i]),
{
    let mut out: Vec<Token> = Vec::new();
    let mut i: usize = 0;
    while i < trees.len()
        invariant
            i <= trees.len(),
            out.len() == i,
            forall|j: int| 0 <= j < i ==> token_of(trees[j], #[trigger] out[j]),
        decreases trees.len() - i,
    {
        out.push(read_token(&trees[i]));
        i = i + 1;
    }
    out
}

} // verus!
