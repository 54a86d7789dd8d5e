//! The input classifier, and the grammar of the input that carries an
//! operation to apply to each literal.

use crate::engine::SourceInput;
use crate::tokens::{Lexeme, Token};
use proc_macro2::Span;
use vstd::prelude::*;
use vstd::string::StringExecFns;

verus! {

/// What the input should have held where it did not.
#[derive(Clone, Copy, Debug, PartialEq, Eq, Structural)]
pub enum Expected {
    /// A string literal, a name or a byte string literal.
    Literal,
    /// The name of the operation.
    Operation,
    /// The `,` after the operation.
    Separator,
    /// Nothing: the input should have ended.
    Nothing,
}

/// The input does not have one of the accepted shapes.
#[derive(Clone, Copy, Debug)]
pub struct ClassificationError {
    pub expected: Expected,
    /// The input ended where more was expected.
    pub at_end: bool,
    /// The offending token, or the end of the input.
    pub position: Span,
}

/// The description of what was expected.
pub open spec fn expected_text(expected: Expected) -> Seq<char> {
    match expected {
        Expected::Literal => "expected one of: string literal, identifier, byte string literal"@,
        Expected::Operation => "expected identifier"@,
        Expected::Separator => "expected `,`"@,
        Expected::Nothing => "unexpected token"@,
    }
}

/// The diagnostic that an error reads as.
pub open spec fn message_text(e: ClassificationError) -> Seq<char> {
    if e.at_end {
        "unexpected end of input, "@ + expected_text(e.expected)
    } else {
        expected_text(e.expected)
    }
}

impl ClassificationError {
    /// The diagnostic for this error.
    pub fn message(&self) -> (r: String)
        ensures
            r@ == message_text(*self),
    {
        let what = match self.expected {
            Expected::Literal => "expected one of: string literal, identifier, byte string literal",
            Expected::Operation => "expected identifier",
            Expected::Separator => "expected `,`",
            Expected::Nothing => "unexpected token",
        };
        if self.at_end {
            String::from_str("unexpected end of input, ").concat(what)
        } else {
            String::from_str(what)
        }
    }
}

/// The token is a string literal, a name or a byte string literal.
pub open spec fn is_shape(lexeme: Lexeme) -> bool {
    lexeme is Text || lexeme is Name || lexeme is Bytes
}

/// `input` is what the token `t` holds.
pub open spec fn reads_as(t: Token, input: SourceInput) -> bool {
    match input {
        SourceInput::Text { content, position } => t.lexeme is Text && content@
            == t.lexeme->Text_0@ && position == t.position,
        SourceInput::Name { text, position } => t.lexeme is Name && text@ == t.lexeme->Name_0@
            && position == t.position,
        SourceInput::Bytes { content, position } => t.lexeme is Bytes && content@
            == t.lexeme->Bytes_0@ && position == t.position,
    }
}

/// An error that `expected` was not found at `position`.
pub open spec fn error_at(expected: Expected, at_end: bool, position: Span) -> ClassificationError {
    ClassificationError { expected, at_end, position }
}

/// `r` is the outcome of classifying `tokens`, where `end` is the position of
/// the end of the input: exactly one token of an accepted shape is accepted;
/// otherwise the error names the first token that is out of place.
pub open spec fn classified(
    tokens: Seq<Token>,
    end: Span,
    r: Result<SourceInput, ClassificationError>,
) -> bool {
    if tokens.len() == 0 {
        r == Err::<SourceInput, _>(error_at(Expected::Literal, true, end))
    } else if !is_shape(tokens[0].lexeme) {
        r == Err::<SourceInput, _>(error_at(Expected::Literal, false, tokens[0].position))
    } else if tokens.len() > 1 {
        r == Err::<SourceInput, _>(error_at(Expected::Nothing, false, tokens[1].position))
    } else {
        r is Ok && reads_as(tokens[0], r->Ok_0)
    }
}

/// Classifies the tokens of `tokens` from index `start` on.
pub fn classify_from(tokens: &Vec<Token>, start: usize, end: Span) -> (r: Result<
    SourceInput,
    ClassificationError,
>)
    requires
        start <= tokens.len(),
    ensures
        classified(tokens@.skip(start as int), end, r),
{
    if start == tokens.len() {
        return Err(ClassificationError { expected: Expected::Literal, at_end: true, position: end });
    }
    let first = &tokens[start];
    let input = match &first.lexeme {
        Lexeme::Text(s) => SourceInput::Text { content: s.clone(), position: first.position },
        Lexeme::Name(s) => SourceInput::Name { text: s.clone(), position: first.position },
        Lexeme::Bytes(b) => SourceInput::Bytes { content: b.clone(), position: first.position },
        _ => {
            return Err(
                ClassificationError {
                    expected: Expected::Literal,
                    at_end: false,
                    position: first.position,
                },
            );
        },
    };
    if start + 1 < tokens.len() {
        return Err(
            ClassificationError {
                expected: Expected::Nothing,
                at_end: false,
                position: tokens[start + 1].position,
            },
        );
    }
    Ok(input)
}

/// Classifies `tokens` as one string literal, name or byte string literal.
pub fn classify(tokens: &Vec<Token>, end: Span) -> (r: Result<SourceInput, ClassificationError>)
    ensures
        classified(tokens@, end, r),
{
    assert(tokens@.skip(0) == tokens@);
    classify_from(tokens, 0, end)
}

/// An input that carries an operation: the operation's name, an optional
/// `!`, a `,`, then one literal or name to explode. The name itself stays
/// with the caller, as the first token.
pub struct MapInput {
    /// The operation is followed by `!`.
    pub bang: bool,
    pub input: SourceInput,
}

/// The token is the punctuation character `c`.
pub open spec fn is_punct(lexeme: Lexeme, c: char) -> bool {
    lexeme is Punct && lexeme->Punct_0 == c
}

/// Where the `,` stands: after the operation's name, and after its `!` if
/// there is one.
pub open spec fn separator_index(tokens: Seq<Token>) -> int {
    if tokens.len() > 1 && is_punct(tokens[1].lexeme, '!') {
        2
    } else {
        1
    }
}

/// `r` is the outcome of reading `tokens` as an operation, an optional `!`,
/// a `,` and one input to classify.
pub open spec fn map_parsed(
    tokens: Seq<Token>,
    end: Span,
    r: Result<MapInput, ClassificationError>,
) -> bool {
    let k = separator_index(tokens);
    if tokens.len() == 0 {
        r == Err::<MapInput, _>(error_at(Expected::Operation, true, end))
    } else if !(tokens[0].lexeme is Name) {
        r == Err::<MapInput, _>(error_at(Expected::Operation, false, tokens[0].position))
    } else if tokens.len() <= k {
        r == Err::<MapInput, _>(error_at(Expected::Separator, true, end))
    } else if !is_punct(tokens[k].lexeme, ',') {
        r == Err::<MapInput, _>(error_at(Expected::Separator, false, tokens[k].position))
    } else {
        match r {
            Ok(m) => m.bang == (k == 2) && classified(
                tokens.skip(k + 1),
                end,
                Ok::<SourceInput, ClassificationError>(m.input),
            ),
            Err(e) => classified(tokens.skip(k + 1), end, Err::<SourceInput, _>(e)),
        }
    }
}

fn is_punct_token(t: &Token, c: char) -> (r: bool)
    ensures
        r == is_punct(t.lexeme, c),
{
    match t.lexeme {
        Lexeme::Punct(p) => p == c,
        _ => false,
    }
}

/// Reads `tokens` as an operation's name, an optional `!`, a `,` and one
/// string literal, name or byte string literal.
pub fn parse_map(tokens: &Vec<Token>, end: Span) -> (r: Result<MapInput, ClassificationError>)
    ensures
        map_parsed(tokens@, end, r),
{
    if tokens.len() == 0 {
        return Err(ClassificationError { expected: Expected::Operation, at_end: true, position: end });
    }
    if !matches!(tokens[0].lexeme, Lexeme::Name(_)) {
        return Err(
            ClassificationError {
                expected: Expected::Operation,
                at_end: false,
                position: tokens[0].position,
            },
        );
    }
    let bang = tokens.len() > 1 && is_punct_token(&tokens[1], '!');
    let k: usize = if bang {
        2
    } else {
        1
    };
    if tokens.len() <= k {
        return Err(ClassificationError { expected: Expected::Separator, at_end: true, position: end });
    }
    if !is_punct_token(&tokens[k], ',') {
        return Err(
            ClassificationError {
                expected: Expected::Separator,
                at_end: false,
                position: tokens[k].position,
            },
        );
    }
    match classify_from(tokens, k + 1, end) {
        Ok(input) => Ok(MapInput { bang, input }),
        Err(e) => Err(e),
    }
}

} // verus!
