//! The explosion engine: from a classified input to its sequence of
//! character or byte literals.

use proc_macro2::Span;
use vstd::prelude::*;

verus! {

/// One accepted input token, with its content already decoded.
#[allow(inconsistent_fields)]
pub enum SourceInput {
    /// An identifier, as written.
    Name { text: String, position: Span },
    /// A string literal, with its escapes resolved.
    Text { content: String, position: Span },
    /// A byte string literal, with its escapes resolved.
    Bytes { content: Vec<u8>, position: Span },
}

/// One element of an exploded input.
#[derive(Clone, Copy, Debug)]
pub enum AtomicLiteral {
    /// A character literal, made from a name or a string literal.
    Character { character: char, position: Span },
    /// A byte literal, made from a byte string literal.
    Byte { byte: u8, position: Span },
}

/// `r` holds one character literal per character of `s`, in order, all at
/// `position`.
pub open spec fn characters_at(r: Seq<AtomicLiteral>, s: Seq<char>, position: Span) -> bool {
    &&& r.len() == s.len()
    &&& forall|i: int|
        0 <= i < s.len() ==> #[trigger] r[i] == (AtomicLiteral::Character {
            character: s[i],
            position,
        })
}

/// `r` holds one byte literal per byte of `b`, in order, all at `position`.
pub open spec fn bytes_at(r: Seq<AtomicLiteral>, b: Seq<u8>, position: Span) -> bool {
    &&& r.len() == b.len()
    &&& forall|i: int|
        0 <= i < b.len() ==> #[trigger] r[i] == (AtomicLiteral::Byte { byte: b[i], position })
}

/// `r` is what `input` explodes into.
pub open spec fn explodes_to(input: SourceInput, r: Seq<AtomicLiteral>) -> bool {
    match input {
        SourceInput::Name { text, position } => characters_at(r, text@, position),
        SourceInput::Text { content, position } => characters_at(r, content@, position),
        SourceInput::Bytes { content, position } => bytes_at(r, content@, position),
    }
}

fn explode_characters(s: &String, position: Span) -> (r: Vec<AtomicLiteral>)
    ensures
        characters_at(r@, s@, position),
{
    let text = s.as_str();
    let n = text.unicode_len();
    let mut out: Vec<AtomicLiteral> = Vec::new();
    let mut i: usize = 0;
    while i < n
        invariant
            n == s@.len(),
            text@ == s@,
            i <= n,
            characters_at(out@, s@.take(i as int), position),
        decreases n - i,
    {
        let c = text.get_char(i);
        out.push(AtomicLiteral::Character { character: c, position });
        i = i + 1;
    }
    assert(s@.take(n as int) =~= s@);
    out
}

fn explode_bytes(b: &Vec<u8>, position: Span) -> (r: Vec<AtomicLiteral>)
    ensures
        bytes_at(r@, b@, position),
{
    let mut out: Vec<AtomicLiteral> = Vec::new();
    let mut i: usize = 0;
    while i < b.len()
        invariant
            i <= b@.len(),
            bytes_at(out@, b@.take(i as int), position),
        decreases b@.len() - i,
    {
        out.push(AtomicLiteral::Byte { byte: b[i], position });
        i = i + 1;
    }
    assert(b@.take(b@.len() as int) =~= b@);
    out
}

/// Splits `input` into its literals: one character literal per character of
/// a name or a string literal, one byte literal per byte of a byte string
/// literal, left to right, each at the input's position.
pub fn explode_input(input: &SourceInput) -> (r: Vec<AtomicLiteral>)
    ensures
        explodes_to(*input, r@),
{
    match input {
        SourceInput::Name { text, position } => explode_characters(text, *position),
        SourceInput::Text { content, position } => explode_characters(content, *position),
        SourceInput::Bytes { content, position } => explode_bytes(content, *position),
    }
}

/// The value of a literal, as a character.
pub open spec fn character_of(a: AtomicLiteral) -> char {
    match a {
        AtomicLiteral::Character { character, .. } => character,
        AtomicLiteral::Byte { byte, .. } => byte as char,
    }
}

/// The value of a literal, as a byte.
pub open spec fn byte_of(a: AtomicLiteral) -> u8 {
    match a {
        AtomicLiteral::Character { character, .. } => character as u8,
        AtomicLiteral::Byte { byte, .. } => byte,
    }
}

/// Where a literal stands.
pub open spec fn position_of(a: AtomicLiteral) -> Span {
    match a {
        AtomicLiteral::Character { position, .. } => position,
        AtomicLiteral::Byte { position, .. } => position,
    }
}

/// The values of `r`, joined into one text.
pub open spec fn characters_of(r: Seq<AtomicLiteral>) -> Seq<char> {
    r.map_values(|a: AtomicLiteral| character_of(a))
}

/// The values of `r`, joined into one byte string.
pub open spec fn bytes_of(r: Seq<AtomicLiteral>) -> Seq<u8> {
    r.map_values(|a: AtomicLiteral| byte_of(a))
}

/// `r` holds literals of one kind only, all at one position.
pub open spec fn uniform(r: Seq<AtomicLiteral>) -> bool {
    &&& (forall|i: int| 0 <= i < r.len() ==> #[trigger] r[i] is Character) || (forall|i: int|
        0 <= i < r.len() ==> #[trigger] r[i] is Byte)
    &&& forall|i: int, j: int|
        0 <= i < r.len() && 0 <= j < r.len() ==> position_of(#[trigger] r[i]) == position_of(
            #[trigger] r[j],
        )
}

/// A name explodes into one character literal per character of its text,
/// left to right, each at the name's position; joined, they give the text
/// back.
pub proof fn name_explodes_to_its_characters(text: String, position: Span, r: Seq<AtomicLiteral>)
    requires
        explodes_to(SourceInput::Name { text, position }, r),
    ensures
        r.len() == text@.len(),
        forall|i: int| 0 <= i < r.len() ==> #[trigger] r[i] is Character,
        forall|i: int| 0 <= i < r.len() ==> position_of(#[trigger] r[i]) == position,
        characters_of(r) == text@,
{
    assert(characters_of(r) =~= text@);
}

/// A string literal explodes into character literals whose values, joined,
/// are its decoded value.
pub proof fn text_explodes_to_its_value(content: String, position: Span, r: Seq<AtomicLiteral>)
    requires
        explodes_to(SourceInput::Text { content, position }, r),
    ensures
        r.len() == content@.len(),
        forall|i: int| 0 <= i < r.len() ==> #[trigger] r[i] is Character,
        characters_of(r) == content@,
{
    assert(characters_of(r) =~= content@);
}

/// A byte string literal explodes into one byte literal per byte of its
/// decoded value; joined, they give that value back.
pub proof fn bytes_explode_to_their_values(content: Vec<u8>, position: Span, r: Seq<AtomicLiteral>)
    requires
        explodes_to(SourceInput::Bytes { content, position }, r),
    ensures
        r.len() == content@.len(),
        forall|i: int| 0 <= i < r.len() ==> #[trigger] r[i] is Byte,
        bytes_of(r) == content@,
{
    assert(bytes_of(r) =~= content@);
}

/// Joining the characters that a string literal explodes into gives its
/// value back, and that text explodes into the same literals again.
pub proof fn text_round_trip(
    content: String,
    position: Span,
    r: Seq<AtomicLiteral>,
    rejoined: String,
)
    requires
        explodes_to(SourceInput::Text { content, position }, r),
        rejoined@ == characters_of(r),
    ensures
        rejoined@ == content@,
        explodes_to(SourceInput::Text { content: rejoined, position }, r),
{
    text_explodes_to_its_value(content, position, r);
}

/// An exploded input never mixes character and byte literals, and every
/// literal carries the input's position.
pub proof fn explosion_is_uniform(input: SourceInput, r: Seq<AtomicLiteral>)
    requires
        explodes_to(input, r),
    ensures
        uniform(r),
{
}

} // verus!
