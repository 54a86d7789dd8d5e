use explode::classify::{ClassificationError, Expected};
use explode::engine::AtomicLiteral;
use explode::tokens::{Lexeme, Token};
use explode::{explode, explode_map, explode_tokens};
use proc_macro2::{Delimiter, Group, Span, TokenStream, TokenTree};
use std::str::FromStr;

fn stream(src: &str) -> TokenStream {
    TokenStream::from_str(src).unwrap()
}

fn characters(v: &[AtomicLiteral]) -> Vec<char> {
    v.iter()
        .map(|a| match a {
            AtomicLiteral::Character { character, .. } => *character,
            AtomicLiteral::Byte { .. } => panic!("byte literal among characters"),
        })
        .collect()
}

fn bytes(v: &[AtomicLiteral]) -> Vec<u8> {
    v.iter()
        .map(|a| match a {
            AtomicLiteral::Byte { byte, .. } => *byte,
            AtomicLiteral::Character { .. } => panic!("character literal among bytes"),
        })
        .collect()
}

fn column(a: &AtomicLiteral) -> usize {
    match a {
        AtomicLiteral::Character { position, .. } => position.start().column,
        AtomicLiteral::Byte { position, .. } => position.start().column,
    }
}

fn refused(src: &str) -> ClassificationError {
    explode(&stream(src)).unwrap_err()
}

fn refused_map(src: &str) -> ClassificationError {
    explode_map(&stream(src)).unwrap_err()
}

#[test]
fn name_explodes_to_characters() {
    let v = explode(&stream("hello")).unwrap();
    assert_eq!(v.len(), 5);
    assert_eq!(characters(&v), vec!['h', 'e', 'l', 'l', 'o']);
}

#[test]
fn text_explodes_like_name() {
    let v = explode(&stream("\"hello\"")).unwrap();
    assert_eq!(characters(&v), vec!['h', 'e', 'l', 'l', 'o']);
}

#[test]
fn byte_string_explodes_to_bytes() {
    let v = explode(&stream("b\"hello\"")).unwrap();
    assert_eq!(bytes(&v), vec![104, 101, 108, 108, 111]);
}

#[test]
fn empty_text_explodes_to_nothing() {
    assert_eq!(explode(&stream("\"\"")).unwrap().len(), 0);
}

#[test]
fn empty_byte_string_explodes_to_nothing() {
    assert_eq!(explode(&stream("b\"\"")).unwrap().len(), 0);
}

#[test]
fn escapes_are_resolved_in_text() {
    let v = explode(&stream("\"a\\nb\\u{e9}\"")).unwrap();
    assert_eq!(characters(&v), vec!['a', '\n', 'b', '\u{e9}']);
}

#[test]
fn escapes_are_resolved_in_bytes() {
    let v = explode(&stream("b\"\\x00\\xff\\n\"")).unwrap();
    assert_eq!(bytes(&v), vec![0, 255, 10]);
}

#[test]
fn raw_text_keeps_backslash() {
    let v = explode(&stream("r\"a\\b\"")).unwrap();
    assert_eq!(characters(&v), vec!['a', '\\', 'b']);
}

#[test]
fn multibyte_character_is_one_literal() {
    let v = explode(&stream("\"h\u{e9}\u{1f600}\"")).unwrap();
    assert_eq!(characters(&v), vec!['h', '\u{e9}', '\u{1f600}']);
}

#[test]
fn name_is_taken_as_written() {
    let v = explode(&stream("Snake_Case9")).unwrap();
    assert_eq!(characters(&v).into_iter().collect::<String>(), "Snake_Case9");
}

#[test]
fn rejoined_text_is_the_decoded_value() {
    let v = explode(&stream("\"tab\\there\"")).unwrap();
    let rejoined: String = characters(&v).into_iter().collect();
    assert_eq!(rejoined, "tab\there");
    let again = explode(&stream("\"tab\\there\"")).unwrap();
    assert_eq!(characters(&again), characters(&v));
}

#[test]
fn every_literal_keeps_the_token_position() {
    let v = explode(&stream("   \"abc\"")).unwrap();
    assert_eq!(v.len(), 3);
    for a in &v {
        assert_eq!(column(a), 3);
    }
    let b = explode(&stream("  b\"xy\"")).unwrap();
    for a in &b {
        assert_eq!(column(a), 2);
    }
}

#[test]
fn numeric_literal_is_refused_at_its_position() {
    let e = refused("  42");
    assert_eq!(e.expected, Expected::Literal);
    assert!(!e.at_end);
    assert_eq!(e.position.start().column, 2);
    assert_eq!(
        e.message(),
        "expected one of: string literal, identifier, byte string literal"
    );
}

#[test]
fn other_literals_and_groups_are_refused() {
    assert_eq!(refused("'c'").expected, Expected::Literal);
    assert_eq!(refused("b'c'").expected, Expected::Literal);
    assert_eq!(refused("(\"a\")").expected, Expected::Literal);
    assert_eq!(refused("+").expected, Expected::Literal);
}

#[test]
fn keyword_is_refused() {
    assert_eq!(refused("fn").expected, Expected::Literal);
}

#[test]
fn empty_input_is_refused_at_end() {
    let e = refused("");
    assert_eq!(e.expected, Expected::Literal);
    assert!(e.at_end);
    assert_eq!(
        e.message(),
        "unexpected end of input, expected one of: string literal, identifier, byte string literal"
    );
}

#[test]
fn trailing_token_is_refused() {
    let e = refused("ab cd");
    assert_eq!(e.expected, Expected::Nothing);
    assert!(!e.at_end);
    assert_eq!(e.position.start().column, 3);
    assert_eq!(e.message(), "unexpected token");
}

#[test]
fn map_over_name_wraps_each_character() {
    let m = explode_map(&stream("f, ab")).unwrap();
    assert_eq!(m.operation.to_string(), "f");
    assert!(!m.bang);
    assert_eq!(characters(&m.elements), vec!['a', 'b']);
}

#[test]
fn map_with_bang_over_bytes() {
    let m = explode_map(&stream("g!, b\"hi\"")).unwrap();
    assert_eq!(m.operation.to_string(), "g");
    assert!(m.bang);
    assert_eq!(bytes(&m.elements), vec![104, 105]);
}

#[test]
fn map_errors() {
    let e = refused_map("");
    assert_eq!((e.expected, e.at_end), (Expected::Operation, true));
    let e = refused_map("\"f\", a");
    assert_eq!((e.expected, e.at_end), (Expected::Operation, false));
    assert_eq!(e.message(), "expected identifier");
    let e = refused_map("f");
    assert_eq!((e.expected, e.at_end), (Expected::Separator, true));
    assert_eq!(e.message(), "unexpected end of input, expected `,`");
    let e = refused_map("f!");
    assert_eq!((e.expected, e.at_end), (Expected::Separator, true));
    let e = refused_map("f a");
    assert_eq!((e.expected, e.at_end), (Expected::Separator, false));
    assert_eq!(e.position.start().column, 2);
    let e = refused_map("f, 1");
    assert_eq!((e.expected, e.at_end), (Expected::Literal, false));
    let e = refused_map("f,");
    assert_eq!((e.expected, e.at_end), (Expected::Literal, true));
    let e = refused_map("f, a b");
    assert_eq!((e.expected, e.at_end), (Expected::Nothing, false));
}

#[test]
fn explode_tokens_on_plain_tokens() {
    let position = Span::call_site();
    let tokens = vec![Token { lexeme: Lexeme::Name("xy".to_string()), position }];
    let v = explode_tokens(&tokens, position).unwrap();
    assert_eq!(characters(&v), vec!['x', 'y']);
    let tokens = vec![Token { lexeme: Lexeme::Bytes(vec![7, 8, 9]), position }];
    assert_eq!(bytes(&explode_tokens(&tokens, position).unwrap()), vec![7, 8, 9]);
    let tokens = vec![Token { lexeme: Lexeme::Punct('#'), position }];
    assert_eq!(explode_tokens(&tokens, position).unwrap_err().expected, Expected::Literal);
    let tokens = vec![Token { lexeme: Lexeme::Other, position }];
    assert_eq!(explode_tokens(&tokens, position).unwrap_err().expected, Expected::Literal);
}

#[test]
fn literal_in_invisible_group_keeps_its_own_span() {
    let inner = stream("    \"ab\"");
    let group = TokenTree::Group(Group::new(Delimiter::None, inner));
    let v = explode(&TokenStream::from(group)).unwrap();
    assert_eq!(characters(&v), vec!['a', 'b']);
    for a in &v {
        assert_eq!(column(a), 4);
    }
}

#[test]
fn trailing_literal_is_refused_at_its_position() {
    let e = refused("a    \"b\"");
    assert_eq!(e.expected, Expected::Nothing);
    assert_eq!(e.position.start().column, 5);
}
