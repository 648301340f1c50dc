//! The scanner on its own: fixed token texts, literals, and the faults
//! malformed text must raise.

use minilang::error::Error;
use minilang::lexer::Lexer;
use minilang::token::{Token, TokenKind};

fn first_token(src: &[u8]) -> Result<Token, Error> {
    let lexer = Lexer::new(src.to_vec())?;
    Ok(lexer.current())
}

#[test]
fn fixed_texts_scan_to_their_categories() {
    let cases: Vec<(&[u8], TokenKind)> = vec![
        (b"(", TokenKind::PAREN_L),
        (b")", TokenKind::PAREN_R),
        (b"[", TokenKind::BRACKET_L),
        (b"]", TokenKind::BRACKET_R),
        (b"{", TokenKind::BRACE_L),
        (b"}", TokenKind::BRACE_R),
        (b",", TokenKind::COMMA),
        (b":", TokenKind::COLON),
        (b";", TokenKind::SEMICOLON),
        (b"+", TokenKind::OP_ADD),
        (b"-", TokenKind::OP_SUB),
        (b"*", TokenKind::OP_MUL),
        (b"/", TokenKind::OP_DIV),
        (b"==", TokenKind::OP_EQ),
        (b"<", TokenKind::OP_LT),
        (b">", TokenKind::OP_GT),
        (b"!=", TokenKind::OP_NEQ),
        (b">=", TokenKind::OP_NLT),
        (b"<=", TokenKind::OP_NGT),
        (b"not", TokenKind::OP_NOT),
        (b"and", TokenKind::OP_AND),
        (b"or", TokenKind::OP_OR),
        (b"=", TokenKind::OP_ASSIGN),
        (b"func", TokenKind::KW_FUNC),
        (b"let", TokenKind::LET),
        (b"if", TokenKind::IF),
        (b"else", TokenKind::ELSE),
        (b"while", TokenKind::WHILE),
        (b"print", TokenKind::PRINT),
        (b"return", TokenKind::RETURN),
        (b"i32", TokenKind::TYPE_I32),
        (b"int32", TokenKind::TYPE_I32),
        (b"f32", TokenKind::TYPE_F32),
        (b"float32", TokenKind::TYPE_F32),
        (b"char", TokenKind::TYPE_CHAR),
        (b"->", TokenKind::ARROW_R),
    ];
    for (text, kind) in cases {
        let mut lexer = Lexer::new(text.to_vec()).expect("scans");
        assert_eq!(lexer.current().kind_of(), kind, "text {:?}", text);
        lexer.advance().expect("advances");
        assert_eq!(lexer.current().kind_of(), TokenKind::EOI, "text {:?}", text);
    }
}

#[test]
fn integer_literal_carries_its_value() {
    match first_token(b"123").expect("scans") {
        Token::LIT_I32(v) => assert_eq!(v, 123),
        _ => panic!("expected an integer literal"),
    }
}

#[test]
fn integer_with_leading_zeros_still_reads() {
    match first_token(b"000123").expect("scans") {
        Token::LIT_I32(v) => assert_eq!(v, 123),
        _ => panic!("expected an integer literal"),
    }
}

#[test]
fn float_literal_carries_its_text() {
    match first_token(b"1.5").expect("scans") {
        Token::LIT_F32(s) => assert_eq!(s, b"1.5".to_vec()),
        _ => panic!("expected a float literal"),
    }
}

#[test]
fn boolean_literals_carry_their_values() {
    assert!(matches!(first_token(b"true"), Ok(Token::LIT_BOOL(true))));
    assert!(matches!(first_token(b"false"), Ok(Token::LIT_BOOL(false))));
}

#[test]
fn string_literal_strips_quotes() {
    match first_token(b"\"abc\"").expect("scans") {
        Token::LIT_STRING(s) => assert_eq!(s, b"abc".to_vec()),
        _ => panic!("expected a string literal"),
    }
}

#[test]
fn char_literal_strips_quotes() {
    match first_token(b"'a'").expect("scans") {
        Token::LIT_CHAR(c) => assert_eq!(c, b'a'),
        _ => panic!("expected a character literal"),
    }
}

#[test]
fn identifier_carries_its_name() {
    match first_token(b"sum_1").expect("scans") {
        Token::ID(s) => assert_eq!(s, b"sum_1".to_vec()),
        _ => panic!("expected an identifier"),
    }
}

#[test]
fn lone_bang_is_fatal() {
    assert!(matches!(first_token(b"! "), Err(Error::LoneBang)));
}

#[test]
fn unterminated_string_is_fatal() {
    assert!(matches!(first_token(b"\"abc"), Err(Error::UnterminatedString)));
}

#[test]
fn unterminated_char_is_fatal() {
    assert!(matches!(first_token(b"'a"), Err(Error::UnterminatedChar)));
}

#[test]
fn too_large_integer_is_fatal() {
    assert!(matches!(first_token(b"99999999999"), Err(Error::BadNumber)));
}

#[test]
fn two_points_in_a_number_are_fatal() {
    assert!(matches!(first_token(b"1.2.3"), Err(Error::BadNumber)));
}

#[test]
fn whitespace_is_skipped() {
    let mut lexer = Lexer::new(b"  \t\n  let".to_vec()).expect("scans");
    assert_eq!(lexer.current().kind_of(), TokenKind::LET);
    lexer.advance().expect("advances");
    assert_eq!(lexer.current().kind_of(), TokenKind::EOI);
}
