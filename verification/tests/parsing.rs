use layout_dsl::ast::{Either, Expected, FormatExpr, ParseError, Program, Token};
use layout_dsl::parse::resolve_default;

fn lit(s: &str) -> Token {
    Token::Lit(s.to_string())
}

fn ident(s: &str) -> Token {
    Token::Ident(s.to_string())
}

#[test]
fn peek_classifies_disjoint_token_classes() {
    let tokens = vec![
        lit("\"a\""),
        ident("b"),
        Token::Amp,
        ident("c"),
        Token::Amp,
        Token::Comma,
        Token::Lt,
    ];
    assert!(Either::peek(&tokens, 0)); // literal
    assert!(Either::peek(&tokens, 1)); // identifier
    assert!(Either::peek(&tokens, 2)); // `&` followed by identifier
    assert!(!Either::peek(&tokens, 4)); // `&` not followed by identifier
    assert!(!Either::peek(&tokens, 5)); // bare `,`
    assert!(!Either::peek(&tokens, 6)); // bare `<`
    assert!(!Either::peek(&tokens, 7)); // end of input
}

#[test]
fn parse_value_returns_each_shape() {
    let tokens = vec![lit("1.0"), ident("space"), Token::Amp, ident("string")];
    assert_eq!(
        Either::parse(&tokens, 0),
        Some((Either::Lit("1.0".to_string()), 1))
    );
    assert_eq!(
        Either::parse(&tokens, 1),
        Some((Either::Ident("space".to_string()), 2))
    );
    assert_eq!(
        Either::parse(&tokens, 2),
        Some((Either::Reference("string".to_string()), 4))
    );
    assert_eq!(Either::parse(&tokens, 4), None);
}

#[test]
fn resolve_default_with_header_is_clone_of_ident() {
    assert_eq!(
        resolve_default(Some("default_fmt".to_string())),
        FormatExpr::CloneOf("default_fmt".to_string())
    );
}

#[test]
fn resolve_default_without_header_is_default_ctor() {
    assert_eq!(resolve_default(None), FormatExpr::DefaultCtor);
}

#[test]
fn empty_program_parses_to_zero_lines() {
    let tokens: Vec<Token> = Vec::new();
    let program = Program::parse(&tokens).unwrap();
    assert_eq!(program.default_format, FormatExpr::DefaultCtor);
    assert_eq!(program.lines.len(), 0);
}

#[test]
fn header_alone_parses_to_zero_lines() {
    let tokens = vec![ident("fmt"), Token::Semi];
    let program = Program::parse(&tokens).unwrap();
    assert_eq!(program.default_format, FormatExpr::CloneOf("fmt".to_string()));
    assert_eq!(program.lines.len(), 0);
}

#[test]
fn trailing_comma_is_allowed() {
    let tokens = vec![lit("\"a\""), Token::Comma, lit("\"b\""), Token::Comma];
    let program = Program::parse(&tokens).unwrap();
    assert_eq!(program.lines.len(), 2);
}

#[test]
fn line_keeps_spacing_and_format_when_given() {
    let tokens = vec![
        lit("\"a\""),
        ident("space"),
        Token::Lt,
        ident("fmt"),
        Token::Gt,
    ];
    let program = Program::parse(&tokens).unwrap();
    assert_eq!(program.lines.len(), 1);
    assert_eq!(program.lines[0].text, Either::Lit("\"a\"".to_string()));
    assert_eq!(
        program.lines[0].spacing,
        Some(Either::Ident("space".to_string()))
    );
    assert_eq!(program.lines[0].format, Some("fmt".to_string()));
}

#[test]
fn line_without_spacing_or_format_leaves_both_absent() {
    let tokens = vec![lit("\"a\"")];
    let program = Program::parse(&tokens).unwrap();
    assert_eq!(program.lines[0].spacing, None);
    assert_eq!(program.lines[0].format, None);
}

#[test]
fn header_without_semi_is_a_syntax_error() {
    let tokens = vec![ident("fmt"), lit("\"a\"")];
    assert_eq!(
        Program::parse(&tokens),
        Err(ParseError::SyntaxError {
            pos: 1,
            expected: Expected::Semi
        })
    );
}

#[test]
fn lone_identifier_is_taken_as_header_and_rejected() {
    // A program whose first token is a bare identifier is read as a
    // default-format header, so the following `;` is required.
    let tokens = vec![ident("text")];
    assert_eq!(
        Program::parse(&tokens),
        Err(ParseError::SyntaxError {
            pos: 1,
            expected: Expected::Semi
        })
    );
}

#[test]
fn reference_without_identifier_is_missing_text() {
    let tokens = vec![Token::Amp, lit("\"a\"")];
    assert_eq!(
        Program::parse(&tokens),
        Err(ParseError::MissingRequiredField { pos: 0 })
    );
}

#[test]
fn bracket_without_identifier_is_a_syntax_error() {
    let tokens = vec![lit("\"a\""), Token::Lt, Token::Gt];
    assert_eq!(
        Program::parse(&tokens),
        Err(ParseError::SyntaxError {
            pos: 2,
            expected: Expected::Ident
        })
    );
}

#[test]
fn missing_comma_between_lines_is_a_syntax_error() {
    // `"a" "b"` is one line (text plus spacing); the third value can
    // only start a new line, which needs a comma before it.
    let tokens = vec![lit("\"a\""), lit("\"b\""), lit("\"c\"")];
    assert_eq!(
        Program::parse(&tokens),
        Err(ParseError::SyntaxError {
            pos: 2,
            expected: Expected::Comma
        })
    );
}
