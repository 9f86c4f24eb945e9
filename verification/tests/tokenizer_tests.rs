use sql_parser::tokenizer::{tokenize, Keyword, Token, Tokenizer};

#[test]
fn tokenize_empty_input_is_single_eof() {
    assert_eq!(tokenize(""), vec![Token::Eof]);
}

#[test]
fn tokenize_whitespace_only_is_single_eof() {
    assert_eq!(tokenize("  \t \r\n "), vec![Token::Eof]);
}

#[test]
fn tokenize_keywords_case_insensitive() {
    assert_eq!(
        tokenize("select SeLeCt SELECT"),
        vec![
            Token::Keyword(Keyword::Select),
            Token::Keyword(Keyword::Select),
            Token::Keyword(Keyword::Select),
            Token::Eof,
        ]
    );
    assert_eq!(
        tokenize("from WHERE order By create table insert INTO values int varchar boolean and or not"),
        vec![
            Token::Keyword(Keyword::From),
            Token::Keyword(Keyword::Where),
            Token::Keyword(Keyword::Order),
            Token::Keyword(Keyword::By),
            Token::Keyword(Keyword::Create),
            Token::Keyword(Keyword::Table),
            Token::Keyword(Keyword::Insert),
            Token::Keyword(Keyword::Into),
            Token::Keyword(Keyword::Values),
            Token::Keyword(Keyword::Int),
            Token::Keyword(Keyword::Varchar),
            Token::Keyword(Keyword::Boolean),
            Token::Keyword(Keyword::And),
            Token::Keyword(Keyword::Or),
            Token::Keyword(Keyword::Not),
            Token::Eof,
        ]
    );
}

#[test]
fn tokenize_identifiers_preserve_case() {
    assert_eq!(
        tokenize("Foo_bar9 _x"),
        vec![
            Token::Identifier("Foo_bar9".to_string()),
            Token::Identifier("_x".to_string()),
            Token::Eof,
        ]
    );
}

#[test]
fn tokenize_two_char_operators_greedy() {
    assert_eq!(
        tokenize("<> <= >= < = >"),
        vec![
            Token::NotEquals,
            Token::LessThanOrEqual,
            Token::GreaterThanOrEqual,
            Token::LessThan,
            Token::Equals,
            Token::GreaterThan,
            Token::Eof,
        ]
    );
}

#[test]
fn tokenize_number_and_operators() {
    assert_eq!(
        tokenize("1+2*3"),
        vec![
            Token::Number(1),
            Token::Plus,
            Token::Number(2),
            Token::Asterisk,
            Token::Number(3),
            Token::Eof,
        ]
    );
    assert_eq!(
        tokenize("10 - 4 / 2"),
        vec![
            Token::Number(10),
            Token::Minus,
            Token::Number(4),
            Token::Slash,
            Token::Number(2),
            Token::Eof,
        ]
    );
}

#[test]
fn tokenize_number_wraps_on_overflow() {
    // 2^64 wraps to 0; u64::MAX is kept exactly.
    assert_eq!(tokenize("18446744073709551616"), vec![Token::Number(0), Token::Eof]);
    assert_eq!(
        tokenize("18446744073709551615"),
        vec![Token::Number(u64::MAX), Token::Eof]
    );
}

#[test]
fn tokenize_string_literal() {
    assert_eq!(
        tokenize("'hi there'"),
        vec![Token::StringLit("hi there".to_string()), Token::Eof]
    );
    assert_eq!(tokenize("''"), vec![Token::StringLit(String::new()), Token::Eof]);
}

#[test]
fn tokenize_unterminated_string_is_unknown() {
    assert_eq!(tokenize("'oops"), vec![Token::Unknown('\''), Token::Eof]);
}

#[test]
fn tokenize_unknown_character() {
    assert_eq!(tokenize("@"), vec![Token::Unknown('@'), Token::Eof]);
}

#[test]
fn tokenize_true_false_null() {
    assert_eq!(
        tokenize("true FALSE null"),
        vec![
            Token::Boolean(true),
            Token::Boolean(false),
            Token::Null,
            Token::Eof,
        ]
    );
}

#[test]
fn tokenize_punctuation() {
    assert_eq!(
        tokenize("(),;"),
        vec![
            Token::LeftParen,
            Token::RightParen,
            Token::Comma,
            Token::Semicolon,
            Token::Eof,
        ]
    );
}

#[test]
fn tokenize_non_ascii_character() {
    assert_eq!(
        tokenize("é x"),
        vec![
            Token::Unknown('é'),
            Token::Identifier("x".to_string()),
            Token::Eof,
        ]
    );
}

#[test]
fn next_token_after_eof_stays_eof() {
    let mut tk = Tokenizer::new("a");
    assert_eq!(tk.next_token(), Token::Identifier("a".to_string()));
    assert_eq!(tk.next_token(), Token::Eof);
    assert_eq!(tk.next_token(), Token::Eof);
    assert_eq!(tk.next_token(), Token::Eof);
}

#[test]
fn tokenize_count_bounded_by_length() {
    let inputs = [
        "",
        "SELECT a, b FROM t WHERE a = 1 ORDER BY b;",
        "(((((",
        "a b c d e",
        "'unterminated literal",
    ];
    for input in inputs {
        let n = tokenize(input).len();
        assert!(n >= 1);
        assert!(n <= input.chars().count() + 1);
    }
}
