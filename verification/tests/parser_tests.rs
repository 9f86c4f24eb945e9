use sql_parser::ast::{BinaryOperator, ColumnDef, DataType, Expression, Statement, UnaryOperator};
use sql_parser::parser::SQLParser;
use sql_parser::tokenizer::{tokenize, Keyword, Token};
use sql_parser::ParseError;

fn parse(input: &str) -> Result<Statement, ParseError> {
    let tokens = tokenize(input);
    let mut parser = SQLParser::new(&tokens);
    parser.parse_statement()
}

#[test]
fn select_two_columns() {
    assert_eq!(
        parse("SELECT c1, c2 FROM t"),
        Ok(Statement::Select {
            columns: vec!["c1".to_string(), "c2".to_string()],
            table: "t".to_string(),
            selection: None,
            order_by: None,
        })
    );
}

#[test]
fn select_single_column() {
    assert_eq!(
        parse("SELECT a FROM t"),
        Ok(Statement::Select {
            columns: vec!["a".to_string()],
            table: "t".to_string(),
            selection: None,
            order_by: None,
        })
    );
}

#[test]
fn select_with_where_clause() {
    assert_eq!(
        parse("SELECT a FROM t WHERE a = 1"),
        Ok(Statement::Select {
            columns: vec!["a".to_string()],
            table: "t".to_string(),
            selection: Some(Expression::BinaryOperation {
                left_operand: Box::new(Expression::Identifier("a".to_string())),
                operator: BinaryOperator::Equals,
                right_operand: Box::new(Expression::Number(1)),
            }),
            order_by: None,
        })
    );
}

#[test]
fn where_then_order_by() {
    assert_eq!(
        parse("SELECT a FROM t WHERE a = 1 ORDER BY a"),
        Ok(Statement::Select {
            columns: vec!["a".to_string()],
            table: "t".to_string(),
            selection: Some(Expression::BinaryOperation {
                left_operand: Box::new(Expression::Identifier("a".to_string())),
                operator: BinaryOperator::Equals,
                right_operand: Box::new(Expression::Number(1)),
            }),
            order_by: Some(vec!["a".to_string()]),
        })
    );
}

#[test]
fn order_by_with_and_without_semicolon() {
    let bare = parse("SELECT a FROM t ORDER BY a");
    let terminated = parse("SELECT a FROM t ORDER BY a;");
    let expected = Ok(Statement::Select {
        columns: vec!["a".to_string()],
        table: "t".to_string(),
        selection: None,
        order_by: Some(vec!["a".to_string()]),
    });
    assert_eq!(bare, expected);
    assert_eq!(terminated, expected);
}

#[test]
fn create_table_with_types() {
    assert_eq!(
        parse("CREATE TABLE t (a INT, b VARCHAR(10))"),
        Ok(Statement::CreateTable {
            table_name: "t".to_string(),
            columns: vec![
                ColumnDef { name: "a".to_string(), data_type: DataType::Int },
                ColumnDef { name: "b".to_string(), data_type: DataType::Varchar(10) },
            ],
        })
    );
}

#[test]
fn create_table_boolean_column() {
    assert_eq!(
        parse("CREATE TABLE flags (f BOOLEAN)"),
        Ok(Statement::CreateTable {
            table_name: "flags".to_string(),
            columns: vec![ColumnDef { name: "f".to_string(), data_type: DataType::Boolean }],
        })
    );
}

#[test]
fn insert_values() {
    assert_eq!(
        parse("INSERT INTO t (a, b) VALUES (5, true)"),
        Ok(Statement::Insert {
            table_name: "t".to_string(),
            columns: vec!["a".to_string(), "b".to_string()],
            values: vec![Expression::Number(5), Expression::Boolean(true)],
        })
    );
}

#[test]
fn insert_string_null_and_identifier_values() {
    assert_eq!(
        parse("INSERT INTO t (a, b, c) VALUES ('x', NULL, other)"),
        Ok(Statement::Insert {
            table_name: "t".to_string(),
            columns: vec!["a".to_string(), "b".to_string(), "c".to_string()],
            values: vec![
                Expression::StringLit("x".to_string()),
                Expression::Null,
                Expression::Identifier("other".to_string()),
            ],
        })
    );
}

#[test]
fn empty_input_general_error() {
    assert_eq!(parse(""), Err(ParseError::General("Empty input".to_string())));
    let mut parser = SQLParser::new(&[]);
    assert_eq!(
        parser.parse_statement(),
        Err(ParseError::General("Empty input".to_string()))
    );
}

#[test]
fn varchar_without_size_is_error() {
    assert_eq!(
        parse("CREATE TABLE t (a VARCHAR)"),
        Err(ParseError::General("Expected size for Varchar".to_string()))
    );
    assert_eq!(
        parse("CREATE TABLE t (a VARCHAR()"),
        Err(ParseError::General("Expected size for Varchar".to_string()))
    );
    // Here the size is fine but the column list never closes: the error
    // comes from the list, one token later.
    assert_eq!(
        parse("CREATE TABLE t (a VARCHAR(10)"),
        Err(ParseError::General("Unexpected token in column definitions".to_string()))
    );
}

#[test]
fn dangling_operator_invalid_expression() {
    match parse("SELECT a FROM t WHERE a =") {
        Err(ParseError::InvalidExpression(_)) => {}
        other => panic!("expected InvalidExpression, got {:?}", other),
    }
}

#[test]
fn unexpected_end_error() {
    let tokens = vec![Token::Keyword(Keyword::Create)];
    let mut parser = SQLParser::new(&tokens);
    assert_eq!(parser.parse_statement(), Err(ParseError::UnexpectedEnd));
}

#[test]
fn expected_keyword_error() {
    assert_eq!(
        parse("INSERT t (a) VALUES (1)"),
        Err(ParseError::ExpectedKeyword("INTO".to_string()))
    );
}

#[test]
fn expected_identifier_error() {
    assert_eq!(parse("SELECT a FROM 5"), Err(ParseError::ExpectedIdentifier));
}

#[test]
fn expected_token_error() {
    assert_eq!(
        parse("CREATE TABLE t a INT)"),
        Err(ParseError::ExpectedToken(
            "(".to_string(),
            Some(Token::Identifier("a".to_string()))
        ))
    );
}

#[test]
fn unknown_start_of_statement_error() {
    assert_eq!(
        parse("foo"),
        Err(ParseError::UnknownStartOfStatement("identifier".to_string()))
    );
    assert_eq!(
        parse("42"),
        Err(ParseError::UnknownStartOfStatement("number".to_string()))
    );
}

#[test]
fn unknown_character_rejected_in_column_list() {
    assert_eq!(
        parse("SELECT # FROM t"),
        Err(ParseError::General("Unexpected token in column list".to_string()))
    );
}

#[test]
fn not_in_where_clause() {
    assert_eq!(
        parse("SELECT a FROM t WHERE NOT a = 1"),
        Ok(Statement::Select {
            columns: vec!["a".to_string()],
            table: "t".to_string(),
            selection: Some(Expression::UnaryOperation {
                operator: UnaryOperator::Not,
                operand: Box::new(Expression::BinaryOperation {
                    left_operand: Box::new(Expression::Identifier("a".to_string())),
                    operator: BinaryOperator::Equals,
                    right_operand: Box::new(Expression::Number(1)),
                }),
            }),
            order_by: None,
        })
    );
}

#[test]
fn error_messages_render() {
    assert_eq!(
        ParseError::General("Empty input".to_string()).message(),
        "Error: Empty input"
    );
    assert_eq!(
        ParseError::UnexpectedToken(Token::Comma).message(),
        "Unexpected token: ,"
    );
    assert_eq!(
        ParseError::ExpectedToken("(".to_string(), None).message(),
        "Expected token: (, but found end of input"
    );
    assert_eq!(
        ParseError::ExpectedToken("(".to_string(), Some(Token::Keyword(Keyword::Select))).message(),
        "Expected token: (, but found: SELECT"
    );
    assert_eq!(ParseError::UnexpectedEnd.message(), "Unexpected end of input");
    assert_eq!(
        ParseError::ExpectedKeyword("INTO".to_string()).message(),
        "Expected keyword: INTO"
    );
    assert_eq!(ParseError::ExpectedIdentifier.message(), "Expected an identifier");
}
