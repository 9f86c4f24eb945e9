use sql_parser::ast::{BinaryOperator, Expression, UnaryOperator};
use sql_parser::pratt::{parse_expression, LOWEST_POWER};
use sql_parser::tokenizer::tokenize;

fn parse_expr(input: &str) -> Result<(Expression, usize), String> {
    let tokens = tokenize(input);
    parse_expression(&tokens, 0, LOWEST_POWER)
}

#[test]
fn precedence_add_mul() {
    let expected = Expression::BinaryOperation {
        left_operand: Box::new(Expression::Number(1)),
        operator: BinaryOperator::Add,
        right_operand: Box::new(Expression::BinaryOperation {
            left_operand: Box::new(Expression::Number(2)),
            operator: BinaryOperator::Multiply,
            right_operand: Box::new(Expression::Number(3)),
        }),
    };
    let wrong = Expression::BinaryOperation {
        left_operand: Box::new(Expression::BinaryOperation {
            left_operand: Box::new(Expression::Number(1)),
            operator: BinaryOperator::Add,
            right_operand: Box::new(Expression::Number(2)),
        }),
        operator: BinaryOperator::Multiply,
        right_operand: Box::new(Expression::Number(3)),
    };
    let (e, _) = parse_expr("1 + 2 * 3").unwrap();
    assert_eq!(e, expected);
    assert_ne!(e, wrong);
}

#[test]
fn grouping_overrides_precedence() {
    let expected = Expression::BinaryOperation {
        left_operand: Box::new(Expression::Grouped(Box::new(Expression::BinaryOperation {
            left_operand: Box::new(Expression::Number(1)),
            operator: BinaryOperator::Add,
            right_operand: Box::new(Expression::Number(2)),
        }))),
        operator: BinaryOperator::Multiply,
        right_operand: Box::new(Expression::Number(3)),
    };
    let (e, _) = parse_expr("(1 + 2) * 3").unwrap();
    assert_eq!(e, expected);
}

#[test]
fn binary_operators_left_associative() {
    let expected = Expression::BinaryOperation {
        left_operand: Box::new(Expression::BinaryOperation {
            left_operand: Box::new(Expression::Number(1)),
            operator: BinaryOperator::Subtract,
            right_operand: Box::new(Expression::Number(2)),
        }),
        operator: BinaryOperator::Subtract,
        right_operand: Box::new(Expression::Number(3)),
    };
    let (e, _) = parse_expr("1 - 2 - 3").unwrap();
    assert_eq!(e, expected);
}

#[test]
fn negation_binds_tighter_than_addition() {
    let expected = Expression::BinaryOperation {
        left_operand: Box::new(Expression::UnaryOperation {
            operator: UnaryOperator::Negate,
            operand: Box::new(Expression::Number(2)),
        }),
        operator: BinaryOperator::Add,
        right_operand: Box::new(Expression::Number(3)),
    };
    let (e, _) = parse_expr("-2 + 3").unwrap();
    assert_eq!(e, expected);
}

#[test]
fn negation_yields_to_multiplication() {
    let expected = Expression::UnaryOperation {
        operator: UnaryOperator::Negate,
        operand: Box::new(Expression::BinaryOperation {
            left_operand: Box::new(Expression::Number(2)),
            operator: BinaryOperator::Multiply,
            right_operand: Box::new(Expression::Number(3)),
        }),
    };
    let (e, _) = parse_expr("-2 * 3").unwrap();
    assert_eq!(e, expected);
}

#[test]
fn or_binds_looser_than_and() {
    let expected = Expression::BinaryOperation {
        left_operand: Box::new(Expression::Identifier("a".to_string())),
        operator: BinaryOperator::Or,
        right_operand: Box::new(Expression::BinaryOperation {
            left_operand: Box::new(Expression::Identifier("b".to_string())),
            operator: BinaryOperator::And,
            right_operand: Box::new(Expression::Identifier("c".to_string())),
        }),
    };
    let (e, _) = parse_expr("a OR b AND c").unwrap();
    assert_eq!(e, expected);
}

#[test]
fn comparison_binds_tighter_than_and() {
    let expected = Expression::BinaryOperation {
        left_operand: Box::new(Expression::BinaryOperation {
            left_operand: Box::new(Expression::Identifier("a".to_string())),
            operator: BinaryOperator::GreaterThanOrEqual,
            right_operand: Box::new(Expression::Number(10)),
        }),
        operator: BinaryOperator::And,
        right_operand: Box::new(Expression::BinaryOperation {
            left_operand: Box::new(Expression::Identifier("b".to_string())),
            operator: BinaryOperator::LessThan,
            right_operand: Box::new(Expression::Number(5)),
        }),
    };
    let (e, _) = parse_expr("a >= 10 AND b < 5").unwrap();
    assert_eq!(e, expected);
}

#[test]
fn literal_primaries() {
    assert_eq!(parse_expr("'s'").unwrap().0, Expression::StringLit("s".to_string()));
    assert_eq!(parse_expr("true").unwrap().0, Expression::Boolean(true));
    assert_eq!(parse_expr("NULL").unwrap().0, Expression::Null);
    assert_eq!(parse_expr("x").unwrap().0, Expression::Identifier("x".to_string()));
    assert_eq!(parse_expr("7").unwrap().0, Expression::Number(7));
}

#[test]
fn unmatched_paren_is_error() {
    assert_eq!(
        parse_expr("(1 + 2"),
        Err("Expected closing parenthesis".to_string())
    );
}

#[test]
fn empty_expression_is_error() {
    // The end marker starts no primary.
    assert_eq!(
        parse_expr(""),
        Err("Expected a value, identifier, or parenthesized expression".to_string())
    );
}

#[test]
fn expression_stops_before_lower_power_token() {
    // A semicolon is no binary operator: the parse ends just before it.
    let (e, p) = parse_expr("1 + 2 ;").unwrap();
    assert_eq!(
        e,
        Expression::BinaryOperation {
            left_operand: Box::new(Expression::Number(1)),
            operator: BinaryOperator::Add,
            right_operand: Box::new(Expression::Number(2)),
        }
    );
    assert_eq!(p, 3);
}
