//! Expression parsing by precedence climbing, and its spec-level model.
//!
//! The model is a triple of mutually recursive spec functions: one for a
//! primary (a literal, an identifier, a unary application, or a
//! parenthesized group), one for folding binary operators of sufficient
//! binding power into a left-associative tree, and one tying the two
//! together.  The executable functions mirror them one for one and are
//! proved to return exactly the model's result.

use vstd::prelude::*;

use crate::ast::{BinaryOperator, Expression, SpecExpr, UnaryOperator};
use crate::tokenizer::{spec_tokens_view, Keyword, SpecTok, Token};

verus! {

/// The binding power an expression parse starts from: low enough to
/// accept every operator.
pub const LOWEST_POWER: u32 = 1;

/// The binding power of `OR`.
pub const OR_POWER: u32 = 1;

/// The binding power of `AND`.
pub const AND_POWER: u32 = 2;

/// The binding power of unary `NOT`.
pub const NOT_POWER: u32 = 3;

/// The binding power of the comparison operators.
pub const COMPARISON_POWER: u32 = 4;

/// The binding power of `+` and `-`.
pub const ADDITIVE_POWER: u32 = 5;

/// The binding power of unary negation: tighter than every binary
/// operator except multiplication and division.
pub const NEGATE_POWER: u32 = 6;

/// The binding power of `*` and `/`.
pub const MULTIPLICATIVE_POWER: u32 = 7;

/// The binary operator a token stands for, with its left binding power;
/// `None` for a token that is no binary operator.
pub open spec fn spec_binop_of(t: SpecTok) -> Option<(BinaryOperator, u32)> {
    match t {
        SpecTok::Equals => Some((BinaryOperator::Equals, COMPARISON_POWER)),
        SpecTok::NotEquals => Some((BinaryOperator::NotEquals, COMPARISON_POWER)),
        SpecTok::LessThan => Some((BinaryOperator::LessThan, COMPARISON_POWER)),
        SpecTok::LessThanOrEqual => Some((BinaryOperator::LessThanOrEqual, COMPARISON_POWER)),
        SpecTok::GreaterThan => Some((BinaryOperator::GreaterThan, COMPARISON_POWER)),
        SpecTok::GreaterThanOrEqual => Some((BinaryOperator::GreaterThanOrEqual, COMPARISON_POWER)),
        SpecTok::Plus => Some((BinaryOperator::Add, ADDITIVE_POWER)),
        SpecTok::Minus => Some((BinaryOperator::Subtract, ADDITIVE_POWER)),
        SpecTok::Asterisk => Some((BinaryOperator::Multiply, MULTIPLICATIVE_POWER)),
        SpecTok::Slash => Some((BinaryOperator::Divide, MULTIPLICATIVE_POWER)),
        SpecTok::Keyword(Keyword::And) => Some((BinaryOperator::And, AND_POWER)),
        SpecTok::Keyword(Keyword::Or) => Some((BinaryOperator::Or, OR_POWER)),
        _ => None,
    }
}

/// Keeps a position inside the bounds the grammar guarantees anyway, so
/// that the recursion below is visibly well-founded.
pub open spec fn spec_clamped(p: nat, lo: nat, hi: nat) -> nat {
    if p > hi {
        hi
    } else if p < lo {
        lo
    } else {
        p
    }
}

/// A whole expression parse at `min_bp`: a primary, then every binary
/// operator whose binding power reaches `min_bp`, folded left.
pub open spec fn spec_parse_expr(toks: Seq<SpecTok>, pos: nat, min_bp: u32) -> Result<
    (SpecExpr, nat),
    Seq<char>,
>
    decreases toks.len() - pos, 2int,
{
    if pos >= toks.len() {
        Err("Unexpected end of expression"@)
    } else {
        match spec_parse_primary(toks, pos) {
            Err(m) => Err(m),
            Ok((lhs, p)) => spec_parse_more(
                toks,
                spec_clamped(p, pos + 1, toks.len()),
                min_bp,
                lhs,
            ),
        }
    }
}

/// One primary: a literal, an identifier, a unary application, or a
/// parenthesized group.
pub open spec fn spec_parse_primary(toks: Seq<SpecTok>, pos: nat) -> Result<
    (SpecExpr, nat),
    Seq<char>,
>
    decreases toks.len() - pos, 0int,
{
    if pos >= toks.len() {
        Err("Unexpected end of expression"@)
    } else {
        match toks[pos as int] {
            SpecTok::Identifier(name) => Ok((SpecExpr::Identifier(name), (pos + 1) as nat)),
            SpecTok::Number(n) => Ok((SpecExpr::Number(n), (pos + 1) as nat)),
            SpecTok::StringLit(s) => Ok((SpecExpr::StringLit(s), (pos + 1) as nat)),
            SpecTok::Boolean(b) => Ok((SpecExpr::Boolean(b), (pos + 1) as nat)),
            SpecTok::Null => Ok((SpecExpr::Null, (pos + 1) as nat)),
            SpecTok::Keyword(Keyword::Not) => match spec_parse_expr(
                toks,
                (pos + 1) as nat,
                NOT_POWER,
            ) {
                Ok((e, p)) => Ok(
                    (
                        SpecExpr::UnaryOperation {
                            operator: UnaryOperator::Not,
                            operand: Box::new(e),
                        },
                        p,
                    ),
                ),
                Err(m) => Err(m),
            },
            SpecTok::Minus => match spec_parse_expr(toks, (pos + 1) as nat, NEGATE_POWER) {
                Ok((e, p)) => Ok(
                    (
                        SpecExpr::UnaryOperation {
                            operator: UnaryOperator::Negate,
                            operand: Box::new(e),
                        },
                        p,
                    ),
                ),
                Err(m) => Err(m),
            },
            SpecTok::LeftParen => match spec_parse_expr(toks, (pos + 1) as nat, LOWEST_POWER) {
                Ok((e, p)) => {
                    let q = spec_clamped(p, pos + 1, toks.len());
                    if q < toks.len() && toks[q as int] is RightParen {
                        Ok((SpecExpr::Grouped(Box::new(e)), (q + 1) as nat))
                    } else {
                        Err("Expected closing parenthesis"@)
                    }
                },
                Err(m) => Err(m),
            },
            _ => Err("Expected a value, identifier, or parenthesized expression"@),
        }
    }
}

/// Folds binary operators into `lhs` while their binding power reaches
/// `min_bp`; the right operand is parsed one power higher, which makes
/// every binary operator left-associative.
pub open spec fn spec_parse_more(
    toks: Seq<SpecTok>,
    pos: nat,
    min_bp: u32,
    lhs: SpecExpr,
) -> Result<(SpecExpr, nat), Seq<char>>
    decreases toks.len() - pos, 1int,
{
    if pos < toks.len() {
        match spec_binop_of(toks[pos as int]) {
            Some((op, bp)) => {
                if bp >= min_bp {
                    match spec_parse_expr(toks, (pos + 1) as nat, (bp + 1) as u32) {
                        Err(m) => Err(m),
                        Ok((rhs, p2)) => spec_parse_more(
                            toks,
                            spec_clamped(p2, pos + 1, toks.len()),
                            min_bp,
                            SpecExpr::BinaryOperation {
                                left_operand: Box::new(lhs),
                                operator: op,
                                right_operand: Box::new(rhs),
                            },
                        ),
                    }
                } else {
                    Ok((lhs, pos))
                }
            },
            None => Ok((lhs, pos)),
        }
    } else {
        Ok((lhs, pos))
    }
}

/// The binary operator a token stands for, with its left binding power.
fn binop_of(t: &Token) -> (r: Option<(BinaryOperator, u32)>)
    ensures
        r == spec_binop_of(t@),
        r matches Some((op, bp)) ==> LOWEST_POWER <= bp <= MULTIPLICATIVE_POWER,
{
    match t {
        Token::Equals => Some((BinaryOperator::Equals, COMPARISON_POWER)),
        Token::NotEquals => Some((BinaryOperator::NotEquals, COMPARISON_POWER)),
        Token::LessThan => Some((BinaryOperator::LessThan, COMPARISON_POWER)),
        Token::LessThanOrEqual => Some((BinaryOperator::LessThanOrEqual, COMPARISON_POWER)),
        Token::GreaterThan => Some((BinaryOperator::GreaterThan, COMPARISON_POWER)),
        Token::GreaterThanOrEqual => Some((BinaryOperator::GreaterThanOrEqual, COMPARISON_POWER)),
        Token::Plus => Some((BinaryOperator::Add, ADDITIVE_POWER)),
        Token::Minus => Some((BinaryOperator::Subtract, ADDITIVE_POWER)),
        Token::Asterisk => Some((BinaryOperator::Multiply, MULTIPLICATIVE_POWER)),
        Token::Slash => Some((BinaryOperator::Divide, MULTIPLICATIVE_POWER)),
        Token::Keyword(Keyword::And) => Some((BinaryOperator::And, AND_POWER)),
        Token::Keyword(Keyword::Or) => Some((BinaryOperator::Or, OR_POWER)),
        _ => None,
    }
}

/// Parses one expression from `pos` at binding power `min_bp`, returning
/// the tree and the position just past it, or the error message the spec
/// model gives.
pub fn parse_expression(tokens: &[Token], pos: usize, min_bp: u32) -> (r: Result<
    (Expression, usize),
    String,
>)
    requires
        pos <= tokens@.len(),
    ensures
        match r {
            Ok((e, p)) => pos < p <= tokens@.len() && spec_parse_expr(
                spec_tokens_view(tokens@),
                pos as nat,
                min_bp,
            ) == Ok::<_, Seq<char>>((e@, p as nat)),
            Err(m) => spec_parse_expr(spec_tokens_view(tokens@), pos as nat, min_bp)
                == Err::<(SpecExpr, nat), _>(m@),
        },
    decreases tokens@.len() - pos, 2int,
{
    if pos >= tokens.len() {
        return Err("Unexpected end of expression".to_owned());
    }
    match parse_primary(tokens, pos) {
        Err(m) => Err(m),
        Ok((lhs, p)) => parse_more(tokens, p, min_bp, lhs),
    }
}

/// Parses one primary expression from `pos`.
fn parse_primary(tokens: &[Token], pos: usize) -> (r: Result<(Expression, usize), String>)
    requires
        pos < tokens@.len(),
    ensures
        match r {
            Ok((e, p)) => pos < p <= tokens@.len() && spec_parse_primary(
                spec_tokens_view(tokens@),
                pos as nat,
            ) == Ok::<_, Seq<char>>((e@, p as nat)),
            Err(m) => spec_parse_primary(spec_tokens_view(tokens@), pos as nat)
                == Err::<(SpecExpr, nat), _>(m@),
        },
    decreases tokens@.len() - pos, 0int,
{
    let t = &tokens[pos];
    match t {
        Token::Identifier(name) => Ok((Expression::Identifier(name.clone()), pos + 1)),
        Token::Number(n) => Ok((Expression::Number(*n), pos + 1)),
        Token::StringLit(s) => Ok((Expression::StringLit(s.clone()), pos + 1)),
        Token::Boolean(b) => Ok((Expression::Boolean(*b), pos + 1)),
        Token::Null => Ok((Expression::Null, pos + 1)),
        Token::Keyword(Keyword::Not) => match parse_expression(tokens, pos + 1, NOT_POWER) {
            Ok((e, p)) => Ok(
                (
                    Expression::UnaryOperation {
                        operator: UnaryOperator::Not,
                        operand: Box::new(e),
                    },
                    p,
                ),
            ),
            Err(m) => Err(m),
        },
        Token::Minus => match parse_expression(tokens, pos + 1, NEGATE_POWER) {
            Ok((e, p)) => Ok(
                (
                    Expression::UnaryOperation {
                        operator: UnaryOperator::Negate,
                        operand: Box::new(e),
                    },
                    p,
                ),
            ),
            Err(m) => Err(m),
        },
        Token::LeftParen => match parse_expression(tokens, pos + 1, LOWEST_POWER) {
            Ok((e, p)) => {
                if p < tokens.len() && matches!(&tokens[p], Token::RightParen) {
                    Ok((Expression::Grouped(Box::new(e)), p + 1))
                } else {
                    Err("Expected closing parenthesis".to_owned())
                }
            },
            Err(m) => Err(m),
        },
        _ => Err("Expected a value, identifier, or parenthesized expression".to_owned()),
    }
}

/// Folds binary operators into `lhs` while their binding power reaches
/// `min_bp`.
fn parse_more(tokens: &[Token], pos: usize, min_bp: u32, lhs: Expression) -> (r: Result<
    (Expression, usize),
    String,
>)
    requires
        pos <= tokens@.len(),
    ensures
        match r {
            Ok((e, p)) => pos <= p <= tokens@.len() && spec_parse_more(
                spec_tokens_view(tokens@),
                pos as nat,
                min_bp,
                lhs@,
            ) == Ok::<_, Seq<char>>((e@, p as nat)),
            Err(m) => spec_parse_more(spec_tokens_view(tokens@), pos as nat, min_bp, lhs@)
                == Err::<(SpecExpr, nat), _>(m@),
        },
    decreases tokens@.len() - pos, 1int,
{
    if pos >= tokens.len() {
        return Ok((lhs, pos));
    }
    match binop_of(&tokens[pos]) {
        None => Ok((lhs, pos)),
        Some((op, bp)) => {
            if bp >= min_bp {
                match parse_expression(tokens, pos + 1, bp + 1) {
                    Err(m) => Err(m),
                    Ok((rhs, p2)) => {
                        let folded = Expression::BinaryOperation {
                            left_operand: Box::new(lhs),
                            operator: op,
                            right_operand: Box::new(rhs),
                        };
                        parse_more(tokens, p2, min_bp, folded)
                    },
                }
            } else {
                Ok((lhs, pos))
            }
        },
    }
}

} // verus!
