//! Recursive-descent parsing of whole statements, and its spec-level
//! model: one spec function per grammar rule, and an executable
//! [`SQLParser`] proved to return exactly what the model says.
//!
//! The parser dispatches on the leading keyword to one of three statement
//! grammars (`SELECT`, `CREATE TABLE`, `INSERT INTO`) without
//! backtracking; its cursor only ever moves forward.  The `WHERE` clause
//! of a `SELECT` is handed to the expression parser and the cursor then
//! continues just past the expression.

use vstd::prelude::*;

use crate::ast::{ColumnDef, DataType, Expression, SpecColumnDef, SpecExpr, SpecStatement,
    Statement};
use crate::pratt::{parse_expression, spec_parse_expr, LOWEST_POWER};
use crate::tokenizer::{keyword_name, spec_keyword_name, spec_token_desc, spec_tokens_view,
    token_desc, token_dup, Keyword, SpecTok, Token};
use crate::{ParseError, SpecParseError};

verus! {

// ---------------------------------------------------------------------------
// The spec grammar
// ---------------------------------------------------------------------------

/// Requires the keyword `k` at `pos` and steps past it.
pub open spec fn spec_expect_keyword(toks: Seq<SpecTok>, pos: nat, k: Keyword) -> Result<
    nat,
    SpecParseError,
> {
    if pos >= toks.len() {
        Err(SpecParseError::UnexpectedEnd)
    } else if toks[pos as int] == SpecTok::Keyword(k) {
        Ok((pos + 1) as nat)
    } else {
        Err(SpecParseError::ExpectedKeyword(spec_keyword_name(k)))
    }
}

/// Requires an identifier at `pos`, yielding its text.
pub open spec fn spec_expect_identifier(toks: Seq<SpecTok>, pos: nat) -> Result<
    (Seq<char>, nat),
    SpecParseError,
> {
    if pos >= toks.len() {
        Err(SpecParseError::UnexpectedEnd)
    } else {
        match toks[pos as int] {
            SpecTok::Identifier(name) => Ok((name, (pos + 1) as nat)),
            _ => Err(SpecParseError::ExpectedIdentifier),
        }
    }
}

/// Requires an opening parenthesis at `pos`.
pub open spec fn spec_expect_left_paren(toks: Seq<SpecTok>, pos: nat) -> Result<
    nat,
    SpecParseError,
> {
    if pos >= toks.len() {
        Err(SpecParseError::ExpectedToken("("@, None))
    } else if toks[pos as int] is LeftParen {
        Ok((pos + 1) as nat)
    } else {
        Err(SpecParseError::ExpectedToken("("@, Some(toks[pos as int])))
    }
}

/// The `SELECT` column list: identifiers and commas until `FROM`.
pub open spec fn spec_select_columns(toks: Seq<SpecTok>, pos: nat, acc: Seq<Seq<char>>) -> Result<
    (Seq<Seq<char>>, nat),
    SpecParseError,
>
    decreases toks.len() - pos,
{
    if pos >= toks.len() {
        Err(SpecParseError::General("Unexpected end of input while reading columns."@))
    } else {
        match toks[pos as int] {
            SpecTok::Identifier(name) => spec_select_columns(toks, (pos + 1) as nat, acc.push(name)),
            SpecTok::Comma => spec_select_columns(toks, (pos + 1) as nat, acc),
            SpecTok::Keyword(Keyword::From) => Ok((acc, (pos + 1) as nat)),
            _ => Err(SpecParseError::General("Unexpected token in column list"@)),
        }
    }
}

/// The `ORDER BY` column list: identifiers and commas until a semicolon
/// or the end marker.
pub open spec fn spec_order_columns(toks: Seq<SpecTok>, pos: nat, acc: Seq<Seq<char>>) -> Result<
    (Seq<Seq<char>>, nat),
    SpecParseError,
>
    decreases toks.len() - pos,
{
    if pos >= toks.len() {
        Err(SpecParseError::UnexpectedEnd)
    } else {
        match toks[pos as int] {
            SpecTok::Identifier(name) => spec_order_columns(toks, (pos + 1) as nat, acc.push(name)),
            SpecTok::Comma => spec_order_columns(toks, (pos + 1) as nat, acc),
            SpecTok::Semicolon | SpecTok::Eof => Ok((acc, (pos + 1) as nat)),
            _ => Err(SpecParseError::General("Unexpected token in ORDER BY"@)),
        }
    }
}

/// What follows a `SELECT`'s table name and optional selection: an
/// optional `ORDER BY` list, then the finished statement.
pub open spec fn spec_select_tail(
    toks: Seq<SpecTok>,
    pos: nat,
    columns: Seq<Seq<char>>,
    table: Seq<char>,
    selection: Option<SpecExpr>,
) -> Result<SpecStatement, SpecParseError> {
    if pos < toks.len() && toks[pos as int] == SpecTok::Keyword(Keyword::Order) {
        match spec_expect_keyword(toks, (pos + 1) as nat, Keyword::By) {
            Err(e) => Err(e),
            Ok(p1) => match spec_order_columns(toks, p1, Seq::<Seq<char>>::empty()) {
                Err(e) => Err(e),
                Ok((obs, _p2)) => Ok(
                    SpecStatement::Select { columns, table, selection, order_by: Some(obs) },
                ),
            },
        }
    } else {
        Ok(SpecStatement::Select { columns, table, selection, order_by: None })
    }
}

/// A whole `SELECT` statement, from just past the `SELECT` keyword.
pub open spec fn spec_parse_select(toks: Seq<SpecTok>, pos: nat) -> Result<
    SpecStatement,
    SpecParseError,
> {
    match spec_select_columns(toks, pos, Seq::<Seq<char>>::empty()) {
        Err(e) => Err(e),
        Ok((cols, p1)) => match spec_expect_identifier(toks, p1) {
            Err(e) => Err(e),
            Ok((table, p2)) => {
                if p2 < toks.len() && toks[p2 as int] == SpecTok::Keyword(Keyword::Where) {
                    match spec_parse_expr(toks, (p2 + 1) as nat, LOWEST_POWER) {
                        Err(m) => Err(SpecParseError::InvalidExpression(m)),
                        Ok((sel, p3)) => spec_select_tail(toks, p3, cols, table, Some(sel)),
                    }
                } else {
                    spec_select_tail(toks, p2, cols, table, None)
                }
            },
        },
    }
}

/// A column's type specifier: `INT`, `BOOLEAN`, or `VARCHAR ( n )`.
pub open spec fn spec_column_type(toks: Seq<SpecTok>, pos: nat) -> Result<
    (DataType, nat),
    SpecParseError,
> {
    if pos >= toks.len() {
        Err(SpecParseError::UnexpectedEnd)
    } else {
        match toks[pos as int] {
            SpecTok::Keyword(Keyword::Int) => Ok((DataType::Int, (pos + 1) as nat)),
            SpecTok::Keyword(Keyword::Boolean) => Ok((DataType::Boolean, (pos + 1) as nat)),
            SpecTok::Keyword(Keyword::Varchar) => {
                if pos + 1 < toks.len() && toks[pos + 1 as int] is LeftParen && pos + 2
                    < toks.len() && toks[pos + 2 as int] is Number && pos + 3 < toks.len()
                    && toks[pos + 3 as int] is RightParen {
                    Ok((DataType::Varchar(toks[pos + 2 as int]->Number_0), (pos + 4) as nat))
                } else {
                    Err(SpecParseError::General("Expected size for Varchar"@))
                }
            },
            _ => Err(SpecParseError::General("Unexpected column type"@)),
        }
    }
}

/// The `CREATE TABLE` column-definition list: name/type pairs and commas
/// until the closing parenthesis.
pub open spec fn spec_column_defs(toks: Seq<SpecTok>, pos: nat, acc: Seq<SpecColumnDef>) -> Result<
    (Seq<SpecColumnDef>, nat),
    SpecParseError,
>
    decreases toks.len() - pos,
{
    if pos >= toks.len() {
        Err(SpecParseError::UnexpectedEnd)
    } else {
        match toks[pos as int] {
            SpecTok::Identifier(name) => match spec_column_type(toks, (pos + 1) as nat) {
                Err(e) => Err(e),
                Ok((dt, p)) => spec_column_defs(
                    toks,
                    p,
                    acc.push(SpecColumnDef { name, data_type: dt }),
                ),
            },
            SpecTok::Comma => spec_column_defs(toks, (pos + 1) as nat, acc),
            SpecTok::RightParen => Ok((acc, (pos + 1) as nat)),
            _ => Err(SpecParseError::General("Unexpected token in column definitions"@)),
        }
    }
}

/// A whole `CREATE TABLE` statement, from just past the `CREATE` keyword.
pub open spec fn spec_parse_create_table(toks: Seq<SpecTok>, pos: nat) -> Result<
    SpecStatement,
    SpecParseError,
> {
    match spec_expect_keyword(toks, pos, Keyword::Table) {
        Err(e) => Err(e),
        Ok(p1) => match spec_expect_identifier(toks, p1) {
            Err(e) => Err(e),
            Ok((name, p2)) => match spec_expect_left_paren(toks, p2) {
                Err(e) => Err(e),
                Ok(p3) => match spec_column_defs(toks, p3, Seq::<SpecColumnDef>::empty()) {
                    Err(e) => Err(e),
                    Ok((cols, _p4)) => Ok(
                        SpecStatement::CreateTable { table_name: name, columns: cols },
                    ),
                },
            },
        },
    }
}

/// The `INSERT` column-name list: identifiers and commas until the
/// closing parenthesis.
pub open spec fn spec_name_list(toks: Seq<SpecTok>, pos: nat, acc: Seq<Seq<char>>) -> Result<
    (Seq<Seq<char>>, nat),
    SpecParseError,
>
    decreases toks.len() - pos,
{
    if pos >= toks.len() {
        Err(SpecParseError::UnexpectedEnd)
    } else {
        match toks[pos as int] {
            SpecTok::Identifier(name) => spec_name_list(toks, (pos + 1) as nat, acc.push(name)),
            SpecTok::Comma => spec_name_list(toks, (pos + 1) as nat, acc),
            SpecTok::RightParen => Ok((acc, (pos + 1) as nat)),
            _ => Err(SpecParseError::General("Unexpected token in column list"@)),
        }
    }
}

/// The `VALUES` list: plain literals or bare identifiers and commas until
/// the closing parenthesis; arbitrary expressions are deliberately not
/// permitted here.
pub open spec fn spec_value_list(toks: Seq<SpecTok>, pos: nat, acc: Seq<SpecExpr>) -> Result<
    (Seq<SpecExpr>, nat),
    SpecParseError,
>
    decreases toks.len() - pos,
{
    if pos >= toks.len() {
        Err(SpecParseError::UnexpectedEnd)
    } else {
        match toks[pos as int] {
            SpecTok::Number(n) => spec_value_list(toks, (pos + 1) as nat, acc.push(SpecExpr::Number(n))),
            SpecTok::StringLit(s) => spec_value_list(
                toks,
                (pos + 1) as nat,
                acc.push(SpecExpr::StringLit(s)),
            ),
            SpecTok::Boolean(b) => spec_value_list(
                toks,
                (pos + 1) as nat,
                acc.push(SpecExpr::Boolean(b)),
            ),
            SpecTok::Null => spec_value_list(toks, (pos + 1) as nat, acc.push(SpecExpr::Null)),
            SpecTok::Identifier(name) => spec_value_list(
                toks,
                (pos + 1) as nat,
                acc.push(SpecExpr::Identifier(name)),
            ),
            SpecTok::Comma => spec_value_list(toks, (pos + 1) as nat, acc),
            SpecTok::RightParen => Ok((acc, (pos + 1) as nat)),
            _ => Err(SpecParseError::General("Unexpected token in VALUES"@)),
        }
    }
}

/// A whole `INSERT INTO` statement, from just past the `INSERT` keyword.
pub open spec fn spec_parse_insert(toks: Seq<SpecTok>, pos: nat) -> Result<
    SpecStatement,
    SpecParseError,
> {
    match spec_expect_keyword(toks, pos, Keyword::Into) {
        Err(e) => Err(e),
        Ok(p1) => match spec_expect_identifier(toks, p1) {
            Err(e) => Err(e),
            Ok((name, p2)) => match spec_expect_left_paren(toks, p2) {
                Err(e) => Err(e),
                Ok(p3) => match spec_name_list(toks, p3, Seq::<Seq<char>>::empty()) {
                    Err(e) => Err(e),
                    Ok((cols, p4)) => match spec_expect_keyword(toks, p4, Keyword::Values) {
                        Err(e) => Err(e),
                        Ok(p5) => match spec_expect_left_paren(toks, p5) {
                            Err(e) => Err(e),
                            Ok(p6) => match spec_value_list(toks, p6, Seq::<SpecExpr>::empty()) {
                                Err(e) => Err(e),
                                Ok((vals, _p7)) => Ok(
                                    SpecStatement::Insert {
                                        table_name: name,
                                        columns: cols,
                                        values: vals,
                                    },
                                ),
                            },
                        },
                    },
                },
            },
        },
    }
}

/// A whole statement from `pos`: dispatch on the leading token.  An
/// exhausted sequence and a leading end marker are both the empty input.
pub open spec fn spec_parse_statement_at(toks: Seq<SpecTok>, pos: nat) -> Result<
    SpecStatement,
    SpecParseError,
> {
    if pos >= toks.len() || toks[pos as int] is Eof {
        Err(SpecParseError::General("Empty input"@))
    } else {
        match toks[pos as int] {
            SpecTok::Keyword(Keyword::Select) => spec_parse_select(toks, (pos + 1) as nat),
            SpecTok::Keyword(Keyword::Create) => spec_parse_create_table(toks, (pos + 1) as nat),
            SpecTok::Keyword(Keyword::Insert) => spec_parse_insert(toks, (pos + 1) as nat),
            t => Err(SpecParseError::UnknownStartOfStatement(spec_token_desc(t))),
        }
    }
}

/// A whole statement, from the start of the token sequence: the model of
/// [`SQLParser::parse_statement`] on a fresh parser.
pub open spec fn spec_parse_statement(toks: Seq<SpecTok>) -> Result<
    SpecStatement,
    SpecParseError,
> {
    spec_parse_statement_at(toks, 0)
}

// ---------------------------------------------------------------------------
// The executable list parsers
// ---------------------------------------------------------------------------

fn select_columns(tokens: &[Token], pos: usize, cols: &mut Vec<String>) -> (r: Result<
    usize,
    ParseError,
>)
    requires
        pos <= tokens@.len(),
    ensures
        match r {
            Ok(p) => pos <= p <= tokens@.len() && spec_select_columns(
                spec_tokens_view(tokens@),
                pos as nat,
                old(cols).deep_view(),
            ) == Ok::<_, SpecParseError>((final(cols).deep_view(), p as nat)),
            Err(e) => spec_select_columns(
                spec_tokens_view(tokens@),
                pos as nat,
                old(cols).deep_view(),
            ) == Err::<(Seq<Seq<char>>, nat), _>(e@),
        },
    decreases tokens@.len() - pos,
{
    if pos >= tokens.len() {
        return Err(ParseError::General("Unexpected end of input while reading columns.".to_owned()));
    }
    match &tokens[pos] {
        Token::Identifier(name) => {
            let ghost acc0 = cols.deep_view();
            cols.push(name.clone());
            proof {
                assert(cols.deep_view() =~= acc0.push(name@));
            }
            select_columns(tokens, pos + 1, cols)
        },
        Token::Comma => select_columns(tokens, pos + 1, cols),
        Token::Keyword(Keyword::From) => Ok(pos + 1),
        _ => Err(ParseError::General("Unexpected token in column list".to_owned())),
    }
}

fn order_columns(tokens: &[Token], pos: usize, cols: &mut Vec<String>) -> (r: Result<
    usize,
    ParseError,
>)
    requires
        pos <= tokens@.len(),
    ensures
        match r {
            Ok(p) => pos <= p <= tokens@.len() && spec_order_columns(
                spec_tokens_view(tokens@),
                pos as nat,
                old(cols).deep_view(),
            ) == Ok::<_, SpecParseError>((final(cols).deep_view(), p as nat)),
            Err(e) => spec_order_columns(
                spec_tokens_view(tokens@),
                pos as nat,
                old(cols).deep_view(),
            ) == Err::<(Seq<Seq<char>>, nat), _>(e@),
        },
    decreases tokens@.len() - pos,
{
    if pos >= tokens.len() {
        return Err(ParseError::UnexpectedEnd);
    }
    match &tokens[pos] {
        Token::Identifier(name) => {
            let ghost acc0 = cols.deep_view();
            cols.push(name.clone());
            proof {
                assert(cols.deep_view() =~= acc0.push(name@));
            }
            order_columns(tokens, pos + 1, cols)
        },
        Token::Comma => order_columns(tokens, pos + 1, cols),
        Token::Semicolon => Ok(pos + 1),
        Token::Eof => Ok(pos + 1),
        _ => Err(ParseError::General("Unexpected token in ORDER BY".to_owned())),
    }
}

fn column_type(tokens: &[Token], pos: usize) -> (r: Result<(DataType, usize), ParseError>)
    requires
        pos <= tokens@.len(),
    ensures
        match r {
            Ok((dt, p)) => pos < p <= tokens@.len() && spec_column_type(
                spec_tokens_view(tokens@),
                pos as nat,
            ) == Ok::<_, SpecParseError>((dt, p as nat)),
            Err(e) => spec_column_type(spec_tokens_view(tokens@), pos as nat) == Err::<
                (DataType, nat),
                _,
            >(e@),
        },
{
    if pos >= tokens.len() {
        return Err(ParseError::UnexpectedEnd);
    }
    match &tokens[pos] {
        Token::Keyword(Keyword::Int) => Ok((DataType::Int, pos + 1)),
        Token::Keyword(Keyword::Boolean) => Ok((DataType::Boolean, pos + 1)),
        Token::Keyword(Keyword::Varchar) => {
            if pos + 1 < tokens.len() && matches!(&tokens[pos + 1], Token::LeftParen) && pos + 2
                < tokens.len() && pos + 3 < tokens.len() {
                match &tokens[pos + 2] {
                    Token::Number(n) => {
                        if matches!(&tokens[pos + 3], Token::RightParen) {
                            Ok((DataType::Varchar(*n), pos + 4))
                        } else {
                            Err(ParseError::General("Expected size for Varchar".to_owned()))
                        }
                    },
                    _ => Err(ParseError::General("Expected size for Varchar".to_owned())),
                }
            } else {
                Err(ParseError::General("Expected size for Varchar".to_owned()))
            }
        },
        _ => Err(ParseError::General("Unexpected column type".to_owned())),
    }
}

fn column_defs(tokens: &[Token], pos: usize, cols: &mut Vec<ColumnDef>) -> (r: Result<
    usize,
    ParseError,
>)
    requires
        pos <= tokens@.len(),
    ensures
        match r {
            Ok(p) => pos <= p <= tokens@.len() && spec_column_defs(
                spec_tokens_view(tokens@),
                pos as nat,
                old(cols).deep_view(),
            ) == Ok::<_, SpecParseError>((final(cols).deep_view(), p as nat)),
            Err(e) => spec_column_defs(
                spec_tokens_view(tokens@),
                pos as nat,
                old(cols).deep_view(),
            ) == Err::<(Seq<SpecColumnDef>, nat), _>(e@),
        },
    decreases tokens@.len() - pos,
{
    if pos >= tokens.len() {
        return Err(ParseError::UnexpectedEnd);
    }
    match &tokens[pos] {
        Token::Identifier(name) => {
            match column_type(tokens, pos + 1) {
                Err(e) => Err(e),
                Ok((dt, p)) => {
                    let ghost acc0 = cols.deep_view();
                    cols.push(ColumnDef { name: name.clone(), data_type: dt });
                    proof {
                        assert(cols.deep_view() =~= acc0.push(
                            SpecColumnDef { name: name@, data_type: dt },
                        ));
                    }
                    column_defs(tokens, p, cols)
                },
            }
        },
        Token::Comma => column_defs(tokens, pos + 1, cols),
        Token::RightParen => Ok(pos + 1),
        _ => Err(ParseError::General("Unexpected token in column definitions".to_owned())),
    }
}

fn name_list(tokens: &[Token], pos: usize, cols: &mut Vec<String>) -> (r: Result<usize, ParseError>)
    requires
        pos <= tokens@.len(),
    ensures
        match r {
            Ok(p) => pos <= p <= tokens@.len() && spec_name_list(
                spec_tokens_view(tokens@),
                pos as nat,
                old(cols).deep_view(),
            ) == Ok::<_, SpecParseError>((final(cols).deep_view(), p as nat)),
            Err(e) => spec_name_list(spec_tokens_view(tokens@), pos as nat, old(cols).deep_view())
                == Err::<(Seq<Seq<char>>, nat), _>(e@),
        },
    decreases tokens@.len() - pos,
{
    if pos >= tokens.len() {
        return Err(ParseError::UnexpectedEnd);
    }
    match &tokens[pos] {
        Token::Identifier(name) => {
            let ghost acc0 = cols.deep_view();
            cols.push(name.clone());
            proof {
                assert(cols.deep_view() =~= acc0.push(name@));
            }
            name_list(tokens, pos + 1, cols)
        },
        Token::Comma => name_list(tokens, pos + 1, cols),
        Token::RightParen => Ok(pos + 1),
        _ => Err(ParseError::General("Unexpected token in column list".to_owned())),
    }
}

fn value_list(tokens: &[Token], pos: usize, vals: &mut Vec<Expression>) -> (r: Result<
    usize,
    ParseError,
>)
    requires
        pos <= tokens@.len(),
    ensures
        match r {
            Ok(p) => pos <= p <= tokens@.len() && spec_value_list(
                spec_tokens_view(tokens@),
                pos as nat,
                old(vals).deep_view(),
            ) == Ok::<_, SpecParseError>((final(vals).deep_view(), p as nat)),
            Err(e) => spec_value_list(spec_tokens_view(tokens@), pos as nat, old(vals).deep_view())
                == Err::<(Seq<SpecExpr>, nat), _>(e@),
        },
    decreases tokens@.len() - pos,
{
    if pos >= tokens.len() {
        return Err(ParseError::UnexpectedEnd);
    }
    let ghost acc0 = vals.deep_view();
    match &tokens[pos] {
        Token::Number(n) => {
            vals.push(Expression::Number(*n));
            proof {
                assert(vals.deep_view() =~= acc0.push(SpecExpr::Number(tokens@[pos as int]@->Number_0)));
            }
            value_list(tokens, pos + 1, vals)
        },
        Token::StringLit(s) => {
            vals.push(Expression::StringLit(s.clone()));
            proof {
                assert(vals.deep_view() =~= acc0.push(SpecExpr::StringLit(s@)));
            }
            value_list(tokens, pos + 1, vals)
        },
        Token::Boolean(b) => {
            vals.push(Expression::Boolean(*b));
            proof {
                assert(vals.deep_view() =~= acc0.push(SpecExpr::Boolean(tokens@[pos as int]@->Boolean_0)));
            }
            value_list(tokens, pos + 1, vals)
        },
        Token::Null => {
            vals.push(Expression::Null);
            proof {
                assert(vals.deep_view() =~= acc0.push(SpecExpr::Null));
            }
            value_list(tokens, pos + 1, vals)
        },
        Token::Identifier(name) => {
            vals.push(Expression::Identifier(name.clone()));
            proof {
                assert(vals.deep_view() =~= acc0.push(SpecExpr::Identifier(name@)));
            }
            value_list(tokens, pos + 1, vals)
        },
        Token::Comma => value_list(tokens, pos + 1, vals),
        Token::RightParen => Ok(pos + 1),
        _ => Err(ParseError::General("Unexpected token in VALUES".to_owned())),
    }
}

// ---------------------------------------------------------------------------
// The statement parser
// ---------------------------------------------------------------------------

/// A forward-only cursor over an already-scanned token sequence.
pub struct SQLParser<'a> {
    tokens: &'a [Token],
    position: usize,
}

impl<'a> SQLParser<'a> {
    /// The model of the token sequence being parsed.
    pub closed spec fn toks(&self) -> Seq<SpecTok> {
        spec_tokens_view(self.tokens@)
    }

    /// The cursor, in tokens.
    pub closed spec fn pos(&self) -> nat {
        self.position as nat
    }

    /// The cursor never runs past the sequence's end.
    pub open spec fn wf(&self) -> bool {
        self.pos() <= self.toks().len()
    }

    /// A parser whose cursor starts at index 0 of `tokens`.
    pub fn new(tokens: &'a [Token]) -> (r: Self)
        ensures
            r.toks() == spec_tokens_view(tokens@),
            r.pos() == 0,
            r.wf(),
    {
        SQLParser { tokens, position: 0 }
    }

    /// The token under the cursor, without moving it.
    fn peek(&self) -> (r: Option<&Token>)
        requires
            self.wf(),
        ensures
            match r {
                Some(t) => self.pos() < self.toks().len() && t@ == self.toks()[self.pos() as int],
                None => self.pos() == self.toks().len(),
            },
    {
        if self.position < self.tokens.len() {
            Some(&self.tokens[self.position])
        } else {
            None
        }
    }

    /// The token under the cursor, moving the cursor past it.
    fn advance(&mut self) -> (r: Option<&'a Token>)
        requires
            old(self).wf(),
        ensures
            final(self).toks() == old(self).toks(),
            final(self).wf(),
            match r {
                Some(t) => old(self).pos() < old(self).toks().len() && t@ == old(self).toks()[
                    old(self).pos() as int
                ] && final(self).pos() == old(self).pos() + 1,
                None => old(self).pos() == old(self).toks().len() && final(self).pos() == old(
                    self,
                ).pos(),
            },
    {
        let toks = self.tokens;
        if self.position < toks.len() {
            let t = &toks[self.position];
            self.position = self.position + 1;
            Some(t)
        } else {
            None
        }
    }

    /// Consumes the required keyword or reports which one was missing.
    fn expect_keyword(&mut self, keyword: Keyword) -> (r: Result<(), ParseError>)
        requires
            old(self).wf(),
        ensures
            final(self).toks() == old(self).toks(),
            final(self).wf(),
            old(self).pos() <= final(self).pos(),
            match r {
                Ok(_) => spec_expect_keyword(old(self).toks(), old(self).pos(), keyword) == Ok::<
                    _,
                    SpecParseError,
                >(final(self).pos()),
                Err(e) => spec_expect_keyword(old(self).toks(), old(self).pos(), keyword)
                    == Err::<nat, _>(e@),
            },
    {
        match self.advance() {
            None => Err(ParseError::UnexpectedEnd),
            Some(t) => match t {
                Token::Keyword(k) => {
                    if *k == keyword {
                        Ok(())
                    } else {
                        Err(ParseError::ExpectedKeyword(keyword_name(keyword)))
                    }
                },
                _ => Err(ParseError::ExpectedKeyword(keyword_name(keyword))),
            },
        }
    }

    /// Consumes the required identifier, yielding its text.
    fn expect_identifier(&mut self) -> (r: Result<String, ParseError>)
        requires
            old(self).wf(),
        ensures
            final(self).toks() == old(self).toks(),
            final(self).wf(),
            old(self).pos() <= final(self).pos(),
            match r {
                Ok(name) => spec_expect_identifier(old(self).toks(), old(self).pos()) == Ok::<
                    _,
                    SpecParseError,
                >((name@, final(self).pos())),
                Err(e) => spec_expect_identifier(old(self).toks(), old(self).pos()) == Err::<
                    (Seq<char>, nat),
                    _,
                >(e@),
            },
    {
        match self.advance() {
            None => Err(ParseError::UnexpectedEnd),
            Some(t) => match t {
                Token::Identifier(name) => Ok(name.clone()),
                _ => Err(ParseError::ExpectedIdentifier),
            },
        }
    }

    /// Consumes the required opening parenthesis.
    fn expect_left_paren(&mut self) -> (r: Result<(), ParseError>)
        requires
            old(self).wf(),
        ensures
            final(self).toks() == old(self).toks(),
            final(self).wf(),
            old(self).pos() <= final(self).pos(),
            match r {
                Ok(_) => spec_expect_left_paren(old(self).toks(), old(self).pos()) == Ok::<
                    _,
                    SpecParseError,
                >(final(self).pos()),
                Err(e) => spec_expect_left_paren(old(self).toks(), old(self).pos()) == Err::<
                    nat,
                    _,
                >(e@),
            },
    {
        match self.advance() {
            None => Err(ParseError::ExpectedToken("(".to_owned(), None)),
            Some(t) => match t {
                Token::LeftParen => Ok(()),
                _ => Err(ParseError::ExpectedToken("(".to_owned(), Some(token_dup(t)))),
            },
        }
    }

    /// Parses a single statement from the cursor onward, dispatching on
    /// the leading token; the cursor only moves forward.
    pub fn parse_statement(&mut self) -> (r: Result<Statement, ParseError>)
        requires
            old(self).wf(),
        ensures
            final(self).wf(),
            final(self).toks() == old(self).toks(),
            old(self).pos() <= final(self).pos(),
            match r {
                Ok(st) => spec_parse_statement_at(old(self).toks(), old(self).pos()) == Ok::<
                    _,
                    SpecParseError,
                >(st@),
                Err(e) => spec_parse_statement_at(old(self).toks(), old(self).pos()) == Err::<
                    SpecStatement,
                    _,
                >(e@),
            },
    {
        let toks = self.tokens;
        if self.position >= toks.len() {
            return Err(ParseError::General("Empty input".to_owned()));
        }
        let t = &toks[self.position];
        match t {
            Token::Keyword(Keyword::Select) => self.parse_select(),
            Token::Keyword(Keyword::Create) => self.parse_create_table(),
            Token::Keyword(Keyword::Insert) => self.parse_insert(),
            Token::Eof => Err(ParseError::General("Empty input".to_owned())),
            _ => Err(ParseError::UnknownStartOfStatement(token_desc(t))),
        }
    }

    /// The `SELECT` grammar, from the `SELECT` keyword under the cursor.
    fn parse_select(&mut self) -> (r: Result<Statement, ParseError>)
        requires
            old(self).wf(),
            old(self).pos() < old(self).toks().len(),
            old(self).toks()[old(self).pos() as int] == SpecTok::Keyword(Keyword::Select),
        ensures
            final(self).wf(),
            final(self).toks() == old(self).toks(),
            old(self).pos() <= final(self).pos(),
            match r {
                Ok(st) => spec_parse_select(old(self).toks(), old(self).pos() + 1) == Ok::<
                    _,
                    SpecParseError,
                >(st@),
                Err(e) => spec_parse_select(old(self).toks(), old(self).pos() + 1) == Err::<
                    SpecStatement,
                    _,
                >(e@),
            },
    {
        let _ = self.advance();  // the SELECT keyword
        let mut columns: Vec<String> = Vec::new();
        proof {
            assert(columns.deep_view() =~= Seq::<Seq<char>>::empty());
        }
        let p1 = match select_columns(self.tokens, self.position, &mut columns) {
            Ok(p) => p,
            Err(e) => return Err(e),
        };
        self.position = p1;
        let table = match self.expect_identifier() {
            Ok(name) => name,
            Err(e) => return Err(e),
        };
        let mut selection: Option<Expression> = None;
        let has_where = match self.peek() {
            Some(t) => matches!(t, Token::Keyword(Keyword::Where)),
            None => false,
        };
        if has_where {
            let _ = self.advance();  // the WHERE keyword
            match parse_expression(self.tokens, self.position, LOWEST_POWER) {
                Ok((e, p)) => {
                    selection = Some(e);
                    self.position = p;
                },
                Err(m) => {
                    return Err(ParseError::InvalidExpression(m));
                },
            }
        }
        let has_order = match self.peek() {
            Some(t) => matches!(t, Token::Keyword(Keyword::Order)),
            None => false,
        };
        let mut order_by: Option<Vec<String>> = None;
        if has_order {
            let _ = self.advance();  // the ORDER keyword
            match self.expect_keyword(Keyword::By) {
                Ok(_) => {},
                Err(e) => return Err(e),
            }
            let mut ocols: Vec<String> = Vec::new();
            proof {
                assert(ocols.deep_view() =~= Seq::<Seq<char>>::empty());
            }
            let p2 = match order_columns(self.tokens, self.position, &mut ocols) {
                Ok(p) => p,
                Err(e) => return Err(e),
            };
            self.position = p2;
            order_by = Some(ocols);
        }
        Ok(Statement::Select { columns, table, selection, order_by })
    }

    /// The `CREATE TABLE` grammar, from the `CREATE` keyword under the
    /// cursor.
    fn parse_create_table(&mut self) -> (r: Result<Statement, ParseError>)
        requires
            old(self).wf(),
            old(self).pos() < old(self).toks().len(),
            old(self).toks()[old(self).pos() as int] == SpecTok::Keyword(Keyword::Create),
        ensures
            final(self).wf(),
            final(self).toks() == old(self).toks(),
            old(self).pos() <= final(self).pos(),
            match r {
                Ok(st) => spec_parse_create_table(old(self).toks(), old(self).pos() + 1) == Ok::<
                    _,
                    SpecParseError,
                >(st@),
                Err(e) => spec_parse_create_table(old(self).toks(), old(self).pos() + 1) == Err::<
                    SpecStatement,
                    _,
                >(e@),
            },
    {
        let _ = self.advance();  // the CREATE keyword
        match self.expect_keyword(Keyword::Table) {
            Ok(_) => {},
            Err(e) => return Err(e),
        }
        let table_name = match self.expect_identifier() {
            Ok(name) => name,
            Err(e) => return Err(e),
        };
        match self.expect_left_paren() {
            Ok(_) => {},
            Err(e) => return Err(e),
        }
        let mut columns: Vec<ColumnDef> = Vec::new();
        proof {
            assert(columns.deep_view() =~= Seq::<SpecColumnDef>::empty());
        }
        let p = match column_defs(self.tokens, self.position, &mut columns) {
            Ok(p) => p,
            Err(e) => return Err(e),
        };
        self.position = p;
        Ok(Statement::CreateTable { table_name, columns })
    }

    /// The `INSERT INTO` grammar, from the `INSERT` keyword under the
    /// cursor.
    fn parse_insert(&mut self) -> (r: Result<Statement, ParseError>)
        requires
            old(self).wf(),
            old(self).pos() < old(self).toks().len(),
            old(self).toks()[old(self).pos() as int] == SpecTok::Keyword(Keyword::Insert),
        ensures
            final(self).wf(),
            final(self).toks() == old(self).toks(),
            old(self).pos() <= final(self).pos(),
            match r {
                Ok(st) => spec_parse_insert(old(self).toks(), old(self).pos() + 1) == Ok::<
                    _,
                    SpecParseError,
                >(st@),
                Err(e) => spec_parse_insert(old(self).toks(), old(self).pos() + 1) == Err::<
                    SpecStatement,
                    _,
                >(e@),
            },
    {
        let _ = self.advance();  // the INSERT keyword
        match self.expect_keyword(Keyword::Into) {
            Ok(_) => {},
            Err(e) => return Err(e),
        }
        let table_name = match self.expect_identifier() {
            Ok(name) => name,
            Err(e) => return Err(e),
        };
        match self.expect_left_paren() {
            Ok(_) => {},
            Err(e) => return Err(e),
        }
        let mut columns: Vec<String> = Vec::new();
        proof {
            assert(columns.deep_view() =~= Seq::<Seq<char>>::empty());
        }
        let p1 = match name_list(self.tokens, self.position, &mut columns) {
            Ok(p) => p,
            Err(e) => return Err(e),
        };
        self.position = p1;
        match self.expect_keyword(Keyword::Values) {
            Ok(_) => {},
            Err(e) => return Err(e),
        }
        match self.expect_left_paren() {
            Ok(_) => {},
            Err(e) => return Err(e),
        }
        let mut values: Vec<Expression> = Vec::new();
        proof {
            assert(values.deep_view() =~= Seq::<SpecExpr>::empty());
        }
        let p2 = match value_list(self.tokens, self.position, &mut values) {
            Ok(p) => p,
            Err(e) => return Err(e),
        };
        self.position = p2;
        Ok(Statement::Insert { table_name, columns, values })
    }
}

} // verus!
