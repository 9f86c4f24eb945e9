//! A verified front end for a small SQL dialect.
//!
//! A line of text is tokenized into a finite token sequence ending in a
//! single end-of-input marker, and the token sequence is parsed by
//! recursive descent (with precedence climbing for expressions) into a
//! typed abstract syntax tree.  Every stage is specified by spec-level
//! models of the scanner and the grammar, and the executable code is
//! proved to return exactly what those models say.

use vstd::prelude::*;
use vstd::string::*;

pub mod ast;
pub mod laws;
pub mod parser;
pub mod pratt;
pub mod tokenizer;

use crate::tokenizer::{spec_token_desc, token_desc, SpecTok, Token};

verus! {

/// Why a parse failed: one variant per way the grammar can reject its
/// input.
#[derive(Debug, PartialEq)]
pub enum ParseError {
    /// A required token was needed but the sequence was exhausted.
    UnexpectedEnd,
    /// The named keyword was required and something else stood there.
    ExpectedKeyword(String),
    /// An identifier was required and something else stood there.
    ExpectedIdentifier,
    /// The expression parser failed, with its description of the fault.
    InvalidExpression(String),
    /// The leading token starts none of the supported statements.
    UnknownStartOfStatement(String),
    /// The described non-keyword token was required; the second field
    /// holds what stood there instead, if anything did.
    ExpectedToken(String, Option<Token>),
    /// A token appeared where none of the grammar's alternatives apply.
    UnexpectedToken(Token),
    /// A grammar-specific contextual failure, described in plain words.
    General(String),
}

/// The spec-level model of a [`ParseError`].
pub enum SpecParseError {
    UnexpectedEnd,
    ExpectedKeyword(Seq<char>),
    ExpectedIdentifier,
    InvalidExpression(Seq<char>),
    UnknownStartOfStatement(Seq<char>),
    ExpectedToken(Seq<char>, Option<SpecTok>),
    UnexpectedToken(SpecTok),
    General(Seq<char>),
}

impl View for ParseError {
    type V = SpecParseError;

    open spec fn view(&self) -> SpecParseError {
        match self {
            ParseError::UnexpectedEnd => SpecParseError::UnexpectedEnd,
            ParseError::ExpectedKeyword(k) => SpecParseError::ExpectedKeyword(k@),
            ParseError::ExpectedIdentifier => SpecParseError::ExpectedIdentifier,
            ParseError::InvalidExpression(m) => SpecParseError::InvalidExpression(m@),
            ParseError::UnknownStartOfStatement(d) => SpecParseError::UnknownStartOfStatement(d@),
            ParseError::ExpectedToken(d, t) => SpecParseError::ExpectedToken(d@, t.deep_view()),
            ParseError::UnexpectedToken(t) => SpecParseError::UnexpectedToken(t@),
            ParseError::General(m) => SpecParseError::General(m@),
        }
    }
}

/// The rendered message of an error.
pub open spec fn spec_error_message(e: SpecParseError) -> Seq<char> {
    match e {
        SpecParseError::UnexpectedEnd => "Unexpected end of input"@,
        SpecParseError::ExpectedKeyword(k) => "Expected keyword: "@ + k,
        SpecParseError::ExpectedIdentifier => "Expected an identifier"@,
        SpecParseError::InvalidExpression(m) => "Invalid expression: "@ + m,
        SpecParseError::UnknownStartOfStatement(d) => "Unknown start of statement: "@ + d,
        SpecParseError::ExpectedToken(d, t) => match t {
            Some(t) => "Expected token: "@ + d + ", but found: "@ + spec_token_desc(t),
            None => "Expected token: "@ + d + ", but found end of input"@,
        },
        SpecParseError::UnexpectedToken(t) => "Unexpected token: "@ + spec_token_desc(t),
        SpecParseError::General(m) => "Error: "@ + m,
    }
}

impl ParseError {
    /// The error rendered as one line of text, for display by a caller.
    pub fn message(&self) -> (r: String)
        ensures
            r@ == spec_error_message(self@),
    {
        match self {
            ParseError::UnexpectedEnd => "Unexpected end of input".to_owned(),
            ParseError::ExpectedKeyword(k) => {
                let mut m = "Expected keyword: ".to_owned();
                m.append(k.as_str());
                m
            },
            ParseError::ExpectedIdentifier => "Expected an identifier".to_owned(),
            ParseError::InvalidExpression(d) => {
                let mut m = "Invalid expression: ".to_owned();
                m.append(d.as_str());
                m
            },
            ParseError::UnknownStartOfStatement(d) => {
                let mut m = "Unknown start of statement: ".to_owned();
                m.append(d.as_str());
                m
            },
            ParseError::ExpectedToken(d, t) => {
                let mut m = "Expected token: ".to_owned();
                m.append(d.as_str());
                match t {
                    Some(t) => {
                        m.append(", but found: ");
                        let td = token_desc(t);
                        m.append(td.as_str());
                    },
                    None => {
                        m.append(", but found end of input");
                    },
                }
                m
            },
            ParseError::UnexpectedToken(t) => {
                let mut m = "Unexpected token: ".to_owned();
                let td = token_desc(t);
                m.append(td.as_str());
                m
            },
            ParseError::General(d) => {
                let mut m = "Error: ".to_owned();
                m.append(d.as_str());
                m
            },
        }
    }
}

} // verus!
