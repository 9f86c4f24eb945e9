//! The abstract syntax tree handed to callers, and its spec-level model.
//!
//! Each executable type with text fields has a ghost counterpart whose
//! text is a `Seq<char>`; the `View` impls connect the two, and every
//! parser contract speaks of the ghost side.

use vstd::prelude::*;

verus! {

/// A single-operand operator in an expression.
#[derive(Debug, Clone, Copy, PartialEq, Eq, Structural)]
pub enum UnaryOperator {
    Not,
    Negate,
}

/// A two-operand operator in an expression.
#[derive(Debug, Clone, Copy, PartialEq, Eq, Structural)]
pub enum BinaryOperator {
    Equals,
    NotEquals,
    GreaterThan,
    GreaterThanOrEqual,
    LessThan,
    LessThanOrEqual,
    And,
    Or,
    Add,
    Subtract,
    Multiply,
    Divide,
}

/// A value or condition, as written in a `WHERE` clause or a formula.
#[derive(Debug, PartialEq)]
pub enum Expression {
    Identifier(String),
    Number(u64),
    StringLit(String),
    UnaryOperation { operator: UnaryOperator, operand: Box<Expression> },
    BinaryOperation {
        left_operand: Box<Expression>,
        operator: BinaryOperator,
        right_operand: Box<Expression>,
    },
    Boolean(bool),
    Null,
    Grouped(Box<Expression>),
}

/// The spec-level model of an [`Expression`]: text becomes `Seq<char>`.
pub enum SpecExpr {
    Identifier(Seq<char>),
    Number(u64),
    StringLit(Seq<char>),
    UnaryOperation { operator: UnaryOperator, operand: Box<SpecExpr> },
    BinaryOperation {
        left_operand: Box<SpecExpr>,
        operator: BinaryOperator,
        right_operand: Box<SpecExpr>,
    },
    Boolean(bool),
    Null,
    Grouped(Box<SpecExpr>),
}

/// The model of one expression tree, used by the `View` impl below.
pub open spec fn spec_expr_view(e: Expression) -> SpecExpr
    decreases e,
{
    match e {
        Expression::Identifier(s) => SpecExpr::Identifier(s@),
        Expression::Number(n) => SpecExpr::Number(n),
        Expression::StringLit(s) => SpecExpr::StringLit(s@),
        Expression::UnaryOperation { operator, operand } => SpecExpr::UnaryOperation {
            operator,
            operand: Box::new(spec_expr_view(*operand)),
        },
        Expression::BinaryOperation { left_operand, operator, right_operand } => {
            SpecExpr::BinaryOperation {
                left_operand: Box::new(spec_expr_view(*left_operand)),
                operator,
                right_operand: Box::new(spec_expr_view(*right_operand)),
            }
        },
        Expression::Boolean(b) => SpecExpr::Boolean(b),
        Expression::Null => SpecExpr::Null,
        Expression::Grouped(e) => SpecExpr::Grouped(Box::new(spec_expr_view(*e))),
    }
}

impl View for Expression {
    type V = SpecExpr;

    open spec fn view(&self) -> SpecExpr {
        spec_expr_view(*self)
    }
}

impl DeepView for Expression {
    type V = SpecExpr;

    open spec fn deep_view(&self) -> SpecExpr {
        self.view()
    }
}

/// The declared type of a column in `CREATE TABLE`.
#[derive(Debug, Clone, Copy, PartialEq, Eq, Structural)]
pub enum DataType {
    Int,
    Varchar(u64),
    Boolean,
}

/// One column declaration in `CREATE TABLE`: a name and its type.
#[derive(Debug, Clone, PartialEq)]
pub struct ColumnDef {
    pub name: String,
    pub data_type: DataType,
}

/// The spec-level model of a [`ColumnDef`].
pub struct SpecColumnDef {
    pub name: Seq<char>,
    pub data_type: DataType,
}

impl View for ColumnDef {
    type V = SpecColumnDef;

    open spec fn view(&self) -> SpecColumnDef {
        SpecColumnDef { name: self.name@, data_type: self.data_type }
    }
}

impl DeepView for ColumnDef {
    type V = SpecColumnDef;

    open spec fn deep_view(&self) -> SpecColumnDef {
        self.view()
    }
}

/// A complete parsed statement: one of the three supported grammars.
#[derive(Debug, PartialEq)]
pub enum Statement {
    Select {
        columns: Vec<String>,
        table: String,
        selection: Option<Expression>,
        order_by: Option<Vec<String>>,
    },
    CreateTable { table_name: String, columns: Vec<ColumnDef> },
    Insert { table_name: String, columns: Vec<String>, values: Vec<Expression> },
}

/// The spec-level model of a [`Statement`].
pub enum SpecStatement {
    Select {
        columns: Seq<Seq<char>>,
        table: Seq<char>,
        selection: Option<SpecExpr>,
        order_by: Option<Seq<Seq<char>>>,
    },
    CreateTable { table_name: Seq<char>, columns: Seq<SpecColumnDef> },
    Insert { table_name: Seq<char>, columns: Seq<Seq<char>>, values: Seq<SpecExpr> },
}

impl View for Statement {
    type V = SpecStatement;

    open spec fn view(&self) -> SpecStatement {
        match self {
            Statement::Select { columns, table, selection, order_by } => SpecStatement::Select {
                columns: columns.deep_view(),
                table: table@,
                selection: selection.deep_view(),
                order_by: order_by.deep_view(),
            },
            Statement::CreateTable { table_name, columns } => SpecStatement::CreateTable {
                table_name: table_name@,
                columns: columns.deep_view(),
            },
            Statement::Insert { table_name, columns, values } => SpecStatement::Insert {
                table_name: table_name@,
                columns: columns.deep_view(),
                values: values.deep_view(),
            },
        }
    }
}

impl DeepView for Statement {
    type V = SpecStatement;

    open spec fn deep_view(&self) -> SpecStatement {
        self.view()
    }
}

} // verus!
