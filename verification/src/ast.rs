//! The parsed-program values the symbol-table passes walk.
//!
//! The builder only reads identifier names, type tags, storage qualifiers
//! and the nesting of statements and expressions, so the program model
//! holds exactly those as plain values.

use vstd::prelude::*;

verus! {

/// The type written in a variable declaration.
#[derive(Debug, Clone, Copy, PartialEq, Eq, Structural)]
pub enum Type {
    String,
    Uint256,
    Int256,
    Bytes32,
    Bool,
    Bytes,
    Address,
}

/// An explicit storage or memory qualifier in a declaration.
#[derive(Debug, Clone, Copy, PartialEq, Eq, Structural)]
pub enum Specifier {
    Storage,
    Memory,
}

/// A statement of the source language.
#[derive(Debug, PartialEq)]
pub enum Statement {
    /// A bare expression statement.
    Expression { expression: Expression },
    /// A function declaration with its parameter list and body block.
    FunctionStatement { function_name: String, parameters: Vec<Statement>, statement: Box<Statement> },
    /// A contract declaration with its member list.
    ContractStatement { contract_name: String, members: Box<Statement> },
    /// A variable declaration, optionally qualified and initialized.
    InitializerStatement {
        variable_type: Type,
        data_location: Option<Specifier>,
        variable: String,
        default: Option<Expression>,
    },
    /// A `{ ... }` block with an optional trailing value expression.
    CompoundStatement { statements: Vec<Statement>, return_value: Option<Expression> },
    /// The member list of a contract body.
    MemberStatement { statements: Vec<Statement> },
}

/// An expression of the source language.
#[derive(Debug, PartialEq)]
pub enum Expression {
    /// An assignment; both sides are visited for identifier references.
    AssignExpression { left: Box<Expression>, right: Box<Expression> },
    /// A conditional `c ? a : b` expression.
    TernaryExpression { condition: Box<Expression>, expr1: Box<Expression>, expr2: Box<Expression> },
    /// A binary operation; the operator itself carries no names.
    BinaryExpression { left: Box<Expression>, right: Box<Expression> },
    /// A call with its target expression and argument list.
    FunctionCallExpression { function_name: Box<Expression>, arguments: Vec<Expression> },
    /// An `if`/`else`, each branch a block in a scope of its own.
    IfExpression {
        condition: Box<Expression>,
        if_statement: Box<Statement>,
        else_statement: Option<Box<Statement>>,
    },
    /// A `for`-each loop over a named collection, with an optional else block.
    ForEachExpression {
        iterator: Box<Expression>,
        vector: String,
        statement: Box<Statement>,
        else_statement: Option<Box<Statement>>,
    },
    /// A unary operation.
    UnaryExpression { expression: Box<Expression> },
    /// A numeric literal; its value plays no part in symbol tables.
    Number { value: u128 },
    /// A bare identifier reference.
    Identifier { value: String },
}

/// A whole parsed program.
#[derive(Debug, PartialEq)]
pub enum Program {
    GlobalStatements(Vec<Statement>),
}

} // verus!
