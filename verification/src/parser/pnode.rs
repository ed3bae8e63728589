//! The nodes that the parser builds from tokens.
use crate::ast::expression::{BinaryOperator, Expression, UnaryOperator};
use crate::ast::statement::{Bind, Mutate, Statement};
use crate::lexer::tokens::Lex;
use crate::parser::context::ParserContext;
use crate::parser::error::ParserError;
use crate::stringtable::StringId;
use vstd::prelude::*;

verus! {

/// An expression as the parser builds it.
pub type PNode = Expression<ParserContext>;

/// The unary operator that a word stands for.
pub open spec fn unary_operator_of(op: Lex) -> Option<UnaryOperator> {
    match op {
        Lex::Minus => Some(UnaryOperator::Negate),
        Lex::Not => Some(UnaryOperator::Not),
        _ => None,
    }
}

/// The binary operator that a word stands for.
pub open spec fn binary_operator_of(op: Lex) -> Option<BinaryOperator> {
    match op {
        Lex::Eq => Some(BinaryOperator::Eq),
        Lex::NEq => Some(BinaryOperator::NEq),
        Lex::Ls => Some(BinaryOperator::Ls),
        Lex::LsEq => Some(BinaryOperator::LsEq),
        Lex::Gr => Some(BinaryOperator::Gr),
        Lex::GrEq => Some(BinaryOperator::GrEq),
        Lex::BAnd => Some(BinaryOperator::BAnd),
        Lex::BOr => Some(BinaryOperator::BOr),
        Lex::Add => Some(BinaryOperator::Add),
        Lex::Minus => Some(BinaryOperator::Sub),
        Lex::Mul => Some(BinaryOperator::Mul),
        Lex::Div => Some(BinaryOperator::Div),
        _ => None,
    }
}

impl PNode {
    /// The resumption of the coroutine that `coroutine_value` computes.
    pub fn new_yield(ctx: ParserContext, coroutine_value: Box<Self>) -> (r: Self)
        ensures
            r == Expression::Yield(ctx, coroutine_value),
    {
        Expression::Yield(ctx, coroutine_value)
    }

    /// The binding of the value of `exp` to the name that `id` declares.
    /// Fails where `id` is no declaration of a name with its type.
    pub fn new_bind(ctx: ParserContext, id: Box<Self>, mutable: bool, exp: Box<Self>) -> (r:
        Result<Statement<ParserContext>, ParserError>)
        ensures
            match *id {
                Expression::IdentifierDeclare(_, name, ty) => r is Ok && r->Ok_0@
                    == Statement::Bind(
                    Box::new(Bind { metadata: ctx, id: name, ty, mutable, rhs: *exp }),
                )@,
                _ => r == Err::<Statement<ParserContext>, ParserError>(
                    ParserError::ExpectedTypeInIdDecl,
                ),
            },
    {
        match *id {
            Expression::IdentifierDeclare(_, name, ty) => Ok(
                Statement::Bind(Box::new(Bind::new(ctx, name, ty, mutable, *exp))),
            ),
            _ => Err(ParserError::ExpectedTypeInIdDecl),
        }
    }

    /// The assignment of the value of `exp` to the variable `id`.
    pub fn new_mutate(ctx: ParserContext, id: StringId, exp: Box<Self>) -> (r: Result<
        Statement<ParserContext>,
        ParserError,
    >)
        ensures
            r == Ok::<Statement<ParserContext>, ParserError>(
                Statement::Mutate(Box::new(Mutate { metadata: ctx, id, rhs: *exp })),
            ),
    {
        Ok(Statement::Mutate(Box::new(Mutate::new(ctx, id, *exp))))
    }

    /// The operation that applies the unary operator `op` to `operand`.
    /// Fails where the word is no unary operator.
    pub fn unary_op(ctx: ParserContext, op: &Lex, operand: Box<Self>) -> (r: Result<
        Self,
        ParserError,
    >)
        ensures
            match unary_operator_of(*op) {
                Some(o) => r == Ok::<Self, ParserError>(Expression::UnaryOp(ctx, o, operand)),
                None => r == Err::<Self, ParserError>(ParserError::NotAUnaryOp(*op)),
            },
    {
        match op {
            Lex::Minus => Ok(Expression::UnaryOp(ctx, UnaryOperator::Negate, operand)),
            Lex::Not => Ok(Expression::UnaryOp(ctx, UnaryOperator::Not, operand)),
            _ => Err(ParserError::NotAUnaryOp(*op)),
        }
    }

    /// The operation that applies the binary operator `op` to `left` and
    /// `right`.  Fails where the word is no binary operator.
    pub fn binary_op(ctx: ParserContext, op: &Lex, left: Box<Self>, right: Box<Self>) -> (r:
        Result<Self, ParserError>)
        ensures
            match binary_operator_of(*op) {
                Some(o) => r == Ok::<Self, ParserError>(Expression::BinaryOp(ctx, o, left, right)),
                None => r == Err::<Self, ParserError>(ParserError::NotABinaryOp(*op)),
            },
    {
        let operator = match op {
            Lex::Eq => BinaryOperator::Eq,
            Lex::NEq => BinaryOperator::NEq,
            Lex::Ls => BinaryOperator::Ls,
            Lex::LsEq => BinaryOperator::LsEq,
            Lex::Gr => BinaryOperator::Gr,
            Lex::GrEq => BinaryOperator::GrEq,
            Lex::BAnd => BinaryOperator::BAnd,
            Lex::BOr => BinaryOperator::BOr,
            Lex::Add => BinaryOperator::Add,
            Lex::Minus => BinaryOperator::Sub,
            Lex::Mul => BinaryOperator::Mul,
            Lex::Div => BinaryOperator::Div,
            _ => {
                return Err(ParserError::NotABinaryOp(*op));
            },
        };
        Ok(Expression::BinaryOp(ctx, operator, left, right))
    }
}

} // verus!
