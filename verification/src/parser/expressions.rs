//! The parser of expressions.
use crate::ast::expression::{
    expressions_view, named_expressions_view, BinaryOperator, Expression, RoutineCall,
    UnaryOperator,
};
use crate::ast::path::Element;
use crate::ast::statement::statements_view;
use crate::lexer::tokens::{Lex, Token};
use crate::parser::error::ParserError;
use crate::parser::grammar::{
    arguments, array, binary, block, conditional, creation, expression, factor, fields, literal,
    parenthesized, postfix, postfix_rest, precedence, reference, remaining, resumption, some,
    statements,
    unary, while_loop, Parsed, ParsedStatement, Step,
};
use crate::parser::parser::{Parser, ParserResult};
use crate::parser::pnode::{binary_operator_of, PNode};
use crate::stringtable::StringId;
use vstd::prelude::*;

verus! {

/// The step that a reader of an optional expression has made.
pub open spec fn step_optional_expression(r: ParserResult<Option<PNode>>, pos: int) -> Step<
    Option<Parsed>,
> {
    Step {
        result: match r {
            Ok(Some(e)) => Ok(Some(e@)),
            Ok(None) => Ok(None),
            Err(e) => Err(e@),
        },
        pos,
    }
}

/// The step that a reader of an expression has made.
pub open spec fn step_expression(r: ParserResult<PNode>, pos: int) -> Step<Parsed> {
    Step {
        result: match r {
            Ok(e) => Ok(e@),
            Err(e) => Err(e@),
        },
        pos,
    }
}

/// The step that a reader of a list of expressions has made.
pub open spec fn step_expressions(r: ParserResult<Vec<PNode>>, pos: int) -> Step<Seq<Parsed>> {
    Step {
        result: match r {
            Ok(es) => Ok(expressions_view(es)),
            Err(e) => Err(e@),
        },
        pos,
    }
}

/// The step that a reader of a list of named expressions has made.
pub open spec fn step_fields(r: ParserResult<Vec<(StringId, PNode)>>, pos: int) -> Step<
    Seq<(StringId, Parsed)>,
> {
    Step {
        result: match r {
            Ok(es) => Ok(named_expressions_view(es)),
            Err(e) => Err(e@),
        },
        pos,
    }
}

/// The level and the operator of a word that is a binary operator.
fn operator(op: Lex) -> (r: Option<(u8, BinaryOperator)>)
    ensures
        match r {
            Some((level, o)) => precedence(op) == Some(level as int) && binary_operator_of(op)
                == Some(o),
            None => precedence(op) is None,
        },
{
    match op {
        Lex::BOr => Some((0, BinaryOperator::BOr)),
        Lex::BAnd => Some((1, BinaryOperator::BAnd)),
        Lex::Eq => Some((2, BinaryOperator::Eq)),
        Lex::NEq => Some((2, BinaryOperator::NEq)),
        Lex::Ls => Some((2, BinaryOperator::Ls)),
        Lex::LsEq => Some((2, BinaryOperator::LsEq)),
        Lex::Gr => Some((2, BinaryOperator::Gr)),
        Lex::GrEq => Some((2, BinaryOperator::GrEq)),
        Lex::Add => Some((3, BinaryOperator::Add)),
        Lex::Minus => Some((3, BinaryOperator::Sub)),
        Lex::Mul => Some((4, BinaryOperator::Mul)),
        Lex::Div => Some((4, BinaryOperator::Div)),
        _ => None,
    }
}

impl<'a> Parser<'a> {
    /// An empty list of expressions.
    pub(crate) fn no_expressions(&self) -> (r: Vec<PNode>)
        ensures
            expressions_view(r) == Seq::<Parsed>::empty(),
    {
        let r = Vec::new();
        assert(expressions_view(r) =~= Seq::<Parsed>::empty());
        r
    }

    /// Reads an expression, if the tokens start with one.
    pub fn expression(&mut self) -> (r: ParserResult<Option<PNode>>)
        ensures
            final(self).tokens() == old(self).tokens(),
            old(self).pos() <= final(self).pos(),
            expression(old(self).tokens(), old(self).pos())
                == step_optional_expression(r, final(self).pos()),
            r matches Ok(Some(_)) ==> old(self).pos() < final(self).pos(),
            r matches Ok(None) ==> old(self).pos() == final(self).pos(),
        decreases remaining(old(self).tokens(), old(self).pos()), 20nat,
    {
        proof {
            reveal(expression);
            reveal(binary);
        }
        self.binary(0)
    }

    /// Reads an operation of the binary operators that bind as tightly as
    /// `level`, or one that binds more tightly.
    pub(crate) fn binary(&mut self, level: u8) -> (r: ParserResult<Option<PNode>>)
        ensures
            final(self).tokens() == old(self).tokens(),
            old(self).pos() <= final(self).pos(),
            binary(old(self).tokens(), old(self).pos(), level as int)
                == step_optional_expression(r, final(self).pos()),
            r matches Ok(Some(_)) ==> old(self).pos() < final(self).pos(),
            r matches Ok(None) ==> old(self).pos() == final(self).pos(),
        decreases remaining(old(self).tokens(), old(self).pos()),
            (if level < 5 {
                19 - level
            } else {
                14
            }) as nat,
    {
        proof {
            reveal(binary);
            reveal(unary);
        }
        if level >= 5 {
            return self.unary();
        }
        let start = self.mark();
        let left = match self.binary(level + 1) {
            Err(e) => {
                return Err(e);
            },
            Ok(None) => {
                return Ok(None);
            },
            Ok(Some(l)) => l,
        };
        let word = match self.peek() {
            Some(t) => t.s,
            None => {
                return Ok(Some(left));
            },
        };
        let op = match operator(word) {
            Some((l, op)) => {
                if l != level {
                    return Ok(Some(left));
                }
                op
            },
            None => {
                return Ok(Some(left));
            },
        };
        self.advance();
        match self.binary(level) {
            Err(e) => Err(e),
            Ok(None) => Err(self.error(ParserError::ExpectedExprAfter(word))),
            Ok(Some(right)) => {
                let ctx = self.ctx(start);
                Ok(Some(Expression::BinaryOp(ctx, op, Box::new(left), Box::new(right))))
            },
        }
    }

    /// Reads the application of a unary operator, or an operand.
    pub(crate) fn unary(&mut self) -> (r: ParserResult<Option<PNode>>)
        ensures
            final(self).tokens() == old(self).tokens(),
            old(self).pos() <= final(self).pos(),
            unary(old(self).tokens(), old(self).pos())
                == step_optional_expression(r, final(self).pos()),
            r matches Ok(Some(_)) ==> old(self).pos() < final(self).pos(),
            r matches Ok(None) ==> old(self).pos() == final(self).pos(),
        decreases remaining(old(self).tokens(), old(self).pos()), 13nat,
    {
        proof {
            reveal(unary);
            reveal(postfix);
        }
        let start = self.mark();
        let word = match self.peek() {
            Some(t) => t.s,
            None => {
                return self.postfix();
            },
        };
        let op = match word {
            Lex::Minus => UnaryOperator::Negate,
            Lex::Not => UnaryOperator::Not,
            _ => {
                return self.postfix();
            },
        };
        self.advance();
        match self.unary() {
            Err(e) => Err(e),
            Ok(None) => Err(self.error(ParserError::ExpectedTermAfter(word))),
            Ok(Some(operand)) => {
                let ctx = self.ctx(start);
                Ok(Some(Expression::UnaryOp(ctx, op, Box::new(operand))))
            },
        }
    }

    /// Reads a factor and the accesses to members and to elements that
    /// follow it.
    pub(crate) fn postfix(&mut self) -> (r: ParserResult<Option<PNode>>)
        ensures
            final(self).tokens() == old(self).tokens(),
            old(self).pos() <= final(self).pos(),
            postfix(old(self).tokens(), old(self).pos())
                == step_optional_expression(r, final(self).pos()),
            r matches Ok(Some(_)) ==> old(self).pos() < final(self).pos(),
            r matches Ok(None) ==> old(self).pos() == final(self).pos(),
        decreases remaining(old(self).tokens(), old(self).pos()), 12nat,
    {
        proof {
            reveal(postfix);
            reveal(postfix_rest);
            reveal(factor);
            reveal(expression);
        }
        let start = self.mark();
        let mut e = match self.factor() {
            Err(e) => {
                return Err(e);
            },
            Ok(None) => {
                return Ok(None);
            },
            Ok(Some(e)) => e,
        };
        loop
            invariant
                self.tokens() == old(self).tokens(),
                old(self).pos() < self.pos(),
                start == old(self).pos(),
                postfix(old(self).tokens(), old(self).pos()) == some(
                    postfix_rest(self.tokens(), start as int, self.pos(), e@),
                ),
            decreases remaining(self.tokens(), self.pos()),
        {
            proof {
                reveal(postfix);
                reveal(postfix_rest);
                reveal(factor);
                reveal(expression);
            }
            if self.accept(Lex::MemberAccess) {
                match self.peek() {
                    Some(Token { s: Lex::Identifier(member), .. }) => {
                        self.advance();
                        let ctx = self.ctx(start);
                        e = Expression::MemberAccess(ctx, Box::new(e), member);
                    },
                    _ => {
                        return Err(self.error(ParserError::MemberAccessExpectedField));
                    },
                }
            } else if self.accept(Lex::LBracket) {
                let index = match self.expression() {
                    Err(e) => {
                        return Err(e);
                    },
                    Ok(None) => {
                        return Err(self.error(ParserError::IndexOpInvalidExpr));
                    },
                    Ok(Some(i)) => i,
                };
                match self.expect(Lex::RBracket) {
                    Ok(_) => {},
                    Err(e) => {
                        return Err(e);
                    },
                }
                let ctx = self.ctx(start);
                e = Expression::ArrayAt { context: ctx, array: Box::new(e),
                    index: Box::new(index) };
            } else {
                return Ok(Some(e));
            }
        }
    }

    /// Reads one of the smallest expressions.
    pub(crate) fn factor(&mut self) -> (r: ParserResult<Option<PNode>>)
        ensures
            final(self).tokens() == old(self).tokens(),
            old(self).pos() <= final(self).pos(),
            factor(old(self).tokens(), old(self).pos())
                == step_optional_expression(r, final(self).pos()),
            r matches Ok(Some(_)) ==> old(self).pos() < final(self).pos(),
            r matches Ok(None) ==> old(self).pos() == final(self).pos(),
        decreases remaining(old(self).tokens(), old(self).pos()), 11nat,
    {
        proof {
            reveal(factor);
            reveal(parenthesized);
            reveal(block);
            reveal(conditional);
            reveal(while_loop);
            reveal(resumption);
            reveal(creation);
            reveal(array);
            reveal(reference);
        }
        let word = match self.peek() {
            Some(t) => t.s,
            None => {
                return Ok(None);
            },
        };
        match word {
            Lex::LParen => self.parenthesized(),
            Lex::LBrace => self.block(),
            Lex::If => match self.conditional() {
                Ok(e) => Ok(Some(e)),
                Err(e) => Err(e),
            },
            Lex::While => self.while_loop(),
            Lex::Yield => self.resumption(),
            Lex::Init => self.creation(),
            Lex::LBracket => self.array(),
            Lex::Identifier(_)
            | Lex::PathProjectRoot
            | Lex::PathFileRoot
            | Lex::PathSelf
            | Lex::PathSuper
            | Lex::PathSeparator => self.reference(),
            _ => self.literal(),
        }
    }

    /// Reads a literal.
    pub(crate) fn literal(&mut self) -> (r: ParserResult<Option<PNode>>)
        ensures
            final(self).tokens() == old(self).tokens(),
            old(self).pos() <= final(self).pos(),
            literal(old(self).tokens(), old(self).pos())
                == step_optional_expression(r, final(self).pos()),
            r matches Ok(Some(_)) ==> old(self).pos() < final(self).pos(),
            r matches Ok(None) ==> old(self).pos() == final(self).pos(),
    {
        let start = self.mark();
        let word = match self.advance() {
            Some(t) => t.s,
            None => {
                return Ok(None);
            },
        };
        let ctx = self.ctx(start);
        let e = match word {
            Lex::U8(v) => Expression::U8(ctx, v),
            Lex::U16(v) => Expression::U16(ctx, v),
            Lex::U32(v) => Expression::U32(ctx, v),
            Lex::U64(v) => Expression::U64(ctx, v),
            Lex::I8(v) => Expression::I8(ctx, v),
            Lex::I16(v) => Expression::I16(ctx, v),
            Lex::I32(v) => Expression::I32(ctx, v),
            Lex::I64(v) => Expression::I64(ctx, v),
            Lex::Bool(v) => Expression::Boolean(ctx, v),
            Lex::StringLiteral(v) => Expression::StringLiteral(ctx, v),
            _ => {
                self.reset(start);
                return Ok(None);
            },
        };
        Ok(Some(e))
    }

    /// Reads an expression in parentheses.
    pub(crate) fn parenthesized(&mut self) -> (r: ParserResult<Option<PNode>>)
        ensures
            final(self).tokens() == old(self).tokens(),
            old(self).pos() <= final(self).pos(),
            parenthesized(old(self).tokens(), old(self).pos())
                == step_optional_expression(r, final(self).pos()),
            r matches Ok(Some(_)) ==> old(self).pos() < final(self).pos(),
            r matches Ok(None) ==> old(self).pos() == final(self).pos(),
        decreases remaining(old(self).tokens(), old(self).pos()), 10nat,
    {
        proof {
            reveal(parenthesized);
            reveal(expression);
        }
        if !self.accept(Lex::LParen) {
            return Ok(None);
        }
        match self.expression() {
            Err(e) => Err(e),
            Ok(None) => Err(self.error(ParserError::ExpectedExprAfter(Lex::LParen))),
            Ok(Some(e)) => self.closing(Lex::RParen, Some(e)),
        }
    }

    /// Reads a loop.
    pub(crate) fn while_loop(&mut self) -> (r: ParserResult<Option<PNode>>)
        ensures
            final(self).tokens() == old(self).tokens(),
            old(self).pos() <= final(self).pos(),
            while_loop(old(self).tokens(), old(self).pos())
                == step_optional_expression(r, final(self).pos()),
            r matches Ok(Some(_)) ==> old(self).pos() < final(self).pos(),
            r matches Ok(None) ==> old(self).pos() == final(self).pos(),
        decreases remaining(old(self).tokens(), old(self).pos()), 10nat,
    {
        proof {
            reveal(while_loop);
            reveal(expression);
            reveal(block);
        }
        let start = self.mark();
        if !self.accept(Lex::While) {
            return Ok(None);
        }
        self.expect(Lex::LParen)?;
        let cond = match self.expression()? {
            None => {
                return Err(self.error(ParserError::WhileExpectedConditional));
            },
            Some(c) => c,
        };
        self.expect(Lex::RParen)?;
        let body = match self.block()? {
            None => {
                return Err(self.error(ParserError::WhileMissingBody));
            },
            Some(b) => b,
        };
        let ctx = self.ctx(start);
        Ok(Some(Expression::While { context: ctx, cond: Box::new(cond), body: Box::new(body) }))
    }

    /// Reads the resumption of a coroutine.
    pub(crate) fn resumption(&mut self) -> (r: ParserResult<Option<PNode>>)
        ensures
            final(self).tokens() == old(self).tokens(),
            old(self).pos() <= final(self).pos(),
            resumption(old(self).tokens(), old(self).pos())
                == step_optional_expression(r, final(self).pos()),
            r matches Ok(Some(_)) ==> old(self).pos() < final(self).pos(),
            r matches Ok(None) ==> old(self).pos() == final(self).pos(),
        decreases remaining(old(self).tokens(), old(self).pos()), 10nat,
    {
        proof {
            reveal(resumption);
            reveal(expression);
        }
        let start = self.mark();
        if !self.accept(Lex::Yield) {
            return Ok(None);
        }
        match self.expression()? {
            None => Err(self.error(ParserError::YieldExpectedIdentifier)),
            Some(e) => {
                let ctx = self.ctx(start);
                Ok(Some(Expression::Yield(ctx, Box::new(e))))
            },
        }
    }

    /// Reads the creation of a coroutine.
    pub(crate) fn creation(&mut self) -> (r: ParserResult<Option<PNode>>)
        ensures
            final(self).tokens() == old(self).tokens(),
            old(self).pos() <= final(self).pos(),
            creation(old(self).tokens(), old(self).pos())
                == step_optional_expression(r, final(self).pos()),
            r matches Ok(Some(_)) ==> old(self).pos() < final(self).pos(),
            r matches Ok(None) ==> old(self).pos() == final(self).pos(),
        decreases remaining(old(self).tokens(), old(self).pos()), 10nat,
    {
        proof {
            reveal(creation);
            reveal(arguments);
        }
        let start = self.mark();
        if !self.accept(Lex::Init) {
            return Ok(None);
        }
        let target = match self.path()? {
            None => {
                return Err(self.error(ParserError::ExpectedIdAfterInit));
            },
            Some(p) => p,
        };
        if !self.accept(Lex::LParen) {
            return Err(self.error(ParserError::ExpectedParams));
        }
        let args = self.arguments(Lex::RParen, self.no_expressions())?;
        let ctx = self.ctx(start);
        Ok(Some(Expression::RoutineCall(ctx, RoutineCall::CoroutineInit, target, args)))
    }

    /// Reads the value of an array.
    pub(crate) fn array(&mut self) -> (r: ParserResult<Option<PNode>>)
        ensures
            final(self).tokens() == old(self).tokens(),
            old(self).pos() <= final(self).pos(),
            array(old(self).tokens(), old(self).pos())
                == step_optional_expression(r, final(self).pos()),
            r matches Ok(Some(_)) ==> old(self).pos() < final(self).pos(),
            r matches Ok(None) ==> old(self).pos() == final(self).pos(),
        decreases remaining(old(self).tokens(), old(self).pos()), 10nat,
    {
        proof {
            reveal(array);
            reveal(arguments);
        }
        let start = self.mark();
        if !self.accept(Lex::LBracket) {
            return Ok(None);
        }
        let elements = self.arguments(Lex::RBracket, self.no_expressions())?;
        let len = elements.len();
        let ctx = self.ctx(start);
        Ok(Some(Expression::ArrayExpression(ctx, elements, len)))
    }

    /// Reads what starts with a path: a call, a structure value, a name, or
    /// the path itself.
    pub(crate) fn reference(&mut self) -> (r: ParserResult<Option<PNode>>)
        ensures
            final(self).tokens() == old(self).tokens(),
            old(self).pos() <= final(self).pos(),
            reference(old(self).tokens(), old(self).pos())
                == step_optional_expression(r, final(self).pos()),
            r matches Ok(Some(_)) ==> old(self).pos() < final(self).pos(),
            r matches Ok(None) ==> old(self).pos() == final(self).pos(),
        decreases remaining(old(self).tokens(), old(self).pos()), 10nat,
    {
        proof {
            reveal(reference);
            reveal(arguments);
            reveal(fields);
        }
        let start = self.mark();
        let steps = match self.path()? {
            None => {
                return Ok(None);
            },
            Some(p) => p,
        };
        if self.accept(Lex::LParen) {
            let args = self.arguments(Lex::RParen, self.no_expressions())?;
            let ctx = self.ctx(start);
            return Ok(Some(Expression::RoutineCall(ctx, RoutineCall::Function, steps, args)));
        }
        if self.ahead(0, Lex::LBrace) && (self.ahead(1, Lex::RBrace) || (self.ahead(
            1,
            Lex::Identifier(StringId::new()),
        ) && self.ahead(2, Lex::Colon))) {
            self.advance();
            let values = Vec::new();
            assert(named_expressions_view(values) =~= Seq::<(StringId, Parsed)>::empty());
            let values = self.fields(values)?;
            let ctx = self.ctx(start);
            return Ok(Some(Expression::StructExpression(ctx, steps, values)));
        }
        let ctx = self.ctx(start);
        if steps.len() == 1 {
            match steps.get(0) {
                Some(Element::Id(id)) => {
                    return Ok(Some(Expression::Identifier(ctx, id)));
                },
                _ => {},
            }
        }
        Ok(Some(Expression::Path(ctx, steps)))
    }

    /// Reads expressions, separated by commas, up to the word `close`, and
    /// appends them to `done`.
    pub(crate) fn arguments(&mut self, close: Lex,
        done: Vec<PNode>) -> (r: ParserResult<Vec<PNode>>)
        ensures
            final(self).tokens() == old(self).tokens(),
            old(self).pos() <= final(self).pos(),
            arguments(old(self).tokens(), old(self).pos(), close, expressions_view(done))
                == step_expressions(r, final(self).pos()),
            r is Ok ==> old(self).pos() < final(self).pos(),
        decreases remaining(old(self).tokens(), old(self).pos()), 30nat,
    {
        proof {
            reveal(arguments);
            reveal(expression);
        }
        let mut args = done;
        loop
            invariant
                self.tokens() == old(self).tokens(),
                old(self).pos() <= self.pos(),
                arguments(old(self).tokens(), old(self).pos(), close, expressions_view(done))
                    == arguments(self.tokens(), self.pos(), close, expressions_view(args)),
            decreases remaining(self.tokens(), self.pos()),
        {
            proof {
                reveal(arguments);
                reveal(expression);
            }
            match self.expression() {
                Err(e) => {
                    return Err(e);
                },
                Ok(None) => {
                    return self.closing(close, args);
                },
                Ok(Some(e)) => {
                    let ghost before = expressions_view(args);
                    let ghost added = e@;
                    args.push(e);
                    assert(expressions_view(args) =~= before.push(added));
                    if !self.accept(Lex::Comma) {
                        return self.closing(close, args);
                    }
                },
            }
        }
    }

    /// Reads `name: value`, separated by commas, up to `}`, and appends the
    /// named values to `done`.
    pub(crate) fn fields(&mut self, done: Vec<(StringId, PNode)>) -> (r: ParserResult<
        Vec<(StringId, PNode)>,
    >)
        ensures
            final(self).tokens() == old(self).tokens(),
            old(self).pos() <= final(self).pos(),
            fields(old(self).tokens(), old(self).pos(), named_expressions_view(done))
                == step_fields(r, final(self).pos()),
            r is Ok ==> old(self).pos() < final(self).pos(),
        decreases remaining(old(self).tokens(), old(self).pos()), 30nat,
    {
        proof {
            reveal(fields);
            reveal(expression);
        }
        let mut values = done;
        loop
            invariant
                self.tokens() == old(self).tokens(),
                old(self).pos() <= self.pos(),
                fields(old(self).tokens(), old(self).pos(), named_expressions_view(done))
                    == fields(self.tokens(), self.pos(), named_expressions_view(values)),
            decreases remaining(self.tokens(), self.pos()),
        {
            proof {
                reveal(fields);
                reveal(expression);
            }
            let name = match self.peek() {
                Some(Token { s: Lex::Identifier(name), .. }) => name,
                _ => {
                    return self.closing(Lex::RBrace, values);
                },
            };
            self.advance();
            self.expect(Lex::Colon)?;
            let value = match self.expression()? {
                None => {
                    return Err(self.error(ParserError::StructExpectedFieldExpr(name)));
                },
                Some(e) => e,
            };
            let ghost before = named_expressions_view(values);
            let ghost added = (name, value@);
            values.push((name, value));
            assert(named_expressions_view(values) =~= before.push(added));
            if !self.accept(Lex::Comma) {
                return self.closing(Lex::RBrace, values);
            }
        }
    }

    /// Reads a block: statements and an optional last expression between
    /// braces.
    pub(crate) fn block(&mut self) -> (r: ParserResult<Option<PNode>>)
        ensures
            final(self).tokens() == old(self).tokens(),
            old(self).pos() <= final(self).pos(),
            block(old(self).tokens(), old(self).pos())
                == step_optional_expression(r, final(self).pos()),
            r matches Ok(Some(_)) ==> old(self).pos() < final(self).pos(),
            r matches Ok(None) ==> old(self).pos() == final(self).pos(),
        decreases remaining(old(self).tokens(), old(self).pos()), 10nat,
    {
        proof {
            reveal(block);
            reveal(statements);
            reveal(expression);
        }
        let start = self.mark();
        if !self.accept(Lex::LBrace) {
            return Ok(None);
        }
        let body = Vec::new();
        assert(statements_view(body) =~= Seq::<ParsedStatement>::empty());
        let body = self.statements(body)?;
        let last = match self.expression()? {
            Some(e) => Some(Box::new(e)),
            None => None,
        };
        self.expect(Lex::RBrace)?;
        let ctx = self.ctx(start);
        Ok(Some(Expression::ExpressionBlock(ctx, body, last)))
    }

    /// Reads a conditional, which starts with the next token.
    pub(crate) fn conditional(&mut self) -> (r: ParserResult<PNode>)
        ensures
            final(self).tokens() == old(self).tokens(),
            old(self).pos() <= final(self).pos(),
            conditional(old(self).tokens(), old(self).pos())
                == step_expression(r, final(self).pos()),
            r is Ok ==> old(self).pos() < final(self).pos(),
        decreases remaining(old(self).tokens(), old(self).pos()), 9nat,
    {
        proof {
            reveal(conditional);
            reveal(expression);
            reveal(block);
        }
        let start = self.mark();
        self.expect(Lex::If)?;
        self.expect(Lex::LParen)?;
        let cond = match self.expression()? {
            None => {
                return Err(self.error(ParserError::IfExpectedConditional));
            },
            Some(c) => c,
        };
        self.expect(Lex::RParen)?;
        let if_arm = match self.block()? {
            None => {
                return Err(self.error(ParserError::IfTrueArmMissingExpr));
            },
            Some(b) => b,
        };
        if !self.accept(Lex::Else) {
            let ctx = self.ctx(start);
            return Ok(
                Expression::If {
                    context: ctx,
                    cond: Box::new(cond),
                    if_arm: Box::new(if_arm),
                    else_arm: None,
                },
            );
        }
        let else_arm = if self.ahead(0, Lex::If) {
            self.conditional()?
        } else {
            match self.block()? {
                None => {
                    return Err(self.error(ParserError::IfFalseArmMissingExpr));
                },
                Some(b) => b,
            }
        };
        let ctx = self.ctx(start);
        Ok(
            Expression::If {
                context: ctx,
                cond: Box::new(cond),
                if_arm: Box::new(if_arm),
                else_arm: Some(Box::new(else_arm)),
            },
        )
    }
}

} // verus!
