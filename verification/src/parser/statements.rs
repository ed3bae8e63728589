//! The parser of statements.
use crate::ast::statement::{statements_view, Bind, Mutate, Return, Statement, YieldReturn};
use crate::lexer::tokens::{Lex, Token};
use crate::parser::context::ParserContext;
use crate::parser::error::ParserError;
use crate::parser::expressions::{step_expression, step_optional_expression};
use crate::parser::grammar::{
    assignment, binding, expression, optional_value_and_semicolon, remaining, returning,
    statement, statements, value_and_semicolon, yielding, Parsed, ParsedStatement, Step,
};
use crate::parser::parser::{Parser, ParserResult};
use crate::parser::pnode::PNode;
use vstd::prelude::*;

verus! {

/// The step that a reader of an optional statement has made.
pub open spec fn step_optional_statement(
    r: ParserResult<Option<Statement<ParserContext>>>,
    pos: int,
) -> Step<Option<ParsedStatement>> {
    Step {
        result: match r {
            Ok(Some(s)) => Ok(Some(s@)),
            Ok(None) => Ok(None),
            Err(e) => Err(e@),
        },
        pos,
    }
}

/// The step that a reader of a list of statements has made.
pub open spec fn step_statements(r: ParserResult<Vec<Statement<ParserContext>>>, pos: int) -> Step<
    Seq<ParsedStatement>,
> {
    Step {
        result: match r {
            Ok(ss) => Ok(statements_view(ss)),
            Err(e) => Err(e@),
        },
        pos,
    }
}

impl<'a> Parser<'a> {
    /// Reads the value of a statement and the semicolon that ends it.
    pub(crate) fn value_and_semicolon(&mut self, missing: ParserError) -> (r: ParserResult<PNode>)
        ensures
            final(self).tokens() == old(self).tokens(),
            old(self).pos() <= final(self).pos(),
            value_and_semicolon(old(self).tokens(), old(self).pos(), missing)
                == step_expression(r, final(self).pos()),
            r is Ok ==> old(self).pos() < final(self).pos(),
        decreases remaining(old(self).tokens(), old(self).pos()), 21nat,
    {
        proof {
            reveal(value_and_semicolon);
            reveal(expression);
        }
        match self.expression()? {
            None => Err(self.error(missing)),
            Some(e) => self.closing(Lex::Semicolon, e),
        }
    }

    /// Reads the optional value of a statement and the semicolon that ends
    /// it.
    pub(crate) fn optional_value_and_semicolon(&mut self) -> (r: ParserResult<Option<PNode>>)
        ensures
            final(self).tokens() == old(self).tokens(),
            old(self).pos() <= final(self).pos(),
            optional_value_and_semicolon(old(self).tokens(), old(self).pos())
                == step_optional_expression(r, final(self).pos()),
            r is Ok ==> old(self).pos() < final(self).pos(),
        decreases remaining(old(self).tokens(), old(self).pos()), 21nat,
    {
        proof {
            reveal(optional_value_and_semicolon);
            reveal(expression);
        }
        let value = self.expression()?;
        self.closing(Lex::Semicolon, value)
    }

    /// Reads a binding.
    pub(crate) fn binding(&mut self) -> (r: ParserResult<Option<Statement<ParserContext>>>)
        ensures
            final(self).tokens() == old(self).tokens(),
            old(self).pos() <= final(self).pos(),
            binding(old(self).tokens(), old(self).pos())
                == step_optional_statement(r, final(self).pos()),
            r matches Ok(Some(_)) ==> old(self).pos() < final(self).pos(),
            r matches Ok(None) ==> old(self).pos() == final(self).pos(),
        decreases remaining(old(self).tokens(), old(self).pos()), 28nat,
    {
        proof {
            reveal(binding);
            reveal(value_and_semicolon);
        }
        let start = self.mark();
        if !self.accept(Lex::Let) {
            return Ok(None);
        }
        let mutable = self.accept(Lex::Mut);
        let id = match self.peek() {
            Some(Token { s: Lex::Identifier(id), .. }) => id,
            _ => {
                return Err(self.error(ParserError::ExpectedIdDeclAfterLet));
            },
        };
        self.advance();
        self.expect(Lex::Colon)?;
        let ty = match self.ty()? {
            None => {
                return Err(self.error(ParserError::ExpectedTypeInIdDecl));
            },
            Some(t) => t,
        };
        self.expect(Lex::Assign)?;
        let rhs = self.value_and_semicolon(ParserError::ExpectedExpressionOnRhs)?;
        let ctx = self.ctx(start);
        Ok(Some(Statement::Bind(Box::new(Bind::new(ctx, id, ty, mutable, rhs)))))
    }

    /// Reads an assignment.
    pub(crate) fn assignment(&mut self) -> (r: ParserResult<Option<Statement<ParserContext>>>)
        ensures
            final(self).tokens() == old(self).tokens(),
            old(self).pos() <= final(self).pos(),
            assignment(old(self).tokens(), old(self).pos())
                == step_optional_statement(r, final(self).pos()),
            r matches Ok(Some(_)) ==> old(self).pos() < final(self).pos(),
            r matches Ok(None) ==> old(self).pos() == final(self).pos(),
        decreases remaining(old(self).tokens(), old(self).pos()), 28nat,
    {
        proof {
            reveal(assignment);
            reveal(value_and_semicolon);
        }
        let start = self.mark();
        if !self.ahead(0, Lex::Mut) || !self.ahead(2, Lex::Assign) {
            return Ok(None);
        }
        let id = match self.token_ahead(1) {
            Some(Token { s: Lex::Identifier(id), .. }) => id,
            _ => {
                return Ok(None);
            },
        };
        self.advance();
        self.advance();
        self.advance();
        let rhs = self.value_and_semicolon(ParserError::ExpectedExpressionOnRhs)?;
        let ctx = self.ctx(start);
        Ok(Some(Statement::Mutate(Box::new(Mutate::new(ctx, id, rhs)))))
    }

    /// Reads a return.
    pub(crate) fn returning(&mut self) -> (r: ParserResult<Option<Statement<ParserContext>>>)
        ensures
            final(self).tokens() == old(self).tokens(),
            old(self).pos() <= final(self).pos(),
            returning(old(self).tokens(), old(self).pos())
                == step_optional_statement(r, final(self).pos()),
            r matches Ok(Some(_)) ==> old(self).pos() < final(self).pos(),
            r matches Ok(None) ==> old(self).pos() == final(self).pos(),
        decreases remaining(old(self).tokens(), old(self).pos()), 28nat,
    {
        proof {
            reveal(returning);
            reveal(optional_value_and_semicolon);
        }
        let start = self.mark();
        if !self.accept(Lex::Return) {
            return Ok(None);
        }
        let value = self.optional_value_and_semicolon()?;
        let ctx = self.ctx(start);
        Ok(Some(Statement::Return(Box::new(Return::new(ctx, value)))))
    }

    /// Reads a yield return.
    pub(crate) fn yielding(&mut self) -> (r: ParserResult<Option<Statement<ParserContext>>>)
        ensures
            final(self).tokens() == old(self).tokens(),
            old(self).pos() <= final(self).pos(),
            yielding(old(self).tokens(), old(self).pos())
                == step_optional_statement(r, final(self).pos()),
            r matches Ok(Some(_)) ==> old(self).pos() < final(self).pos(),
            r matches Ok(None) ==> old(self).pos() == final(self).pos(),
        decreases remaining(old(self).tokens(), old(self).pos()), 28nat,
    {
        proof {
            reveal(yielding);
            reveal(optional_value_and_semicolon);
        }
        let start = self.mark();
        if !self.accept(Lex::YieldReturn) {
            return Ok(None);
        }
        let value = self.optional_value_and_semicolon()?;
        let ctx = self.ctx(start);
        Ok(Some(Statement::YieldReturn(Box::new(YieldReturn::new(ctx, value)))))
    }

    /// Reads a statement, if the tokens start with one.
    pub fn statement(&mut self) -> (r: ParserResult<Option<Statement<ParserContext>>>)
        ensures
            final(self).tokens() == old(self).tokens(),
            old(self).pos() <= final(self).pos(),
            statement(old(self).tokens(), old(self).pos())
                == step_optional_statement(r, final(self).pos()),
            r matches Ok(Some(_)) ==> old(self).pos() < final(self).pos(),
            r matches Ok(None) ==> old(self).pos() == final(self).pos(),
        decreases remaining(old(self).tokens(), old(self).pos()), 29nat,
    {
        proof {
            reveal(statement);
            reveal(binding);
            reveal(assignment);
            reveal(returning);
            reveal(yielding);
            reveal(expression);
        }
        let start = self.mark();
        match self.peek() {
            Some(Token { s: Lex::Let, .. }) => {
                return self.binding();
            },
            Some(Token { s: Lex::Mut, .. }) => {
                return self.assignment();
            },
            Some(Token { s: Lex::Return, .. }) => {
                return self.returning();
            },
            Some(Token { s: Lex::YieldReturn, .. }) => {
                return self.yielding();
            },
            _ => {},
        }
        match self.expression()? {
            Some(e) => {
                if self.accept(Lex::Semicolon) {
                    Ok(Some(Statement::Expression(Box::new(e))))
                } else {
                    self.reset(start);
                    Ok(None)
                }
            },
            None => Ok(None),
        }
    }

    /// Reads statements, as many as there are, and appends them to `done`.
    pub(crate) fn statements(&mut self, done: Vec<Statement<ParserContext>>) -> (r: ParserResult<
        Vec<Statement<ParserContext>>,
    >)
        ensures
            final(self).tokens() == old(self).tokens(),
            old(self).pos() <= final(self).pos(),
            statements(old(self).tokens(), old(self).pos(), statements_view(done))
                == step_statements(r, final(self).pos()),
        decreases remaining(old(self).tokens(), old(self).pos()), 30nat,
    {
        proof {
            reveal(statements);
            reveal(statement);
        }
        let mut list = done;
        loop
            invariant
                self.tokens() == old(self).tokens(),
                old(self).pos() <= self.pos(),
                statements(old(self).tokens(), old(self).pos(), statements_view(done))
                    == statements(self.tokens(), self.pos(), statements_view(list)),
            decreases remaining(self.tokens(), self.pos()),
        {
            proof {
                reveal(statements);
                reveal(statement);
            }
            if self.peek().is_none() {
                return Ok(list);
            }
            match self.statement()? {
                None => {
                    return Ok(list);
                },
                Some(s) => {
                    let ghost before = statements_view(list);
                    let ghost added = s@;
                    list.push(s);
                    assert(statements_view(list) =~= before.push(added));
                },
            }
        }
    }
}

} // verus!
