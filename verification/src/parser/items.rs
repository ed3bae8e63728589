//! The parser of the items of a module, and of a whole compilation unit.
use crate::ast::external::{Extern, ExternView};
use crate::ast::module::{Module, ModuleView};
use crate::ast::parameter::{parameters_view, Parameter, ParameterView};
use crate::ast::routinedef::{RoutineDef, RoutineDefType, RoutineDefView};
use crate::ast::statement::{statements_view, Statement};
use crate::ast::structdef::{StructDef, StructDefView};
use crate::ast::ty::{Type, TypeView};
use crate::lexer::tokens::{Lex, Token};
use crate::parser::context::ParserContext;
use crate::parser::error::ParserError;
use crate::parser::grammar::{
    external, items, module, parameter_list, remaining, result_type, routine, routine_body,
    structure, unit, ParsedStatement, Step,
};
use crate::parser::parser::{Parser, ParserResult};
use crate::parser::statements::step_statements;
use crate::stringtable::StringId;
use vstd::prelude::*;

verus! {

/// The step that a reader of a type has made.
pub open spec fn step_type(r: ParserResult<Type>, pos: int) -> Step<TypeView> {
    Step {
        result: match r {
            Ok(t) => Ok(t@),
            Err(e) => Err(e@),
        },
        pos,
    }
}

/// The step that a reader of a list of parameters has made.
pub open spec fn step_parameters(r: ParserResult<Vec<Parameter<ParserContext>>>, pos: int) -> Step<
    Seq<ParameterView<ParserContext>>,
> {
    Step {
        result: match r {
            Ok(ps) => Ok(parameters_view(ps)),
            Err(e) => Err(e@),
        },
        pos,
    }
}

/// The step that a reader of an optional routine has made.
pub open spec fn step_optional_routine(
    r: ParserResult<Option<RoutineDef<ParserContext>>>,
    pos: int,
) -> Step<Option<RoutineDefView<ParserContext>>> {
    Step {
        result: match r {
            Ok(Some(d)) => Ok(Some(d@)),
            Ok(None) => Ok(None),
            Err(e) => Err(e@),
        },
        pos,
    }
}

/// The step that a reader of an optional structure has made.
pub open spec fn step_optional_structure(
    r: ParserResult<Option<StructDef<ParserContext>>>,
    pos: int,
) -> Step<Option<StructDefView<ParserContext>>> {
    Step {
        result: match r {
            Ok(Some(d)) => Ok(Some(d@)),
            Ok(None) => Ok(None),
            Err(e) => Err(e@),
        },
        pos,
    }
}

/// The step that a reader of an optional external declaration has made.
pub open spec fn step_optional_external(
    r: ParserResult<Option<Extern<ParserContext>>>,
    pos: int,
) -> Step<Option<ExternView<ParserContext>>> {
    Step {
        result: match r {
            Ok(Some(d)) => Ok(Some(d@)),
            Ok(None) => Ok(None),
            Err(e) => Err(e@),
        },
        pos,
    }
}

/// The step that a reader of an optional module has made.
pub open spec fn step_optional_module(
    r: ParserResult<Option<Module<ParserContext>>>,
    pos: int,
) -> Step<Option<ModuleView<ParserContext>>> {
    Step {
        result: match r {
            Ok(Some(m)) => Ok(Some(m@)),
            Ok(None) => Ok(None),
            Err(e) => Err(e@),
        },
        pos,
    }
}

/// The step that a reader of the items of a module has made.
pub open spec fn step_module(r: ParserResult<Module<ParserContext>>, pos: int) -> Step<
    ModuleView<ParserContext>,
> {
    Step {
        result: match r {
            Ok(m) => Ok(m@),
            Err(e) => Err(e@),
        },
        pos,
    }
}

/// What the parser of a compilation unit has returned, as a mathematical
/// value.
pub open spec fn parsed_unit(r: ParserResult<Option<Module<ParserContext>>>) -> Result<
    Option<ModuleView<ParserContext>>,
    crate::parser::grammar::ParseFailure,
> {
    match r {
        Ok(Some(m)) => Ok(Some(m@)),
        Ok(None) => Ok(None),
        Err(e) => Err(e@),
    }
}

impl<'a> Parser<'a> {
    /// Reads the type of what a routine returns.
    pub(crate) fn result_type(&mut self) -> (r: ParserResult<Type>)
        ensures
            final(self).tokens() == old(self).tokens(),
            old(self).pos() <= final(self).pos(),
            result_type(old(self).tokens(), old(self).pos()) == step_type(r, final(self).pos()),
    {
        if !self.accept(Lex::LArrow) {
            return Ok(Type::Unit);
        }
        match self.ty()? {
            None => Err(self.error(ParserError::FnExpectedTypeAfterArrow)),
            Some(t) => Ok(t),
        }
    }

    /// Reads the parameters of a routine, in parentheses.
    pub(crate) fn parameter_list(&mut self) -> (r: ParserResult<Vec<Parameter<ParserContext>>>)
        ensures
            final(self).tokens() == old(self).tokens(),
            old(self).pos() <= final(self).pos(),
            parameter_list(old(self).tokens(), old(self).pos())
                == step_parameters(r, final(self).pos()),
            r is Ok ==> old(self).pos() < final(self).pos(),
    {
        self.expect(Lex::LParen)?;
        let params = Vec::new();
        assert(parameters_view(params) =~= Seq::<ParameterView<ParserContext>>::empty());
        let params = self.declarations(params)?;
        if self.ahead(0, Lex::VarArgs) {
            return Err(self.error(ParserError::FnVarArgsNotAllowed));
        }
        self.closing(Lex::RParen, params)
    }

    /// Reads the body of a routine.
    pub(crate) fn routine_body(&mut self) -> (r: ParserResult<Vec<Statement<ParserContext>>>)
        ensures
            final(self).tokens() == old(self).tokens(),
            old(self).pos() <= final(self).pos(),
            routine_body(old(self).tokens(), old(self).pos())
                == step_statements(r, final(self).pos()),
            r is Ok ==> old(self).pos() < final(self).pos(),
    {
        self.expect(Lex::LBrace)?;
        let body = Vec::new();
        assert(statements_view(body) =~= Seq::<ParsedStatement>::empty());
        let body = self.statements(body)?;
        let ends_in_return = if body.len() > 0 {
            match &body[body.len() - 1] {
                Statement::Return(_) => true,
                _ => false,
            }
        } else {
            false
        };
        if !ends_in_return {
            return Err(self.error(ParserError::FnExpectedReturn(self.peek())));
        }
        self.closing(Lex::RBrace, body)
    }

    /// Reads the definition of a function or of a coroutine, if the tokens
    /// start with one.
    pub fn routine(&mut self) -> (r: ParserResult<Option<RoutineDef<ParserContext>>>)
        ensures
            final(self).tokens() == old(self).tokens(),
            old(self).pos() <= final(self).pos(),
            routine(old(self).tokens(), old(self).pos())
                == step_optional_routine(r, final(self).pos()),
            r matches Ok(Some(_)) ==> old(self).pos() < final(self).pos(),
            r matches Ok(None) ==> old(self).pos() == final(self).pos(),
    {
        let start = self.mark();
        let function = if self.accept(Lex::FunctionDef) {
            true
        } else if self.accept(Lex::CoroutineDef) {
            false
        } else {
            return Ok(None);
        };
        let name = match self.peek() {
            Some(Token { s: Lex::Identifier(name), .. }) => name,
            _ => {
                return Err(
                    self.error(
                        if function {
                            ParserError::FnExpectedIdentifierAfterFn
                        } else {
                            ParserError::CoExpectedIdentifierAfterCo
                        },
                    ),
                );
            },
        };
        self.advance();
        let params = self.parameter_list()?;
        let ty = self.result_type()?;
        let body = self.routine_body()?;
        let ctx = self.ctx(start);
        if function {
            Ok(Some(RoutineDef::new_function(name, ctx, params, ty, body)))
        } else {
            Ok(Some(RoutineDef::new_coroutine(name, ctx, params, ty, body)))
        }
    }

    /// Reads the definition of a structure, if the tokens start with one.
    pub fn structure(&mut self) -> (r: ParserResult<Option<StructDef<ParserContext>>>)
        ensures
            final(self).tokens() == old(self).tokens(),
            old(self).pos() <= final(self).pos(),
            structure(old(self).tokens(), old(self).pos())
                == step_optional_structure(r, final(self).pos()),
            r matches Ok(Some(_)) ==> old(self).pos() < final(self).pos(),
            r matches Ok(None) ==> old(self).pos() == final(self).pos(),
    {
        let start = self.mark();
        if !self.accept(Lex::Struct) {
            return Ok(None);
        }
        let name = match self.peek() {
            Some(Token { s: Lex::Identifier(name), .. }) => name,
            _ => {
                return Err(self.error(ParserError::StructExpectedIdentifier));
            },
        };
        self.advance();
        self.expect(Lex::LBrace)?;
        let fields = Vec::new();
        assert(parameters_view(fields) =~= Seq::<ParameterView<ParserContext>>::empty());
        let fields = self.declarations(fields)?;
        self.expect(Lex::RBrace)?;
        let ctx = self.ctx(start);
        Ok(Some(StructDef::new(name, ctx, fields)))
    }

    /// Reads the declaration of an external function, if the tokens start
    /// with one.
    pub fn external(&mut self) -> (r: ParserResult<Option<Extern<ParserContext>>>)
        ensures
            final(self).tokens() == old(self).tokens(),
            old(self).pos() <= final(self).pos(),
            external(old(self).tokens(), old(self).pos())
                == step_optional_external(r, final(self).pos()),
            r matches Ok(Some(_)) ==> old(self).pos() < final(self).pos(),
            r matches Ok(None) ==> old(self).pos() == final(self).pos(),
    {
        let start = self.mark();
        if !self.accept(Lex::Extern) {
            return Ok(None);
        }
        if !self.accept(Lex::FunctionDef) {
            return Err(self.error(ParserError::ExternExpectedFnDecl));
        }
        let name = match self.peek() {
            Some(Token { s: Lex::Identifier(name), .. }) => name,
            _ => {
                return Err(self.error(ParserError::FnExpectedIdentifierAfterFn));
            },
        };
        self.advance();
        self.expect(Lex::LParen)?;
        let params = Vec::new();
        assert(parameters_view(params) =~= Seq::<ParameterView<ParserContext>>::empty());
        let params = self.declarations(params)?;
        let has_varargs = self.accept(Lex::VarArgs);
        if has_varargs && params.len() == 0 {
            return Err(self.error(ParserError::ExternInvalidVarArgs));
        }
        self.expect(Lex::RParen)?;
        let ty = self.result_type()?;
        self.expect(Lex::Semicolon)?;
        let ctx = self.ctx(start);
        Ok(Some(Extern::new(name, ctx, params, has_varargs, ty)))
    }

    /// Reads a module, if the tokens start with one.
    pub fn module(&mut self) -> (r: ParserResult<Option<Module<ParserContext>>>)
        ensures
            final(self).tokens() == old(self).tokens(),
            old(self).pos() <= final(self).pos(),
            module(old(self).tokens(), old(self).pos())
                == step_optional_module(r, final(self).pos()),
            r matches Ok(Some(_)) ==> old(self).pos() < final(self).pos(),
            r matches Ok(None) ==> old(self).pos() == final(self).pos(),
        decreases remaining(old(self).tokens(), old(self).pos()), 0nat,
    {
        proof {
            reveal(module);
            reveal(items);
        }
        let start = self.mark();
        let initial = self.ctx(start);
        if !self.accept(Lex::ModuleDef) {
            return Ok(None);
        }
        let name = match self.peek() {
            Some(Token { s: Lex::Identifier(name), .. }) => name,
            _ => {
                return Err(self.error(ParserError::ModExpectedName));
            },
        };
        self.advance();
        self.expect(Lex::LBrace)?;
        let mut m = self.items(Module::new(name, initial))?;
        self.expect(Lex::RBrace)?;
        m.annotations = self.ctx(start);
        Ok(Some(m))
    }

    /// Reads items, as many as there are, and adds them to the module.
    pub fn items(&mut self, parent: Module<ParserContext>) -> (r: ParserResult<
        Module<ParserContext>,
    >)
        ensures
            final(self).tokens() == old(self).tokens(),
            old(self).pos() <= final(self).pos(),
            items(old(self).tokens(), old(self).pos(), parent@)
                == step_module(r, final(self).pos()),
        decreases remaining(old(self).tokens(), old(self).pos()), 1nat,
    {
        proof {
            reveal(items);
            reveal(module);
        }
        let mut m = parent;
        loop
            invariant
                self.tokens() == old(self).tokens(),
                old(self).pos() <= self.pos(),
                items(old(self).tokens(), old(self).pos(), parent@) == items(
                    self.tokens(),
                    self.pos(),
                    m@,
                ),
            decreases remaining(self.tokens(), self.pos()),
        {
            proof {
                reveal(items);
                reveal(module);
            }
            let word = match self.peek() {
                Some(t) => t.s,
                None => {
                    return Ok(m);
                },
            };
            match word {
                Lex::ModuleDef => match self.module()? {
                    Some(child) => {
                        m.add_module(child);
                    },
                    None => {
                        return Ok(m);
                    },
                },
                Lex::FunctionDef | Lex::CoroutineDef => match self.routine()? {
                    Some(def) => {
                        let name = def.name;
                        let added = match def.def {
                            RoutineDefType::Function => m.add_function(def),
                            RoutineDefType::Coroutine => m.add_coroutine(def),
                        };
                        if added.is_err() {
                            return Err(self.error(ParserError::ModAlreadyContains(name)));
                        }
                    },
                    None => {
                        return Ok(m);
                    },
                },
                Lex::Struct => match self.structure()? {
                    Some(def) => {
                        let name = def.name;
                        if m.add_struct(def).is_err() {
                            return Err(self.error(ParserError::ModAlreadyContains(name)));
                        }
                    },
                    None => {
                        return Ok(m);
                    },
                },
                Lex::Extern => match self.external()? {
                    Some(def) => {
                        let name = def.name;
                        if m.add_extern(def).is_err() {
                            return Err(self.error(ParserError::ModAlreadyContains(name)));
                        }
                    },
                    None => {
                        return Ok(m);
                    },
                },
                _ => {
                    return Ok(m);
                },
            }
        }
    }
}

/// Reads the tokens of a compilation unit into a module called `name`.
/// Without tokens there is no module.  Every token must belong to an item.
pub fn parse(name: StringId, tokens: &Vec<Token>) -> (r: ParserResult<
    Option<Module<ParserContext>>,
>)
    ensures
        parsed_unit(r) == unit(tokens@, name),
{
    if tokens.len() == 0 {
        return Ok(None);
    }
    let mut parser = Parser::new(tokens);
    let initial = parser.ctx(0);
    let mut m = parser.items(Module::new(name, initial))?;
    let rest = parser.peek();
    if rest.is_some() {
        return Err(parser.error(ParserError::Locked(rest)));
    }
    m.annotations = parser.ctx(0);
    Ok(Some(m))
}

} // verus!
