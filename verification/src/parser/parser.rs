//! The parser: reads the tokens of a compilation unit into a syntax tree.
//!
//! The parser descends recursively, one function for every construct of
//! the grammar.  A function whose construct may be missing leaves the
//! tokens where they are when it finds nothing.
use crate::ast::parameter::{parameters_view, Parameter, ParameterView};
use crate::ast::path::{Element, Path};
use crate::ast::ty::{Type, TypeView};
use crate::lexer::tokens::{Lex, Primitive, Token};
use crate::parser::context::ParserContext;
use crate::parser::error::ParserError;
use crate::parser::grammar::{
    closing, context, declarations, error_at, expected, failed, found, kind_at, offset_at, path,
    path_element, path_rest, remaining, token_at, ty, ParseFailure, };
use crate::parser::tokenstream::TokenStream;
use crate::semantics::error::CompilerError;
use crate::source::span::{Offset, Span};
use vstd::prelude::*;

verus! {

/// What the parser returns: a value, or the first error with the span of
/// the text that caused it.
pub type ParserResult<T> = Result<T, CompilerError<ParserError>>;

/// The view of an optional path.
pub open spec fn path_view(p: Option<Path>) -> Option<Seq<Element>> {
    match p {
        Some(p) => Some(p@),
        None => None,
    }
}

/// The view of an optional type.
pub open spec fn type_view_of(t: Option<Type>) -> Option<TypeView> {
    match t {
        Some(t) => Some(t@),
        None => None,
    }
}

pub struct Parser<'a> {
    stream: TokenStream<'a>,
}

impl<'a> Parser<'a> {
    /// The tokens that are parsed.
    pub closed spec fn tokens(&self) -> Seq<Token> {
        self.stream.tokens()
    }

    /// The position of the token that is read next.
    pub closed spec fn pos(&self) -> int {
        self.stream.position()
    }

    /// A parser at the first of the tokens.
    pub fn new(tokens: &'a Vec<Token>) -> (r: Parser<'a>)
        ensures
            r.tokens() == tokens@,
            r.pos() == 0,
    {
        Parser { stream: TokenStream::new(tokens) }
    }

    /// The offset in the source of the token at the position `i`.
    pub(crate) fn offset(&self, i: usize) -> (r: u32)
        ensures
            r == offset_at(self.tokens(), i as int),
    {
        match self.stream.get(i) {
            Some(t) => t.o,
            None => {
                let n = self.stream.len();
                if n > 0 {
                    match self.stream.get(n - 1) {
                        Some(last) => if last.o < u32::MAX {
                            last.o + 1
                        } else {
                            last.o
                        },
                        None => 0,
                    }
                } else {
                    0
                }
            },
        }
    }

    /// The annotation of the construct that starts with the token at
    /// `start` and ends before the token that is read next.
    pub(crate) fn ctx(&self, start: usize) -> (r: ParserContext)
        ensures
            r == context(self.tokens(), start as int, self.pos()),
    {
        let low = self.offset(start);
        let high = self.offset(self.stream.index());
        let high = if high < low {
            low
        } else {
            high
        };
        ParserContext::new(Span::new(Offset::new(low), Offset::new(high)))
    }

    /// The error `e`, caused by the token that is read next.
    pub(crate) fn error(&self, e: ParserError) -> (r: CompilerError<ParserError>)
        ensures
            r@ == error_at(self.tokens(), self.pos(), e),
    {
        let at = self.offset(self.stream.index());
        CompilerError::new(Span::new(Offset::new(at), Offset::new(at)), e)
    }

    /// Reads the next token, which must be of the kind of `lex`.
    pub(crate) fn expect(&mut self, lex: Lex) -> (r: ParserResult<Token>)
        ensures
            final(self).tokens() == old(self).tokens(),
            match r {
                Ok(t) => kind_at(old(self).tokens(), old(self).pos(), lex) && Some(t) == token_at(
                    old(self).tokens(),
                    old(self).pos(),
                ) && final(self).pos() == old(self).pos() + 1,
                Err(e) => !kind_at(old(self).tokens(), old(self).pos(), lex) && final(self).pos()
                    == old(self).pos() && e@ == expected(
                    old(self).tokens(),
                    old(self).pos(),
                    lex,
                ),
            },
    {
        self.stream.next_must_be(&lex)
    }

    /// Reads the next token if it is of the kind of `lex`.
    pub(crate) fn accept(&mut self, lex: Lex) -> (r: bool)
        ensures
            final(self).tokens() == old(self).tokens(),
            r == kind_at(old(self).tokens(), old(self).pos(), lex),
            final(self).pos() == (if r {
                old(self).pos() + 1
            } else {
                old(self).pos()
            }),
    {
        self.stream.next_if(&lex).is_some()
    }

    /// The token that is read next.
    pub(crate) fn peek(&self) -> (r: Option<Token>)
        ensures
            r == token_at(self.tokens(), self.pos()),
    {
        match self.stream.peek() {
            Some(t) => Some(*t),
            None => None,
        }
    }

    /// The position of the token that is read next.
    pub(crate) fn mark(&self) -> (r: usize)
        ensures
            r == self.pos(),
    {
        self.stream.index()
    }

    /// Goes back to the position `i`.
    pub(crate) fn reset(&mut self, i: usize)
        ensures
            final(self).tokens() == old(self).tokens(),
            final(self).pos() == i,
    {
        self.stream.set_index(i);
    }

    /// Reads the next token.
    pub(crate) fn advance(&mut self) -> (r: Option<Token>)
        ensures
            final(self).tokens() == old(self).tokens(),
            r == token_at(old(self).tokens(), old(self).pos()),
            final(self).pos() == (if r is Some {
                old(self).pos() + 1
            } else {
                old(self).pos()
            }),
    {
        self.stream.next()
    }

    /// The token `i` places after the next one.
    pub(crate) fn token_ahead(&self, i: usize) -> (r: Option<Token>)
        ensures
            r == token_at(self.tokens(), self.pos() + i),
    {
        match self.stream.peek_at(i) {
            Some(t) => Some(*t),
            None => None,
        }
    }

    /// Whether the token `i` places after the next one is of the kind of
    /// `lex`.
    pub(crate) fn ahead(&self, i: usize, lex: Lex) -> (r: bool)
        ensures
            r == kind_at(self.tokens(), self.pos() + i, lex),
    {
        match self.stream.peek_at(i) {
            Some(t) => t.token_eq(&lex),
            None => false,
        }
    }

    /// Reads the word `close`, which ends the list `done`.
    pub(crate) fn closing<T>(&mut self, close: Lex, done: T) -> (r: ParserResult<T>)
        ensures
            final(self).tokens() == old(self).tokens(),
            old(self).pos() <= final(self).pos(),
            match r {
                Ok(v) => closing(old(self).tokens(), old(self).pos(), close, done) == found(
                    v,
                    final(self).pos(),
                ) && old(self).pos() < final(self).pos(),
                Err(e) => closing(old(self).tokens(), old(self).pos(), close, done) == failed::<T>(
                    e@,
                    final(self).pos(),
                ),
            },
    {
        match self.expect(close) {
            Ok(_) => Ok(done),
            Err(e) => Err(e),
        }
    }

    /// Reads the next token if it stands for a step of a path.
    pub(crate) fn path_element(&mut self) -> (r: Option<Element>)
        ensures
            final(self).tokens() == old(self).tokens(),
            r == path_element(old(self).tokens(), old(self).pos()),
            final(self).pos() == (if r is Some {
                old(self).pos() + 1
            } else {
                old(self).pos()
            }),
    {
        let e = match self.peek() {
            Some(Token { s: Lex::Identifier(id), .. }) => Some(Element::Id(id)),
            Some(Token { s: Lex::PathProjectRoot, .. }) => Some(Element::CanonicalRoot),
            Some(Token { s: Lex::PathFileRoot, .. }) => Some(Element::FileRoot),
            Some(Token { s: Lex::PathSelf, .. }) => Some(Element::Selph),
            Some(Token { s: Lex::PathSuper, .. }) => Some(Element::Super),
            _ => None,
        };
        if e.is_some() {
            self.stream.next();
        }
        e
    }

    /// Reads the steps of a path that follow the first and appends them to
    /// `done`.
    pub(crate) fn path_rest(&mut self, done: Path) -> (r: ParserResult<Path>)
        ensures
            final(self).tokens() == old(self).tokens(),
            final(self).pos() == path_rest(old(self).tokens(), old(self).pos(), done@).pos,
            old(self).pos() <= final(self).pos(),
            match r {
                Ok(p) => path_rest(old(self).tokens(), old(self).pos(), done@).result == Ok::<
                    Seq<Element>,
                    ParseFailure,
                >(p@),
                Err(e) => path_rest(old(self).tokens(), old(self).pos(), done@).result == Err::<
                    Seq<Element>,
                    ParseFailure,
                >(e@),
            },
    {
        let mut steps = done;
        loop
            invariant
                self.tokens() == old(self).tokens(),
                old(self).pos() <= self.pos(),
                path_rest(old(self).tokens(), old(self).pos(), done@) == path_rest(
                    self.tokens(),
                    self.pos(),
                    steps@,
                ),
            decreases remaining(self.tokens(), self.pos()),
        {
            if !self.accept(Lex::PathSeparator) {
                return Ok(steps);
            }
            match self.path_element() {
                Some(e) => {
                    steps.push_element(e);
                },
                None => {
                    return Err(self.error(ParserError::PathExpectedIdentifier));
                },
            }
        }
    }

    /// Reads a path, if the tokens start with one.
    pub(crate) fn path(&mut self) -> (r: ParserResult<Option<Path>>)
        ensures
            final(self).tokens() == old(self).tokens(),
            final(self).pos() == path(old(self).tokens(), old(self).pos()).pos,
            old(self).pos() <= final(self).pos(),
            match r {
                Ok(p) => path(old(self).tokens(), old(self).pos()).result == Ok::<
                    Option<Seq<Element>>,
                    ParseFailure,
                >(path_view(p)) && (p is Some ==> old(self).pos() < final(self).pos()) && (p is None
                    ==> old(self).pos() == final(self).pos()),
                Err(e) => path(old(self).tokens(), old(self).pos()).result == Err::<
                    Option<Seq<Element>>,
                    ParseFailure,
                >(e@),
            },
    {
        let mut steps = Path::new();
        if self.accept(Lex::PathSeparator) {
            steps.push_element(Element::FileRoot);
            match self.path_element() {
                Some(e) => {
                    steps.push_element(e);
                },
                None => {
                    return Err(self.error(ParserError::PathExpectedIdentifier));
                },
            }
            assert(steps@ =~= seq![Element::FileRoot, steps@[1]]);
        } else {
            match self.path_element() {
                Some(e) => {
                    steps.push_element(e);
                },
                None => {
                    return Ok(None);
                },
            }
            assert(steps@ =~= seq![steps@[0]]);
        }
        match self.path_rest(steps) {
            Ok(p) => Ok(Some(p)),
            Err(e) => Err(e),
        }
    }

    /// Reads a type, if the tokens start with one.
    pub(crate) fn ty(&mut self) -> (r: ParserResult<Option<Type>>)
        ensures
            final(self).tokens() == old(self).tokens(),
            final(self).pos() == ty(old(self).tokens(), old(self).pos()).pos,
            old(self).pos() <= final(self).pos(),
            match r {
                Ok(t) => ty(old(self).tokens(), old(self).pos()).result == Ok::<
                    Option<TypeView>,
                    ParseFailure,
                >(type_view_of(t)) && (t is Some ==> old(self).pos() < final(self).pos()) && (t
                    is None ==> old(self).pos() == final(self).pos()),
                Err(e) => ty(old(self).tokens(), old(self).pos()).result == Err::<
                    Option<TypeView>,
                    ParseFailure,
                >(e@),
            },
        decreases remaining(old(self).tokens(), old(self).pos()),
    {
        if self.accept(Lex::CoroutineDef) {
            return match self.ty() {
                Err(e) => Err(e),
                Ok(None) => Err(self.error(ParserError::FnExpectedTypeAfterArrow)),
                Ok(Some(t)) => Ok(Some(Type::Coroutine(Box::new(t)))),
            };
        }
        if self.accept(Lex::LBracket) {
            let el = match self.ty() {
                Err(e) => {
                    return Err(e);
                },
                Ok(None) => {
                    return Err(self.error(ParserError::ArrayDeclExpectedType));
                },
                Ok(Some(t)) => t,
            };
            match self.expect(Lex::Semicolon) {
                Ok(_) => {},
                Err(e) => {
                    return Err(e);
                },
            }
            let len: usize = match self.peek() {
                Some(Token { s: Lex::I64(n), .. }) => {
                    if n < 0 || n as u64 > usize::MAX as u64 {
                        return Err(self.error(ParserError::ArrayDeclExpectedSize));
                    }
                    n as usize
                },
                _ => {
                    return Err(self.error(ParserError::ArrayDeclExpectedSize));
                },
            };
            self.stream.next();
            match self.expect(Lex::RBracket) {
                Ok(_) => {},
                Err(e) => {
                    return Err(e);
                },
            }
            return Ok(Some(Type::Array(Box::new(el), len)));
        }
        match self.peek() {
            Some(Token { s: Lex::Primitive(p), .. }) => {
                self.stream.next();
                Ok(
                    Some(
                        match p {
                            Primitive::U8 => Type::U8,
                            Primitive::U16 => Type::U16,
                            Primitive::U32 => Type::U32,
                            Primitive::U64 => Type::U64,
                            Primitive::I8 => Type::I8,
                            Primitive::I16 => Type::I16,
                            Primitive::I32 => Type::I32,
                            Primitive::I64 => Type::I64,
                            Primitive::Bool => Type::Bool,
                            Primitive::StringLiteral => Type::StringLiteral,
                        },
                    ),
                )
            },
            _ => match self.path() {
                Err(e) => Err(e),
                Ok(None) => Ok(None),
                Ok(Some(steps)) => Ok(Some(Type::Custom(steps))),
            },
        }
    }

    /// Reads `name: type [,]` as often as it occurs and appends the
    /// declarations to `done`.
    pub(crate) fn declarations(&mut self, done: Vec<Parameter<ParserContext>>) -> (r: ParserResult<
        Vec<Parameter<ParserContext>>,
    >)
        ensures
            final(self).tokens() == old(self).tokens(),
            final(self).pos() == declarations(
                old(self).tokens(),
                old(self).pos(),
                parameters_view(done),
            ).pos,
            old(self).pos() <= final(self).pos(),
            match r {
                Ok(ps) => declarations(
                    old(self).tokens(),
                    old(self).pos(),
                    parameters_view(done),
                ).result == Ok::<Seq<ParameterView<ParserContext>>, ParseFailure>(
                    parameters_view(ps),
                ),
                Err(e) => declarations(
                    old(self).tokens(),
                    old(self).pos(),
                    parameters_view(done),
                ).result == Err::<Seq<ParameterView<ParserContext>>, ParseFailure>(e@),
            },
    {
        let mut decls = done;
        loop
            invariant
                self.tokens() == old(self).tokens(),
                old(self).pos() <= self.pos(),
                declarations(old(self).tokens(), old(self).pos(), parameters_view(done))
                    == declarations(self.tokens(), self.pos(), parameters_view(decls)),
            decreases remaining(self.tokens(), self.pos()),
        {
            let start = self.stream.index();
            let name = match self.peek() {
                Some(Token { s: Lex::Identifier(name), .. }) => name,
                _ => {
                    return Ok(decls);
                },
            };
            match self.stream.peek_at(1) {
                Some(t) => {
                    if !t.token_eq(&Lex::Colon) {
                        return Ok(decls);
                    }
                },
                None => {
                    return Ok(decls);
                },
            }
            self.stream.next();
            self.stream.next();
            let declared = match self.ty() {
                Err(e) => {
                    return Err(e);
                },
                Ok(None) => {
                    return Err(self.error(ParserError::IdDeclExpectedType));
                },
                Ok(Some(t)) => t,
            };
            let ghost before = parameters_view(decls);
            let param = Parameter { annotation: self.ctx(start), name, ty: declared };
            let ghost added = param@;
            decls.push(param);
            assert(parameters_view(decls) =~= before.push(added));
            self.accept(Lex::Comma);
        }
    }
}

} // verus!
