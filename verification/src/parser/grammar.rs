//! The grammar of the language, as functions of mathematical values.
//!
//! Each function reads a construct from the tokens, starting at a position,
//! and gives what it read, or the error it met, together with the position
//! after the tokens that it has used.  A construct that may be missing
//! gives nothing, and uses no token, where the tokens do not start with it.
use crate::ast::expression::{ExpressionView, RoutineCall};
use crate::ast::external::ExternView;
use crate::ast::module::{ItemView, ModuleView};
use crate::ast::parameter::ParameterView;
use crate::ast::path::Element;
use crate::ast::routinedef::{RoutineDefType, RoutineDefView};
use crate::ast::statement::StatementView;
use crate::ast::structdef::StructDefView;
use crate::ast::ty::TypeView;
use crate::lexer::tokens::{Lex, Primitive, Token};
use crate::parser::context::ParserContext;
use crate::parser::error::ParserError;
use crate::parser::pnode::{binary_operator_of, unary_operator_of};
use crate::semantics::error::CompilerErrorView;
use crate::source::span::Span;
use crate::stringtable::StringId;
use vstd::prelude::*;

verus! {

/// A parser error with the span of the text that caused it.
pub type ParseFailure = CompilerErrorView<ParserError>;

/// An expression as the parser builds it.
pub type Parsed = ExpressionView<ParserContext>;

/// A statement as the parser builds it.
pub type ParsedStatement = StatementView<ParserContext>;

/// What reading a construct gives, and the position after it.
pub ghost struct Step<T> {
    pub result: Result<T, ParseFailure>,
    pub pos: int,
}

pub open spec fn found<T>(value: T, pos: int) -> Step<T> {
    Step { result: Ok(value), pos }
}

pub open spec fn failed<T>(failure: ParseFailure, pos: int) -> Step<T> {
    Step { result: Err(failure), pos }
}

/// The number of tokens from the position on.
pub open spec fn remaining(tokens: Seq<Token>, pos: int) -> nat {
    if pos <= tokens.len() {
        (tokens.len() - pos) as nat
    } else {
        0
    }
}

/// The token at the position, if the tokens reach that far.
pub open spec fn token_at(tokens: Seq<Token>, pos: int) -> Option<Token> {
    if 0 <= pos < tokens.len() {
        Some(tokens[pos])
    } else {
        None
    }
}

/// Whether the token at the position is of the kind of `lex`.
pub open spec fn kind_at(tokens: Seq<Token>, pos: int, lex: Lex) -> bool {
    token_at(tokens, pos) is Some && token_at(tokens, pos).unwrap().s.same_kind(lex)
}

/// The offset in the source at which the token at the position starts; for
/// the position after the last token, the offset after the start of the
/// last token.
pub open spec fn offset_at(tokens: Seq<Token>, pos: int) -> nat {
    match token_at(tokens, pos) {
        Some(t) => t.o as nat,
        None => if tokens.len() > 0 && tokens.last().o < u32::MAX {
            (tokens.last().o + 1) as nat
        } else if tokens.len() > 0 {
            tokens.last().o as nat
        } else {
            0
        },
    }
}

/// The annotation of a construct that starts with the token at `start` and
/// ends before the token at `end`.
pub open spec fn context(tokens: Seq<Token>, start: int, end: int) -> ParserContext {
    let low = offset_at(tokens, start);
    let high = offset_at(tokens, end);
    ParserContext {
        span: Span::of(
            low,
            if high < low {
                low
            } else {
                high
            },
        ),
    }
}

/// The error `e`, caused by the token at the position.
pub open spec fn error_at(tokens: Seq<Token>, pos: int, e: ParserError) -> ParseFailure {
    CompilerErrorView {
        span: Span::of(offset_at(tokens, pos), offset_at(tokens, pos)),
        inner: e,
    }
}

/// The error of a parser that does not advance past a token.
pub open spec fn locked(tokens: Seq<Token>, pos: int) -> ParseFailure {
    error_at(tokens, pos, ParserError::Locked(token_at(tokens, pos)))
}

/// The error of a missing word: the end of the tokens, or the token that
/// stands where the word was expected.
pub open spec fn expected(tokens: Seq<Token>, pos: int, lex: Lex) -> ParseFailure {
    match token_at(tokens, pos) {
        None => CompilerErrorView { span: Span::of(0, 0), inner: ParserError::EOF },
        Some(t) => CompilerErrorView {
            span: Span::of(t.o as nat, t.o as nat),
            inner: ParserError::ExpectedButFound(lex, Some(t.s)),
        },
    }
}

/// The step of a path that the token at the position stands for.
pub open spec fn path_element(tokens: Seq<Token>, pos: int) -> Option<Element> {
    match token_at(tokens, pos) {
        Some(Token { s: Lex::Identifier(id), .. }) => Some(Element::Id(id)),
        Some(Token { s: Lex::PathProjectRoot, .. }) => Some(Element::CanonicalRoot),
        Some(Token { s: Lex::PathFileRoot, .. }) => Some(Element::FileRoot),
        Some(Token { s: Lex::PathSelf, .. }) => Some(Element::Selph),
        Some(Token { s: Lex::PathSuper, .. }) => Some(Element::Super),
        _ => None,
    }
}

/// The steps of a path that follow the first: `:: step`, as often as it
/// occurs.
pub open spec fn path_rest(tokens: Seq<Token>, pos: int, done: Seq<Element>) -> Step<Seq<Element>>
    decreases remaining(tokens, pos),
{
    if kind_at(tokens, pos, Lex::PathSeparator) {
        match path_element(tokens, pos + 1) {
            Some(e) => path_rest(tokens, pos + 2, done.push(e)),
            None => failed(
                error_at(tokens, pos + 1, ParserError::PathExpectedIdentifier),
                pos + 1,
            ),
        }
    } else {
        found(done, pos)
    }
}

/// `[::] step (:: step)*`.  A path that starts with `::` starts at the root
/// of the module tree.
pub open spec fn path(tokens: Seq<Token>, pos: int) -> Step<Option<Seq<Element>>> {
    if kind_at(tokens, pos, Lex::PathSeparator) {
        match path_element(tokens, pos + 1) {
            Some(e) => some(path_rest(tokens, pos + 2, seq![Element::FileRoot, e])),
            None => failed(
                error_at(tokens, pos + 1, ParserError::PathExpectedIdentifier),
                pos + 1,
            ),
        }
    } else {
        match path_element(tokens, pos) {
            Some(e) => some(path_rest(tokens, pos + 1, seq![e])),
            None => found(None, pos),
        }
    }
}

/// The step, as one that has found its construct.
pub open spec fn some<T>(step: Step<T>) -> Step<Option<T>> {
    Step {
        result: match step.result {
            Ok(v) => Ok(Some(v)),
            Err(e) => Err(e),
        },
        pos: step.pos,
    }
}

/// The type that the name of a primitive type stands for.
pub open spec fn primitive_type(p: Primitive) -> TypeView {
    match p {
        Primitive::U8 => TypeView::U8,
        Primitive::U16 => TypeView::U16,
        Primitive::U32 => TypeView::U32,
        Primitive::U64 => TypeView::U64,
        Primitive::I8 => TypeView::I8,
        Primitive::I16 => TypeView::I16,
        Primitive::I32 => TypeView::I32,
        Primitive::I64 => TypeView::I64,
        Primitive::Bool => TypeView::Bool,
        Primitive::StringLiteral => TypeView::StringLiteral,
    }
}

/// `co type`, `[type; size]`, the name of a primitive type, or the path of
/// a named type.
pub open spec fn ty(tokens: Seq<Token>, pos: int) -> Step<Option<TypeView>>
    decreases remaining(tokens, pos),
{
    if kind_at(tokens, pos, Lex::CoroutineDef) {
        let inner = ty(tokens, pos + 1);
        match inner.result {
            Err(e) => failed(e, inner.pos),
            Ok(None) => failed(
                error_at(tokens, inner.pos, ParserError::FnExpectedTypeAfterArrow),
                inner.pos,
            ),
            Ok(Some(t)) => found(Some(TypeView::Coroutine(Box::new(t))), inner.pos),
        }
    } else if kind_at(tokens, pos, Lex::LBracket) {
        let el = ty(tokens, pos + 1);
        match el.result {
            Err(e) => failed(e, el.pos),
            Ok(None) => failed(
                error_at(tokens, el.pos, ParserError::ArrayDeclExpectedType),
                el.pos,
            ),
            Ok(Some(t)) => if !kind_at(tokens, el.pos, Lex::Semicolon) {
                failed(expected(tokens, el.pos, Lex::Semicolon), el.pos)
            } else {
                match token_at(tokens, el.pos + 1) {
                    Some(Token { s: Lex::I64(n), .. }) => if n < 0 || n > usize::MAX {
                        failed(
                            error_at(tokens, el.pos + 1, ParserError::ArrayDeclExpectedSize),
                            el.pos + 1,
                        )
                    } else if !kind_at(tokens, el.pos + 2, Lex::RBracket) {
                        failed(expected(tokens, el.pos + 2, Lex::RBracket), el.pos + 2)
                    } else {
                        found(Some(TypeView::Array(Box::new(t), n as nat)), el.pos + 3)
                    },
                    _ => failed(
                        error_at(tokens, el.pos + 1, ParserError::ArrayDeclExpectedSize),
                        el.pos + 1,
                    ),
                }
            },
        }
    } else {
        match token_at(tokens, pos) {
            Some(Token { s: Lex::Primitive(p), .. }) => found(Some(primitive_type(p)), pos + 1),
            _ => {
                let p = path(tokens, pos);
                match p.result {
                    Err(e) => failed(e, p.pos),
                    Ok(None) => found(None, p.pos),
                    Ok(Some(steps)) => found(Some(TypeView::Custom(steps)), p.pos),
                }
            },
        }
    }
}

/// `name: type [,]`, as often as it occurs.
pub open spec fn declarations(
    tokens: Seq<Token>,
    pos: int,
    done: Seq<ParameterView<ParserContext>>,
) -> Step<Seq<ParameterView<ParserContext>>>
    decreases remaining(tokens, pos),
{
    match token_at(tokens, pos) {
        Some(Token { s: Lex::Identifier(name), .. }) => if kind_at(tokens, pos + 1, Lex::Colon) {
            let t = ty(tokens, pos + 2);
            match t.result {
                Err(e) => failed(e, t.pos),
                Ok(None) => failed(
                    error_at(tokens, t.pos, ParserError::IdDeclExpectedType),
                    t.pos,
                ),
                Ok(Some(declared)) => if t.pos <= pos {
                    failed(locked(tokens, t.pos), t.pos)
                } else {
                    let param = ParameterView {
                        annotation: context(tokens, pos, t.pos),
                        name,
                        ty: declared,
                    };
                    declarations(
                        tokens,
                        if kind_at(tokens, t.pos, Lex::Comma) {
                            t.pos + 1
                        } else {
                            t.pos
                        },
                        done.push(param),
                    )
                },
            }
        } else {
            found(done, pos)
        },
        _ => found(done, pos),
    }
}

/// How tightly a binary operator binds: the logical or binds least, the
/// multiplication and the division bind most.
pub open spec fn precedence(op: Lex) -> Option<int> {
    match op {
        Lex::BOr => Some(0),
        Lex::BAnd => Some(1),
        Lex::Eq | Lex::NEq | Lex::Ls | Lex::LsEq | Lex::Gr | Lex::GrEq => Some(2),
        Lex::Add | Lex::Minus => Some(3),
        Lex::Mul | Lex::Div => Some(4),
        _ => None,
    }
}

/// Whether a structure value starts at the position: `{ }` or
/// `{ name :`.
pub open spec fn starts_fields(tokens: Seq<Token>, pos: int) -> bool {
    kind_at(tokens, pos, Lex::LBrace) && (kind_at(tokens, pos + 1, Lex::RBrace) || (kind_at(
        tokens,
        pos + 1,
        Lex::Identifier(StringId(0)),
    ) && kind_at(tokens, pos + 2, Lex::Colon)))
}

/// The expression that a path alone stands for: a single name is an
/// identifier.
pub open spec fn named(ctx: ParserContext, steps: Seq<Element>) -> Parsed {
    if steps.len() == 1 && steps[0] is Id {
        ExpressionView::Identifier(ctx, steps[0]->Id_0)
    } else {
        ExpressionView::Path(ctx, steps)
    }
}

/// An expression: binary operations, from the operators that bind least to
/// the ones that bind most.
#[verifier::opaque]
pub open spec fn expression(tokens: Seq<Token>, pos: int) -> Step<Option<Parsed>>
    decreases remaining(tokens, pos), 20nat,
{
    binary(tokens, pos, 0)
}

/// `operand [op operation]` for the operators that bind as tightly as
/// `level`; the operands are operations of the operators that bind more
/// tightly.  Operators of one level group to the right.
#[verifier::opaque]
pub open spec fn binary(tokens: Seq<Token>, pos: int, level: int) -> Step<Option<Parsed>>
    decreases remaining(tokens, pos),
        (if 0 <= level < 5 {
            19 - level
        } else {
            14
        }) as nat,
{
    if level < 0 || level >= 5 {
        unary(tokens, pos)
    } else {
        let left = binary(tokens, pos, level + 1);
        match left.result {
            Err(e) => failed(e, left.pos),
            Ok(None) => found(None, left.pos),
            Ok(Some(l)) => match token_at(tokens, left.pos) {
                Some(t) => if precedence(t.s) == Some(level) && binary_operator_of(t.s) is Some {
                    if left.pos < pos {
                        failed(locked(tokens, left.pos), left.pos)
                    } else {
                        let right = binary(tokens, left.pos + 1, level);
                        match right.result {
                            Err(e) => failed(e, right.pos),
                            Ok(None) => failed(
                                error_at(tokens, right.pos, ParserError::ExpectedExprAfter(t.s)),
                                right.pos,
                            ),
                            Ok(Some(r)) => found(
                                Some(
                                    ExpressionView::BinaryOp(
                                        context(tokens, pos, right.pos),
                                        binary_operator_of(t.s).unwrap(),
                                        Box::new(l),
                                        Box::new(r),
                                    ),
                                ),
                                right.pos,
                            ),
                        }
                    }
                } else {
                    found(Some(l), left.pos)
                },
                None => found(Some(l), left.pos),
            },
        }
    }
}

/// `- operand`, `! operand`, or an operand.
#[verifier::opaque]
pub open spec fn unary(tokens: Seq<Token>, pos: int) -> Step<Option<Parsed>>
    decreases remaining(tokens, pos), 13nat,
{
    match token_at(tokens, pos) {
        Some(t) => match unary_operator_of(t.s) {
            Some(op) => {
                let operand = unary(tokens, pos + 1);
                match operand.result {
                    Err(e) => failed(e, operand.pos),
                    Ok(None) => failed(
                        error_at(tokens, operand.pos, ParserError::ExpectedTermAfter(t.s)),
                        operand.pos,
                    ),
                    Ok(Some(o)) => found(
                        Some(
                            ExpressionView::UnaryOp(
                                context(tokens, pos, operand.pos),
                                op,
                                Box::new(o),
                            ),
                        ),
                        operand.pos,
                    ),
                }
            },
            None => postfix(tokens, pos),
        },
        None => postfix(tokens, pos),
    }
}

/// A factor, followed by any number of `. member` and `[ index ]`.
#[verifier::opaque]
pub open spec fn postfix(tokens: Seq<Token>, pos: int) -> Step<Option<Parsed>>
    decreases remaining(tokens, pos), 12nat,
{
    let f = factor(tokens, pos);
    match f.result {
        Err(e) => failed(e, f.pos),
        Ok(None) => found(None, f.pos),
        Ok(Some(e)) => if f.pos <= pos {
            failed(locked(tokens, f.pos), f.pos)
        } else {
            some(postfix_rest(tokens, pos, f.pos, e))
        },
    }
}

/// What follows a factor `e` that started at `start`: `. member` and
/// `[ index ]`, from the position `cur` on.
#[verifier::opaque]
pub open spec fn postfix_rest(tokens: Seq<Token>, start: int, cur: int, e: Parsed) -> Step<Parsed>
    decreases remaining(tokens, cur), 0nat,
{
    if kind_at(tokens, cur, Lex::MemberAccess) {
        match token_at(tokens, cur + 1) {
            Some(Token { s: Lex::Identifier(member), .. }) => postfix_rest(
                tokens,
                start,
                cur + 2,
                ExpressionView::MemberAccess(context(tokens, start, cur + 2), Box::new(e), member),
            ),
            _ => failed(
                error_at(tokens, cur + 1, ParserError::MemberAccessExpectedField),
                cur + 1,
            ),
        }
    } else if kind_at(tokens, cur, Lex::LBracket) {
        let index = expression(tokens, cur + 1);
        match index.result {
            Err(f) => failed(f, index.pos),
            Ok(None) => failed(
                error_at(tokens, index.pos, ParserError::IndexOpInvalidExpr),
                index.pos,
            ),
            Ok(Some(i)) => if !kind_at(tokens, index.pos, Lex::RBracket) {
                failed(expected(tokens, index.pos, Lex::RBracket), index.pos)
            } else if index.pos < cur {
                failed(locked(tokens, index.pos), index.pos)
            } else {
                postfix_rest(
                    tokens,
                    start,
                    index.pos + 1,
                    ExpressionView::ArrayAt {
                        context: context(tokens, start, index.pos + 1),
                        array: Box::new(e),
                        index: Box::new(i),
                    },
                )
            },
        }
    } else {
        found(e, cur)
    }
}

/// The smallest expressions: an expression in parentheses, a block, a
/// conditional, a loop, the resumption or the creation of a coroutine, an
/// array value, a call, a structure value, a name, a path, or a literal.
#[verifier::opaque]
pub open spec fn factor(tokens: Seq<Token>, pos: int) -> Step<Option<Parsed>>
    decreases remaining(tokens, pos), 11nat,
{
    match token_at(tokens, pos) {
        None => found(None, pos),
        Some(t) => match t.s {
            Lex::LParen => parenthesized(tokens, pos),
            Lex::LBrace => block(tokens, pos),
            Lex::If => some(conditional(tokens, pos)),
            Lex::While => while_loop(tokens, pos),
            Lex::Yield => resumption(tokens, pos),
            Lex::Init => creation(tokens, pos),
            Lex::LBracket => array(tokens, pos),
            Lex::Identifier(_)
            | Lex::PathProjectRoot
            | Lex::PathFileRoot
            | Lex::PathSelf
            | Lex::PathSuper
            | Lex::PathSeparator => reference(tokens, pos),
            _ => literal(tokens, pos),
        },
    }
}

/// The literal that a token stands for.
pub open spec fn literal(tokens: Seq<Token>, pos: int) -> Step<Option<Parsed>> {
    let ctx = context(tokens, pos, pos + 1);
    match token_at(tokens, pos) {
        Some(Token { s: Lex::U8(v), .. }) => found(Some(ExpressionView::U8(ctx, v)), pos + 1),
        Some(Token { s: Lex::U16(v), .. }) => found(Some(ExpressionView::U16(ctx, v)), pos + 1),
        Some(Token { s: Lex::U32(v), .. }) => found(Some(ExpressionView::U32(ctx, v)), pos + 1),
        Some(Token { s: Lex::U64(v), .. }) => found(Some(ExpressionView::U64(ctx, v)), pos + 1),
        Some(Token { s: Lex::I8(v), .. }) => found(Some(ExpressionView::I8(ctx, v)), pos + 1),
        Some(Token { s: Lex::I16(v), .. }) => found(Some(ExpressionView::I16(ctx, v)), pos + 1),
        Some(Token { s: Lex::I32(v), .. }) => found(Some(ExpressionView::I32(ctx, v)), pos + 1),
        Some(Token { s: Lex::I64(v), .. }) => found(Some(ExpressionView::I64(ctx, v)), pos + 1),
        Some(Token { s: Lex::Bool(v), .. }) => found(
            Some(ExpressionView::Boolean(ctx, v)),
            pos + 1,
        ),
        Some(Token { s: Lex::StringLiteral(v), .. }) => found(
            Some(ExpressionView::StringLiteral(ctx, v)),
            pos + 1,
        ),
        _ => found(None, pos),
    }
}

/// `( expression )`
#[verifier::opaque]
pub open spec fn parenthesized(tokens: Seq<Token>, pos: int) -> Step<Option<Parsed>>
    decreases remaining(tokens, pos), 10nat,
{
    if !kind_at(tokens, pos, Lex::LParen) {
        found(None, pos)
    } else {
        let inner = expression(tokens, pos + 1);
        match inner.result {
            Err(e) => failed(e, inner.pos),
            Ok(None) => failed(
                error_at(tokens, inner.pos, ParserError::ExpectedExprAfter(Lex::LParen)),
                inner.pos,
            ),
            Ok(Some(e)) => closing(tokens, inner.pos, Lex::RParen, Some(e)),
        }
    }
}

/// `while ( condition ) block`
#[verifier::opaque]
pub open spec fn while_loop(tokens: Seq<Token>, pos: int) -> Step<Option<Parsed>>
    decreases remaining(tokens, pos), 10nat,
{
    if !kind_at(tokens, pos, Lex::While) {
        found(None, pos)
    } else if !kind_at(tokens, pos + 1, Lex::LParen) {
        failed(expected(tokens, pos + 1, Lex::LParen), pos + 1)
    } else {
        let cond = expression(tokens, pos + 2);
        match cond.result {
            Err(e) => failed(e, cond.pos),
            Ok(None) => failed(
                error_at(tokens, cond.pos, ParserError::WhileExpectedConditional),
                cond.pos,
            ),
            Ok(Some(c)) => if !kind_at(tokens, cond.pos, Lex::RParen) {
                failed(expected(tokens, cond.pos, Lex::RParen), cond.pos)
            } else if cond.pos <= pos {
                failed(locked(tokens, cond.pos), cond.pos)
            } else {
                let body = block(tokens, cond.pos + 1);
                match body.result {
                    Err(e) => failed(e, body.pos),
                    Ok(None) => failed(
                        error_at(tokens, body.pos, ParserError::WhileMissingBody),
                        body.pos,
                    ),
                    Ok(Some(b)) => found(
                        Some(
                            ExpressionView::While {
                                context: context(tokens, pos, body.pos),
                                cond: Box::new(c),
                                body: Box::new(b),
                            },
                        ),
                        body.pos,
                    ),
                }
            },
        }
    }
}

/// `yield expression`: the resumption of the coroutine that the expression
/// gives.
#[verifier::opaque]
pub open spec fn resumption(tokens: Seq<Token>, pos: int) -> Step<Option<Parsed>>
    decreases remaining(tokens, pos), 10nat,
{
    if !kind_at(tokens, pos, Lex::Yield) {
        found(None, pos)
    } else {
        let e = expression(tokens, pos + 1);
        match e.result {
            Err(f) => failed(f, e.pos),
            Ok(None) => failed(
                error_at(tokens, e.pos, ParserError::YieldExpectedIdentifier),
                e.pos,
            ),
            Ok(Some(x)) => found(
                Some(ExpressionView::Yield(context(tokens, pos, e.pos), Box::new(x))),
                e.pos,
            ),
        }
    }
}

/// `init path ( arguments )`: the creation of a coroutine.
#[verifier::opaque]
pub open spec fn creation(tokens: Seq<Token>, pos: int) -> Step<Option<Parsed>>
    decreases remaining(tokens, pos), 10nat,
{
    if !kind_at(tokens, pos, Lex::Init) {
        found(None, pos)
    } else {
        let target = path(tokens, pos + 1);
        match target.result {
            Err(e) => failed(e, target.pos),
            Ok(None) => failed(
                error_at(tokens, target.pos, ParserError::ExpectedIdAfterInit),
                target.pos,
            ),
            Ok(Some(steps)) => if !kind_at(tokens, target.pos, Lex::LParen) {
                failed(error_at(tokens, target.pos, ParserError::ExpectedParams), target.pos)
            } else if target.pos <= pos {
                failed(locked(tokens, target.pos), target.pos)
            } else {
                let args = arguments(tokens, target.pos + 1, Lex::RParen, Seq::empty());
                match args.result {
                    Err(e) => failed(e, args.pos),
                    Ok(params) => found(
                        Some(
                            ExpressionView::RoutineCall(
                                context(tokens, pos, args.pos),
                                RoutineCall::CoroutineInit,
                                steps,
                                params,
                            ),
                        ),
                        args.pos,
                    ),
                }
            },
        }
    }
}

/// `[ expression, ... ]`: the value of an array.
#[verifier::opaque]
pub open spec fn array(tokens: Seq<Token>, pos: int) -> Step<Option<Parsed>>
    decreases remaining(tokens, pos), 10nat,
{
    if !kind_at(tokens, pos, Lex::LBracket) {
        found(None, pos)
    } else {
        let elements = arguments(tokens, pos + 1, Lex::RBracket, Seq::empty());
        match elements.result {
            Err(e) => failed(e, elements.pos),
            Ok(es) => found(
                Some(
                    ExpressionView::ArrayExpression(
                        context(tokens, pos, elements.pos),
                        es,
                        es.len(),
                    ),
                ),
                elements.pos,
            ),
        }
    }
}

/// What starts with a path: the call `path ( arguments )`, the structure
/// value `path { name: value, ... }`, a name, or the path itself.
#[verifier::opaque]
pub open spec fn reference(tokens: Seq<Token>, pos: int) -> Step<Option<Parsed>>
    decreases remaining(tokens, pos), 10nat,
{
    let p = path(tokens, pos);
    match p.result {
        Err(e) => failed(e, p.pos),
        Ok(None) => found(None, p.pos),
        Ok(Some(steps)) => if p.pos <= pos {
            failed(locked(tokens, p.pos), p.pos)
        } else if kind_at(tokens, p.pos, Lex::LParen) {
            let args = arguments(tokens, p.pos + 1, Lex::RParen, Seq::empty());
            match args.result {
                Err(e) => failed(e, args.pos),
                Ok(params) => found(
                    Some(
                        ExpressionView::RoutineCall(
                            context(tokens, pos, args.pos),
                            RoutineCall::Function,
                            steps,
                            params,
                        ),
                    ),
                    args.pos,
                ),
            }
        } else if starts_fields(tokens, p.pos) {
            let fs = fields(tokens, p.pos + 1, Seq::empty());
            match fs.result {
                Err(e) => failed(e, fs.pos),
                Ok(values) => found(
                    Some(
                        ExpressionView::StructExpression(
                            context(tokens, pos, fs.pos),
                            steps,
                            values,
                        ),
                    ),
                    fs.pos,
                ),
            }
        } else {
            found(Some(named(context(tokens, pos, p.pos), steps)), p.pos)
        },
    }
}

/// Expressions, separated by commas, up to the word `close`.
#[verifier::opaque]
pub open spec fn arguments(tokens: Seq<Token>, pos: int, close: Lex, done: Seq<Parsed>) -> Step<
    Seq<Parsed>,
>
    decreases remaining(tokens, pos), 30nat,
{
    let e = expression(tokens, pos);
    match e.result {
        Err(f) => failed(f, e.pos),
        Ok(None) => closing(tokens, e.pos, close, done),
        Ok(Some(x)) => if e.pos <= pos {
            failed(locked(tokens, e.pos), e.pos)
        } else if kind_at(tokens, e.pos, Lex::Comma) {
            arguments(tokens, e.pos + 1, close, done.push(x))
        } else {
            closing(tokens, e.pos, close, done.push(x))
        },
    }
}

/// The end of a list: the word `close`.
pub open spec fn closing<T>(tokens: Seq<Token>, pos: int, close: Lex, done: T) -> Step<T> {
    if kind_at(tokens, pos, close) {
        found(done, pos + 1)
    } else {
        failed(expected(tokens, pos, close), pos)
    }
}

/// `name: value`, separated by commas, up to `}`.
#[verifier::opaque]
pub open spec fn fields(tokens: Seq<Token>, pos: int, done: Seq<(StringId, Parsed)>) -> Step<
    Seq<(StringId, Parsed)>,
>
    decreases remaining(tokens, pos), 30nat,
{
    match token_at(tokens, pos) {
        Some(Token { s: Lex::Identifier(name), .. }) => if !kind_at(tokens, pos + 1, Lex::Colon) {
            failed(expected(tokens, pos + 1, Lex::Colon), pos + 1)
        } else {
            let v = expression(tokens, pos + 2);
            match v.result {
                Err(f) => failed(f, v.pos),
                Ok(None) => failed(
                    error_at(tokens, v.pos, ParserError::StructExpectedFieldExpr(name)),
                    v.pos,
                ),
                Ok(Some(x)) => if v.pos <= pos {
                    failed(locked(tokens, v.pos), v.pos)
                } else if kind_at(tokens, v.pos, Lex::Comma) {
                    fields(tokens, v.pos + 1, done.push((name, x)))
                } else {
                    closing(tokens, v.pos, Lex::RBrace, done.push((name, x)))
                },
            }
        },
        _ => closing(tokens, pos, Lex::RBrace, done),
    }
}

/// `{ statement* [expression] }`
#[verifier::opaque]
pub open spec fn block(tokens: Seq<Token>, pos: int) -> Step<Option<Parsed>>
    decreases remaining(tokens, pos), 10nat,
{
    if !kind_at(tokens, pos, Lex::LBrace) {
        found(None, pos)
    } else {
        let body = statements(tokens, pos + 1, Seq::empty());
        match body.result {
            Err(e) => failed(e, body.pos),
            Ok(ss) => if body.pos <= pos {
                failed(locked(tokens, body.pos), body.pos)
            } else {
                let last = expression(tokens, body.pos);
                match last.result {
                    Err(e) => failed(e, last.pos),
                    Ok(l) => if !kind_at(tokens, last.pos, Lex::RBrace) {
                        failed(expected(tokens, last.pos, Lex::RBrace), last.pos)
                    } else {
                        found(
                            Some(
                                ExpressionView::ExpressionBlock(
                                    context(tokens, pos, last.pos + 1),
                                    ss,
                                    match l {
                                        Some(e) => Some(Box::new(e)),
                                        None => None,
                                    },
                                ),
                            ),
                            last.pos + 1,
                        )
                    },
                }
            },
        }
    }
}

/// `if ( condition ) block [else block | else conditional]`, where the
/// token at the position is the `if`.
#[verifier::opaque]
pub open spec fn conditional(tokens: Seq<Token>, pos: int) -> Step<Parsed>
    decreases remaining(tokens, pos), 9nat,
{
    if !kind_at(tokens, pos, Lex::If) {
        failed(expected(tokens, pos, Lex::If), pos)
    } else if !kind_at(tokens, pos + 1, Lex::LParen) {
        failed(expected(tokens, pos + 1, Lex::LParen), pos + 1)
    } else {
        let cond = expression(tokens, pos + 2);
        match cond.result {
            Err(e) => failed(e, cond.pos),
            Ok(None) => failed(
                error_at(tokens, cond.pos, ParserError::IfExpectedConditional),
                cond.pos,
            ),
            Ok(Some(c)) => if !kind_at(tokens, cond.pos, Lex::RParen) {
                failed(expected(tokens, cond.pos, Lex::RParen), cond.pos)
            } else if cond.pos <= pos {
                failed(locked(tokens, cond.pos), cond.pos)
            } else {
                let then_arm = block(tokens, cond.pos + 1);
                match then_arm.result {
                    Err(e) => failed(e, then_arm.pos),
                    Ok(None) => failed(
                        error_at(tokens, then_arm.pos, ParserError::IfTrueArmMissingExpr),
                        then_arm.pos,
                    ),
                    Ok(Some(t)) => if !kind_at(tokens, then_arm.pos, Lex::Else) {
                        found(
                            ExpressionView::If {
                                context: context(tokens, pos, then_arm.pos),
                                cond: Box::new(c),
                                if_arm: Box::new(t),
                                else_arm: None,
                            },
                            then_arm.pos,
                        )
                    } else if then_arm.pos <= pos {
                        failed(locked(tokens, then_arm.pos), then_arm.pos)
                    } else if kind_at(tokens, then_arm.pos + 1, Lex::If) {
                        let else_arm = conditional(tokens, then_arm.pos + 1);
                        match else_arm.result {
                            Err(e) => failed(e, else_arm.pos),
                            Ok(e) => found(
                                ExpressionView::If {
                                    context: context(tokens, pos, else_arm.pos),
                                    cond: Box::new(c),
                                    if_arm: Box::new(t),
                                    else_arm: Some(Box::new(e)),
                                },
                                else_arm.pos,
                            ),
                        }
                    } else {
                        let else_arm = block(tokens, then_arm.pos + 1);
                        match else_arm.result {
                            Err(e) => failed(e, else_arm.pos),
                            Ok(None) => failed(
                                error_at(tokens, else_arm.pos, ParserError::IfFalseArmMissingExpr),
                                else_arm.pos,
                            ),
                            Ok(Some(e)) => found(
                                ExpressionView::If {
                                    context: context(tokens, pos, else_arm.pos),
                                    cond: Box::new(c),
                                    if_arm: Box::new(t),
                                    else_arm: Some(Box::new(e)),
                                },
                                else_arm.pos,
                            ),
                        }
                    },
                }
            },
        }
    }
}

/// The value of a statement and the semicolon that ends it.
#[verifier::opaque]
pub open spec fn value_and_semicolon(tokens: Seq<Token>, pos: int, missing: ParserError) -> Step<
    Parsed,
>
    decreases remaining(tokens, pos), 21nat,
{
    let e = expression(tokens, pos);
    match e.result {
        Err(f) => failed(f, e.pos),
        Ok(None) => failed(error_at(tokens, e.pos, missing), e.pos),
        Ok(Some(x)) => closing(tokens, e.pos, Lex::Semicolon, x),
    }
}

/// The optional value of a `return` or a `yret` and the semicolon that
/// ends the statement.
#[verifier::opaque]
pub open spec fn optional_value_and_semicolon(tokens: Seq<Token>, pos: int) -> Step<
    Option<Parsed>,
>
    decreases remaining(tokens, pos), 21nat,
{
    let e = expression(tokens, pos);
    match e.result {
        Err(f) => failed(f, e.pos),
        Ok(v) => closing(tokens, e.pos, Lex::Semicolon, v),
    }
}

/// `let [mut] name: type := expression;`
#[verifier::opaque]
pub open spec fn binding(tokens: Seq<Token>, pos: int) -> Step<Option<ParsedStatement>>
    decreases remaining(tokens, pos), 28nat,
{
    if !kind_at(tokens, pos, Lex::Let) {
        found(None, pos)
    } else {
        let mutable = kind_at(tokens, pos + 1, Lex::Mut);
        let at = if mutable {
            pos + 2
        } else {
            pos + 1
        };
        match token_at(tokens, at) {
            Some(Token { s: Lex::Identifier(id), .. }) => if !kind_at(tokens, at + 1, Lex::Colon) {
                failed(expected(tokens, at + 1, Lex::Colon), at + 1)
            } else {
                let declared = ty(tokens, at + 2);
                match declared.result {
                    Err(e) => failed(e, declared.pos),
                    Ok(None) => failed(
                        error_at(tokens, declared.pos, ParserError::ExpectedTypeInIdDecl),
                        declared.pos,
                    ),
                    Ok(Some(t)) => if !kind_at(tokens, declared.pos, Lex::Assign) {
                        failed(expected(tokens, declared.pos, Lex::Assign), declared.pos)
                    } else if declared.pos <= pos {
                        failed(locked(tokens, declared.pos), declared.pos)
                    } else {
                        let rhs = value_and_semicolon(
                            tokens,
                            declared.pos + 1,
                            ParserError::ExpectedExpressionOnRhs,
                        );
                        match rhs.result {
                            Err(e) => failed(e, rhs.pos),
                            Ok(x) => found(
                                Some(
                                    StatementView::Bind {
                                        metadata: context(tokens, pos, rhs.pos),
                                        id,
                                        ty: t,
                                        mutable,
                                        rhs: x,
                                    },
                                ),
                                rhs.pos,
                            ),
                        }
                    },
                }
            },
            _ => failed(error_at(tokens, at, ParserError::ExpectedIdDeclAfterLet), at),
        }
    }
}

/// `mut name := expression;`
#[verifier::opaque]
pub open spec fn assignment(tokens: Seq<Token>, pos: int) -> Step<Option<ParsedStatement>>
    decreases remaining(tokens, pos), 28nat,
{
    if !kind_at(tokens, pos, Lex::Mut) || !kind_at(tokens, pos + 2, Lex::Assign) {
        found(None, pos)
    } else {
        match token_at(tokens, pos + 1) {
            Some(Token { s: Lex::Identifier(id), .. }) => {
                let rhs = value_and_semicolon(
                    tokens,
                    pos + 3,
                    ParserError::ExpectedExpressionOnRhs,
                );
                match rhs.result {
                    Err(e) => failed(e, rhs.pos),
                    Ok(x) => found(
                        Some(
                            StatementView::Mutate {
                                metadata: context(tokens, pos, rhs.pos),
                                id,
                                rhs: x,
                            },
                        ),
                        rhs.pos,
                    ),
                }
            },
            _ => found(None, pos),
        }
    }
}

/// `return [expression];`
#[verifier::opaque]
pub open spec fn returning(tokens: Seq<Token>, pos: int) -> Step<Option<ParsedStatement>>
    decreases remaining(tokens, pos), 28nat,
{
    if !kind_at(tokens, pos, Lex::Return) {
        found(None, pos)
    } else {
        let value = optional_value_and_semicolon(tokens, pos + 1);
        match value.result {
            Err(e) => failed(e, value.pos),
            Ok(v) => found(
                Some(StatementView::Return { metadata: context(tokens, pos, value.pos), value: v }),
                value.pos,
            ),
        }
    }
}

/// `yret [expression];`
#[verifier::opaque]
pub open spec fn yielding(tokens: Seq<Token>, pos: int) -> Step<Option<ParsedStatement>>
    decreases remaining(tokens, pos), 28nat,
{
    if !kind_at(tokens, pos, Lex::YieldReturn) {
        found(None, pos)
    } else {
        let value = optional_value_and_semicolon(tokens, pos + 1);
        match value.result {
            Err(e) => failed(e, value.pos),
            Ok(v) => found(
                Some(
                    StatementView::YieldReturn {
                        metadata: context(tokens, pos, value.pos),
                        value: v,
                    },
                ),
                value.pos,
            ),
        }
    }
}

/// A statement: a binding, an assignment, a return, a yield return, or an
/// expression; each ends in a semicolon.  An expression that no semicolon
/// follows is no statement, and the tokens stay where they are.
#[verifier::opaque]
pub open spec fn statement(tokens: Seq<Token>, pos: int) -> Step<Option<ParsedStatement>>
    decreases remaining(tokens, pos), 29nat,
{
    if kind_at(tokens, pos, Lex::Let) {
        binding(tokens, pos)
    } else if kind_at(tokens, pos, Lex::Mut) {
        assignment(tokens, pos)
    } else if kind_at(tokens, pos, Lex::Return) {
        returning(tokens, pos)
    } else if kind_at(tokens, pos, Lex::YieldReturn) {
        yielding(tokens, pos)
    } else {
        let e = expression(tokens, pos);
        match e.result {
            Err(f) => failed(f, e.pos),
            Ok(Some(x)) => if kind_at(tokens, e.pos, Lex::Semicolon) {
                found(Some(StatementView::Expression(x)), e.pos + 1)
            } else {
                found(None, pos)
            },
            Ok(None) => found(None, pos),
        }
    }
}

/// Statements, as many as there are, appended to `done`.
#[verifier::opaque]
pub open spec fn statements(tokens: Seq<Token>, pos: int, done: Seq<ParsedStatement>) -> Step<
    Seq<ParsedStatement>,
>
    decreases remaining(tokens, pos), 30nat,
{
    if token_at(tokens, pos) is None {
        found(done, pos)
    } else {
        let s = statement(tokens, pos);
        match s.result {
            Err(e) => failed(e, s.pos),
            Ok(None) => found(done, s.pos),
            Ok(Some(x)) => if s.pos <= pos {
                failed(locked(tokens, s.pos), s.pos)
            } else {
                statements(tokens, s.pos, done.push(x))
            },
        }
    }
}

/// `[-> type]`: the type of what a routine returns; without the arrow, the
/// routine returns nothing.
pub open spec fn result_type(tokens: Seq<Token>, pos: int) -> Step<TypeView> {
    if !kind_at(tokens, pos, Lex::LArrow) {
        found(TypeView::Unit, pos)
    } else {
        let t = ty(tokens, pos + 1);
        match t.result {
            Err(e) => failed(e, t.pos),
            Ok(None) => failed(
                error_at(tokens, t.pos, ParserError::FnExpectedTypeAfterArrow),
                t.pos,
            ),
            Ok(Some(declared)) => found(declared, t.pos),
        }
    }
}

/// `( name: type, ... )`: the parameters of a routine.  A routine takes
/// as many arguments as it has parameters: `...` is refused.
pub open spec fn parameter_list(tokens: Seq<Token>, pos: int) -> Step<
    Seq<ParameterView<ParserContext>>,
> {
    if !kind_at(tokens, pos, Lex::LParen) {
        failed(expected(tokens, pos, Lex::LParen), pos)
    } else {
        let params = declarations(tokens, pos + 1, Seq::empty());
        match params.result {
            Err(e) => failed(e, params.pos),
            Ok(ps) => if kind_at(tokens, params.pos, Lex::VarArgs) {
                failed(error_at(tokens, params.pos, ParserError::FnVarArgsNotAllowed), params.pos)
            } else {
                closing(tokens, params.pos, Lex::RParen, ps)
            },
        }
    }
}

/// Whether the statement is a return.
pub open spec fn is_return(s: ParsedStatement) -> bool {
    s is Return
}

/// `{ statement* }`: the body of a routine, which ends with a return.
pub open spec fn routine_body(tokens: Seq<Token>, pos: int) -> Step<Seq<ParsedStatement>> {
    if !kind_at(tokens, pos, Lex::LBrace) {
        failed(expected(tokens, pos, Lex::LBrace), pos)
    } else {
        let body = statements(tokens, pos + 1, Seq::empty());
        match body.result {
            Err(e) => failed(e, body.pos),
            Ok(ss) => if ss.len() == 0 || !is_return(ss.last()) {
                failed(
                    error_at(
                        tokens,
                        body.pos,
                        ParserError::FnExpectedReturn(token_at(tokens, body.pos)),
                    ),
                    body.pos,
                )
            } else {
                closing(tokens, body.pos, Lex::RBrace, ss)
            },
        }
    }
}

/// The kind of routine that a word starts the definition of.
pub open spec fn routine_kind(tokens: Seq<Token>, pos: int) -> Option<RoutineDefType> {
    if kind_at(tokens, pos, Lex::FunctionDef) {
        Some(RoutineDefType::Function)
    } else if kind_at(tokens, pos, Lex::CoroutineDef) {
        Some(RoutineDefType::Coroutine)
    } else {
        None
    }
}

/// `fn name ( parameters ) [-> type] { statements }`, or the same with
/// `co` for a coroutine.
pub open spec fn routine(tokens: Seq<Token>, pos: int) -> Step<
    Option<RoutineDefView<ParserContext>>,
> {
    match routine_kind(tokens, pos) {
        None => found(None, pos),
        Some(def) => match token_at(tokens, pos + 1) {
            Some(Token { s: Lex::Identifier(name), .. }) => {
                let params = parameter_list(tokens, pos + 2);
                match params.result {
                    Err(e) => failed(e, params.pos),
                    Ok(ps) => {
                        let t = result_type(tokens, params.pos);
                        match t.result {
                            Err(e) => failed(e, t.pos),
                            Ok(declared) => {
                                let body = routine_body(tokens, t.pos);
                                match body.result {
                                    Err(e) => failed(e, body.pos),
                                    Ok(ss) => found(
                                        Some(
                                            RoutineDefView {
                                                annotations: context(tokens, pos, body.pos),
                                                def,
                                                name,
                                                params: ps,
                                                ty: declared,
                                                body: ss,
                                            },
                                        ),
                                        body.pos,
                                    ),
                                }
                            },
                        }
                    },
                }
            },
            _ => failed(
                error_at(
                    tokens,
                    pos + 1,
                    if def == RoutineDefType::Function {
                        ParserError::FnExpectedIdentifierAfterFn
                    } else {
                        ParserError::CoExpectedIdentifierAfterCo
                    },
                ),
                pos + 1,
            ),
        },
    }
}

/// `struct name { name: type, ... }`
pub open spec fn structure(tokens: Seq<Token>, pos: int) -> Step<
    Option<StructDefView<ParserContext>>,
> {
    if !kind_at(tokens, pos, Lex::Struct) {
        found(None, pos)
    } else {
        match token_at(tokens, pos + 1) {
            Some(Token { s: Lex::Identifier(name), .. }) => if !kind_at(
                tokens,
                pos + 2,
                Lex::LBrace,
            ) {
                failed(expected(tokens, pos + 2, Lex::LBrace), pos + 2)
            } else {
                let fs = declarations(tokens, pos + 3, Seq::empty());
                match fs.result {
                    Err(e) => failed(e, fs.pos),
                    Ok(declared) => if !kind_at(tokens, fs.pos, Lex::RBrace) {
                        failed(expected(tokens, fs.pos, Lex::RBrace), fs.pos)
                    } else {
                        found(
                            Some(
                                StructDefView {
                                    annotations: context(tokens, pos, fs.pos + 1),
                                    name,
                                    fields: declared,
                                },
                            ),
                            fs.pos + 1,
                        )
                    },
                }
            },
            _ => failed(
                error_at(tokens, pos + 1, ParserError::StructExpectedIdentifier),
                pos + 1,
            ),
        }
    }
}

/// `extern fn name ( name: type, ... [...] ) [-> type] ;`: the declaration
/// of a function that is defined elsewhere.  The `...` stands for any
/// number of further arguments, and follows at least one parameter.
pub open spec fn external(tokens: Seq<Token>, pos: int) -> Step<Option<ExternView<ParserContext>>> {
    if !kind_at(tokens, pos, Lex::Extern) {
        found(None, pos)
    } else if !kind_at(tokens, pos + 1, Lex::FunctionDef) {
        failed(error_at(tokens, pos + 1, ParserError::ExternExpectedFnDecl), pos + 1)
    } else {
        match token_at(tokens, pos + 2) {
            Some(Token { s: Lex::Identifier(name), .. }) => if !kind_at(
                tokens,
                pos + 3,
                Lex::LParen,
            ) {
                failed(expected(tokens, pos + 3, Lex::LParen), pos + 3)
            } else {
                let params = declarations(tokens, pos + 4, Seq::empty());
                match params.result {
                    Err(e) => failed(e, params.pos),
                    Ok(ps) => {
                        let has_varargs = kind_at(tokens, params.pos, Lex::VarArgs);
                        let at = if has_varargs {
                            params.pos + 1
                        } else {
                            params.pos
                        };
                        if has_varargs && ps.len() == 0 {
                            failed(
                                error_at(tokens, at, ParserError::ExternInvalidVarArgs),
                                at,
                            )
                        } else if !kind_at(tokens, at, Lex::RParen) {
                            failed(expected(tokens, at, Lex::RParen), at)
                        } else {
                            let t = result_type(tokens, at + 1);
                            match t.result {
                                Err(e) => failed(e, t.pos),
                                Ok(declared) => if !kind_at(tokens, t.pos, Lex::Semicolon) {
                                    failed(expected(tokens, t.pos, Lex::Semicolon), t.pos)
                                } else {
                                    found(
                                        Some(
                                            ExternView {
                                                annotations: context(tokens, pos, t.pos + 1),
                                                name,
                                                params: ps,
                                                has_varargs,
                                                ty: declared,
                                            },
                                        ),
                                        t.pos + 1,
                                    )
                                },
                            }
                        }
                    },
                }
            },
            _ => failed(
                error_at(tokens, pos + 2, ParserError::FnExpectedIdentifierAfterFn),
                pos + 2,
            ),
        }
    }
}

/// A module without items.
pub open spec fn empty_module(name: StringId, annotations: ParserContext) -> ModuleView<
    ParserContext,
> {
    ModuleView {
        annotations,
        name,
        modules: Seq::empty(),
        functions: Seq::empty(),
        coroutines: Seq::empty(),
        structs: Seq::empty(),
        externs: Seq::empty(),
    }
}

/// The error of an item whose name the module has already.
pub open spec fn duplicate(tokens: Seq<Token>, pos: int, name: StringId) -> ParseFailure {
    error_at(tokens, pos, ParserError::ModAlreadyContains(name))
}

/// `mod name { items }`
#[verifier::opaque]
pub open spec fn module(tokens: Seq<Token>, pos: int) -> Step<Option<ModuleView<ParserContext>>>
    decreases remaining(tokens, pos), 0nat,
{
    if !kind_at(tokens, pos, Lex::ModuleDef) {
        found(None, pos)
    } else {
        match token_at(tokens, pos + 1) {
            Some(Token { s: Lex::Identifier(name), .. }) => if !kind_at(
                tokens,
                pos + 2,
                Lex::LBrace,
            ) {
                failed(expected(tokens, pos + 2, Lex::LBrace), pos + 2)
            } else {
                let inner = items(
                    tokens,
                    pos + 3,
                    empty_module(name, context(tokens, pos, pos)),
                );
                match inner.result {
                    Err(e) => failed(e, inner.pos),
                    Ok(m) => if !kind_at(tokens, inner.pos, Lex::RBrace) {
                        failed(expected(tokens, inner.pos, Lex::RBrace), inner.pos)
                    } else {
                        found(
                            Some(
                                ModuleView {
                                    annotations: context(tokens, pos, inner.pos + 1),
                                    ..m
                                },
                            ),
                            inner.pos + 1,
                        )
                    },
                }
            },
            _ => failed(error_at(tokens, pos + 1, ParserError::ModExpectedName), pos + 1),
        }
    }
}

/// Modules, routines, structures and external declarations, as many as
/// there are, added to the module `m`.  The names of the routines, the
/// structures and the external declarations of a module differ.
#[verifier::opaque]
pub open spec fn items(tokens: Seq<Token>, pos: int, m: ModuleView<ParserContext>) -> Step<
    ModuleView<ParserContext>,
>
    decreases remaining(tokens, pos), 1nat,
{
    match token_at(tokens, pos) {
        None => found(m, pos),
        Some(t) => match t.s {
            Lex::ModuleDef => {
                let child = module(tokens, pos);
                match child.result {
                    Err(e) => failed(e, child.pos),
                    Ok(None) => found(m, child.pos),
                    Ok(Some(c)) => if child.pos <= pos {
                        failed(locked(tokens, child.pos), child.pos)
                    } else {
                        items(tokens, child.pos, ModuleView { modules: m.modules.push(c), ..m })
                    },
                }
            },
            Lex::FunctionDef | Lex::CoroutineDef => {
                let r = routine(tokens, pos);
                match r.result {
                    Err(e) => failed(e, r.pos),
                    Ok(None) => found(m, r.pos),
                    Ok(Some(def)) => if m.find_item(def.name) is Some {
                        failed(duplicate(tokens, r.pos, def.name), r.pos)
                    } else if r.pos <= pos {
                        failed(locked(tokens, r.pos), r.pos)
                    } else if def.def == RoutineDefType::Function {
                        items(
                            tokens,
                            r.pos,
                            ModuleView { functions: m.functions.push(ItemView::Routine(def)), ..m },
                        )
                    } else {
                        items(
                            tokens,
                            r.pos,
                            ModuleView {
                                coroutines: m.coroutines.push(ItemView::Routine(def)),
                                ..m
                            },
                        )
                    },
                }
            },
            Lex::Struct => {
                let s = structure(tokens, pos);
                match s.result {
                    Err(e) => failed(e, s.pos),
                    Ok(None) => found(m, s.pos),
                    Ok(Some(def)) => if m.find_item(def.name) is Some {
                        failed(duplicate(tokens, s.pos, def.name), s.pos)
                    } else if s.pos <= pos {
                        failed(locked(tokens, s.pos), s.pos)
                    } else {
                        items(
                            tokens,
                            s.pos,
                            ModuleView { structs: m.structs.push(ItemView::Struct(def)), ..m },
                        )
                    },
                }
            },
            Lex::Extern => {
                let x = external(tokens, pos);
                match x.result {
                    Err(e) => failed(e, x.pos),
                    Ok(None) => found(m, x.pos),
                    Ok(Some(def)) => if m.find_item(def.name) is Some {
                        failed(duplicate(tokens, x.pos, def.name), x.pos)
                    } else if x.pos <= pos {
                        failed(locked(tokens, x.pos), x.pos)
                    } else {
                        items(
                            tokens,
                            x.pos,
                            ModuleView { externs: m.externs.push(ItemView::Extern(def)), ..m },
                        )
                    },
                }
            },
            _ => found(m, pos),
        },
    }
}

/// The module that the tokens of a compilation unit describe: the items
/// of the unit, in a module called `name`.  No tokens give no module; a
/// token that starts no item is an error.
pub open spec fn unit(tokens: Seq<Token>, name: StringId) -> Result<
    Option<ModuleView<ParserContext>>,
    ParseFailure,
> {
    if tokens.len() == 0 {
        Ok(None)
    } else {
        let all = items(tokens, 0, empty_module(name, context(tokens, 0, 0)));
        match all.result {
            Err(e) => Err(e),
            Ok(m) => if all.pos < tokens.len() {
                Err(locked(tokens, all.pos))
            } else {
                Ok(Some(ModuleView { annotations: context(tokens, 0, all.pos), ..m }))
            },
        }
    }
}

} // verus!
