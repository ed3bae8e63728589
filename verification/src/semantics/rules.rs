//! The typing rules of the language, as functions of mathematical values.
//!
//! Each function gives, for a node of the tree and the scopes it is read
//! in, the node as the resolver annotates it, or the error that the
//! resolver reports.  Analysis stops at the first error.
use crate::ast::expression::{BinaryOperator, ExpressionView, RoutineCall, UnaryOperator};
use crate::ast::external::ExternView;
use crate::ast::module::{ItemView, ModuleView};
use crate::ast::parameter::ParameterView;
use crate::ast::path::Element;
use crate::ast::routinedef::{RoutineDefType, RoutineDefView};
use crate::ast::statement::StatementView;
use crate::ast::structdef::StructDefView;
use crate::ast::ty::TypeView;
use crate::semantics::error::{CompilerErrorView, SemanticErrorView};
use crate::semantics::semanticnode::ContextView;
use crate::semantics::stack::ScopeStackView;
use crate::semantics::symbol_table::{SymbolTableView, SymbolView};
use crate::source::span::Span;
use crate::stringtable::StringId;
use vstd::prelude::*;

verus! {

/// A semantic error with the span of the text that caused it.
pub type Failure = CompilerErrorView<SemanticErrorView>;

/// An expression of an analysed tree.
pub type Expr = ExpressionView<ContextView>;

/// A statement of an analysed tree.
pub type Stmt = StatementView<ContextView>;

pub open spec fn failure(span: Span, inner: SemanticErrorView) -> Failure {
    CompilerErrorView { span, inner }
}

/// The type that the annotation of an expression records.
pub open spec fn type_of(e: Expr) -> TypeView {
    e.context().ty
}

/// The type of an optional expression; none has the type `Unit`.
pub open spec fn type_of_optional(e: Option<Expr>) -> TypeView {
    match e {
        Some(e) => type_of(e),
        None => TypeView::Unit,
    }
}

/// Whether all the given expressions have the type of the first.
pub open spec fn homogeneous(es: Seq<Expr>) -> bool {
    forall|i: int| 0 <= i < es.len() ==> type_of(#[trigger] es[i]) == type_of(es[0])
}

/// The type of a binary operation on operands of the types `l` and `r`, or
/// the error that the operands cause.  Arithmetic takes two integers of the
/// same type and gives that type; the logical operators take and give
/// booleans; a comparison takes two values of the same type and gives a
/// boolean.
pub open spec fn binary_type(op: BinaryOperator, l: TypeView, r: TypeView) -> Result<
    TypeView,
    SemanticErrorView,
> {
    match op {
        BinaryOperator::Add | BinaryOperator::Sub | BinaryOperator::Mul | BinaryOperator::Div => {
            if l.is_integral() && r.is_integral() && l == r {
                Ok(l)
            } else {
                Err(
                    SemanticErrorView::OpExpected(
                        op,
                        if l.is_integral() {
                            l
                        } else {
                            TypeView::I64
                        },
                        l,
                        r,
                    ),
                )
            }
        },
        BinaryOperator::BAnd | BinaryOperator::BOr => {
            if l == TypeView::Bool && r == TypeView::Bool {
                Ok(TypeView::Bool)
            } else {
                Err(SemanticErrorView::OpExpected(op, TypeView::Bool, l, r))
            }
        },
        _ => {
            if l == r {
                Ok(TypeView::Bool)
            } else {
                Err(SemanticErrorView::OpExpected(op, l, l, r))
            }
        },
    }
}

/// The type of a unary operation on an operand of the type `t`, or the
/// error that the operand causes.
pub open spec fn unary_type(op: UnaryOperator, t: TypeView) -> Result<TypeView, SemanticErrorView> {
    match op {
        UnaryOperator::Negate => if t.is_signed_int() {
            Ok(t)
        } else {
            Err(SemanticErrorView::ExpectedSignedInteger(op, t))
        },
        UnaryOperator::Not => if t == TypeView::Bool {
            Ok(TypeView::Bool)
        } else {
            Err(SemanticErrorView::ExpectedBool(op, t))
        },
    }
}

/// What a call needs to know of its target.
pub ghost struct Signature {
    pub params: Seq<TypeView>,
    pub has_varargs: bool,
    pub ret: TypeView,
}

/// The signature under which `symbol` can be entered in the way `call`, or
/// the error where it cannot: a function is called, an external function is
/// called as such, a coroutine is created and then gives a coroutine value.
pub open spec fn signature_of(symbol: SymbolView, call: RoutineCall, path: Seq<Element>) -> Result<
    Signature,
    SemanticErrorView,
> {
    match (symbol.ty, call) {
        (TypeView::FunctionDef(params, ret), RoutineCall::Function) => Ok(
            Signature { params, has_varargs: false, ret: *ret },
        ),
        (TypeView::ExternDecl(params, has_varargs, ret), RoutineCall::Extern) => Ok(
            Signature { params, has_varargs, ret: *ret },
        ),
        (TypeView::CoroutineDef(params, ret), RoutineCall::CoroutineInit) => Ok(
            Signature { params, has_varargs: false, ret: TypeView::Coroutine(ret) },
        ),
        _ => Err(SemanticErrorView::RoutineCallInvalidTarget(call, path, symbol.ty)),
    }
}

/// The arguments, from position `i` on, whose type differs from the type of
/// the parameter at their position, appended to `done`: each with its
/// position counted from one, the expected type and the given type.
pub open spec fn mismatches(
    given: Seq<Expr>,
    expected: Seq<TypeView>,
    i: int,
    done: Seq<(usize, TypeView, TypeView)>,
) -> Seq<(usize, TypeView, TypeView)>
    decreases given.len() - i,
{
    if i < 0 || i >= given.len() || i >= expected.len() {
        done
    } else if type_of(given[i]) != expected[i] {
        mismatches(
            given,
            expected,
            i + 1,
            done.push(((i + 1) as usize, expected[i], type_of(given[i]))),
        )
    } else {
        mismatches(given, expected, i + 1, done)
    }
}

/// The error, if any, that the arguments of a call cause: a wrong number of
/// arguments, where the target takes exactly its parameters; too few, where
/// it takes more; else every argument of a wrong type.
pub open spec fn argument_error(
    path: Seq<Element>,
    given: Seq<Expr>,
    params: Seq<TypeView>,
    has_varargs: bool,
) -> Option<SemanticErrorView> {
    if !has_varargs && given.len() != params.len() {
        Some(
            SemanticErrorView::RoutineCallWrongNumParams(
                path,
                params.len() as usize,
                given.len() as usize,
            ),
        )
    } else if has_varargs && given.len() < params.len() {
        Some(
            SemanticErrorView::FunctionParamsNotEnough(
                path,
                params.len() as usize,
                given.len() as usize,
            ),
        )
    } else if mismatches(given, params, 0, Seq::empty()).len() > 0 {
        Some(
            SemanticErrorView::RoutineParamTypeMismatch(
                path,
                mismatches(given, params, 0, Seq::empty()),
            ),
        )
    } else {
        None
    }
}

/// Whether `ty` can be the type of a parameter or of a field: a named type
/// must name a structure.
pub open spec fn valid_type(env: ScopeStackView, ty: TypeView, span: Span) -> Result<(), Failure> {
    match ty {
        TypeView::Custom(name) => match env.lookup(name) {
            Err(e) => Err(failure(span, e)),
            Ok((item, _)) => match item.ty {
                TypeView::StructDef(_) => Ok(()),
                _ => Err(failure(span, SemanticErrorView::InvalidIdentifierType(item.ty))),
            },
        },
        _ => Ok(()),
    }
}

pub open spec fn resolve_expression(env: ScopeStackView, e: Expr) -> Result<Expr, Failure>
    decreases e,
{
    match e {
        ExpressionView::U8(ctx, v) => Ok(ExpressionView::U8(ctx.with_type(TypeView::U8), v)),
        ExpressionView::U16(ctx, v) => Ok(ExpressionView::U16(ctx.with_type(TypeView::U16), v)),
        ExpressionView::U32(ctx, v) => Ok(ExpressionView::U32(ctx.with_type(TypeView::U32), v)),
        ExpressionView::U64(ctx, v) => Ok(ExpressionView::U64(ctx.with_type(TypeView::U64), v)),
        ExpressionView::I8(ctx, v) => Ok(ExpressionView::I8(ctx.with_type(TypeView::I8), v)),
        ExpressionView::I16(ctx, v) => Ok(ExpressionView::I16(ctx.with_type(TypeView::I16), v)),
        ExpressionView::I32(ctx, v) => Ok(ExpressionView::I32(ctx.with_type(TypeView::I32), v)),
        ExpressionView::I64(ctx, v) => Ok(ExpressionView::I64(ctx.with_type(TypeView::I64), v)),
        ExpressionView::Boolean(ctx, v) => Ok(
            ExpressionView::Boolean(ctx.with_type(TypeView::Bool), v),
        ),
        ExpressionView::StringLiteral(ctx, v) => Ok(
            ExpressionView::StringLiteral(ctx.with_type(TypeView::StringLiteral), v),
        ),
        ExpressionView::ArrayExpression(ctx, elements, len) => match resolve_expressions(
            env,
            elements,
            0,
            Seq::empty(),
        ) {
            Err(f) => Err(f),
            Ok(resolved) => if resolved.len() == 0 {
                Err(failure(ctx.span, SemanticErrorView::ArrayInvalidSize(0)))
            } else if !homogeneous(resolved) {
                Err(failure(ctx.span, SemanticErrorView::ArrayInconsistentElementTypes))
            } else {
                Ok(
                    ExpressionView::ArrayExpression(
                        ctx.with_type(TypeView::Array(Box::new(type_of(resolved[0])), len)),
                        resolved,
                        len,
                    ),
                )
            },
        },
        ExpressionView::ArrayAt { context, array, index } => match resolve_expression(
            env,
            *array,
        ) {
            Err(f) => Err(f),
            Ok(n_array) => match type_of(n_array) {
                TypeView::Array(el_ty, _) => match resolve_expression(env, *index) {
                    Err(f) => Err(f),
                    Ok(n_index) => if !type_of(n_index).is_integral() {
                        Err(
                            failure(
                                context.span,
                                SemanticErrorView::ArrayIndexingInvalidIndexType(type_of(n_index)),
                            ),
                        )
                    } else {
                        Ok(
                            ExpressionView::ArrayAt {
                                context: context.with_type(*el_ty),
                                array: Box::new(n_array),
                                index: Box::new(n_index),
                            },
                        )
                    },
                },
                ty => Err(failure(context.span, SemanticErrorView::ArrayIndexingInvalidType(ty))),
            },
        },
        ExpressionView::CustomType(ctx, name) => Ok(
            ExpressionView::CustomType(ctx.with_type(TypeView::Custom(name)), name),
        ),
        ExpressionView::IdentifierDeclare(ctx, name, ty) => Ok(
            ExpressionView::IdentifierDeclare(ctx.with_type(ty), name, ty),
        ),
        ExpressionView::Identifier(ctx, id) => match env.lookup_var(id) {
            Err(e) => Err(failure(ctx.span, e)),
            Ok(symbol) => Ok(ExpressionView::Identifier(ctx.with_type(symbol.ty), id)),
        },
        ExpressionView::Path(ctx, _) => Err(failure(ctx.span, SemanticErrorView::PathNotValid)),
        ExpressionView::MemberAccess(ctx, src, member) => match resolve_expression(env, *src) {
            Err(f) => Err(f),
            Ok(src) => match type_of(src) {
                TypeView::Custom(struct_name) => match env.lookup(struct_name) {
                    Err(e) => Err(failure(ctx.span, e)),
                    Ok((struct_def, _)) => match struct_def.ty.member(member) {
                        None => Err(
                            failure(
                                ctx.span,
                                SemanticErrorView::MemberAccessMemberNotFound(struct_name, member),
                            ),
                        ),
                        Some(member_ty) => Ok(
                            ExpressionView::MemberAccess(
                                ctx.with_type(member_ty),
                                Box::new(src),
                                member,
                            ),
                        ),
                    },
                },
                ty => Err(failure(ctx.span, SemanticErrorView::MemberAccessInvalidRootType(ty))),
            },
        },
        ExpressionView::BinaryOp(ctx, op, l, r) => match resolve_expression(env, *l) {
            Err(f) => Err(f),
            Ok(l) => match resolve_expression(env, *r) {
                Err(f) => Err(f),
                Ok(r) => match binary_type(op, type_of(l), type_of(r)) {
                    Err(e) => Err(failure(l.context().span, e)),
                    Ok(ty) => Ok(
                        ExpressionView::BinaryOp(ctx.with_type(ty), op, Box::new(l), Box::new(r)),
                    ),
                },
            },
        },
        ExpressionView::UnaryOp(ctx, op, operand) => match resolve_expression(env, *operand) {
            Err(f) => Err(f),
            Ok(operand) => match unary_type(op, type_of(operand)) {
                Err(e) => Err(failure(operand.context().span, e)),
                Ok(ty) => Ok(ExpressionView::UnaryOp(ctx.with_type(ty), op, Box::new(operand))),
            },
        },
        ExpressionView::If { context, cond, if_arm, else_arm } => match resolve_expression(
            env,
            *cond,
        ) {
            Err(f) => Err(f),
            Ok(cond) => if type_of(cond) != TypeView::Bool {
                Err(failure(context.span, SemanticErrorView::CondExpectedBool(type_of(cond))))
            } else {
                match resolve_expression(env, *if_arm) {
                    Err(f) => Err(f),
                    Ok(if_arm) => match resolve_optional(
                        env,
                        match else_arm {
                            Some(e) => Some(*e),
                            None => None,
                        },
                    ) {
                        Err(f) => Err(f),
                        Ok(else_arm) => if type_of(if_arm) != type_of_optional(else_arm) {
                            Err(
                                failure(
                                    context.span,
                                    SemanticErrorView::IfExprMismatchArms(
                                        type_of(if_arm),
                                        type_of_optional(else_arm),
                                    ),
                                ),
                            )
                        } else {
                            Ok(
                                ExpressionView::If {
                                    context: context.with_type(type_of(if_arm)),
                                    cond: Box::new(cond),
                                    if_arm: Box::new(if_arm),
                                    else_arm: match else_arm {
                                        Some(e) => Some(Box::new(e)),
                                        None => None,
                                    },
                                },
                            )
                        },
                    },
                }
            },
        },
        ExpressionView::While { context, cond, body } => match resolve_expression(env, *cond) {
            Err(f) => Err(f),
            Ok(cond) => if type_of(cond) != TypeView::Bool {
                Err(failure(context.span, SemanticErrorView::WhileCondInvalidType(type_of(cond))))
            } else {
                match resolve_expression(env, *body) {
                    Err(f) => Err(f),
                    Ok(body) => if type_of(body) != TypeView::Unit {
                        Err(
                            failure(
                                context.span,
                                SemanticErrorView::WhileInvalidType(type_of(body)),
                            ),
                        )
                    } else {
                        Ok(
                            ExpressionView::While {
                                context: context.with_type(TypeView::Unit),
                                cond: Box::new(cond),
                                body: Box::new(body),
                            },
                        )
                    },
                }
            },
        },
        ExpressionView::Yield(ctx, exp) => match resolve_expression(env, *exp) {
            Err(f) => Err(f),
            Ok(exp) => match type_of(exp) {
                TypeView::Coroutine(ret_ty) => Ok(
                    ExpressionView::Yield(ctx.with_type(*ret_ty), Box::new(exp)),
                ),
                ty => Err(failure(ctx.span, SemanticErrorView::YieldInvalidType(ty))),
            },
        },
        ExpressionView::RoutineCall(ctx, call, routine_path, params) => match resolve_expressions(
            env,
            params,
            0,
            Seq::empty(),
        ) {
            Err(f) => Err(f),
            Ok(resolved) => match env.lookup(routine_path) {
                Err(e) => Err(failure(ctx.span, e)),
                Ok((symbol, canon_path)) => {
                    let call = if symbol.is_extern {
                        RoutineCall::Extern
                    } else {
                        call
                    };
                    match signature_of(symbol, call, canon_path) {
                        Err(e) => Err(failure(ctx.span, e)),
                        Ok(sig) => match argument_error(
                            routine_path,
                            resolved,
                            sig.params,
                            sig.has_varargs,
                        ) {
                            Some(e) => Err(failure(ctx.span, e)),
                            None => Ok(
                                ExpressionView::RoutineCall(
                                    ctx.with_type(sig.ret),
                                    call,
                                    canon_path,
                                    resolved,
                                ),
                            ),
                        },
                    }
                },
            },
        },
        ExpressionView::ExpressionBlock(ctx, body, last) => match resolve_statements(
            env.enter(ctx.sym),
            body,
            0,
            Seq::empty(),
        ) {
            Err(f) => Err(f),
            Ok((body, head)) => match resolve_optional(
                env.enter(ctx.sym).with_head(head),
                match last {
                    Some(e) => Some(*e),
                    None => None,
                },
            ) {
                Err(f) => Err(f),
                Ok(last) => Ok(
                    ExpressionView::ExpressionBlock(
                        ctx.with_type(type_of_optional(last)).with_sym(head),
                        body,
                        match last {
                            Some(e) => Some(Box::new(e)),
                            None => None,
                        },
                    ),
                ),
            },
        },
        ExpressionView::StructExpression(ctx, struct_name, params) => match env.lookup(
            struct_name,
        ) {
            Err(e) => Err(failure(ctx.span, e)),
            Ok((struct_def, canonical_path)) => match struct_def.ty.members() {
                None => Err(failure(ctx.span, SemanticErrorView::InvalidStructure)),
                Some(members) => if params.len() != members.len() {
                    Err(
                        failure(
                            ctx.span,
                            SemanticErrorView::StructExprWrongNumParams(
                                members.len() as usize,
                                params.len() as usize,
                            ),
                        ),
                    )
                } else {
                    match resolve_fields(
                        env,
                        struct_def.ty,
                        canonical_path,
                        ctx.span,
                        params,
                        0,
                        Seq::empty(),
                    ) {
                        Err(f) => Err(f),
                        Ok(resolved) => Ok(
                            ExpressionView::StructExpression(
                                ctx.with_type(TypeView::Custom(struct_name)),
                                canonical_path,
                                resolved,
                            ),
                        ),
                    }
                },
            },
        },
    }
}

/// Resolves an optional expression.
pub open spec fn resolve_optional(env: ScopeStackView, e: Option<Expr>) -> Result<
    Option<Expr>,
    Failure,
>
    decreases e,
{
    match e {
        None => Ok(None),
        Some(e) => match resolve_expression(env, e) {
            Err(f) => Err(f),
            Ok(e) => Ok(Some(e)),
        },
    }
}

/// Resolves the expressions of `es` from position `i` on, one after the
/// other, and appends them to `done`.
pub open spec fn resolve_expressions(env: ScopeStackView, es: Seq<Expr>, i: int, done: Seq<Expr>)
    -> Result<Seq<Expr>, Failure>
    decreases es, es.len() - i,
{
    if i < 0 || i >= es.len() {
        Ok(done)
    } else {
        match resolve_expression(env, es[i]) {
            Err(f) => Err(f),
            Ok(e) => resolve_expressions(env, es, i + 1, done.push(e)),
        }
    }
}

/// Resolves the values that a structure expression gives to the fields,
/// from position `i` on, and appends them to `done`.  Each value must have
/// the type of the field of `struct_ty` that it is given to.
pub open spec fn resolve_fields(
    env: ScopeStackView,
    struct_ty: TypeView,
    path: Seq<Element>,
    span: Span,
    fields: Seq<(StringId, Expr)>,
    i: int,
    done: Seq<(StringId, Expr)>,
) -> Result<Seq<(StringId, Expr)>, Failure>
    decreases fields, fields.len() - i,
{
    if i < 0 || i >= fields.len() {
        Ok(done)
    } else {
        match struct_ty.member(fields[i].0) {
            None => Err(
                failure(span, SemanticErrorView::StructExprMemberNotFound(path, fields[i].0)),
            ),
            Some(member_ty) => match resolve_expression(env, fields[i].1) {
                Err(f) => Err(f),
                Ok(value) => if type_of(value) != member_ty {
                    Err(
                        failure(
                            span,
                            SemanticErrorView::StructExprFieldTypeMismatch(
                                path,
                                fields[i].0,
                                member_ty,
                                type_of(value),
                            ),
                        ),
                    )
                } else {
                    resolve_fields(
                        env,
                        struct_ty,
                        path,
                        span,
                        fields,
                        i + 1,
                        done.push((fields[i].0, value)),
                    )
                },
            },
        }
    }
}

/// Resolves a statement and gives, with it, the table of the head after
/// the statement: a binding declares its name there.
pub open spec fn resolve_statement(env: ScopeStackView, s: Stmt) -> Result<
    (Stmt, SymbolTableView),
    Failure,
>
    decreases s,
{
    match s {
        StatementView::Bind { metadata, id, ty, mutable, rhs } => match resolve_expression(
            env,
            rhs,
        ) {
            Err(f) => Err(f),
            Ok(rhs) => if ty != type_of(rhs) {
                Err(failure(metadata.span, SemanticErrorView::BindExpected(ty, type_of(rhs))))
            } else {
                match env.head.add(SymbolView { name: id, ty, mutable, is_extern: false }) {
                    Err(e) => Err(failure(metadata.span, e)),
                    Ok(head) => Ok(
                        (
                            StatementView::Bind {
                                metadata: metadata.with_type(ty),
                                id,
                                ty,
                                mutable,
                                rhs,
                            },
                            head,
                        ),
                    ),
                }
            },
        },
        StatementView::Mutate { metadata, id, rhs } => match resolve_expression(env, rhs) {
            Err(f) => Err(f),
            Ok(rhs) => match env.lookup_var(id) {
                Err(e) => Err(failure(metadata.span, e)),
                Ok(symbol) => if !symbol.mutable {
                    Err(failure(metadata.span, SemanticErrorView::VariableNotMutable(id)))
                } else if symbol.ty != type_of(rhs) {
                    Err(
                        failure(
                            metadata.span,
                            SemanticErrorView::BindMismatch(id, symbol.ty, type_of(rhs)),
                        ),
                    )
                } else {
                    Ok(
                        (
                            StatementView::Mutate {
                                metadata: metadata.with_type(type_of(rhs)),
                                id,
                                rhs,
                            },
                            env.head,
                        ),
                    )
                },
            },
        },
        StatementView::YieldReturn { metadata, value } => match resolve_optional(env, value) {
            Err(f) => Err(f),
            Ok(value) => match env.current_fn() {
                None => Err(failure(metadata.span, SemanticErrorView::YieldInvalidLocation)),
                Some(current) => match env.lookup_coroutine(current) {
                    Err(e) => Err(failure(metadata.span, e)),
                    Ok((_, expected)) => if type_of_optional(value) != expected {
                        Err(
                            failure(
                                metadata.span,
                                SemanticErrorView::YieldExpected(expected, type_of_optional(value)),
                            ),
                        )
                    } else {
                        Ok(
                            (
                                StatementView::YieldReturn {
                                    metadata: metadata.with_type(type_of_optional(value)),
                                    value,
                                },
                                env.head,
                            ),
                        )
                    },
                },
            },
        },
        StatementView::Return { metadata, value } => match resolve_optional(env, value) {
            Err(f) => Err(f),
            Ok(value) => match env.current_fn() {
                None => Err(failure(metadata.span, SemanticErrorView::ReturnInvalidLocation)),
                Some(current) => match env.lookup_func_or_cor(current) {
                    Err(e) => Err(failure(metadata.span, e)),
                    Ok((_, expected)) => if type_of_optional(value) != expected {
                        Err(
                            failure(
                                metadata.span,
                                SemanticErrorView::ReturnExpected(
                                    expected,
                                    type_of_optional(value),
                                ),
                            ),
                        )
                    } else {
                        Ok(
                            (
                                StatementView::Return {
                                    metadata: metadata.with_type(type_of_optional(value)),
                                    value,
                                },
                                env.head,
                            ),
                        )
                    },
                },
            },
        },
        StatementView::Expression(e) => match resolve_expression(env, e) {
            Err(f) => Err(f),
            Ok(e) => Ok((StatementView::Expression(e), env.head)),
        },
    }
}

/// Resolves the statements of `ss` from position `i` on, each in the scope
/// that the statements before it left, and appends them to `done`.  Gives,
/// with them, the table of the head after the last statement.
pub open spec fn resolve_statements(env: ScopeStackView, ss: Seq<Stmt>, i: int, done: Seq<Stmt>)
    -> Result<(Seq<Stmt>, SymbolTableView), Failure>
    decreases ss, ss.len() - i,
{
    if i < 0 || i >= ss.len() {
        Ok((done, env.head))
    } else {
        match resolve_statement(env, ss[i]) {
            Err(f) => Err(f),
            Ok((s, head)) => resolve_statements(env.with_head(head), ss, i + 1, done.push(s)),
        }
    }
}

/// The error, if any, of a routine that is the entry point of the program:
/// the entry point is a function without parameters that returns `I64`.
pub open spec fn main_fn_error(r: RoutineDefView<ContextView>) -> Option<SemanticErrorView> {
    if r.def != RoutineDefType::Function {
        Some(SemanticErrorView::MainFnInvalidType)
    } else if r.params.len() > 0 {
        Some(SemanticErrorView::MainFnInvalidParams)
    } else if r.ty != TypeView::I64 {
        Some(SemanticErrorView::MainFnInvalidType)
    } else {
        None
    }
}

/// Declares the parameters from position `i` on in `table`, one after the
/// other.  The type of each must be valid in the scope around the routine.
pub open spec fn declare_params(
    env: ScopeStackView,
    table: SymbolTableView,
    params: Seq<ParameterView<ContextView>>,
    span: Span,
    i: int,
) -> Result<SymbolTableView, Failure>
    decreases params.len() - i,
{
    if i < 0 || i >= params.len() {
        Ok(table)
    } else {
        match valid_type(env, params[i].ty, span) {
            Err(f) => Err(f),
            Ok(_) => match table.add(
                SymbolView {
                    name: params[i].name,
                    ty: params[i].ty,
                    mutable: false,
                    is_extern: false,
                },
            ) {
                Err(e) => Err(failure(params[i].annotation.span, e)),
                Ok(table) => declare_params(env, table, params, span, i + 1),
            },
        }
    }
}

/// The parameters, each annotated with the type that it declares.
pub open spec fn typed_parameters(params: Seq<ParameterView<ContextView>>) -> Seq<
    ParameterView<ContextView>,
> {
    Seq::new(
        params.len(),
        |i: int|
            ParameterView {
                annotation: params[i].annotation.with_type(params[i].ty),
                ..params[i]
            },
    )
}

/// Resolves a function or a coroutine: its parameters are declared in its
/// own scope and its statements are resolved there, one after the other.
/// The routine is annotated with the type that it returns, and each
/// parameter with the type that it declares.
/// The routine at the path `main_fn` must have the shape of an entry point.
pub open spec fn resolve_routine(
    env: ScopeStackView,
    main_fn: Seq<Element>,
    r: RoutineDefView<ContextView>,
) -> Result<RoutineDefView<ContextView>, Failure> {
    if r.annotations.canonical_path == main_fn && main_fn_error(r) is Some {
        Err(failure(r.annotations.span, main_fn_error(r).unwrap()))
    } else {
        match declare_params(env, r.annotations.sym, r.params, r.annotations.span, 0) {
            Err(f) => Err(f),
            Ok(table) => match resolve_statements(env.enter(table), r.body, 0, Seq::empty()) {
                Err(f) => Err(f),
                Ok((body, head)) => Ok(
                    RoutineDefView {
                        annotations: r.annotations.with_type(r.ty).with_sym(head),
                        params: typed_parameters(r.params),
                        body,
                        ..r
                    },
                ),
            },
        }
    }
}

/// Checks the types of the fields from position `i` on.
pub open spec fn valid_fields(
    env: ScopeStackView,
    fields: Seq<ParameterView<ContextView>>,
    i: int,
) -> Result<(), Failure>
    decreases fields.len() - i,
{
    if i < 0 || i >= fields.len() {
        Ok(())
    } else {
        match valid_type(env, fields[i].ty, fields[i].annotation.span) {
            Err(f) => Err(f),
            Ok(_) => valid_fields(env, fields, i + 1),
        }
    }
}

/// Resolves the definition of a structure.  A definition has no value: its
/// type is `Unit`.  Each field is annotated with the type that it declares.
pub open spec fn resolve_structdef(env: ScopeStackView, s: StructDefView<ContextView>) -> Result<
    StructDefView<ContextView>,
    Failure,
> {
    match valid_fields(env, s.fields, 0) {
        Err(f) => Err(f),
        Ok(_) => Ok(
            StructDefView {
                annotations: s.annotations.with_type(TypeView::Unit),
                fields: typed_parameters(s.fields),
                ..s
            },
        ),
    }
}

/// The first parameter, at or after position `i`, that has a named type.
pub open spec fn first_named_param(params: Seq<ParameterView<ContextView>>, i: int) -> Option<
    TypeView,
>
    decreases params.len() - i,
{
    if i < 0 || i >= params.len() {
        None
    } else if params[i].ty is Custom {
        Some(params[i].ty)
    } else {
        first_named_param(params, i + 1)
    }
}

/// Resolves the declaration of an external function.  Structures cannot be
/// handed to external functions, so no parameter may have a named type.
/// The declaration is annotated with the type that the function returns,
/// and each parameter with the type that it declares.
pub open spec fn resolve_external(e: ExternView<ContextView>) -> Result<
    ExternView<ContextView>,
    Failure,
> {
    match first_named_param(e.params, 0) {
        Some(ty) => Err(
            failure(e.annotations.span, SemanticErrorView::InvalidIdentifierType(ty)),
        ),
        None => Ok(
            ExternView {
                annotations: e.annotations.with_type(e.ty),
                params: typed_parameters(e.params),
                ..e
            },
        ),
    }
}

pub open spec fn resolve_item(env: ScopeStackView, main_fn: Seq<Element>, i: ItemView<ContextView>)
    -> Result<ItemView<ContextView>, Failure> {
    match i {
        ItemView::Routine(r) => match resolve_routine(env, main_fn, r) {
            Ok(r) => Ok(ItemView::Routine(r)),
            Err(f) => Err(f),
        },
        ItemView::Struct(s) => match resolve_structdef(env, s) {
            Ok(s) => Ok(ItemView::Struct(s)),
            Err(f) => Err(f),
        },
        ItemView::Extern(e) => match resolve_external(e) {
            Ok(e) => Ok(ItemView::Extern(e)),
            Err(f) => Err(f),
        },
    }
}

/// Resolves the items from position `i` on and appends them to `done`.
pub open spec fn resolve_items(
    env: ScopeStackView,
    main_fn: Seq<Element>,
    items: Seq<ItemView<ContextView>>,
    i: int,
    done: Seq<ItemView<ContextView>>,
) -> Result<Seq<ItemView<ContextView>>, Failure>
    decreases items.len() - i,
{
    if i < 0 || i >= items.len() {
        Ok(done)
    } else {
        match resolve_item(env, main_fn, items[i]) {
            Err(f) => Err(f),
            Ok(item) => resolve_items(env, main_fn, items, i + 1, done.push(item)),
        }
    }
}

/// Resolves a module in its own scope: first its child modules, then its
/// functions, coroutines, structures and external declarations.  A module
/// has no value: its type is `Unit`.
pub open spec fn resolve_module(
    env: ScopeStackView,
    main_fn: Seq<Element>,
    m: ModuleView<ContextView>,
) -> Result<ModuleView<ContextView>, Failure>
    decreases m,
{
    let inside = env.enter(m.annotations.sym);
    match resolve_modules(inside, main_fn, m.modules, 0, Seq::empty()) {
        Err(f) => Err(f),
        Ok(modules) => match resolve_items(inside, main_fn, m.functions, 0, Seq::empty()) {
            Err(f) => Err(f),
            Ok(functions) => match resolve_items(inside, main_fn, m.coroutines, 0, Seq::empty()) {
                Err(f) => Err(f),
                Ok(coroutines) => match resolve_items(
                    inside,
                    main_fn,
                    m.structs,
                    0,
                    Seq::empty(),
                ) {
                    Err(f) => Err(f),
                    Ok(structs) => match resolve_items(
                        inside,
                        main_fn,
                        m.externs,
                        0,
                        Seq::empty(),
                    ) {
                        Err(f) => Err(f),
                        Ok(externs) => Ok(
                            ModuleView {
                                annotations: m.annotations.with_type(TypeView::Unit),
                                name: m.name,
                                modules,
                                functions,
                                coroutines,
                                structs,
                                externs,
                            },
                        ),
                    },
                },
            },
        },
    }
}

/// Resolves the modules from position `i` on and appends them to `done`.
pub open spec fn resolve_modules(
    env: ScopeStackView,
    main_fn: Seq<Element>,
    ms: Seq<ModuleView<ContextView>>,
    i: int,
    done: Seq<ModuleView<ContextView>>,
) -> Result<Seq<ModuleView<ContextView>>, Failure>
    decreases ms, ms.len() - i,
{
    if i < 0 || i >= ms.len() {
        Ok(done)
    } else {
        match resolve_module(env, main_fn, ms[i]) {
            Err(f) => Err(f),
            Ok(m) => resolve_modules(env, main_fn, ms, i + 1, done.push(m)),
        }
    }
}

/// The rule of a binding.  Where the value resolves, the binding succeeds
/// exactly where its value has the declared type and the head does not
/// declare the name yet; the head then gains exactly the declared symbol,
/// and the binding is annotated with the declared type.  A value of another
/// type is refused with both types, and a name that is declared already with
/// that name.
pub proof fn lemma_bind_rule(
    env: ScopeStackView,
    metadata: ContextView,
    id: StringId,
    ty: TypeView,
    mutable: bool,
    rhs: Expr,
)
    requires
        resolve_expression(env, rhs) is Ok,
    ensures
        ({
            let value = resolve_expression(env, rhs)->Ok_0;
            let symbol = SymbolView { name: id, ty, mutable, is_extern: false };
            let r = resolve_statement(env, StatementView::Bind { metadata, id, ty, mutable, rhs });
            &&& r is Ok <==> ty == type_of(value) && env.head.get(id) is None
            &&& r is Ok ==> r->Ok_0.0 == (StatementView::Bind {
                metadata: metadata.with_type(ty),
                id,
                ty,
                mutable,
                rhs: value,
            }) && r->Ok_0.1 == (SymbolTableView {
                symbols: env.head.symbols.push(symbol),
                ..env.head
            })
            &&& ty != type_of(value) ==> r == Err::<(Stmt, SymbolTableView), Failure>(
                failure(metadata.span, SemanticErrorView::BindExpected(ty, type_of(value))),
            )
            &&& ty == type_of(value) && env.head.get(id) is Some ==> r == Err::<
                (Stmt, SymbolTableView),
                Failure,
            >(failure(metadata.span, SemanticErrorView::AlreadyDeclared(id)))
        }),
{
}

/// The rule of an assignment.  Where the value resolves, the assignment
/// succeeds exactly where the name stands for a mutable variable of the
/// type of the value; the head stays as it is.  A variable that is not
/// mutable is refused as such, whatever its type; a mutable variable of
/// another type is refused with both types.
pub proof fn lemma_mutate_rule(env: ScopeStackView, metadata: ContextView, id: StringId, rhs: Expr)
    requires
        resolve_expression(env, rhs) is Ok,
    ensures
        ({
            let value = resolve_expression(env, rhs)->Ok_0;
            let r = resolve_statement(env, StatementView::Mutate { metadata, id, rhs });
            &&& r is Ok <==> env.lookup_var(id) is Ok && env.lookup_var(id)->Ok_0.mutable
                && env.lookup_var(id)->Ok_0.ty == type_of(value)
            &&& r is Ok ==> r->Ok_0.0 == (StatementView::Mutate {
                metadata: metadata.with_type(type_of(value)),
                id,
                rhs: value,
            }) && r->Ok_0.1 == env.head
            &&& env.lookup_var(id) is Ok && !env.lookup_var(id)->Ok_0.mutable ==> r == Err::<
                (Stmt, SymbolTableView),
                Failure,
            >(failure(metadata.span, SemanticErrorView::VariableNotMutable(id)))
            &&& env.lookup_var(id) is Ok && env.lookup_var(id)->Ok_0.mutable && env.lookup_var(
                id,
            )->Ok_0.ty != type_of(value) ==> r == Err::<(Stmt, SymbolTableView), Failure>(
                failure(
                    metadata.span,
                    SemanticErrorView::BindMismatch(
                        id,
                        env.lookup_var(id)->Ok_0.ty,
                        type_of(value),
                    ),
                ),
            )
        }),
{
}

/// What resolution gives the nodes that have no value of their own: a
/// module and the definition of a structure have the type `Unit`, a routine
/// and an external declaration the type that they return, and a parameter
/// or a field the type that it declares.
pub proof fn lemma_definitions_are_typed(
    env: ScopeStackView,
    main_fn: Seq<Element>,
    m: ModuleView<ContextView>,
    r: RoutineDefView<ContextView>,
    s: StructDefView<ContextView>,
    e: ExternView<ContextView>,
)
    ensures
        resolve_module(env, main_fn, m) is Ok ==> resolve_module(
            env,
            main_fn,
            m,
        )->Ok_0.annotations.ty == TypeView::Unit,
        resolve_structdef(env, s) is Ok ==> resolve_structdef(env, s)->Ok_0.annotations.ty
            == TypeView::Unit && resolve_structdef(env, s)->Ok_0.fields == typed_parameters(
            s.fields,
        ),
        resolve_routine(env, main_fn, r) is Ok ==> resolve_routine(
            env,
            main_fn,
            r,
        )->Ok_0.annotations.ty == r.ty && resolve_routine(env, main_fn, r)->Ok_0.params
            == typed_parameters(r.params),
        resolve_external(e) is Ok ==> resolve_external(e)->Ok_0.annotations.ty == e.ty
            && resolve_external(e)->Ok_0.params == typed_parameters(e.params),
        forall|ps: Seq<ParameterView<ContextView>>, i: int|
            0 <= i < ps.len() ==> (#[trigger] typed_parameters(ps)[i]).annotation.ty == ps[i].ty,
{
}

/// Whether every parameter is annotated with the type that it declares.
pub open spec fn parameters_typed(params: Seq<ParameterView<ContextView>>) -> bool {
    forall|i: int| 0 <= i < params.len() ==> (#[trigger] params[i]).annotation.ty == params[i].ty
}

/// Whether the item is annotated with its type: a routine and an external
/// declaration with the type that they return, the definition of a
/// structure with `Unit`, and each parameter or field with the type that it
/// declares.
pub open spec fn item_typed(i: ItemView<ContextView>) -> bool {
    match i {
        ItemView::Routine(r) => r.annotations.ty == r.ty && parameters_typed(r.params),
        ItemView::Struct(s) => s.annotations.ty == TypeView::Unit && parameters_typed(s.fields),
        ItemView::Extern(e) => e.annotations.ty == e.ty && parameters_typed(e.params),
    }
}

/// Whether every item of the list is annotated with its type.
pub open spec fn items_typed(items: Seq<ItemView<ContextView>>) -> bool {
    forall|i: int| 0 <= i < items.len() ==> item_typed(#[trigger] items[i])
}

/// Whether the module, every module below it and every item in them is
/// annotated with its type; a module has the type `Unit`.
pub open spec fn definitions_typed(m: ModuleView<ContextView>) -> bool
    decreases m,
{
    &&& m.annotations.ty == TypeView::Unit
    &&& items_typed(m.functions)
    &&& items_typed(m.coroutines)
    &&& items_typed(m.structs)
    &&& items_typed(m.externs)
    &&& forall|i: int| 0 <= i < m.modules.len() ==> definitions_typed(#[trigger] m.modules[i])
}

/// The items that resolve are annotated with their types.
pub proof fn lemma_items_are_typed(
    env: ScopeStackView,
    main_fn: Seq<Element>,
    items: Seq<ItemView<ContextView>>,
    i: int,
    done: Seq<ItemView<ContextView>>,
)
    requires
        0 <= i,
        items_typed(done),
        resolve_items(env, main_fn, items, i, done) is Ok,
    ensures
        items_typed(resolve_items(env, main_fn, items, i, done)->Ok_0),
    decreases items.len() - i,
{
    if i < items.len() {
        let item = resolve_item(env, main_fn, items[i])->Ok_0;
        assert(item_typed(item));
        assert forall|k: int| 0 <= k < done.push(item).len() implies item_typed(
            #[trigger] done.push(item)[k],
        ) by {
            if k < done.len() {
                assert(done.push(item)[k] == done[k]);
            }
        }
        lemma_items_are_typed(env, main_fn, items, i + 1, done.push(item));
    }
}

/// No definition is left without its type: in a tree that resolves, every
/// module has the type `Unit`, and every item and every parameter or field
/// in it the type that it declares.
pub proof fn lemma_module_is_typed(
    env: ScopeStackView,
    main_fn: Seq<Element>,
    m: ModuleView<ContextView>,
)
    requires
        resolve_module(env, main_fn, m) is Ok,
    ensures
        definitions_typed(resolve_module(env, main_fn, m)->Ok_0),
    decreases m, 0nat,
{
    let inside = env.enter(m.annotations.sym);
    lemma_modules_are_typed(inside, main_fn, m.modules, 0, Seq::empty());
    lemma_items_are_typed(inside, main_fn, m.functions, 0, Seq::empty());
    lemma_items_are_typed(inside, main_fn, m.coroutines, 0, Seq::empty());
    lemma_items_are_typed(inside, main_fn, m.structs, 0, Seq::empty());
    lemma_items_are_typed(inside, main_fn, m.externs, 0, Seq::empty());
}

/// The modules that resolve are annotated with their types, and so is
/// everything in them.
pub proof fn lemma_modules_are_typed(
    env: ScopeStackView,
    main_fn: Seq<Element>,
    ms: Seq<ModuleView<ContextView>>,
    i: int,
    done: Seq<ModuleView<ContextView>>,
)
    requires
        0 <= i,
        forall|k: int| 0 <= k < done.len() ==> definitions_typed(#[trigger] done[k]),
        resolve_modules(env, main_fn, ms, i, done) is Ok,
    ensures
        forall|k: int|
            0 <= k < resolve_modules(env, main_fn, ms, i, done)->Ok_0.len() ==> definitions_typed(
                #[trigger] resolve_modules(env, main_fn, ms, i, done)->Ok_0[k],
            ),
    decreases ms, ms.len() - i,
{
    if i < ms.len() {
        let m = resolve_module(env, main_fn, ms[i])->Ok_0;
        lemma_module_is_typed(env, main_fn, ms[i]);
        assert forall|k: int| 0 <= k < done.push(m).len() implies definitions_typed(
            #[trigger] done.push(m)[k],
        ) by {
            if k < done.len() {
                assert(done.push(m)[k] == done[k]);
            }
        }
        lemma_modules_are_typed(env, main_fn, ms, i + 1, done.push(m));
    }
}

} // verus!
