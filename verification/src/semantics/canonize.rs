//! Canonicalization: rewriting every path that refers to a type into its
//! canonical form, so that a type means the same wherever it is read.
use crate::ast::expression::{
    expressions_view, named_expressions_view, Expression, ExpressionView,
};
use crate::ast::external::{Extern, ExternView};
use crate::ast::module::{items_view, modules_view, Item, ItemView, Module, ModuleView};
use crate::ast::parameter::{parameters_view, Parameter, ParameterView};
use crate::ast::path::{canonical, is_canonical, Element, Path};
use crate::ast::routinedef::{RoutineDef, RoutineDefView};
use crate::ast::statement::{
    statements_view, Bind, Mutate, Return, Statement, StatementView, YieldReturn,
};
use crate::ast::structdef::{StructDef, StructDefView};
use crate::ast::ty::{types_view, Type, TypeView};
use crate::semantics::annotate::{boxed, unboxed};
use crate::semantics::error::{CompilerError, SemanticError, SemanticErrorView, SemanticResult};
use crate::semantics::rules::{failure, Expr, Failure, Stmt};
use crate::semantics::semanticnode::{ContextView, SemanticContext};
use crate::source::span::Span;
use crate::stringtable::StringId;
use vstd::prelude::*;

verus! {

/// The type `ty` with every reference to a named type made canonical, as
/// seen from the module `current`.  References are rewritten where they
/// stand: in the type itself, in the element type of an array, in the type
/// that a coroutine yields, and in the parameters and the result of the
/// signature of a routine.  A reference that climbs above the root of the
/// project, or an array without elements, is rejected.
pub open spec fn canonize_type(ty: TypeView, current: Seq<Element>) -> Result<
    TypeView,
    SemanticErrorView,
>
    decreases ty,
{
    match ty {
        TypeView::Custom(path) => match canonical(path, current) {
            Ok(canon) => Ok(TypeView::Custom(canon)),
            Err(_) => Err(SemanticErrorView::PathTooSuper),
        },
        TypeView::Coroutine(ret) => match canonize_type(*ret, current) {
            Ok(c) => Ok(TypeView::Coroutine(Box::new(c))),
            Err(e) => Err(e),
        },
        TypeView::Array(el, len) => if len == 0 {
            Err(SemanticErrorView::ArrayInvalidSize(0))
        } else {
            match canonize_type(*el, current) {
                Ok(c) => Ok(TypeView::Array(Box::new(c), len)),
                Err(e) => Err(e),
            }
        },
        TypeView::FunctionDef(params, ret) => match canonize_types(
            params,
            current,
            0,
            Seq::empty(),
        ) {
            Ok(cparams) => match canonize_type(*ret, current) {
                Ok(cret) => Ok(TypeView::FunctionDef(cparams, Box::new(cret))),
                Err(e) => Err(e),
            },
            Err(e) => Err(e),
        },
        TypeView::CoroutineDef(params, ret) => match canonize_types(
            params,
            current,
            0,
            Seq::empty(),
        ) {
            Ok(cparams) => match canonize_type(*ret, current) {
                Ok(cret) => Ok(TypeView::CoroutineDef(cparams, Box::new(cret))),
                Err(e) => Err(e),
            },
            Err(e) => Err(e),
        },
        _ => Ok(ty),
    }
}

/// The types of `ts` from position `i` on, made canonical one after the
/// other and appended to `done`; the first error ends it.
pub open spec fn canonize_types(
    ts: Seq<TypeView>,
    current: Seq<Element>,
    i: int,
    done: Seq<TypeView>,
) -> Result<Seq<TypeView>, SemanticErrorView>
    decreases ts, ts.len() - i,
{
    if i < 0 || i >= ts.len() {
        Ok(done)
    } else {
        match canonize_type(ts[i], current) {
            Ok(c) => canonize_types(ts, current, i + 1, done.push(c)),
            Err(e) => Err(e),
        }
    }
}

/// What a successful canonicalization of a list gives: the types that were
/// done before, followed by the canonical form of each of the other types.
pub proof fn lemma_canonize_types_each(
    ts: Seq<TypeView>,
    current: Seq<Element>,
    i: int,
    done: Seq<TypeView>,
)
    requires
        0 <= i <= ts.len(),
        canonize_types(ts, current, i, done) is Ok,
    ensures
        canonize_types(ts, current, i, done)->Ok_0.len() == done.len() + ts.len() - i,
        forall|j: int|
            0 <= j < done.len() ==> canonize_types(ts, current, i, done)->Ok_0[j] == done[j],
        forall|k: int|
            i <= k < ts.len() ==> canonize_type(#[trigger] ts[k], current) == Ok::<
                TypeView,
                SemanticErrorView,
            >(canonize_types(ts, current, i, done)->Ok_0[done.len() + k - i]),
    decreases ts.len() - i,
{
    if i < ts.len() {
        let c = canonize_type(ts[i], current)->Ok_0;
        lemma_canonize_types_each(ts, current, i + 1, done.push(c));
        let out = canonize_types(ts, current, i, done)->Ok_0;
        assert(out[done.len() as int] == done.push(c)[done.len() as int]);
        assert forall|j: int| 0 <= j < done.len() implies out[j] == done[j] by {
            assert(done.push(c)[j] == done[j]);
        }
    }
}

/// Canonicalizing a list of types that are their own canonical form gives
/// the list.
pub proof fn lemma_canonize_types_fixed(
    ts: Seq<TypeView>,
    current: Seq<Element>,
    i: int,
    done: Seq<TypeView>,
)
    requires
        0 <= i <= ts.len(),
        forall|k: int|
            i <= k < ts.len() ==> canonize_type(#[trigger] ts[k], current) == Ok::<
                TypeView,
                SemanticErrorView,
            >(ts[k]),
    ensures
        canonize_types(ts, current, i, done) == Ok::<Seq<TypeView>, SemanticErrorView>(
            done + ts.subrange(i, ts.len() as int),
        ),
    decreases ts.len() - i,
{
    if i < ts.len() {
        lemma_canonize_types_fixed(ts, current, i + 1, done.push(ts[i]));
        assert(done.push(ts[i]) + ts.subrange(i + 1, ts.len() as int) =~= done + ts.subrange(
            i,
            ts.len() as int,
        ));
    } else {
        assert(done + ts.subrange(i, ts.len() as int) =~= done);
    }
}

/// Canonicalization of types is idempotent: the canonical form of a type,
/// as seen from a canonical module, is its own canonical form as seen from
/// any module.
pub proof fn lemma_canonize_type_idempotent(
    ty: TypeView,
    current: Seq<Element>,
    other: Seq<Element>,
)
    requires
        is_canonical(current),
        canonize_type(ty, current) is Ok,
    ensures
        canonize_type(canonize_type(ty, current)->Ok_0, other) == canonize_type(ty, current),
    decreases ty,
{
    match ty {
        TypeView::Custom(path) => {
            crate::ast::path::lemma_canonical_is_canonical(path, current);
        },
        TypeView::Coroutine(ret) => {
            lemma_canonize_type_idempotent(*ret, current, other);
        },
        TypeView::Array(el, len) => {
            lemma_canonize_type_idempotent(*el, current, other);
        },
        TypeView::FunctionDef(params, ret) => {
            lemma_canonize_list_idempotent(params, current, other);
            lemma_canonize_type_idempotent(*ret, current, other);
        },
        TypeView::CoroutineDef(params, ret) => {
            lemma_canonize_list_idempotent(params, current, other);
            lemma_canonize_type_idempotent(*ret, current, other);
        },
        _ => {},
    }
}

/// Canonicalization of a list of types is idempotent.
pub proof fn lemma_canonize_list_idempotent(
    ts: Seq<TypeView>,
    current: Seq<Element>,
    other: Seq<Element>,
)
    requires
        is_canonical(current),
        canonize_types(ts, current, 0, Seq::empty()) is Ok,
    ensures
        canonize_types(canonize_types(ts, current, 0, Seq::empty())->Ok_0, other, 0, Seq::empty())
            == canonize_types(ts, current, 0, Seq::empty()),
    decreases ts,
{
    let out = canonize_types(ts, current, 0, Seq::empty())->Ok_0;
    lemma_canonize_types_each(ts, current, 0, Seq::empty());
    assert forall|k: int| 0 <= k < out.len() implies canonize_type(#[trigger] out[k], other)
        == Ok::<TypeView, SemanticErrorView>(out[k]) by {
        assert(canonize_type(ts[k], current) == Ok::<TypeView, SemanticErrorView>(out[k]));
        lemma_canonize_type_idempotent(ts[k], current, other);
    }
    lemma_canonize_types_fixed(out, other, 0, Seq::empty());
    assert(Seq::<TypeView>::empty() + out.subrange(0, out.len() as int) =~= out);
}

/// Makes every reference to a named type in `ty` canonical, as seen from
/// the module `parent_path`.
pub fn canonize_type_ref(parent_path: &Path, ty: &Type) -> (r: Result<Type, SemanticError>)
    requires
        is_canonical(parent_path@),
    ensures
        match r {
            Ok(t) => canonize_type(ty@, parent_path@) == Ok::<TypeView, SemanticErrorView>(t@),
            Err(e) => canonize_type(ty@, parent_path@) == Err::<TypeView, SemanticErrorView>(e@),
        },
    decreases ty,
{
    match ty {
        Type::Custom(path) => match path.to_canonical(parent_path) {
            Ok(canon) => Ok(Type::Custom(canon)),
            Err(e) => Err(SemanticError::from_path_error(e)),
        },
        Type::Coroutine(ret) => match canonize_type_ref(parent_path, ret) {
            Ok(c) => Ok(Type::Coroutine(Box::new(c))),
            Err(e) => Err(e),
        },
        Type::Array(el, len) => {
            if *len == 0 {
                Err(SemanticError::ArrayInvalidSize(*len))
            } else {
                match canonize_type_ref(parent_path, el) {
                    Ok(c) => Ok(Type::Array(Box::new(c), *len)),
                    Err(e) => Err(e),
                }
            }
        },
        Type::FunctionDef(params, ret) => match canonize_type_refs(parent_path, params) {
            Ok(cparams) => match canonize_type_ref(parent_path, ret) {
                Ok(cret) => Ok(Type::FunctionDef(cparams, Box::new(cret))),
                Err(e) => Err(e),
            },
            Err(e) => Err(e),
        },
        Type::CoroutineDef(params, ret) => match canonize_type_refs(parent_path, params) {
            Ok(cparams) => match canonize_type_ref(parent_path, ret) {
                Ok(cret) => Ok(Type::CoroutineDef(cparams, Box::new(cret))),
                Err(e) => Err(e),
            },
            Err(e) => Err(e),
        },
        _ => Ok(ty.clone()),
    }
}

/// Makes the types of a list canonical, one after the other.
pub fn canonize_type_refs(parent_path: &Path, ts: &Vec<Type>) -> (r: Result<
    Vec<Type>,
    SemanticError,
>)
    requires
        is_canonical(parent_path@),
    ensures
        match r {
            Ok(out) => canonize_types(types_view(*ts), parent_path@, 0, Seq::empty()) == Ok::<
                Seq<TypeView>,
                SemanticErrorView,
            >(types_view(out)),
            Err(e) => canonize_types(types_view(*ts), parent_path@, 0, Seq::empty()) == Err::<
                Seq<TypeView>,
                SemanticErrorView,
            >(e@),
        },
    decreases ts,
{
    let mut out: Vec<Type> = Vec::new();
    let mut i: usize = 0;
    assert(types_view(out) =~= Seq::empty());
    while i < ts.len()
        invariant
            0 <= i <= ts.len(),
            is_canonical(parent_path@),
            canonize_types(types_view(*ts), parent_path@, 0, Seq::empty()) == canonize_types(
                types_view(*ts),
                parent_path@,
                i as int,
                types_view(out),
            ),
        decreases ts.len() - i,
    {
        let ghost before = types_view(out);
        match canonize_type_ref(parent_path, &ts[i]) {
            Ok(c) => {
                out.push(c);
                assert(types_view(out) =~= before.push(c@));
            },
            Err(e) => {
                return Err(e);
            },
        }
        i += 1;
    }
    Ok(out)
}

/// The type `ty`, made canonical; an error is caused by the text at `span`.
pub open spec fn canonical_type_at(ty: TypeView, path: Seq<Element>, span: Span) -> Result<
    TypeView,
    Failure,
> {
    match canonize_type(ty, path) {
        Ok(t) => Ok(t),
        Err(e) => Err(failure(span, e)),
    }
}

/// The path `p`, made canonical; an error is caused by the text at `span`.
pub open spec fn canonical_path_at(p: Seq<Element>, path: Seq<Element>, span: Span) -> Result<
    Seq<Element>,
    Failure,
> {
    match canonical(p, path) {
        Ok(c) => Ok(c),
        Err(_) => Err(failure(span, SemanticErrorView::PathTooSuper)),
    }
}

/// The expression `e`, read in the module `path`, with every reference to a
/// type made canonical: the types that are written in it and the paths that
/// name the type of a structure.  The path of a called routine is left as
/// it is; the resolver finds the routine and records its canonical path.
pub open spec fn canonical_expression(e: Expr, path: Seq<Element>) -> Result<Expr, Failure>
    decreases e,
{
    match e {
        ExpressionView::U8(context, v) => Ok(ExpressionView::U8(context, v)),
        ExpressionView::U16(context, v) => Ok(ExpressionView::U16(context, v)),
        ExpressionView::U32(context, v) => Ok(ExpressionView::U32(context, v)),
        ExpressionView::U64(context, v) => Ok(ExpressionView::U64(context, v)),
        ExpressionView::I8(context, v) => Ok(ExpressionView::I8(context, v)),
        ExpressionView::I16(context, v) => Ok(ExpressionView::I16(context, v)),
        ExpressionView::I32(context, v) => Ok(ExpressionView::I32(context, v)),
        ExpressionView::I64(context, v) => Ok(ExpressionView::I64(context, v)),
        ExpressionView::Boolean(context, v) => Ok(ExpressionView::Boolean(context, v)),
        ExpressionView::StringLiteral(context, v) => Ok(ExpressionView::StringLiteral(context, v)),
        ExpressionView::ArrayExpression(context, elements,
            len) => match canonical_expressions(elements, path, 0, Seq::empty()) {
            Err(f) => Err(f),
            Ok(elements) => Ok(ExpressionView::ArrayExpression(context, elements, len)),
        },
        ExpressionView::ArrayAt { context, array, index } => match canonical_expression(*array,
            path) {
            Err(f) => Err(f),
            Ok(array) => match canonical_expression(*index, path) {
                Err(f) => Err(f),
                Ok(index) => Ok(ExpressionView::ArrayAt { context, array: Box::new(array),
                    index: Box::new(index) }),
            },
        },
        ExpressionView::CustomType(context, name) => match canonical_path_at(name, path,
            context.span) {
            Err(f) => Err(f),
            Ok(name) => Ok(ExpressionView::CustomType(context, name)),
        },
        ExpressionView::Identifier(context, id) => Ok(ExpressionView::Identifier(context, id)),
        ExpressionView::Path(context, p) => Ok(ExpressionView::Path(context, p)),
        ExpressionView::MemberAccess(context, src, member) => match canonical_expression(*src,
            path) {
            Err(f) => Err(f),
            Ok(src) => Ok(ExpressionView::MemberAccess(context, Box::new(src), member)),
        },
        ExpressionView::IdentifierDeclare(context, id, ty) => match canonical_type_at(ty, path,
            context.span) {
            Err(f) => Err(f),
            Ok(ty) => Ok(ExpressionView::IdentifierDeclare(context, id, ty)),
        },
        ExpressionView::RoutineCall(context, call, target,
            params) => match canonical_expressions(params, path, 0, Seq::empty()) {
            Err(f) => Err(f),
            Ok(params) => Ok(ExpressionView::RoutineCall(context, call, target, params)),
        },
        ExpressionView::StructExpression(context, name, fields) => match canonical_path_at(name,
            path, context.span) {
            Err(f) => Err(f),
            Ok(name) => match canonical_named(fields, path, 0, Seq::empty()) {
                Err(f) => Err(f),
                Ok(fields) => Ok(ExpressionView::StructExpression(context, name, fields)),
            },
        },
        ExpressionView::If { context, cond, if_arm, else_arm } => match canonical_expression(*cond,
            path) {
            Err(f) => Err(f),
            Ok(cond) => match canonical_expression(*if_arm, path) {
                Err(f) => Err(f),
                Ok(if_arm) => match canonical_optional(unboxed(else_arm), path) {
                    Err(f) => Err(f),
                    Ok(else_arm) => Ok(ExpressionView::If { context, cond: Box::new(cond),
                        if_arm: Box::new(if_arm), else_arm: boxed(else_arm) }),
                },
            },
        },
        ExpressionView::While { context, cond, body } => match canonical_expression(*cond, path) {
            Err(f) => Err(f),
            Ok(cond) => match canonical_expression(*body, path) {
                Err(f) => Err(f),
                Ok(body) => Ok(ExpressionView::While { context, cond: Box::new(cond),
                    body: Box::new(body) }),
            },
        },
        ExpressionView::ExpressionBlock(context, body, last) => match canonical_statements(body,
            path, 0, Seq::empty()) {
            Err(f) => Err(f),
            Ok(body) => match canonical_optional(unboxed(last), path) {
                Err(f) => Err(f),
                Ok(last) => Ok(ExpressionView::ExpressionBlock(context, body, boxed(last))),
            },
        },
        ExpressionView::BinaryOp(context, op, l, r) => match canonical_expression(*l, path) {
            Err(f) => Err(f),
            Ok(l) => match canonical_expression(*r, path) {
                Err(f) => Err(f),
                Ok(r) => Ok(ExpressionView::BinaryOp(context, op, Box::new(l), Box::new(r))),
            },
        },
        ExpressionView::UnaryOp(context, op, operand) => match canonical_expression(*operand,
            path) {
            Err(f) => Err(f),
            Ok(operand) => Ok(ExpressionView::UnaryOp(context, op, Box::new(operand))),
        },
        ExpressionView::Yield(context, e) => match canonical_expression(*e, path) {
            Err(f) => Err(f),
            Ok(e) => Ok(ExpressionView::Yield(context, Box::new(e))),
        },
    }
}

pub open spec fn canonical_optional(e: Option<Expr>, path: Seq<Element>) -> Result<
    Option<Expr>,
    Failure,
>
    decreases e,
{
    match e {
        None => Ok(None),
        Some(e) => match canonical_expression(e, path) {
            Err(f) => Err(f),
            Ok(e) => Ok(Some(e)),
        },
    }
}

pub open spec fn canonical_expressions(es: Seq<Expr>, path: Seq<Element>, i: int, done: Seq<Expr>)
    -> Result<Seq<Expr>, Failure>
    decreases es, es.len() - i,
{
    if i < 0 || i >= es.len() {
        Ok(done)
    } else {
        match canonical_expression(es[i], path) {
            Err(f) => Err(f),
            Ok(e) => canonical_expressions(es, path, i + 1, done.push(e)),
        }
    }
}

pub open spec fn canonical_named(
    es: Seq<(StringId, Expr)>,
    path: Seq<Element>,
    i: int,
    done: Seq<(StringId, Expr)>,
) -> Result<Seq<(StringId, Expr)>, Failure>
    decreases es, es.len() - i,
{
    if i < 0 || i >= es.len() {
        Ok(done)
    } else {
        match canonical_expression(es[i].1, path) {
            Err(f) => Err(f),
            Ok(e) => canonical_named(es, path, i + 1, done.push((es[i].0, e))),
        }
    }
}

/// The statement `s` with every reference to a type made canonical: the
/// declared type of a binding, and what its expressions hold.
pub open spec fn canonical_statement(s: Stmt, path: Seq<Element>) -> Result<Stmt, Failure>
    decreases s,
{
    match s {
        StatementView::Bind { metadata, id, ty, mutable, rhs } => match canonical_type_at(
            ty,
            path,
            metadata.span,
        ) {
            Err(f) => Err(f),
            Ok(ty) => match canonical_expression(rhs, path) {
                Err(f) => Err(f),
                Ok(rhs) => Ok(StatementView::Bind { metadata, id, ty, mutable, rhs }),
            },
        },
        StatementView::Mutate { metadata, id, rhs } => match canonical_expression(rhs, path) {
            Err(f) => Err(f),
            Ok(rhs) => Ok(StatementView::Mutate { metadata, id, rhs }),
        },
        StatementView::Return { metadata, value } => match canonical_optional(value, path) {
            Err(f) => Err(f),
            Ok(value) => Ok(StatementView::Return { metadata, value }),
        },
        StatementView::YieldReturn { metadata, value } => match canonical_optional(value, path) {
            Err(f) => Err(f),
            Ok(value) => Ok(StatementView::YieldReturn { metadata, value }),
        },
        StatementView::Expression(e) => match canonical_expression(e, path) {
            Err(f) => Err(f),
            Ok(e) => Ok(StatementView::Expression(e)),
        },
    }
}

pub open spec fn canonical_statements(ss: Seq<Stmt>, path: Seq<Element>, i: int, done: Seq<Stmt>)
    -> Result<Seq<Stmt>, Failure>
    decreases ss, ss.len() - i,
{
    if i < 0 || i >= ss.len() {
        Ok(done)
    } else {
        match canonical_statement(ss[i], path) {
            Err(f) => Err(f),
            Ok(s) => canonical_statements(ss, path, i + 1, done.push(s)),
        }
    }
}

/// The parameters from position `i` on, with their types made canonical.
pub open spec fn canonical_parameters(
    ps: Seq<ParameterView<ContextView>>,
    path: Seq<Element>,
    i: int,
    done: Seq<ParameterView<ContextView>>,
) -> Result<Seq<ParameterView<ContextView>>, Failure>
    decreases ps.len() - i,
{
    if i < 0 || i >= ps.len() {
        Ok(done)
    } else {
        match canonical_type_at(ps[i].ty, path, ps[i].annotation.span) {
            Err(f) => Err(f),
            Ok(ty) => canonical_parameters(
                ps,
                path,
                i + 1,
                done.push(ParameterView { ty, ..ps[i] }),
            ),
        }
    }
}

/// The item, defined in the module `path`, with its canonical path
/// recorded and every reference to a type made canonical.
pub open spec fn canonical_item(item: ItemView<ContextView>, path: Seq<Element>) -> Result<
    ItemView<ContextView>,
    Failure,
> {
    match item {
        ItemView::Routine(r) => match canonical_parameters(r.params, path, 0, Seq::empty()) {
            Err(f) => Err(f),
            Ok(params) => match canonical_type_at(r.ty, path, r.annotations.span) {
                Err(f) => Err(f),
                Ok(ty) => match canonical_statements(r.body, path, 0, Seq::empty()) {
                    Err(f) => Err(f),
                    Ok(body) => Ok(
                        ItemView::Routine(
                            RoutineDefView {
                                annotations: r.annotations.with_path(
                                    path.push(Element::Id(r.name)),
                                ),
                                params,
                                ty,
                                body,
                                ..r
                            },
                        ),
                    ),
                },
            },
        },
        ItemView::Struct(s) => match canonical_parameters(s.fields, path, 0, Seq::empty()) {
            Err(f) => Err(f),
            Ok(fields) => Ok(
                ItemView::Struct(
                    StructDefView {
                        annotations: s.annotations.with_path(path.push(Element::Id(s.name))),
                        fields,
                        ..s
                    },
                ),
            ),
        },
        ItemView::Extern(e) => match canonical_parameters(e.params, path, 0, Seq::empty()) {
            Err(f) => Err(f),
            Ok(params) => match canonical_type_at(e.ty, path, e.annotations.span) {
                Err(f) => Err(f),
                Ok(ty) => Ok(
                    ItemView::Extern(
                        ExternView {
                            annotations: e.annotations.with_path(path.push(Element::Id(e.name))),
                            params,
                            ty,
                            ..e
                        },
                    ),
                ),
            },
        },
    }
}

pub open spec fn canonical_items(
    items: Seq<ItemView<ContextView>>,
    path: Seq<Element>,
    i: int,
    done: Seq<ItemView<ContextView>>,
) -> Result<Seq<ItemView<ContextView>>, Failure>
    decreases items.len() - i,
{
    if i < 0 || i >= items.len() {
        Ok(done)
    } else {
        match canonical_item(items[i], path) {
            Err(f) => Err(f),
            Ok(item) => canonical_items(items, path, i + 1, done.push(item)),
        }
    }
}

/// The module, a child of the module `parent`, with its canonical path
/// recorded and everything in it made canonical.
pub open spec fn canonical_module(m: ModuleView<ContextView>, parent: Seq<Element>) -> Result<
    ModuleView<ContextView>,
    Failure,
>
    decreases m,
{
    let path = parent.push(Element::Id(m.name));
    match canonical_modules(m.modules, path, 0, Seq::empty()) {
        Err(f) => Err(f),
        Ok(modules) => match canonical_items(m.functions, path, 0, Seq::empty()) {
            Err(f) => Err(f),
            Ok(functions) => match canonical_items(m.coroutines, path, 0, Seq::empty()) {
                Err(f) => Err(f),
                Ok(coroutines) => match canonical_items(m.structs, path, 0, Seq::empty()) {
                    Err(f) => Err(f),
                    Ok(structs) => match canonical_items(m.externs, path, 0, Seq::empty()) {
                        Err(f) => Err(f),
                        Ok(externs) => Ok(
                            ModuleView {
                                annotations: m.annotations.with_path(path),
                                name: m.name,
                                modules,
                                functions,
                                coroutines,
                                structs,
                                externs,
                            },
                        ),
                    },
                },
            },
        },
    }
}

pub open spec fn canonical_modules(
    ms: Seq<ModuleView<ContextView>>,
    parent: Seq<Element>,
    i: int,
    done: Seq<ModuleView<ContextView>>,
) -> Result<Seq<ModuleView<ContextView>>, Failure>
    decreases ms, ms.len() - i,
{
    if i < 0 || i >= ms.len() {
        Ok(done)
    } else {
        match canonical_module(ms[i], parent) {
            Err(f) => Err(f),
            Ok(m) => canonical_modules(ms, parent, i + 1, done.push(m)),
        }
    }
}

/// The tree below the root module `m` with every canonical path recorded
/// and every reference to a type made canonical.
pub open spec fn canonical_tree(m: ModuleView<ContextView>) -> Result<
    ModuleView<ContextView>,
    Failure,
> {
    canonical_module(m, seq![Element::CanonicalRoot])
}

fn canonize_type_at(ty: &Type, path: &Path, span: Span) -> (r: SemanticResult<Type>)
    requires
        is_canonical(path@),
    ensures
        match r {
            Ok(t) => canonical_type_at(ty@, path@, span) == Ok::<TypeView, Failure>(t@),
            Err(f) => canonical_type_at(ty@, path@, span) == Err::<TypeView, Failure>(f@),
        },
{
    match canonize_type_ref(path, ty) {
        Ok(t) => Ok(t),
        Err(e) => Err(CompilerError::new(span, e)),
    }
}

fn canonize_path_at(p: &Path, path: &Path, span: Span) -> (r: SemanticResult<Path>)
    requires
        is_canonical(path@),
    ensures
        match r {
            Ok(c) => canonical_path_at(p@, path@, span) == Ok::<Seq<Element>, Failure>(c@),
            Err(f) => canonical_path_at(p@, path@, span) == Err::<Seq<Element>, Failure>(f@),
        },
{
    match p.to_canonical(path) {
        Ok(c) => Ok(c),
        Err(e) => Err(CompilerError::new(span, SemanticError::from_path_error(e))),
    }
}

fn canonize_expression(e: &Expression<SemanticContext>, path: &Path) -> (r: SemanticResult<
    Expression<SemanticContext>,
>)
    requires
        is_canonical(path@),
    ensures
        match r {
            Ok(out) => canonical_expression(e@, path@) == Ok::<Expr, Failure>(out@),
            Err(f) => canonical_expression(e@, path@) == Err::<Expr, Failure>(f@),
        },
    decreases e,
{
    match e {
        Expression::U8(context, v) => {
            Ok(Expression::U8(context.clone(), *v))
        },
        Expression::U16(context, v) => {
            Ok(Expression::U16(context.clone(), *v))
        },
        Expression::U32(context, v) => {
            Ok(Expression::U32(context.clone(), *v))
        },
        Expression::U64(context, v) => {
            Ok(Expression::U64(context.clone(), *v))
        },
        Expression::I8(context, v) => {
            Ok(Expression::I8(context.clone(), *v))
        },
        Expression::I16(context, v) => {
            Ok(Expression::I16(context.clone(), *v))
        },
        Expression::I32(context, v) => {
            Ok(Expression::I32(context.clone(), *v))
        },
        Expression::I64(context, v) => {
            Ok(Expression::I64(context.clone(), *v))
        },
        Expression::Boolean(context, v) => {
            Ok(Expression::Boolean(context.clone(), *v))
        },
        Expression::StringLiteral(context, v) => {
            Ok(Expression::StringLiteral(context.clone(), *v))
        },
        Expression::ArrayExpression(context, elements, len) => {
            let elements = match canonize_expressions(elements, path) {
                Ok(v) => v,
                Err(f) => {
                    return Err(f);
                },
            };
            Ok(Expression::ArrayExpression(context.clone(), elements, *len))
        },
        Expression::ArrayAt { context, array, index } => {
            let array = match canonize_expression(array, path) {
                Ok(v) => v,
                Err(f) => {
                    return Err(f);
                },
            };
            let index = match canonize_expression(index, path) {
                Ok(v) => v,
                Err(f) => {
                    return Err(f);
                },
            };
            Ok(Expression::ArrayAt { context: context.clone(), array: Box::new(array),
                index: Box::new(index) })
        },
        Expression::CustomType(context, name) => {
            let name = match canonize_path_at(name, path, context.span()) {
                Ok(v) => v,
                Err(f) => {
                    return Err(f);
                },
            };
            Ok(Expression::CustomType(context.clone(), name))
        },
        Expression::Identifier(context, id) => {
            Ok(Expression::Identifier(context.clone(), *id))
        },
        Expression::Path(context, p) => {
            Ok(Expression::Path(context.clone(), p.clone()))
        },
        Expression::MemberAccess(context, src, member) => {
            let src = match canonize_expression(src, path) {
                Ok(v) => v,
                Err(f) => {
                    return Err(f);
                },
            };
            Ok(Expression::MemberAccess(context.clone(), Box::new(src), *member))
        },
        Expression::IdentifierDeclare(context, id, ty) => {
            let ty = match canonize_type_at(ty, path, context.span()) {
                Ok(v) => v,
                Err(f) => {
                    return Err(f);
                },
            };
            Ok(Expression::IdentifierDeclare(context.clone(), *id, ty))
        },
        Expression::RoutineCall(context, call, target, params) => {
            let params = match canonize_expressions(params, path) {
                Ok(v) => v,
                Err(f) => {
                    return Err(f);
                },
            };
            Ok(Expression::RoutineCall(context.clone(), *call, target.clone(), params))
        },
        Expression::StructExpression(context, name, fields) => {
            let name = match canonize_path_at(name, path, context.span()) {
                Ok(v) => v,
                Err(f) => {
                    return Err(f);
                },
            };
            let fields = match canonize_named(fields, path) {
                Ok(v) => v,
                Err(f) => {
                    return Err(f);
                },
            };
            Ok(Expression::StructExpression(context.clone(), name, fields))
        },
        Expression::If { context, cond, if_arm, else_arm } => {
            let cond = match canonize_expression(cond, path) {
                Ok(v) => v,
                Err(f) => {
                    return Err(f);
                },
            };
            let if_arm = match canonize_expression(if_arm, path) {
                Ok(v) => v,
                Err(f) => {
                    return Err(f);
                },
            };
            let else_arm = match canonize_optional(else_arm, path) {
                Ok(v) => v,
                Err(f) => {
                    return Err(f);
                },
            };
            Ok(Expression::If { context: context.clone(), cond: Box::new(cond),
                if_arm: Box::new(if_arm), else_arm })
        },
        Expression::While { context, cond, body } => {
            let cond = match canonize_expression(cond, path) {
                Ok(v) => v,
                Err(f) => {
                    return Err(f);
                },
            };
            let body = match canonize_expression(body, path) {
                Ok(v) => v,
                Err(f) => {
                    return Err(f);
                },
            };
            Ok(Expression::While { context: context.clone(), cond: Box::new(cond),
                body: Box::new(body) })
        },
        Expression::ExpressionBlock(context, body, last) => {
            let body = match canonize_statements(body, path) {
                Ok(v) => v,
                Err(f) => {
                    return Err(f);
                },
            };
            let last = match canonize_optional(last, path) {
                Ok(v) => v,
                Err(f) => {
                    return Err(f);
                },
            };
            Ok(Expression::ExpressionBlock(context.clone(), body, last))
        },
        Expression::BinaryOp(context, op, l, r) => {
            let l = match canonize_expression(l, path) {
                Ok(v) => v,
                Err(f) => {
                    return Err(f);
                },
            };
            let r = match canonize_expression(r, path) {
                Ok(v) => v,
                Err(f) => {
                    return Err(f);
                },
            };
            Ok(Expression::BinaryOp(context.clone(), *op, Box::new(l), Box::new(r)))
        },
        Expression::UnaryOp(context, op, operand) => {
            let operand = match canonize_expression(operand, path) {
                Ok(v) => v,
                Err(f) => {
                    return Err(f);
                },
            };
            Ok(Expression::UnaryOp(context.clone(), *op, Box::new(operand)))
        },
        Expression::Yield(context, e) => {
            let e = match canonize_expression(e, path) {
                Ok(v) => v,
                Err(f) => {
                    return Err(f);
                },
            };
            Ok(Expression::Yield(context.clone(), Box::new(e)))
        },
    }
}

fn canonize_optional(e: &Option<Box<Expression<SemanticContext>>>, path: &Path) -> (r:
    SemanticResult<Option<Box<Expression<SemanticContext>>>>)
    requires
        is_canonical(path@),
    ensures
        match r {
            Ok(out) => canonical_optional(
                match e {
                    Some(e) => Some(e@),
                    None => None,
                },
                path@,
            ) == Ok::<Option<Expr>, Failure>(
                match out {
                    Some(e) => Some(e@),
                    None => None,
                },
            ),
            Err(f) => canonical_optional(
                match e {
                    Some(e) => Some(e@),
                    None => None,
                },
                path@,
            ) == Err::<Option<Expr>, Failure>(f@),
        },
    decreases e,
{
    match e {
        None => Ok(None),
        Some(e) => match canonize_expression(e, path) {
            Ok(e) => Ok(Some(Box::new(e))),
            Err(f) => Err(f),
        },
    }
}

fn canonize_value(e: &Option<Expression<SemanticContext>>, path: &Path) -> (r: SemanticResult<
    Option<Expression<SemanticContext>>,
>)
    requires
        is_canonical(path@),
    ensures
        match r {
            Ok(out) => canonical_optional(
                match e {
                    Some(e) => Some(e@),
                    None => None,
                },
                path@,
            ) == Ok::<Option<Expr>, Failure>(
                match out {
                    Some(e) => Some(e@),
                    None => None,
                },
            ),
            Err(f) => canonical_optional(
                match e {
                    Some(e) => Some(e@),
                    None => None,
                },
                path@,
            ) == Err::<Option<Expr>, Failure>(f@),
        },
    decreases e,
{
    match e {
        None => Ok(None),
        Some(e) => match canonize_expression(e, path) {
            Ok(e) => Ok(Some(e)),
            Err(f) => Err(f),
        },
    }
}

fn canonize_expressions(es: &Vec<Expression<SemanticContext>>, path: &Path) -> (r: SemanticResult<
    Vec<Expression<SemanticContext>>,
>)
    requires
        is_canonical(path@),
    ensures
        match r {
            Ok(out) => canonical_expressions(expressions_view(*es), path@, 0, Seq::empty()) == Ok::<
                Seq<Expr>,
                Failure,
            >(expressions_view(out)),
            Err(f) => canonical_expressions(expressions_view(*es), path@, 0, Seq::empty()) == Err::<
                Seq<Expr>,
                Failure,
            >(f@),
        },
    decreases es,
{
    let mut out: Vec<Expression<SemanticContext>> = Vec::new();
    let mut i: usize = 0;
    assert(expressions_view(out) =~= Seq::empty());
    while i < es.len()
        invariant
            0 <= i <= es.len(),
            is_canonical(path@),
            canonical_expressions(expressions_view(*es), path@, 0, Seq::empty())
                == canonical_expressions(
                expressions_view(*es),
                path@,
                i as int,
                expressions_view(out),
            ),
        decreases es.len() - i,
    {
        let ghost before = expressions_view(out);
        match canonize_expression(&es[i], path) {
            Ok(e) => {
                out.push(e);
                assert(expressions_view(out) =~= before.push(e@));
            },
            Err(f) => {
                return Err(f);
            },
        }
        i += 1;
    }
    Ok(out)
}

fn canonize_named(es: &Vec<(StringId, Expression<SemanticContext>)>, path: &Path) -> (r:
    SemanticResult<Vec<(StringId, Expression<SemanticContext>)>>)
    requires
        is_canonical(path@),
    ensures
        match r {
            Ok(out) => canonical_named(named_expressions_view(*es), path@, 0, Seq::empty()) == Ok::<
                Seq<(StringId, Expr)>,
                Failure,
            >(named_expressions_view(out)),
            Err(f) => canonical_named(named_expressions_view(*es), path@, 0, Seq::empty()) == Err::<
                Seq<(StringId, Expr)>,
                Failure,
            >(f@),
        },
    decreases es,
{
    let mut out: Vec<(StringId, Expression<SemanticContext>)> = Vec::new();
    let mut i: usize = 0;
    assert(named_expressions_view(out) =~= Seq::empty());
    while i < es.len()
        invariant
            0 <= i <= es.len(),
            is_canonical(path@),
            canonical_named(named_expressions_view(*es), path@, 0, Seq::empty()) == canonical_named(
                named_expressions_view(*es),
                path@,
                i as int,
                named_expressions_view(out),
            ),
        decreases es.len() - i,
    {
        let ghost before = named_expressions_view(out);
        match canonize_expression(&es[i].1, path) {
            Ok(e) => {
                let ghost added = (es[i as int].0, e@);
                out.push((es[i].0, e));
                assert(named_expressions_view(out) =~= before.push(added));
            },
            Err(f) => {
                return Err(f);
            },
        }
        i += 1;
    }
    Ok(out)
}

fn canonize_statement(s: &Statement<SemanticContext>, path: &Path) -> (r: SemanticResult<
    Statement<SemanticContext>,
>)
    requires
        is_canonical(path@),
    ensures
        match r {
            Ok(out) => canonical_statement(s@, path@) == Ok::<Stmt, Failure>(out@),
            Err(f) => canonical_statement(s@, path@) == Err::<Stmt, Failure>(f@),
        },
    decreases s,
{
    match s {
        Statement::Bind(b) => {
            let ty = match canonize_type_at(&b.ty, path, b.metadata.span()) {
                Ok(t) => t,
                Err(f) => {
                    return Err(f);
                },
            };
            let rhs = match canonize_expression(&b.rhs, path) {
                Ok(e) => e,
                Err(f) => {
                    return Err(f);
                },
            };
            Ok(Statement::Bind(Box::new(Bind::new(b.metadata.clone(), b.id, ty, b.mutable, rhs))))
        },
        Statement::Mutate(m) => match canonize_expression(&m.rhs, path) {
            Ok(rhs) => Ok(Statement::Mutate(Box::new(Mutate::new(m.metadata.clone(), m.id, rhs)))),
            Err(f) => Err(f),
        },
        Statement::Return(x) => match canonize_value(&x.value, path) {
            Ok(value) => Ok(Statement::Return(Box::new(Return::new(x.metadata.clone(), value)))),
            Err(f) => Err(f),
        },
        Statement::YieldReturn(x) => match canonize_value(&x.value, path) {
            Ok(value) => Ok(
                Statement::YieldReturn(Box::new(YieldReturn::new(x.metadata.clone(), value))),
            ),
            Err(f) => Err(f),
        },
        Statement::Expression(e) => match canonize_expression(e, path) {
            Ok(e) => Ok(Statement::Expression(Box::new(e))),
            Err(f) => Err(f),
        },
    }
}

fn canonize_statements(ss: &Vec<Statement<SemanticContext>>, path: &Path) -> (r: SemanticResult<
    Vec<Statement<SemanticContext>>,
>)
    requires
        is_canonical(path@),
    ensures
        match r {
            Ok(out) => canonical_statements(statements_view(*ss), path@, 0, Seq::empty()) == Ok::<
                Seq<Stmt>,
                Failure,
            >(statements_view(out)),
            Err(f) => canonical_statements(statements_view(*ss), path@, 0, Seq::empty()) == Err::<
                Seq<Stmt>,
                Failure,
            >(f@),
        },
    decreases ss,
{
    let mut out: Vec<Statement<SemanticContext>> = Vec::new();
    let mut i: usize = 0;
    assert(statements_view(out) =~= Seq::empty());
    while i < ss.len()
        invariant
            0 <= i <= ss.len(),
            is_canonical(path@),
            canonical_statements(statements_view(*ss), path@, 0, Seq::empty())
                == canonical_statements(
                statements_view(*ss),
                path@,
                i as int,
                statements_view(out),
            ),
        decreases ss.len() - i,
    {
        let ghost before = statements_view(out);
        match canonize_statement(&ss[i], path) {
            Ok(s) => {
                out.push(s);
                assert(statements_view(out) =~= before.push(s@));
            },
            Err(f) => {
                return Err(f);
            },
        }
        i += 1;
    }
    Ok(out)
}

fn canonize_parameters(ps: &Vec<Parameter<SemanticContext>>, path: &Path) -> (r: SemanticResult<
    Vec<Parameter<SemanticContext>>,
>)
    requires
        is_canonical(path@),
    ensures
        match r {
            Ok(out) => canonical_parameters(parameters_view(*ps), path@, 0, Seq::empty()) == Ok::<
                Seq<ParameterView<ContextView>>,
                Failure,
            >(parameters_view(out)),
            Err(f) => canonical_parameters(parameters_view(*ps), path@, 0, Seq::empty()) == Err::<
                Seq<ParameterView<ContextView>>,
                Failure,
            >(f@),
        },
{
    let mut out: Vec<Parameter<SemanticContext>> = Vec::new();
    let mut i: usize = 0;
    assert(parameters_view(out) =~= Seq::empty());
    while i < ps.len()
        invariant
            0 <= i <= ps.len(),
            is_canonical(path@),
            canonical_parameters(parameters_view(*ps), path@, 0, Seq::empty())
                == canonical_parameters(
                parameters_view(*ps),
                path@,
                i as int,
                parameters_view(out),
            ),
        decreases ps.len() - i,
    {
        let ghost before = parameters_view(out);
        let p = &ps[i];
        assert(parameters_view(*ps)[i as int] == p@);
        match canonize_type_at(&p.ty, path, p.annotation.span()) {
            Ok(ty) => {
                let q = Parameter { annotation: p.annotation.clone(), name: p.name, ty };
                let ghost added = q@;
                out.push(q);
                assert(parameters_view(out) =~= before.push(added));
            },
            Err(f) => {
                return Err(f);
            },
        }
        i += 1;
    }
    Ok(out)
}

/// The path of the item called `name` of the module `path`.
fn item_path(path: &Path, name: StringId) -> (r: Path)
    ensures
        r@ == path@.push(Element::Id(name)),
{
    let mut p = path.clone();
    p.push(name);
    p
}

/// A copy of `context` that records `path` as the canonical path.
fn with_path(context: &SemanticContext, path: Path) -> (r: SemanticContext)
    ensures
        r@ == context@.with_path(path@),
{
    let mut c = context.clone();
    c.set_canonical_path(path);
    c
}

fn canonize_item(item: &Item<SemanticContext>, path: &Path) -> (r: SemanticResult<
    Item<SemanticContext>,
>)
    requires
        is_canonical(path@),
    ensures
        match r {
            Ok(out) => canonical_item(item@, path@) == Ok::<ItemView<ContextView>, Failure>(out@),
            Err(f) => canonical_item(item@, path@) == Err::<ItemView<ContextView>, Failure>(f@),
        },
{
    match item {
        Item::Routine(r) => {
            let params = match canonize_parameters(&r.params, path) {
                Ok(v) => v,
                Err(f) => {
                    return Err(f);
                },
            };
            let ty = match canonize_type_at(&r.ty, path, r.annotations.span()) {
                Ok(v) => v,
                Err(f) => {
                    return Err(f);
                },
            };
            let body = match canonize_statements(&r.body, path) {
                Ok(v) => v,
                Err(f) => {
                    return Err(f);
                },
            };
            Ok(
                Item::Routine(
                    RoutineDef {
                        annotations: with_path(&r.annotations, item_path(path, r.name)),
                        def: r.def,
                        name: r.name,
                        params,
                        ty,
                        body,
                    },
                ),
            )
        },
        Item::Struct(s) => {
            let fields = match canonize_parameters(&s.fields, path) {
                Ok(v) => v,
                Err(f) => {
                    return Err(f);
                },
            };
            Ok(
                Item::Struct(
                    StructDef {
                        annotations: with_path(&s.annotations, item_path(path, s.name)),
                        name: s.name,
                        fields,
                    },
                ),
            )
        },
        Item::Extern(e) => {
            let params = match canonize_parameters(&e.params, path) {
                Ok(v) => v,
                Err(f) => {
                    return Err(f);
                },
            };
            let ty = match canonize_type_at(&e.ty, path, e.annotations.span()) {
                Ok(v) => v,
                Err(f) => {
                    return Err(f);
                },
            };
            Ok(
                Item::Extern(
                    Extern {
                        annotations: with_path(&e.annotations, item_path(path, e.name)),
                        name: e.name,
                        params,
                        has_varargs: e.has_varargs,
                        ty,
                    },
                ),
            )
        },
    }
}

fn canonize_items(items: &Vec<Item<SemanticContext>>, path: &Path) -> (r: SemanticResult<
    Vec<Item<SemanticContext>>,
>)
    requires
        is_canonical(path@),
    ensures
        match r {
            Ok(out) => canonical_items(items_view(*items), path@, 0, Seq::empty()) == Ok::<
                Seq<ItemView<ContextView>>,
                Failure,
            >(items_view(out)),
            Err(f) => canonical_items(items_view(*items), path@, 0, Seq::empty()) == Err::<
                Seq<ItemView<ContextView>>,
                Failure,
            >(f@),
        },
{
    let mut out: Vec<Item<SemanticContext>> = Vec::new();
    let mut i: usize = 0;
    assert(items_view(out) =~= Seq::empty());
    while i < items.len()
        invariant
            0 <= i <= items.len(),
            is_canonical(path@),
            canonical_items(items_view(*items), path@, 0, Seq::empty()) == canonical_items(
                items_view(*items),
                path@,
                i as int,
                items_view(out),
            ),
        decreases items.len() - i,
    {
        let ghost before = items_view(out);
        match canonize_item(&items[i], path) {
            Ok(item) => {
                out.push(item);
                assert(items_view(out) =~= before.push(item@));
            },
            Err(f) => {
                return Err(f);
            },
        }
        i += 1;
    }
    Ok(out)
}

fn canonize_module(m: &Module<SemanticContext>, parent: &Path) -> (r: SemanticResult<
    Module<SemanticContext>,
>)
    requires
        is_canonical(parent@),
    ensures
        match r {
            Ok(out) => canonical_module(m@, parent@) == Ok::<ModuleView<ContextView>, Failure>(
                out@,
            ),
            Err(f) => canonical_module(m@, parent@) == Err::<ModuleView<ContextView>, Failure>(f@),
        },
    decreases m,
{
    let path = item_path(parent, m.name);
    let modules = match canonize_modules(&m.modules, &path) {
        Ok(v) => v,
        Err(f) => {
            return Err(f);
        },
    };
    let functions = match canonize_items(&m.functions, &path) {
        Ok(v) => v,
        Err(f) => {
            return Err(f);
        },
    };
    let coroutines = match canonize_items(&m.coroutines, &path) {
        Ok(v) => v,
        Err(f) => {
            return Err(f);
        },
    };
    let structs = match canonize_items(&m.structs, &path) {
        Ok(v) => v,
        Err(f) => {
            return Err(f);
        },
    };
    let externs = match canonize_items(&m.externs, &path) {
        Ok(v) => v,
        Err(f) => {
            return Err(f);
        },
    };
    Ok(
        Module {
            annotations: with_path(&m.annotations, path),
            name: m.name,
            modules,
            functions,
            coroutines,
            structs,
            externs,
        },
    )
}

fn canonize_modules(ms: &Vec<Module<SemanticContext>>, parent: &Path) -> (r: SemanticResult<
    Vec<Module<SemanticContext>>,
>)
    requires
        is_canonical(parent@),
    ensures
        match r {
            Ok(out) => canonical_modules(modules_view(*ms), parent@, 0, Seq::empty()) == Ok::<
                Seq<ModuleView<ContextView>>,
                Failure,
            >(modules_view(out)),
            Err(f) => canonical_modules(modules_view(*ms), parent@, 0, Seq::empty()) == Err::<
                Seq<ModuleView<ContextView>>,
                Failure,
            >(f@),
        },
    decreases ms,
{
    let mut out: Vec<Module<SemanticContext>> = Vec::new();
    let mut i: usize = 0;
    assert(modules_view(out) =~= Seq::empty());
    while i < ms.len()
        invariant
            0 <= i <= ms.len(),
            is_canonical(parent@),
            canonical_modules(modules_view(*ms), parent@, 0, Seq::empty()) == canonical_modules(
                modules_view(*ms),
                parent@,
                i as int,
                modules_view(out),
            ),
        decreases ms.len() - i,
    {
        let ghost before = modules_view(out);
        match canonize_module(&ms[i], parent) {
            Ok(m) => {
                out.push(m);
                assert(modules_view(out) =~= before.push(m@));
            },
            Err(f) => {
                return Err(f);
            },
        }
        i += 1;
    }
    Ok(out)
}

/// Records the canonical path of every module and item of the tree and
/// makes every reference to a type canonical.  The root module lies
/// directly under the root of the project.  The tree is changed only where
/// the whole pass succeeds.
pub fn canonize_paths(module: &mut Module<SemanticContext>) -> (r: SemanticResult<()>)
    ensures
        match r {
            Ok(_) => canonical_tree(old(module)@) == Ok::<ModuleView<ContextView>, Failure>(
                final(module)@,
            ),
            Err(f) => canonical_tree(old(module)@) == Err::<ModuleView<ContextView>, Failure>(f@)
                && final(module)@ == old(module)@,
        },
{
    let mut root = Path::new();
    root.push_element(Element::CanonicalRoot);
    assert(root@ =~= seq![Element::CanonicalRoot]);
    match canonize_module(module, &root) {
        Ok(m) => {
            *module = m;
            Ok(())
        },
        Err(f) => Err(f),
    }
}

} // verus!
