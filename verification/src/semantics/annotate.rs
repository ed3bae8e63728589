//! The first step of semantic analysis: every node of the parsed tree gets
//! an annotation of its own, with a fresh id and a type that is not known
//! yet.  Ids are handed out in the order in which a walk meets the nodes: a
//! node before its children, the children from left to right.
use crate::ast::expression::{Expression, ExpressionView};
use crate::ast::expression::{expressions_view, named_expressions_view};
use crate::ast::external::{Extern, ExternView};
use crate::ast::module::{items_view, modules_view, Item, ItemView, Module, ModuleView};
use crate::ast::parameter::{parameters_view, Parameter, ParameterView};
use crate::ast::routinedef::{RoutineDef, RoutineDefView};
use crate::ast::statement::{
    statements_view, Bind, Mutate, Return, Statement, StatementView, YieldReturn,
};
use crate::ast::structdef::{StructDef, StructDefView};
use crate::ast::ty::{Type, TypeView};
use crate::parser::context::ParserContext;
use crate::semantics::rules::{Expr, Stmt};
use crate::semantics::semanticnode::{ContextView, SemanticContext};
use crate::semantics::symbol_table::ScopeType;
use crate::source::span::Span;
use crate::stringtable::StringId;
use vstd::prelude::*;

verus! {

/// An expression as the parser hands it over.
pub type ParsedExpr = ExpressionView<ParserContext>;

/// A statement as the parser hands it over.
pub type ParsedStmt = StatementView<ParserContext>;

/// The id after `n`.  Ids start again at zero when they run out.
pub open spec fn bump(n: u32) -> u32 {
    if n == u32::MAX {
        0
    } else {
        (n + 1) as u32
    }
}

/// The annotation of a node that opens the scope of a block, or none.
pub open spec fn local(id: u32, span: Span) -> ContextView {
    ContextView::fresh(id, span, ScopeType::Local, TypeView::Unknown)
}

pub open spec fn unboxed<T>(e: Option<Box<T>>) -> Option<T> {
    match e {
        Some(e) => Some(*e),
        None => None,
    }
}

pub open spec fn boxed<T>(e: Option<T>) -> Option<Box<T>> {
    match e {
        Some(e) => Some(Box::new(e)),
        None => None,
    }
}

/// The expression with fresh annotations, where `next` is the first id
/// that is free; and the first id that is free afterwards.
pub open spec fn annotate_expression(e: ParsedExpr, next: u32) -> (Expr, u32)
    decreases e,
{
    match e {
        ExpressionView::U8(context, v) => {
            let ctx = local(next, context.span);
            (ExpressionView::U8(ctx, v), bump(next))
        },
        ExpressionView::U16(context, v) => {
            let ctx = local(next, context.span);
            (ExpressionView::U16(ctx, v), bump(next))
        },
        ExpressionView::U32(context, v) => {
            let ctx = local(next, context.span);
            (ExpressionView::U32(ctx, v), bump(next))
        },
        ExpressionView::U64(context, v) => {
            let ctx = local(next, context.span);
            (ExpressionView::U64(ctx, v), bump(next))
        },
        ExpressionView::I8(context, v) => {
            let ctx = local(next, context.span);
            (ExpressionView::I8(ctx, v), bump(next))
        },
        ExpressionView::I16(context, v) => {
            let ctx = local(next, context.span);
            (ExpressionView::I16(ctx, v), bump(next))
        },
        ExpressionView::I32(context, v) => {
            let ctx = local(next, context.span);
            (ExpressionView::I32(ctx, v), bump(next))
        },
        ExpressionView::I64(context, v) => {
            let ctx = local(next, context.span);
            (ExpressionView::I64(ctx, v), bump(next))
        },
        ExpressionView::Boolean(context, v) => {
            let ctx = local(next, context.span);
            (ExpressionView::Boolean(ctx, v), bump(next))
        },
        ExpressionView::StringLiteral(context, v) => {
            let ctx = local(next, context.span);
            (ExpressionView::StringLiteral(ctx, v), bump(next))
        },
        ExpressionView::ArrayExpression(context, elements, len) => {
            let ctx = local(next, context.span);
            let (elements, n1) = annotate_expressions(elements, bump(next), 0, Seq::empty());
            (ExpressionView::ArrayExpression(ctx, elements, len), n1)
        },
        ExpressionView::ArrayAt { context, array, index } => {
            let ctx = local(next, context.span);
            let (array, n1) = annotate_expression(*array, bump(next));
            let (index, n2) = annotate_expression(*index, n1);
            (ExpressionView::ArrayAt { context: ctx, array: Box::new(array),
                index: Box::new(index) }, n2)
        },
        ExpressionView::CustomType(context, path) => {
            let ctx = local(next, context.span);
            (ExpressionView::CustomType(ctx, path), bump(next))
        },
        ExpressionView::Identifier(context, id) => {
            let ctx = local(next, context.span);
            (ExpressionView::Identifier(ctx, id), bump(next))
        },
        ExpressionView::Path(context, path) => {
            let ctx = local(next, context.span);
            (ExpressionView::Path(ctx, path), bump(next))
        },
        ExpressionView::MemberAccess(context, src, member) => {
            let ctx = local(next, context.span);
            let (src, n1) = annotate_expression(*src, bump(next));
            (ExpressionView::MemberAccess(ctx, Box::new(src), member), n1)
        },
        ExpressionView::IdentifierDeclare(context, id, ty) => {
            let ctx = local(next, context.span);
            (ExpressionView::IdentifierDeclare(ctx, id, ty), bump(next))
        },
        ExpressionView::RoutineCall(context, call, path, params) => {
            let ctx = local(next, context.span);
            let (params, n1) = annotate_expressions(params, bump(next), 0, Seq::empty());
            (ExpressionView::RoutineCall(ctx, call, path, params), n1)
        },
        ExpressionView::StructExpression(context, path, fields) => {
            let ctx = local(next, context.span);
            let (fields, n1) = annotate_named(fields, bump(next), 0, Seq::empty());
            (ExpressionView::StructExpression(ctx, path, fields), n1)
        },
        ExpressionView::If { context, cond, if_arm, else_arm } => {
            let ctx = local(next, context.span);
            let (cond, n1) = annotate_expression(*cond, bump(next));
            let (if_arm, n2) = annotate_expression(*if_arm, n1);
            let (else_arm, n3) = annotate_optional(unboxed(else_arm), n2);
            (ExpressionView::If { context: ctx, cond: Box::new(cond), if_arm: Box::new(if_arm),
                else_arm: boxed(else_arm) }, n3)
        },
        ExpressionView::While { context, cond, body } => {
            let ctx = local(next, context.span);
            let (cond, n1) = annotate_expression(*cond, bump(next));
            let (body, n2) = annotate_expression(*body, n1);
            (ExpressionView::While { context: ctx, cond: Box::new(cond), body: Box::new(body) }, n2)
        },
        ExpressionView::ExpressionBlock(context, body, last) => {
            let ctx = local(next, context.span);
            let (body, n1) = annotate_statements(body, bump(next), 0, Seq::empty());
            let (last, n2) = annotate_optional(unboxed(last), n1);
            (ExpressionView::ExpressionBlock(ctx, body, boxed(last)), n2)
        },
        ExpressionView::BinaryOp(context, op, l, r) => {
            let ctx = local(next, context.span);
            let (l, n1) = annotate_expression(*l, bump(next));
            let (r, n2) = annotate_expression(*r, n1);
            (ExpressionView::BinaryOp(ctx, op, Box::new(l), Box::new(r)), n2)
        },
        ExpressionView::UnaryOp(context, op, operand) => {
            let ctx = local(next, context.span);
            let (operand, n1) = annotate_expression(*operand, bump(next));
            (ExpressionView::UnaryOp(ctx, op, Box::new(operand)), n1)
        },
        ExpressionView::Yield(context, e) => {
            let ctx = local(next, context.span);
            let (e, n1) = annotate_expression(*e, bump(next));
            (ExpressionView::Yield(ctx, Box::new(e)), n1)
        },
    }
}

pub open spec fn annotate_optional(e: Option<ParsedExpr>, next: u32) -> (Option<Expr>, u32)
    decreases e,
{
    match e {
        Some(e) => {
            let (e, n) = annotate_expression(e, next);
            (Some(e), n)
        },
        None => (None, next),
    }
}

pub open spec fn annotate_expressions(es: Seq<ParsedExpr>, next: u32, i: int, done: Seq<Expr>) -> (
    Seq<Expr>,
    u32,
)
    decreases es, es.len() - i,
{
    if i < 0 || i >= es.len() {
        (done, next)
    } else {
        let (e, n) = annotate_expression(es[i], next);
        annotate_expressions(es, n, i + 1, done.push(e))
    }
}

pub open spec fn annotate_named(
    es: Seq<(StringId, ParsedExpr)>,
    next: u32,
    i: int,
    done: Seq<(StringId, Expr)>,
) -> (Seq<(StringId, Expr)>, u32)
    decreases es, es.len() - i,
{
    if i < 0 || i >= es.len() {
        (done, next)
    } else {
        let (e, n) = annotate_expression(es[i].1, next);
        annotate_named(es, n, i + 1, done.push((es[i].0, e)))
    }
}

pub open spec fn annotate_statement(s: ParsedStmt, next: u32) -> (Stmt, u32)
    decreases s,
{
    match s {
        StatementView::Bind { metadata, id, ty, mutable, rhs } => {
            let (rhs, n) = annotate_expression(rhs, bump(next));
            (StatementView::Bind { metadata: local(next, metadata.span), id, ty, mutable, rhs }, n)
        },
        StatementView::Mutate { metadata, id, rhs } => {
            let (rhs, n) = annotate_expression(rhs, bump(next));
            (StatementView::Mutate { metadata: local(next, metadata.span), id, rhs }, n)
        },
        StatementView::Return { metadata, value } => {
            let (value, n) = annotate_optional(value, bump(next));
            (StatementView::Return { metadata: local(next, metadata.span), value }, n)
        },
        StatementView::YieldReturn { metadata, value } => {
            let (value, n) = annotate_optional(value, bump(next));
            (StatementView::YieldReturn { metadata: local(next, metadata.span), value }, n)
        },
        StatementView::Expression(e) => {
            let (e, n) = annotate_expression(e, next);
            (StatementView::Expression(e), n)
        },
    }
}

pub open spec fn annotate_statements(ss: Seq<ParsedStmt>, next: u32, i: int, done: Seq<Stmt>) -> (
    Seq<Stmt>,
    u32,
)
    decreases ss, ss.len() - i,
{
    if i < 0 || i >= ss.len() {
        (done, next)
    } else {
        let (s, n) = annotate_statement(ss[i], next);
        annotate_statements(ss, n, i + 1, done.push(s))
    }
}

pub open spec fn annotate_parameters(
    ps: Seq<ParameterView<ParserContext>>,
    next: u32,
    i: int,
    done: Seq<ParameterView<ContextView>>,
) -> (Seq<ParameterView<ContextView>>, u32)
    decreases ps.len() - i,
{
    if i < 0 || i >= ps.len() {
        (done, next)
    } else {
        annotate_parameters(
            ps,
            bump(next),
            i + 1,
            done.push(
                ParameterView {
                    annotation: local(next, ps[i].annotation.span),
                    name: ps[i].name,
                    ty: ps[i].ty,
                },
            ),
        )
    }
}

pub open spec fn annotate_item(item: ItemView<ParserContext>, next: u32) -> (
    ItemView<ContextView>,
    u32,
) {
    match item {
        ItemView::Routine(r) => {
            let ctx = ContextView::fresh(
                next,
                r.annotations.span,
                ScopeType::Routine { name: r.name },
                TypeView::Unknown,
            );
            let (params, n1) = annotate_parameters(r.params, bump(next), 0, Seq::empty());
            let (body, n2) = annotate_statements(r.body, n1, 0, Seq::empty());
            (
                ItemView::Routine(
                    RoutineDefView {
                        annotations: ctx,
                        def: r.def,
                        name: r.name,
                        params,
                        ty: r.ty,
                        body,
                    },
                ),
                n2,
            )
        },
        ItemView::Struct(s) => {
            let (fields, n) = annotate_parameters(s.fields, bump(next), 0, Seq::empty());
            (
                ItemView::Struct(
                    StructDefView {
                        annotations: local(next, s.annotations.span),
                        name: s.name,
                        fields,
                    },
                ),
                n,
            )
        },
        ItemView::Extern(e) => {
            let (params, n) = annotate_parameters(e.params, bump(next), 0, Seq::empty());
            (
                ItemView::Extern(
                    ExternView {
                        annotations: local(next, e.annotations.span),
                        name: e.name,
                        params,
                        has_varargs: e.has_varargs,
                        ty: e.ty,
                    },
                ),
                n,
            )
        },
    }
}

pub open spec fn annotate_items(
    items: Seq<ItemView<ParserContext>>,
    next: u32,
    i: int,
    done: Seq<ItemView<ContextView>>,
) -> (Seq<ItemView<ContextView>>, u32)
    decreases items.len() - i,
{
    if i < 0 || i >= items.len() {
        (done, next)
    } else {
        let (item, n) = annotate_item(items[i], next);
        annotate_items(items, n, i + 1, done.push(item))
    }
}

/// The module with fresh annotations: the module itself first, then its
/// child modules, functions, coroutines, structures and external
/// declarations.
pub open spec fn annotate_module(m: ModuleView<ParserContext>, next: u32) -> (
    ModuleView<ContextView>,
    u32,
)
    decreases m,
{
    let ctx = ContextView::fresh(
        next,
        m.annotations.span,
        ScopeType::Module { name: m.name },
        TypeView::Unknown,
    );
    let (modules, n1) = annotate_modules(m.modules, bump(next), 0, Seq::empty());
    let (functions, n2) = annotate_items(m.functions, n1, 0, Seq::empty());
    let (coroutines, n3) = annotate_items(m.coroutines, n2, 0, Seq::empty());
    let (structs, n4) = annotate_items(m.structs, n3, 0, Seq::empty());
    let (externs, n5) = annotate_items(m.externs, n4, 0, Seq::empty());
    (
        ModuleView {
            annotations: ctx,
            name: m.name,
            modules,
            functions,
            coroutines,
            structs,
            externs,
        },
        n5,
    )
}

pub open spec fn annotate_modules(
    ms: Seq<ModuleView<ParserContext>>,
    next: u32,
    i: int,
    done: Seq<ModuleView<ContextView>>,
) -> (Seq<ModuleView<ContextView>>, u32)
    decreases ms, ms.len() - i,
{
    if i < 0 || i >= ms.len() {
        (done, next)
    } else {
        let (m, n) = annotate_module(ms[i], next);
        annotate_modules(ms, n, i + 1, done.push(m))
    }
}

/// Hands out the ids of the nodes of one compilation unit.
pub struct SemanticAst {
    next_id: u32,
}

impl SemanticAst {
    /// The first id that is free.
    pub closed spec fn next(&self) -> u32 {
        self.next_id
    }

    pub fn new() -> (r: SemanticAst)
        ensures
            r.next() == 0,
    {
        SemanticAst { next_id: 0 }
    }

    /// Turns a parsed module into a module that semantic analysis can work
    /// on: the same tree, in which every node has an annotation of its own.
    pub fn from_module(&mut self, m: &Module<ParserContext>) -> (r: Module<SemanticContext>)
        ensures
            (r@, final(self).next()) == annotate_module(m@, old(self).next()),
    {
        self.annotate_module(m)
    }

    fn take_id(&mut self) -> (r: u32)
        ensures
            r == old(self).next(),
            final(self).next() == bump(r),
    {
        let id = self.next_id;
        self.next_id = self.next_id.wrapping_add(1);
        id
    }

    fn semantic_context_from(&mut self, span: Span) -> (r: SemanticContext)
        ensures
            r@ == local(old(self).next(), span),
            final(self).next() == bump(old(self).next()),
    {
        let id = self.take_id();
        SemanticContext::new_local(id, span, Type::Unknown)
    }

    fn routine_semantic_context_from(&mut self, span: Span, name: StringId) -> (r: SemanticContext)
        ensures
            r@ == ContextView::fresh(
                old(self).next(),
                span,
                ScopeType::Routine { name },
                TypeView::Unknown,
            ),
            final(self).next() == bump(old(self).next()),
    {
        let id = self.take_id();
        SemanticContext::new_routine(id, span, name, Type::Unknown)
    }

    fn module_semantic_context_from(&mut self, span: Span, name: StringId) -> (r: SemanticContext)
        ensures
            r@ == ContextView::fresh(
                old(self).next(),
                span,
                ScopeType::Module { name },
                TypeView::Unknown,
            ),
            final(self).next() == bump(old(self).next()),
    {
        let id = self.take_id();
        SemanticContext::new_module(id, span, name, Type::Unknown)
    }

    fn annotate_expression(&mut self, e: &Expression<ParserContext>) -> (r: Expression<
        SemanticContext,
    >)
        ensures
            (r@, final(self).next()) == annotate_expression(e@, old(self).next()),
        decreases e,
    {
        match e {
            Expression::U8(context, v) => {
                let ctx = self.semantic_context_from(context.span);
                Expression::U8(ctx, *v)
            },
            Expression::U16(context, v) => {
                let ctx = self.semantic_context_from(context.span);
                Expression::U16(ctx, *v)
            },
            Expression::U32(context, v) => {
                let ctx = self.semantic_context_from(context.span);
                Expression::U32(ctx, *v)
            },
            Expression::U64(context, v) => {
                let ctx = self.semantic_context_from(context.span);
                Expression::U64(ctx, *v)
            },
            Expression::I8(context, v) => {
                let ctx = self.semantic_context_from(context.span);
                Expression::I8(ctx, *v)
            },
            Expression::I16(context, v) => {
                let ctx = self.semantic_context_from(context.span);
                Expression::I16(ctx, *v)
            },
            Expression::I32(context, v) => {
                let ctx = self.semantic_context_from(context.span);
                Expression::I32(ctx, *v)
            },
            Expression::I64(context, v) => {
                let ctx = self.semantic_context_from(context.span);
                Expression::I64(ctx, *v)
            },
            Expression::Boolean(context, v) => {
                let ctx = self.semantic_context_from(context.span);
                Expression::Boolean(ctx, *v)
            },
            Expression::StringLiteral(context, v) => {
                let ctx = self.semantic_context_from(context.span);
                Expression::StringLiteral(ctx, *v)
            },
            Expression::ArrayExpression(context, elements, len) => {
                let ctx = self.semantic_context_from(context.span);
                let elements = self.annotate_expressions(elements);
                Expression::ArrayExpression(ctx, elements, *len)
            },
            Expression::ArrayAt { context, array, index } => {
                let ctx = self.semantic_context_from(context.span);
                let array = self.annotate_expression(array);
                let index = self.annotate_expression(index);
                Expression::ArrayAt { context: ctx, array: Box::new(array), index: Box::new(index) }
            },
            Expression::CustomType(context, path) => {
                let ctx = self.semantic_context_from(context.span);
                Expression::CustomType(ctx, path.clone())
            },
            Expression::Identifier(context, id) => {
                let ctx = self.semantic_context_from(context.span);
                Expression::Identifier(ctx, *id)
            },
            Expression::Path(context, path) => {
                let ctx = self.semantic_context_from(context.span);
                Expression::Path(ctx, path.clone())
            },
            Expression::MemberAccess(context, src, member) => {
                let ctx = self.semantic_context_from(context.span);
                let src = self.annotate_expression(src);
                Expression::MemberAccess(ctx, Box::new(src), *member)
            },
            Expression::IdentifierDeclare(context, id, ty) => {
                let ctx = self.semantic_context_from(context.span);
                Expression::IdentifierDeclare(ctx, *id, ty.clone())
            },
            Expression::RoutineCall(context, call, path, params) => {
                let ctx = self.semantic_context_from(context.span);
                let params = self.annotate_expressions(params);
                Expression::RoutineCall(ctx, *call, path.clone(), params)
            },
            Expression::StructExpression(context, path, fields) => {
                let ctx = self.semantic_context_from(context.span);
                let fields = self.annotate_named(fields);
                Expression::StructExpression(ctx, path.clone(), fields)
            },
            Expression::If { context, cond, if_arm, else_arm } => {
                let ctx = self.semantic_context_from(context.span);
                let cond = self.annotate_expression(cond);
                let if_arm = self.annotate_expression(if_arm);
                let else_arm = self.annotate_optional(else_arm);
                Expression::If { context: ctx, cond: Box::new(cond), if_arm: Box::new(if_arm),
                    else_arm: else_arm }
            },
            Expression::While { context, cond, body } => {
                let ctx = self.semantic_context_from(context.span);
                let cond = self.annotate_expression(cond);
                let body = self.annotate_expression(body);
                Expression::While { context: ctx, cond: Box::new(cond), body: Box::new(body) }
            },
            Expression::ExpressionBlock(context, body, last) => {
                let ctx = self.semantic_context_from(context.span);
                let body = self.annotate_statements(body);
                let last = self.annotate_optional(last);
                Expression::ExpressionBlock(ctx, body, last)
            },
            Expression::BinaryOp(context, op, l, r) => {
                let ctx = self.semantic_context_from(context.span);
                let l = self.annotate_expression(l);
                let r = self.annotate_expression(r);
                Expression::BinaryOp(ctx, *op, Box::new(l), Box::new(r))
            },
            Expression::UnaryOp(context, op, operand) => {
                let ctx = self.semantic_context_from(context.span);
                let operand = self.annotate_expression(operand);
                Expression::UnaryOp(ctx, *op, Box::new(operand))
            },
            Expression::Yield(context, e) => {
                let ctx = self.semantic_context_from(context.span);
                let e = self.annotate_expression(e);
                Expression::Yield(ctx, Box::new(e))
            },
        }
    }

    fn annotate_optional(&mut self, e: &Option<Box<Expression<ParserContext>>>) -> (r: Option<
        Box<Expression<SemanticContext>>,
    >)
        ensures
            (
                match r {
                    Some(e) => Some(e@),
                    None => None,
                },
                final(self).next(),
            ) == annotate_optional(
                match e {
                    Some(e) => Some(e@),
                    None => None,
                },
                old(self).next(),
            ),
        decreases e,
    {
        match e {
            Some(e) => Some(Box::new(self.annotate_expression(e))),
            None => None,
        }
    }

    fn annotate_value(&mut self, e: &Option<Expression<ParserContext>>) -> (r: Option<
        Expression<SemanticContext>,
    >)
        ensures
            (
                match r {
                    Some(e) => Some(e@),
                    None => None,
                },
                final(self).next(),
            ) == annotate_optional(
                match e {
                    Some(e) => Some(e@),
                    None => None,
                },
                old(self).next(),
            ),
        decreases e,
    {
        match e {
            Some(e) => Some(self.annotate_expression(e)),
            None => None,
        }
    }

    fn annotate_expressions(&mut self, es: &Vec<Expression<ParserContext>>) -> (r: Vec<
        Expression<SemanticContext>,
    >)
        ensures
            (expressions_view(r), final(self).next()) == annotate_expressions(
                expressions_view(*es),
                old(self).next(),
                0,
                Seq::empty(),
            ),
        decreases es,
    {
        let mut out: Vec<Expression<SemanticContext>> = Vec::new();
        let mut i: usize = 0;
        assert(expressions_view(out) =~= Seq::empty());
        while i < es.len()
            invariant
                0 <= i <= es.len(),
                annotate_expressions(expressions_view(*es), old(self).next(), 0, Seq::empty())
                    == annotate_expressions(
                    expressions_view(*es),
                    self.next(),
                    i as int,
                    expressions_view(out),
                ),
            decreases es.len() - i,
        {
            let ghost before = expressions_view(out);
            let e = self.annotate_expression(&es[i]);
            out.push(e);
            assert(expressions_view(out) =~= before.push(e@));
            i += 1;
        }
        out
    }

    fn annotate_named(&mut self, es: &Vec<(StringId, Expression<ParserContext>)>) -> (r: Vec<
        (StringId, Expression<SemanticContext>),
    >)
        ensures
            (named_expressions_view(r), final(self).next()) == annotate_named(
                named_expressions_view(*es),
                old(self).next(),
                0,
                Seq::empty(),
            ),
        decreases es,
    {
        let mut out: Vec<(StringId, Expression<SemanticContext>)> = Vec::new();
        let mut i: usize = 0;
        assert(named_expressions_view(out) =~= Seq::empty());
        while i < es.len()
            invariant
                0 <= i <= es.len(),
                annotate_named(named_expressions_view(*es), old(self).next(), 0, Seq::empty())
                    == annotate_named(
                    named_expressions_view(*es),
                    self.next(),
                    i as int,
                    named_expressions_view(out),
                ),
            decreases es.len() - i,
        {
            let ghost before = named_expressions_view(out);
            let e = self.annotate_expression(&es[i].1);
            let ghost added = (es[i as int].0, e@);
            out.push((es[i].0, e));
            assert(named_expressions_view(out) =~= before.push(added));
            i += 1;
        }
        out
    }

    fn annotate_statement(&mut self, s: &Statement<ParserContext>) -> (r: Statement<
        SemanticContext,
    >)
        ensures
            (r@, final(self).next()) == annotate_statement(s@, old(self).next()),
        decreases s,
    {
        match s {
            Statement::Bind(b) => {
                let ctx = self.semantic_context_from(b.metadata.span);
                let rhs = self.annotate_expression(&b.rhs);
                Statement::Bind(Box::new(Bind::new(ctx, b.id, b.ty.clone(), b.mutable, rhs)))
            },
            Statement::Mutate(m) => {
                let ctx = self.semantic_context_from(m.metadata.span);
                let rhs = self.annotate_expression(&m.rhs);
                Statement::Mutate(Box::new(Mutate::new(ctx, m.id, rhs)))
            },
            Statement::Return(x) => {
                let ctx = self.semantic_context_from(x.metadata.span);
                let value = self.annotate_value(&x.value);
                Statement::Return(Box::new(Return::new(ctx, value)))
            },
            Statement::YieldReturn(x) => {
                let ctx = self.semantic_context_from(x.metadata.span);
                let value = self.annotate_value(&x.value);
                Statement::YieldReturn(Box::new(YieldReturn::new(ctx, value)))
            },
            Statement::Expression(e) => Statement::Expression(
                Box::new(self.annotate_expression(e)),
            ),
        }
    }

    fn annotate_statements(&mut self, ss: &Vec<Statement<ParserContext>>) -> (r: Vec<
        Statement<SemanticContext>,
    >)
        ensures
            (statements_view(r), final(self).next()) == annotate_statements(
                statements_view(*ss),
                old(self).next(),
                0,
                Seq::empty(),
            ),
        decreases ss,
    {
        let mut out: Vec<Statement<SemanticContext>> = Vec::new();
        let mut i: usize = 0;
        assert(statements_view(out) =~= Seq::empty());
        while i < ss.len()
            invariant
                0 <= i <= ss.len(),
                annotate_statements(statements_view(*ss), old(self).next(), 0, Seq::empty())
                    == annotate_statements(
                    statements_view(*ss),
                    self.next(),
                    i as int,
                    statements_view(out),
                ),
            decreases ss.len() - i,
        {
            let ghost before = statements_view(out);
            let s = self.annotate_statement(&ss[i]);
            out.push(s);
            assert(statements_view(out) =~= before.push(s@));
            i += 1;
        }
        out
    }

    fn annotate_parameters(&mut self, ps: &Vec<Parameter<ParserContext>>) -> (r: Vec<
        Parameter<SemanticContext>,
    >)
        ensures
            (parameters_view(r), final(self).next()) == annotate_parameters(
                parameters_view(*ps),
                old(self).next(),
                0,
                Seq::empty(),
            ),
    {
        let mut out: Vec<Parameter<SemanticContext>> = Vec::new();
        let mut i: usize = 0;
        assert(parameters_view(out) =~= Seq::empty());
        while i < ps.len()
            invariant
                0 <= i <= ps.len(),
                annotate_parameters(parameters_view(*ps), old(self).next(), 0, Seq::empty())
                    == annotate_parameters(
                    parameters_view(*ps),
                    self.next(),
                    i as int,
                    parameters_view(out),
                ),
            decreases ps.len() - i,
        {
            let ghost before = parameters_view(out);
            let ctx = self.semantic_context_from(ps[i].annotation.span);
            let p = Parameter { annotation: ctx, name: ps[i].name, ty: ps[i].ty.clone() };
            let ghost added = p@;
            out.push(p);
            assert(parameters_view(out) =~= before.push(added));
            i += 1;
        }
        out
    }

    fn annotate_item(&mut self, item: &Item<ParserContext>) -> (r: Item<SemanticContext>)
        ensures
            (r@, final(self).next()) == annotate_item(item@, old(self).next()),
    {
        match item {
            Item::Routine(r) => {
                let annotations = self.routine_semantic_context_from(r.annotations.span, r.name);
                let params = self.annotate_parameters(&r.params);
                let body = self.annotate_statements(&r.body);
                Item::Routine(
                    RoutineDef {
                        annotations,
                        def: r.def,
                        name: r.name,
                        params,
                        ty: r.ty.clone(),
                        body,
                    },
                )
            },
            Item::Struct(s) => {
                let annotations = self.semantic_context_from(s.annotations.span);
                let fields = self.annotate_parameters(&s.fields);
                Item::Struct(StructDef { annotations, name: s.name, fields })
            },
            Item::Extern(e) => {
                let annotations = self.semantic_context_from(e.annotations.span);
                let params = self.annotate_parameters(&e.params);
                Item::Extern(
                    Extern {
                        annotations,
                        name: e.name,
                        params,
                        has_varargs: e.has_varargs,
                        ty: e.ty.clone(),
                    },
                )
            },
        }
    }

    fn annotate_items(&mut self, items: &Vec<Item<ParserContext>>) -> (r: Vec<
        Item<SemanticContext>,
    >)
        ensures
            (items_view(r), final(self).next()) == annotate_items(
                items_view(*items),
                old(self).next(),
                0,
                Seq::empty(),
            ),
    {
        let mut out: Vec<Item<SemanticContext>> = Vec::new();
        let mut i: usize = 0;
        assert(items_view(out) =~= Seq::empty());
        while i < items.len()
            invariant
                0 <= i <= items.len(),
                annotate_items(items_view(*items), old(self).next(), 0, Seq::empty())
                    == annotate_items(
                    items_view(*items),
                    self.next(),
                    i as int,
                    items_view(out),
                ),
            decreases items.len() - i,
        {
            let ghost before = items_view(out);
            let item = self.annotate_item(&items[i]);
            out.push(item);
            assert(items_view(out) =~= before.push(item@));
            i += 1;
        }
        out
    }

    fn annotate_module(&mut self, m: &Module<ParserContext>) -> (r: Module<SemanticContext>)
        ensures
            (r@, final(self).next()) == annotate_module(m@, old(self).next()),
        decreases m,
    {
        let annotations = self.module_semantic_context_from(m.annotations.span, m.name);
        let modules = self.annotate_modules(&m.modules);
        let functions = self.annotate_items(&m.functions);
        let coroutines = self.annotate_items(&m.coroutines);
        let structs = self.annotate_items(&m.structs);
        let externs = self.annotate_items(&m.externs);
        Module { annotations, name: m.name, modules, functions, coroutines, structs, externs }
    }

    fn annotate_modules(&mut self, ms: &Vec<Module<ParserContext>>) -> (r: Vec<
        Module<SemanticContext>,
    >)
        ensures
            (modules_view(r), final(self).next()) == annotate_modules(
                modules_view(*ms),
                old(self).next(),
                0,
                Seq::empty(),
            ),
        decreases ms,
    {
        let mut out: Vec<Module<SemanticContext>> = Vec::new();
        let mut i: usize = 0;
        assert(modules_view(out) =~= Seq::empty());
        while i < ms.len()
            invariant
                0 <= i <= ms.len(),
                annotate_modules(modules_view(*ms), old(self).next(), 0, Seq::empty())
                    == annotate_modules(
                    modules_view(*ms),
                    self.next(),
                    i as int,
                    modules_view(out),
                ),
            decreases ms.len() - i,
        {
            let ghost before = modules_view(out);
            let m = self.annotate_module(&ms[i]);
            out.push(m);
            assert(modules_view(out) =~= before.push(m@));
            i += 1;
        }
        out
    }
}

} // verus!
