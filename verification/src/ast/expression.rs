//! Expressions, the part of the syntax tree that computes values.
use crate::ast::node::{Node, NodeType};
use crate::ast::path::{Element, Path};
use crate::ast::statement::{clone_statements, statements_view, Statement, StatementView};
use crate::ast::ty::{Type, TypeView};
use crate::stringtable::StringId;
use vstd::prelude::*;

verus! {

#[derive(Clone, Copy, Debug, PartialEq, Eq, Structural)]
pub enum BinaryOperator {
    Add,
    Sub,
    Mul,
    Div,
    BAnd,
    BOr,
    Eq,
    NEq,
    Ls,
    LsEq,
    Gr,
    GrEq,
}

#[derive(Clone, Copy, Debug, PartialEq, Eq, Structural)]
pub enum UnaryOperator {
    Negate,
    Not,
}

/// How a routine is entered: by calling a function, by creating a
/// coroutine, or by calling a function that is defined outside the project.
#[derive(Clone, Copy, Debug, PartialEq, Eq, Structural)]
pub enum RoutineCall {
    Function,
    CoroutineInit,
    Extern,
}

#[derive(Debug, PartialEq)]
pub enum Expression<M> {
    U8(M, u8),
    U16(M, u16),
    U32(M, u32),
    U64(M, u64),
    I8(M, i8),
    I16(M, i16),
    I32(M, i32),
    I64(M, i64),
    Boolean(M, bool),
    StringLiteral(M, StringId),
    ArrayExpression(M, Vec<Expression<M>>, usize),
    ArrayAt { context: M, array: Box<Expression<M>>, index: Box<Expression<M>> },
    CustomType(M, Path),
    Identifier(M, StringId),
    Path(M, Path),
    MemberAccess(M, Box<Expression<M>>, StringId),
    IdentifierDeclare(M, StringId, Type),
    RoutineCall(M, RoutineCall, Path, Vec<Expression<M>>),
    StructExpression(M, Path, Vec<(StringId, Expression<M>)>),
    If {
        context: M,
        cond: Box<Expression<M>>,
        if_arm: Box<Expression<M>>,
        else_arm: Option<Box<Expression<M>>>,
    },
    While { context: M, cond: Box<Expression<M>>, body: Box<Expression<M>> },
    ExpressionBlock(M, Vec<Statement<M>>, Option<Box<Expression<M>>>),
    BinaryOp(M, BinaryOperator, Box<Expression<M>>, Box<Expression<M>>),
    UnaryOp(M, UnaryOperator, Box<Expression<M>>),
    Yield(M, Box<Expression<M>>),
}

/// An [`Expression`] as a mathematical value, annotated with values of type
/// `C`.
pub ghost enum ExpressionView<C> {
    U8(C, u8),
    U16(C, u16),
    U32(C, u32),
    U64(C, u64),
    I8(C, i8),
    I16(C, i16),
    I32(C, i32),
    I64(C, i64),
    Boolean(C, bool),
    StringLiteral(C, StringId),
    ArrayExpression(C, Seq<ExpressionView<C>>, nat),
    ArrayAt { context: C, array: Box<ExpressionView<C>>, index: Box<ExpressionView<C>> },
    CustomType(C, Seq<Element>),
    Identifier(C, StringId),
    Path(C, Seq<Element>),
    MemberAccess(C, Box<ExpressionView<C>>, StringId),
    IdentifierDeclare(C, StringId, TypeView),
    RoutineCall(C, RoutineCall, Seq<Element>, Seq<ExpressionView<C>>),
    StructExpression(C, Seq<Element>, Seq<(StringId, ExpressionView<C>)>),
    If {
        context: C,
        cond: Box<ExpressionView<C>>,
        if_arm: Box<ExpressionView<C>>,
        else_arm: Option<Box<ExpressionView<C>>>,
    },
    While { context: C, cond: Box<ExpressionView<C>>, body: Box<ExpressionView<C>> },
    ExpressionBlock(C, Seq<StatementView<C>>, Option<Box<ExpressionView<C>>>),
    BinaryOp(C, BinaryOperator, Box<ExpressionView<C>>, Box<ExpressionView<C>>),
    UnaryOp(C, UnaryOperator, Box<ExpressionView<C>>),
    Yield(C, Box<ExpressionView<C>>),
}

pub open spec fn expression_view<M: View>(e: Expression<M>) -> ExpressionView<M::V>
    decreases e,
{
    match e {
        Expression::U8(m, v) => ExpressionView::U8(m@, v),
        Expression::U16(m, v) => ExpressionView::U16(m@, v),
        Expression::U32(m, v) => ExpressionView::U32(m@, v),
        Expression::U64(m, v) => ExpressionView::U64(m@, v),
        Expression::I8(m, v) => ExpressionView::I8(m@, v),
        Expression::I16(m, v) => ExpressionView::I16(m@, v),
        Expression::I32(m, v) => ExpressionView::I32(m@, v),
        Expression::I64(m, v) => ExpressionView::I64(m@, v),
        Expression::Boolean(m, v) => ExpressionView::Boolean(m@, v),
        Expression::StringLiteral(m, v) => ExpressionView::StringLiteral(m@, v),
        Expression::ArrayExpression(m, elements, len) => ExpressionView::ArrayExpression(
            m@,
            expressions_view(elements),
            len as nat,
        ),
        Expression::ArrayAt { context, array, index } => ExpressionView::ArrayAt {
            context: context@,
            array: Box::new(expression_view(*array)),
            index: Box::new(expression_view(*index)),
        },
        Expression::CustomType(m, path) => ExpressionView::CustomType(m@, path@),
        Expression::Identifier(m, id) => ExpressionView::Identifier(m@, id),
        Expression::Path(m, path) => ExpressionView::Path(m@, path@),
        Expression::MemberAccess(m, src, member) => ExpressionView::MemberAccess(
            m@,
            Box::new(expression_view(*src)),
            member,
        ),
        Expression::IdentifierDeclare(m, id, ty) => ExpressionView::IdentifierDeclare(
            m@,
            id,
            ty@,
        ),
        Expression::RoutineCall(m, call, path, params) => ExpressionView::RoutineCall(
            m@,
            call,
            path@,
            expressions_view(params),
        ),
        Expression::StructExpression(m, path, fields) => ExpressionView::StructExpression(
            m@,
            path@,
            named_expressions_view(fields),
        ),
        Expression::If { context, cond, if_arm, else_arm } => ExpressionView::If {
            context: context@,
            cond: Box::new(expression_view(*cond)),
            if_arm: Box::new(expression_view(*if_arm)),
            else_arm: match else_arm {
                Some(e) => Some(Box::new(expression_view(*e))),
                None => None,
            },
        },
        Expression::While { context, cond, body } => ExpressionView::While {
            context: context@,
            cond: Box::new(expression_view(*cond)),
            body: Box::new(expression_view(*body)),
        },
        Expression::ExpressionBlock(m, body, last) => ExpressionView::ExpressionBlock(
            m@,
            statements_view(body),
            match last {
                Some(e) => Some(Box::new(expression_view(*e))),
                None => None,
            },
        ),
        Expression::BinaryOp(m, op, l, r) => ExpressionView::BinaryOp(
            m@,
            op,
            Box::new(expression_view(*l)),
            Box::new(expression_view(*r)),
        ),
        Expression::UnaryOp(m, op, operand) => ExpressionView::UnaryOp(
            m@,
            op,
            Box::new(expression_view(*operand)),
        ),
        Expression::Yield(m, e) => ExpressionView::Yield(m@, Box::new(expression_view(*e))),
    }
}

/// The views of a list of expressions, in order.
pub open spec fn expressions_view<M: View>(es: Vec<Expression<M>>) -> Seq<ExpressionView<M::V>>
    decreases es,
{
    Seq::new(
        es@.len(),
        |i: int|
            if 0 <= i < es@.len() {
                expression_view(es@[i])
            } else {
                arbitrary()
            },
    )
}

/// The views of a list of named expressions, in order.
pub open spec fn named_expressions_view<M: View>(es: Vec<(StringId, Expression<M>)>) -> Seq<
    (StringId, ExpressionView<M::V>),
>
    decreases es,
{
    Seq::new(
        es@.len(),
        |i: int|
            if 0 <= i < es@.len() {
                (es@[i].0, expression_view(es@[i].1))
            } else {
                arbitrary()
            },
    )
}

impl<M: View> View for Expression<M> {
    type V = ExpressionView<M::V>;

    open spec fn view(&self) -> ExpressionView<M::V> {
        expression_view(*self)
    }
}

impl<C> ExpressionView<C> {
    /// The annotation of the expression.
    pub open spec fn context(self) -> C {
        match self {
            ExpressionView::U8(m, _) => m,
            ExpressionView::U16(m, _) => m,
            ExpressionView::U32(m, _) => m,
            ExpressionView::U64(m, _) => m,
            ExpressionView::I8(m, _) => m,
            ExpressionView::I16(m, _) => m,
            ExpressionView::I32(m, _) => m,
            ExpressionView::I64(m, _) => m,
            ExpressionView::Boolean(m, _) => m,
            ExpressionView::StringLiteral(m, _) => m,
            ExpressionView::ArrayExpression(m, _, _) => m,
            ExpressionView::ArrayAt { context, .. } => context,
            ExpressionView::CustomType(m, _) => m,
            ExpressionView::Identifier(m, _) => m,
            ExpressionView::Path(m, _) => m,
            ExpressionView::MemberAccess(m, _, _) => m,
            ExpressionView::IdentifierDeclare(m, _, _) => m,
            ExpressionView::RoutineCall(m, _, _, _) => m,
            ExpressionView::StructExpression(m, _, _) => m,
            ExpressionView::If { context, .. } => context,
            ExpressionView::While { context, .. } => context,
            ExpressionView::ExpressionBlock(m, _, _) => m,
            ExpressionView::BinaryOp(m, _, _, _) => m,
            ExpressionView::UnaryOp(m, _, _) => m,
            ExpressionView::Yield(m, _) => m,
        }
    }
}

impl<M> Expression<M> {
    /// The annotation of the expression.
    pub open spec fn spec_context(self) -> M {
        match self {
            Expression::U8(m, _) => m,
            Expression::U16(m, _) => m,
            Expression::U32(m, _) => m,
            Expression::U64(m, _) => m,
            Expression::I8(m, _) => m,
            Expression::I16(m, _) => m,
            Expression::I32(m, _) => m,
            Expression::I64(m, _) => m,
            Expression::Boolean(m, _) => m,
            Expression::StringLiteral(m, _) => m,
            Expression::ArrayExpression(m, _, _) => m,
            Expression::ArrayAt { context, .. } => context,
            Expression::CustomType(m, _) => m,
            Expression::Identifier(m, _) => m,
            Expression::Path(m, _) => m,
            Expression::MemberAccess(m, _, _) => m,
            Expression::IdentifierDeclare(m, _, _) => m,
            Expression::RoutineCall(m, _, _, _) => m,
            Expression::StructExpression(m, _, _) => m,
            Expression::If { context, .. } => context,
            Expression::While { context, .. } => context,
            Expression::ExpressionBlock(m, _, _) => m,
            Expression::BinaryOp(m, _, _, _) => m,
            Expression::UnaryOp(m, _, _) => m,
            Expression::Yield(m, _) => m,
        }
    }

    /// The expression with the annotation `with` in place of its own.
    pub open spec fn spec_with_context(self, with: M) -> Expression<M> {
        match self {
            Expression::U8(_, a) => Expression::U8(with, a),
            Expression::U16(_, a) => Expression::U16(with, a),
            Expression::U32(_, a) => Expression::U32(with, a),
            Expression::U64(_, a) => Expression::U64(with, a),
            Expression::I8(_, a) => Expression::I8(with, a),
            Expression::I16(_, a) => Expression::I16(with, a),
            Expression::I32(_, a) => Expression::I32(with, a),
            Expression::I64(_, a) => Expression::I64(with, a),
            Expression::Boolean(_, a) => Expression::Boolean(with, a),
            Expression::StringLiteral(_, a) => Expression::StringLiteral(with, a),
            Expression::ArrayExpression(_, a, b) => Expression::ArrayExpression(with, a, b),
            Expression::ArrayAt { context: _, array,
                index } => Expression::ArrayAt { context: with, array, index },
            Expression::CustomType(_, a) => Expression::CustomType(with, a),
            Expression::Identifier(_, a) => Expression::Identifier(with, a),
            Expression::Path(_, a) => Expression::Path(with, a),
            Expression::MemberAccess(_, a, b) => Expression::MemberAccess(with, a, b),
            Expression::IdentifierDeclare(_, a, b) => Expression::IdentifierDeclare(with, a, b),
            Expression::RoutineCall(_, a, b, c) => Expression::RoutineCall(with, a, b, c),
            Expression::StructExpression(_, a, b) => Expression::StructExpression(with, a, b),
            Expression::If { context: _, cond, if_arm,
                else_arm } => Expression::If { context: with, cond, if_arm, else_arm },
            Expression::While { context: _, cond, body } => Expression::While { context: with,
                cond, body },
            Expression::ExpressionBlock(_, a, b) => Expression::ExpressionBlock(with, a, b),
            Expression::BinaryOp(_, a, b, c) => Expression::BinaryOp(with, a, b, c),
            Expression::UnaryOp(_, a, b) => Expression::UnaryOp(with, a, b),
            Expression::Yield(_, a) => Expression::Yield(with, a),
        }
    }
    /// The annotation of the expression, to be changed in place.
    pub fn get_context_mut(&mut self) -> (r: &mut M)
        ensures
            *r == old(self).spec_context(),
            *final(self) == old(self).spec_with_context(*final(r)),
    {
        match self {
            Expression::U8(m, _) => m,
            Expression::U16(m, _) => m,
            Expression::U32(m, _) => m,
            Expression::U64(m, _) => m,
            Expression::I8(m, _) => m,
            Expression::I16(m, _) => m,
            Expression::I32(m, _) => m,
            Expression::I64(m, _) => m,
            Expression::Boolean(m, _) => m,
            Expression::StringLiteral(m, _) => m,
            Expression::ArrayExpression(m, _, _) => m,
            Expression::ArrayAt { context, .. } => context,
            Expression::CustomType(m, _) => m,
            Expression::Identifier(m, _) => m,
            Expression::Path(m, _) => m,
            Expression::MemberAccess(m, _, _) => m,
            Expression::IdentifierDeclare(m, _, _) => m,
            Expression::RoutineCall(m, _, _, _) => m,
            Expression::StructExpression(m, _, _) => m,
            Expression::If { context, .. } => context,
            Expression::While { context, .. } => context,
            Expression::ExpressionBlock(m, _, _) => m,
            Expression::BinaryOp(m, _, _, _) => m,
            Expression::UnaryOp(m, _, _) => m,
            Expression::Yield(m, _) => m,
        }
    }
    /// The annotation of the expression.
    pub fn get_context(&self) -> (r: &M)
        ensures
            *r == self.spec_context(),
    {
        match self {
            Expression::U8(m, _) => m,
            Expression::U16(m, _) => m,
            Expression::U32(m, _) => m,
            Expression::U64(m, _) => m,
            Expression::I8(m, _) => m,
            Expression::I16(m, _) => m,
            Expression::I32(m, _) => m,
            Expression::I64(m, _) => m,
            Expression::Boolean(m, _) => m,
            Expression::StringLiteral(m, _) => m,
            Expression::ArrayExpression(m, _, _) => m,
            Expression::ArrayAt { context, .. } => context,
            Expression::CustomType(m, _) => m,
            Expression::Identifier(m, _) => m,
            Expression::Path(m, _) => m,
            Expression::MemberAccess(m, _, _) => m,
            Expression::IdentifierDeclare(m, _, _) => m,
            Expression::RoutineCall(m, _, _, _) => m,
            Expression::StructExpression(m, _, _) => m,
            Expression::If { context, .. } => context,
            Expression::While { context, .. } => context,
            Expression::ExpressionBlock(m, _, _) => m,
            Expression::BinaryOp(m, _, _, _) => m,
            Expression::UnaryOp(m, _, _) => m,
            Expression::Yield(m, _) => m,
        }
    }
}

/// Copies an expression with everything below it.
pub fn clone_expression<M: Copy + View>(e: &Expression<M>) -> (r: Expression<M>)
    ensures
        r@ == e@,
    decreases e,
{
    match e {
        Expression::U8(m, v) => Expression::U8(*m, *v),
        Expression::U16(m, v) => Expression::U16(*m, *v),
        Expression::U32(m, v) => Expression::U32(*m, *v),
        Expression::U64(m, v) => Expression::U64(*m, *v),
        Expression::I8(m, v) => Expression::I8(*m, *v),
        Expression::I16(m, v) => Expression::I16(*m, *v),
        Expression::I32(m, v) => Expression::I32(*m, *v),
        Expression::I64(m, v) => Expression::I64(*m, *v),
        Expression::Boolean(m, v) => Expression::Boolean(*m, *v),
        Expression::StringLiteral(m, v) => Expression::StringLiteral(*m, *v),
        Expression::ArrayExpression(m, elements, len) => Expression::ArrayExpression(
            *m,
            clone_expressions(elements),
            *len,
        ),
        Expression::ArrayAt { context, array, index } => Expression::ArrayAt {
            context: *context,
            array: Box::new(clone_expression(array)),
            index: Box::new(clone_expression(index)),
        },
        Expression::CustomType(m, path) => Expression::CustomType(*m, path.clone()),
        Expression::Identifier(m, id) => Expression::Identifier(*m, *id),
        Expression::Path(m, path) => Expression::Path(*m, path.clone()),
        Expression::MemberAccess(m, src, member) => Expression::MemberAccess(
            *m,
            Box::new(clone_expression(src)),
            *member,
        ),
        Expression::IdentifierDeclare(m, id, ty) => Expression::IdentifierDeclare(
            *m,
            *id,
            ty.clone(),
        ),
        Expression::RoutineCall(m, call, path, params) => Expression::RoutineCall(
            *m,
            *call,
            path.clone(),
            clone_expressions(params),
        ),
        Expression::StructExpression(m, path, fields) => Expression::StructExpression(
            *m,
            path.clone(),
            clone_named_expressions(fields),
        ),
        Expression::If { context, cond, if_arm, else_arm } => Expression::If {
            context: *context,
            cond: Box::new(clone_expression(cond)),
            if_arm: Box::new(clone_expression(if_arm)),
            else_arm: match else_arm {
                Some(e) => Some(Box::new(clone_expression(e))),
                None => None,
            },
        },
        Expression::While { context, cond, body } => Expression::While {
            context: *context,
            cond: Box::new(clone_expression(cond)),
            body: Box::new(clone_expression(body)),
        },
        Expression::ExpressionBlock(m, body, last) => Expression::ExpressionBlock(
            *m,
            clone_statements(body),
            match last {
                Some(e) => Some(Box::new(clone_expression(e))),
                None => None,
            },
        ),
        Expression::BinaryOp(m, op, l, r) => Expression::BinaryOp(
            *m,
            *op,
            Box::new(clone_expression(l)),
            Box::new(clone_expression(r)),
        ),
        Expression::UnaryOp(m, op, operand) => Expression::UnaryOp(
            *m,
            *op,
            Box::new(clone_expression(operand)),
        ),
        Expression::Yield(m, e) => Expression::Yield(*m, Box::new(clone_expression(e))),
    }
}

/// Copies a list of expressions.
pub fn clone_expressions<M: Copy + View>(es: &Vec<Expression<M>>) -> (r: Vec<Expression<M>>)
    ensures
        expressions_view(r) == expressions_view(*es),
    decreases es,
{
    let mut out: Vec<Expression<M>> = Vec::new();
    let mut i: usize = 0;
    while i < es.len()
        invariant
            0 <= i <= es.len(),
            out.len() == i,
            forall|j: int| 0 <= j < i ==> out@[j]@ == es@[j]@,
        decreases es.len() - i,
    {
        let e = clone_expression(&es[i]);
        out.push(e);
        i += 1;
    }
    assert(expressions_view(out) =~= expressions_view(*es));
    out
}

/// Copies a list of named expressions.
pub fn clone_named_expressions<M: Copy + View>(es: &Vec<(StringId, Expression<M>)>) -> (r: Vec<
    (StringId, Expression<M>),
>)
    ensures
        named_expressions_view(r) == named_expressions_view(*es),
    decreases es,
{
    let mut out: Vec<(StringId, Expression<M>)> = Vec::new();
    let mut i: usize = 0;
    while i < es.len()
        invariant
            0 <= i <= es.len(),
            out.len() == i,
            forall|j: int| 0 <= j < i ==> out@[j].0 == es@[j].0 && out@[j].1@ == es@[j].1@,
        decreases es.len() - i,
    {
        let e = clone_expression(&es[i].1);
        out.push((es[i].0, e));
        i += 1;
    }
    assert(named_expressions_view(out) =~= named_expressions_view(*es));
    out
}

impl<M: Copy + View> Clone for Expression<M> {
    fn clone(&self) -> (r: Expression<M>)
        ensures
            r@ == self@,
    {
        clone_expression(self)
    }
}

/// The annotation of the view of an expression is the view of its
/// annotation.
pub proof fn lemma_context_view<M: View>(e: Expression<M>)
    ensures
        e@.context() == e.spec_context()@,
{
}

impl<M> Node<M> for Expression<M> {
    open spec fn spec_node_type(&self) -> NodeType {
        match self {
            Expression::RoutineCall(..) => NodeType::RoutineCall,
            Expression::BinaryOp(..) => NodeType::BinOp,
            _ => NodeType::Expression,
        }
    }

    open spec fn spec_annotation(&self) -> M {
        self.spec_context()
    }

    open spec fn spec_with_annotation(&self, with: M) -> Expression<M> {
        self.spec_with_context(with)
    }

    open spec fn spec_name(&self) -> Option<StringId> {
        None
    }

    fn node_type(&self) -> (r: NodeType) {
        match self {
            Expression::RoutineCall(..) => NodeType::RoutineCall,
            Expression::BinaryOp(..) => NodeType::BinOp,
            _ => NodeType::Expression,
        }
    }

    fn annotation(&self) -> (r: &M) {
        self.get_context()
    }

    fn annotation_mut(&mut self) -> (r: &mut M) {
        self.get_context_mut()
    }

    fn name(&self) -> (r: Option<StringId>) {
        None
    }
}

} // verus!
