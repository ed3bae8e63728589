//! Statements, the part of the syntax tree that binds, assigns and leaves
//! routines.
use crate::ast::expression::{clone_expression, expression_view, Expression, ExpressionView};
use crate::ast::node::{Node, NodeType};
use crate::ast::ty::{Type, TypeView};
use crate::stringtable::StringId;
use vstd::prelude::*;

verus! {

#[derive(Debug, PartialEq)]
pub enum Statement<M> {
    Bind(Box<Bind<M>>),
    Mutate(Box<Mutate<M>>),
    Return(Box<Return<M>>),
    YieldReturn(Box<YieldReturn<M>>),
    Expression(Box<Expression<M>>),
}

/// `let [mut] id: ty := rhs`
#[derive(Debug, PartialEq)]
pub struct Bind<M> {
    pub metadata: M,
    pub id: StringId,
    pub ty: Type,
    pub mutable: bool,
    pub rhs: Expression<M>,
}

/// `mut id := rhs`
#[derive(Debug, PartialEq)]
pub struct Mutate<M> {
    pub metadata: M,
    pub id: StringId,
    pub rhs: Expression<M>,
}

/// `return [value]`
#[derive(Debug, PartialEq)]
pub struct Return<M> {
    pub metadata: M,
    pub value: Option<Expression<M>>,
}

/// `yret [value]`
#[derive(Debug, PartialEq)]
pub struct YieldReturn<M> {
    pub metadata: M,
    pub value: Option<Expression<M>>,
}

/// A [`Statement`] as a mathematical value, annotated with values of type
/// `C`.
pub ghost enum StatementView<C> {
    Bind { metadata: C, id: StringId, ty: TypeView, mutable: bool, rhs: ExpressionView<C> },
    Mutate { metadata: C, id: StringId, rhs: ExpressionView<C> },
    Return { metadata: C, value: Option<ExpressionView<C>> },
    YieldReturn { metadata: C, value: Option<ExpressionView<C>> },
    Expression(ExpressionView<C>),
}

pub open spec fn statement_view<M: View>(s: Statement<M>) -> StatementView<M::V>
    decreases s,
{
    match s {
        Statement::Bind(b) => StatementView::Bind {
            metadata: b.metadata@,
            id: b.id,
            ty: b.ty@,
            mutable: b.mutable,
            rhs: expression_view(b.rhs),
        },
        Statement::Mutate(m) => StatementView::Mutate {
            metadata: m.metadata@,
            id: m.id,
            rhs: expression_view(m.rhs),
        },
        Statement::Return(r) => StatementView::Return {
            metadata: r.metadata@,
            value: match r.value {
                Some(e) => Some(expression_view(e)),
                None => None,
            },
        },
        Statement::YieldReturn(r) => StatementView::YieldReturn {
            metadata: r.metadata@,
            value: match r.value {
                Some(e) => Some(expression_view(e)),
                None => None,
            },
        },
        Statement::Expression(e) => StatementView::Expression(expression_view(*e)),
    }
}

/// The views of a list of statements, in order.
pub open spec fn statements_view<M: View>(ss: Vec<Statement<M>>) -> Seq<StatementView<M::V>>
    decreases ss,
{
    Seq::new(
        ss@.len(),
        |i: int|
            if 0 <= i < ss@.len() {
                statement_view(ss@[i])
            } else {
                arbitrary()
            },
    )
}

impl<M: View> View for Statement<M> {
    type V = StatementView<M::V>;

    open spec fn view(&self) -> StatementView<M::V> {
        statement_view(*self)
    }
}

impl<C> StatementView<C> {
    /// The annotation of the statement.
    pub open spec fn context(self) -> C {
        match self {
            StatementView::Bind { metadata, .. } => metadata,
            StatementView::Mutate { metadata, .. } => metadata,
            StatementView::Return { metadata, .. } => metadata,
            StatementView::YieldReturn { metadata, .. } => metadata,
            StatementView::Expression(e) => e.context(),
        }
    }
}

impl<M> Statement<M> {
    /// The annotation of the statement.
    pub open spec fn spec_metadata(self) -> M {
        match self {
            Statement::Bind(b) => b.metadata,
            Statement::Mutate(m) => m.metadata,
            Statement::Return(r) => r.metadata,
            Statement::YieldReturn(r) => r.metadata,
            Statement::Expression(e) => e.spec_context(),
        }
    }

    /// The annotation of the statement.
    pub fn get_metadata(&self) -> (r: &M)
        ensures
            *r == self.spec_metadata(),
    {
        match self {
            Statement::Bind(b) => &b.metadata,
            Statement::Mutate(m) => &m.metadata,
            Statement::Return(r) => &r.metadata,
            Statement::YieldReturn(r) => &r.metadata,
            Statement::Expression(e) => e.get_context(),
        }
    }
}

/// Copies a statement with everything below it.
pub fn clone_statement<M: Copy + View>(s: &Statement<M>) -> (r: Statement<M>)
    ensures
        r@ == s@,
    decreases s,
{
    match s {
        Statement::Bind(b) => Statement::Bind(
            Box::new(
                Bind {
                    metadata: b.metadata,
                    id: b.id,
                    ty: b.ty.clone(),
                    mutable: b.mutable,
                    rhs: clone_expression(&b.rhs),
                },
            ),
        ),
        Statement::Mutate(m) => Statement::Mutate(
            Box::new(Mutate { metadata: m.metadata, id: m.id, rhs: clone_expression(&m.rhs) }),
        ),
        Statement::Return(r) => Statement::Return(
            Box::new(
                Return {
                    metadata: r.metadata,
                    value: match &r.value {
                        Some(e) => Some(clone_expression(e)),
                        None => None,
                    },
                },
            ),
        ),
        Statement::YieldReturn(r) => Statement::YieldReturn(
            Box::new(
                YieldReturn {
                    metadata: r.metadata,
                    value: match &r.value {
                        Some(e) => Some(clone_expression(e)),
                        None => None,
                    },
                },
            ),
        ),
        Statement::Expression(e) => Statement::Expression(Box::new(clone_expression(e))),
    }
}

/// Copies a list of statements.
pub fn clone_statements<M: Copy + View>(ss: &Vec<Statement<M>>) -> (r: Vec<Statement<M>>)
    ensures
        statements_view(r) == statements_view(*ss),
    decreases ss,
{
    let mut out: Vec<Statement<M>> = Vec::new();
    let mut i: usize = 0;
    while i < ss.len()
        invariant
            0 <= i <= ss.len(),
            out.len() == i,
            forall|j: int| 0 <= j < i ==> out@[j]@ == ss@[j]@,
        decreases ss.len() - i,
    {
        let s = clone_statement(&ss[i]);
        out.push(s);
        i += 1;
    }
    assert(statements_view(out) =~= statements_view(*ss));
    out
}

impl<M: Copy + View> Clone for Statement<M> {
    fn clone(&self) -> (r: Statement<M>)
        ensures
            r@ == self@,
    {
        clone_statement(self)
    }
}

impl<M> Node<M> for Statement<M> {
    open spec fn spec_node_type(&self) -> NodeType {
        NodeType::Statement
    }

    open spec fn spec_annotation(&self) -> M {
        self.spec_metadata()
    }

    open spec fn spec_with_annotation(&self, with: M) -> Statement<M> {
        match self {
            Statement::Bind(b) => Statement::Bind(Box::new(Bind { metadata: with, ..**b })),
            Statement::Mutate(m) => Statement::Mutate(Box::new(Mutate { metadata: with, ..**m })),
            Statement::Return(r) => Statement::Return(Box::new(Return { metadata: with, ..**r })),
            Statement::YieldReturn(r) => Statement::YieldReturn(
                Box::new(YieldReturn { metadata: with, ..**r }),
            ),
            Statement::Expression(e) => Statement::Expression(Box::new(e.spec_with_context(with))),
        }
    }

    open spec fn spec_name(&self) -> Option<StringId> {
        None
    }

    fn node_type(&self) -> (r: NodeType) {
        NodeType::Statement
    }

    fn annotation(&self) -> (r: &M) {
        self.get_metadata()
    }

    fn annotation_mut(&mut self) -> (r: &mut M) {
        match self {
            Statement::Bind(b) => &mut b.metadata,
            Statement::Mutate(m) => &mut m.metadata,
            Statement::Return(r) => &mut r.metadata,
            Statement::YieldReturn(r) => &mut r.metadata,
            Statement::Expression(e) => e.get_context_mut(),
        }
    }

    fn name(&self) -> (r: Option<StringId>) {
        None
    }
}

impl<M> Bind<M> {
    pub fn new(metadata: M, id: StringId, ty: Type, mutable: bool, rhs: Expression<M>) -> (r: Bind<
        M,
    >)
        ensures
            r == (Bind { metadata, id, ty, mutable, rhs }),
    {
        Bind { metadata, id, ty, mutable, rhs }
    }

    pub fn get_id(&self) -> (r: StringId)
        ensures
            r == self.id,
    {
        self.id
    }

    pub fn get_metadata(&self) -> (r: &M)
        ensures
            *r == self.metadata,
    {
        &self.metadata
    }

    pub fn get_metadata_mut(&mut self) -> (r: &mut M)
        ensures
            *r == old(self).metadata,
            *final(self) == (Bind { metadata: *final(r), ..*old(self) }),
    {
        &mut self.metadata
    }

    pub fn is_mutable(&self) -> (r: bool)
        ensures
            r == self.mutable,
    {
        self.mutable
    }

    pub fn get_rhs(&self) -> (r: &Expression<M>)
        ensures
            *r == self.rhs,
    {
        &self.rhs
    }

    pub fn get_type(&self) -> (r: &Type)
        ensures
            *r == self.ty,
    {
        &self.ty
    }
}

impl<M> Mutate<M> {
    pub fn new(metadata: M, id: StringId, rhs: Expression<M>) -> (r: Mutate<M>)
        ensures
            r == (Mutate { metadata, id, rhs }),
    {
        Mutate { metadata, id, rhs }
    }

    pub fn get_id(&self) -> (r: StringId)
        ensures
            r == self.id,
    {
        self.id
    }

    pub fn get_metadata(&self) -> (r: &M)
        ensures
            *r == self.metadata,
    {
        &self.metadata
    }

    pub fn get_rhs(&self) -> (r: &Expression<M>)
        ensures
            *r == self.rhs,
    {
        &self.rhs
    }
}

impl<M> Return<M> {
    pub fn new(metadata: M, value: Option<Expression<M>>) -> (r: Return<M>)
        ensures
            r == (Return { metadata, value }),
    {
        Return { metadata, value }
    }

    pub fn get_metadata(&self) -> (r: &M)
        ensures
            *r == self.metadata,
    {
        &self.metadata
    }

    pub fn get_value(&self) -> (r: &Option<Expression<M>>)
        ensures
            *r == self.value,
    {
        &self.value
    }
}

impl<M> YieldReturn<M> {
    pub fn new(metadata: M, value: Option<Expression<M>>) -> (r: YieldReturn<M>)
        ensures
            r == (YieldReturn { metadata, value }),
    {
        YieldReturn { metadata, value }
    }

    pub fn get_metadata(&self) -> (r: &M)
        ensures
            *r == self.metadata,
    {
        &self.metadata
    }

    pub fn get_value(&self) -> (r: &Option<Expression<M>>)
        ensures
            *r == self.value,
    {
        &self.value
    }
}

} // verus!
