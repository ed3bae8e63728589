//! The nodes directly below a node of a syntax tree, from left to right.
use crate::ast::expression::{
    expression_view, expressions_view, named_expressions_view, Expression, ExpressionView,
};
use crate::ast::external::Extern;
use crate::ast::module::{items_view, module_view, modules_view, Item, ItemView, Module, ModuleView};
use crate::ast::parameter::{parameters_view, Parameter, ParameterView};
use crate::ast::routinedef::RoutineDef;
use crate::ast::statement::{statement_view, statements_view, Statement, StatementView};
use crate::ast::structdef::StructDef;
use crate::stringtable::StringId;
use vstd::prelude::*;

verus! {

/// A node of a syntax tree, of whatever kind.
pub enum NodeRef<'a, M> {
    Module(&'a Module<M>),
    Item(&'a Item<M>),
    Parameter(&'a Parameter<M>),
    Statement(&'a Statement<M>),
    Expression(&'a Expression<M>),
}

/// A [`NodeRef`] as a mathematical value.
pub ghost enum NodeView<C> {
    Module(ModuleView<C>),
    Item(ItemView<C>),
    Parameter(ParameterView<C>),
    Statement(StatementView<C>),
    Expression(ExpressionView<C>),
}

impl<'a, M: View> View for NodeRef<'a, M> {
    type V = NodeView<M::V>;

    open spec fn view(&self) -> NodeView<M::V> {
        match self {
            NodeRef::Module(m) => NodeView::Module(module_view(**m)),
            NodeRef::Item(i) => NodeView::Item(i@),
            NodeRef::Parameter(p) => NodeView::Parameter(p@),
            NodeRef::Statement(s) => NodeView::Statement(statement_view(**s)),
            NodeRef::Expression(e) => NodeView::Expression(expression_view(**e)),
        }
    }
}

/// The views of a list of nodes, in order.
pub open spec fn nodes_view<'a, M: View>(nodes: Vec<NodeRef<'a, M>>) -> Seq<NodeView<M::V>> {
    Seq::new(nodes@.len(), |i: int| nodes@[i]@)
}

pub open spec fn of_modules<C>(ms: Seq<ModuleView<C>>) -> Seq<NodeView<C>> {
    Seq::new(ms.len(), |i: int| NodeView::Module(ms[i]))
}

pub open spec fn of_items<C>(items: Seq<ItemView<C>>) -> Seq<NodeView<C>> {
    Seq::new(items.len(), |i: int| NodeView::Item(items[i]))
}

pub open spec fn of_parameters<C>(ps: Seq<ParameterView<C>>) -> Seq<NodeView<C>> {
    Seq::new(ps.len(), |i: int| NodeView::Parameter(ps[i]))
}

pub open spec fn of_statements<C>(ss: Seq<StatementView<C>>) -> Seq<NodeView<C>> {
    Seq::new(ss.len(), |i: int| NodeView::Statement(ss[i]))
}

pub open spec fn of_expressions<C>(es: Seq<ExpressionView<C>>) -> Seq<NodeView<C>> {
    Seq::new(es.len(), |i: int| NodeView::Expression(es[i]))
}

pub open spec fn of_fields<C>(fields: Seq<(StringId, ExpressionView<C>)>) -> Seq<NodeView<C>> {
    Seq::new(fields.len(), |i: int| NodeView::Expression(fields[i].1))
}

pub open spec fn of_optional<C>(e: Option<Box<ExpressionView<C>>>) -> Seq<NodeView<C>> {
    match e {
        Some(e) => seq![NodeView::Expression(*e)],
        None => Seq::empty(),
    }
}

/// The expressions and statements that an expression is made of.
pub open spec fn expression_children<C>(e: ExpressionView<C>) -> Seq<NodeView<C>> {
    match e {
        ExpressionView::ArrayExpression(_, elements, _) => of_expressions(elements),
        ExpressionView::ArrayAt { array, index, .. } => seq![
            NodeView::Expression(*array),
            NodeView::Expression(*index),
        ],
        ExpressionView::MemberAccess(_, src, _) => seq![NodeView::Expression(*src)],
        ExpressionView::RoutineCall(_, _, _, params) => of_expressions(params),
        ExpressionView::StructExpression(_, _, fields) => of_fields(fields),
        ExpressionView::If { cond, if_arm, else_arm, .. } => seq![
            NodeView::Expression(*cond),
            NodeView::Expression(*if_arm),
        ] + of_optional(else_arm),
        ExpressionView::While { cond, body, .. } => seq![
            NodeView::Expression(*cond),
            NodeView::Expression(*body),
        ],
        ExpressionView::ExpressionBlock(_, body, last) => of_statements(body) + of_optional(last),
        ExpressionView::BinaryOp(_, _, l, r) => seq![
            NodeView::Expression(*l),
            NodeView::Expression(*r),
        ],
        ExpressionView::UnaryOp(_, _, operand) => seq![NodeView::Expression(*operand)],
        ExpressionView::Yield(_, e) => seq![NodeView::Expression(*e)],
        _ => Seq::empty(),
    }
}

/// The expression that a statement is made of, if it has one.
pub open spec fn statement_children<C>(s: StatementView<C>) -> Seq<NodeView<C>> {
    match s {
        StatementView::Bind { rhs, .. } => seq![NodeView::Expression(rhs)],
        StatementView::Mutate { rhs, .. } => seq![NodeView::Expression(rhs)],
        StatementView::Return { value, .. } | StatementView::YieldReturn { value,
            .. } => match value {
            Some(e) => seq![NodeView::Expression(e)],
            None => Seq::empty(),
        },
        StatementView::Expression(e) => seq![NodeView::Expression(e)],
    }
}

/// The parameters and the statements of a routine, the fields of a
/// structure, or the parameters of an external declaration.
pub open spec fn item_children<C>(i: ItemView<C>) -> Seq<NodeView<C>> {
    match i {
        ItemView::Routine(r) => of_parameters(r.params) + of_statements(r.body),
        ItemView::Struct(s) => of_parameters(s.fields),
        ItemView::Extern(e) => of_parameters(e.params),
    }
}

/// The modules, functions, coroutines, structures and external
/// declarations of a module, in this order.
pub open spec fn module_children<C>(m: ModuleView<C>) -> Seq<NodeView<C>> {
    of_modules(m.modules) + of_items(m.functions) + of_items(m.coroutines) + of_items(m.structs)
        + of_items(m.externs)
}

/// The nodes directly below a node.
pub open spec fn children_of<C>(n: NodeView<C>) -> Seq<NodeView<C>> {
    match n {
        NodeView::Module(m) => module_children(m),
        NodeView::Item(i) => item_children(i),
        NodeView::Parameter(_) => Seq::empty(),
        NodeView::Statement(s) => statement_children(s),
        NodeView::Expression(e) => expression_children(e),
    }
}

fn push_expressions<'a, M: View>(out: &mut Vec<NodeRef<'a, M>>, es: &'a Vec<Expression<M>>)
    ensures
        nodes_view(*final(out)) == nodes_view(*old(out)) + of_expressions(expressions_view(*es)),
{
    let mut i: usize = 0;
    while i < es.len()
        invariant
            i <= es@.len(),
            nodes_view(*out) == nodes_view(*old(out)) + of_expressions(expressions_view(*es)).take(
                i as int,
            ),
        decreases es@.len() - i,
    {
        let ghost before = nodes_view(*out);
        out.push(NodeRef::Expression(&es[i]));
        assert(nodes_view(*out) =~= before.push(NodeView::Expression(expression_view(es@[i as int]))));
        assert(of_expressions(expressions_view(*es)).take(i + 1) =~= of_expressions(
            expressions_view(*es),
        ).take(i as int).push(NodeView::Expression(expression_view(es@[i as int]))));
        i += 1;
    }
    assert(of_expressions(expressions_view(*es)).take(es@.len() as int) =~= of_expressions(
        expressions_view(*es),
    ));
}

fn push_fields<'a, M: View>(
    out: &mut Vec<NodeRef<'a, M>>,
    fields: &'a Vec<(StringId, Expression<M>)>,
)
    ensures
        nodes_view(*final(out)) == nodes_view(*old(out)) + of_fields(
            named_expressions_view(*fields),
        ),
{
    let mut i: usize = 0;
    while i < fields.len()
        invariant
            i <= fields@.len(),
            nodes_view(*out) == nodes_view(*old(out)) + of_fields(
                named_expressions_view(*fields),
            ).take(i as int),
        decreases fields@.len() - i,
    {
        let ghost before = nodes_view(*out);
        out.push(NodeRef::Expression(&fields[i].1));
        assert(nodes_view(*out) =~= before.push(
            NodeView::Expression(expression_view(fields@[i as int].1)),
        ));
        assert(of_fields(named_expressions_view(*fields)).take(i + 1) =~= of_fields(
            named_expressions_view(*fields),
        ).take(i as int).push(NodeView::Expression(expression_view(fields@[i as int].1))));
        i += 1;
    }
    assert(of_fields(named_expressions_view(*fields)).take(fields@.len() as int) =~= of_fields(
        named_expressions_view(*fields),
    ));
}

fn push_statements<'a, M: View>(out: &mut Vec<NodeRef<'a, M>>, ss: &'a Vec<Statement<M>>)
    ensures
        nodes_view(*final(out)) == nodes_view(*old(out)) + of_statements(statements_view(*ss)),
{
    let mut i: usize = 0;
    while i < ss.len()
        invariant
            i <= ss@.len(),
            nodes_view(*out) == nodes_view(*old(out)) + of_statements(statements_view(*ss)).take(
                i as int,
            ),
        decreases ss@.len() - i,
    {
        let ghost before = nodes_view(*out);
        out.push(NodeRef::Statement(&ss[i]));
        assert(nodes_view(*out) =~= before.push(NodeView::Statement(statement_view(ss@[i as int]))));
        assert(of_statements(statements_view(*ss)).take(i + 1) =~= of_statements(
            statements_view(*ss),
        ).take(i as int).push(NodeView::Statement(statement_view(ss@[i as int]))));
        i += 1;
    }
    assert(of_statements(statements_view(*ss)).take(ss@.len() as int) =~= of_statements(
        statements_view(*ss),
    ));
}

fn push_parameters<'a, M: View>(out: &mut Vec<NodeRef<'a, M>>, ps: &'a Vec<Parameter<M>>)
    ensures
        nodes_view(*final(out)) == nodes_view(*old(out)) + of_parameters(parameters_view(*ps)),
{
    let mut i: usize = 0;
    while i < ps.len()
        invariant
            i <= ps@.len(),
            nodes_view(*out) == nodes_view(*old(out)) + of_parameters(parameters_view(*ps)).take(
                i as int,
            ),
        decreases ps@.len() - i,
    {
        let ghost before = nodes_view(*out);
        out.push(NodeRef::Parameter(&ps[i]));
        assert(nodes_view(*out) =~= before.push(NodeView::Parameter(ps@[i as int]@)));
        assert(of_parameters(parameters_view(*ps)).take(i + 1) =~= of_parameters(
            parameters_view(*ps),
        ).take(i as int).push(NodeView::Parameter(ps@[i as int]@)));
        i += 1;
    }
    assert(of_parameters(parameters_view(*ps)).take(ps@.len() as int) =~= of_parameters(
        parameters_view(*ps),
    ));
}

fn push_items<'a, M: View>(out: &mut Vec<NodeRef<'a, M>>, items: &'a Vec<Item<M>>)
    ensures
        nodes_view(*final(out)) == nodes_view(*old(out)) + of_items(items_view(*items)),
{
    let mut i: usize = 0;
    while i < items.len()
        invariant
            i <= items@.len(),
            nodes_view(*out) == nodes_view(*old(out)) + of_items(items_view(*items)).take(i as int),
        decreases items@.len() - i,
    {
        let ghost before = nodes_view(*out);
        out.push(NodeRef::Item(&items[i]));
        assert(nodes_view(*out) =~= before.push(NodeView::Item(items@[i as int]@)));
        assert(of_items(items_view(*items)).take(i + 1) =~= of_items(items_view(*items)).take(
            i as int,
        ).push(NodeView::Item(items@[i as int]@)));
        i += 1;
    }
    assert(of_items(items_view(*items)).take(items@.len() as int) =~= of_items(
        items_view(*items),
    ));
}

fn push_modules<'a, M: View>(out: &mut Vec<NodeRef<'a, M>>, ms: &'a Vec<Module<M>>)
    ensures
        nodes_view(*final(out)) == nodes_view(*old(out)) + of_modules(modules_view(*ms)),
{
    let mut i: usize = 0;
    while i < ms.len()
        invariant
            i <= ms@.len(),
            nodes_view(*out)
            == nodes_view(*old(out)) + of_modules(modules_view(*ms)).take(i as int),
        decreases ms@.len() - i,
    {
        let ghost before = nodes_view(*out);
        out.push(NodeRef::Module(&ms[i]));
        assert(nodes_view(*out) =~= before.push(NodeView::Module(module_view(ms@[i as int]))));
        assert(of_modules(modules_view(*ms)).take(i + 1) =~= of_modules(modules_view(*ms)).take(
            i as int,
        ).push(NodeView::Module(module_view(ms@[i as int]))));
        i += 1;
    }
    assert(of_modules(modules_view(*ms)).take(ms@.len() as int) =~= of_modules(modules_view(*ms)));
}

fn push_optional<'a, M: View>(out: &mut Vec<NodeRef<'a, M>>, e: &'a Option<Box<Expression<M>>>)
    ensures
        nodes_view(*final(out)) == nodes_view(*old(out)) + of_optional(
            match *e {
                Some(e) => Some(Box::new(expression_view(*e))),
                None => None,
            },
        ),
{
    let ghost before = nodes_view(*out);
    match e {
        Some(e) => {
            out.push(NodeRef::Expression(&**e));
            assert(nodes_view(*out) =~= before + seq![NodeView::Expression(expression_view(**e))]);
        },
        None => {
            assert(nodes_view(*out) =~= before + Seq::<NodeView<M::V>>::empty());
        },
    }
}

/// A list of one expression.
fn one<'a, M: View>(e: &'a Expression<M>) -> (r: Vec<NodeRef<'a, M>>)
    ensures
        nodes_view(r) == seq![NodeView::Expression(expression_view(*e))],
{
    let mut out = Vec::new();
    out.push(NodeRef::Expression(e));
    assert(nodes_view(out) =~= seq![NodeView::Expression(expression_view(*e))]);
    out
}

/// A list of two expressions.
fn two<'a, M: View>(a: &'a Expression<M>, b: &'a Expression<M>) -> (r: Vec<NodeRef<'a, M>>)
    ensures
        nodes_view(r) == seq![
            NodeView::Expression(expression_view(*a)),
            NodeView::Expression(expression_view(*b)),
        ],
{
    let mut out = Vec::new();
    out.push(NodeRef::Expression(a));
    out.push(NodeRef::Expression(b));
    assert(nodes_view(out) =~= seq![
        NodeView::Expression(expression_view(*a)),
        NodeView::Expression(expression_view(*b)),
    ]);
    out
}

/// A list of no nodes.
fn none<'a, M: View>() -> (r: Vec<NodeRef<'a, M>>)
    ensures
        nodes_view(r) == Seq::<NodeView<M::V>>::empty(),
{
    let out = Vec::new();
    assert(nodes_view(out) =~= Seq::<NodeView<M::V>>::empty());
    out
}

impl<M: View> Expression<M> {
    /// The expressions and statements that the expression is made of, from
    /// left to right.
    pub fn children(&self) -> (r: Vec<NodeRef<'_, M>>)
        ensures
            nodes_view(r) == expression_children(self@),
    {
        match self {
            Expression::ArrayExpression(_, elements, _) => {
                let mut out = none();
                push_expressions(&mut out, elements);
                out
            },
            Expression::ArrayAt { array, index, .. } => two(&**array, &**index),
            Expression::MemberAccess(_, src, _) => one(&**src),
            Expression::RoutineCall(_, _, _, params) => {
                let mut out = none();
                push_expressions(&mut out, params);
                out
            },
            Expression::StructExpression(_, _, fields) => {
                let mut out = none();
                push_fields(&mut out, fields);
                out
            },
            Expression::If { cond, if_arm, else_arm, .. } => {
                let mut out = two(&**cond, &**if_arm);
                push_optional(&mut out, else_arm);
                out
            },
            Expression::While { cond, body, .. } => two(&**cond, &**body),
            Expression::ExpressionBlock(_, body, last) => {
                let mut out = none();
                push_statements(&mut out, body);
                push_optional(&mut out, last);
                out
            },
            Expression::BinaryOp(_, _, l, r) => two(&**l, &**r),
            Expression::UnaryOp(_, _, operand) => one(&**operand),
            Expression::Yield(_, e) => one(&**e),
            _ => none(),
        }
    }
}

impl<M: View> Statement<M> {
    /// The expression that the statement is made of, if it has one.
    pub fn children(&self) -> (r: Vec<NodeRef<'_, M>>)
        ensures
            nodes_view(r) == statement_children(self@),
    {
        match self {
            Statement::Bind(b) => one(&b.rhs),
            Statement::Mutate(m) => one(&m.rhs),
            Statement::Return(x) => match &x.value {
                Some(e) => one(e),
                None => none(),
            },
            Statement::YieldReturn(x) => match &x.value {
                Some(e) => one(e),
                None => none(),
            },
            Statement::Expression(e) => one(&**e),
        }
    }
}

impl<M: View> RoutineDef<M> {
    /// The parameters and the statements of the routine.
    pub fn children(&self) -> (r: Vec<NodeRef<'_, M>>)
        ensures
            nodes_view(r) == of_parameters(self@.params) + of_statements(self@.body),
    {
        let mut out = none();
        push_parameters(&mut out, &self.params);
        push_statements(&mut out, &self.body);
        out
    }
}

impl<M: View> StructDef<M> {
    /// The fields of the structure.
    pub fn children(&self) -> (r: Vec<NodeRef<'_, M>>)
        ensures
            nodes_view(r) == of_parameters(self@.fields),
    {
        let mut out = none();
        push_parameters(&mut out, &self.fields);
        out
    }
}

impl<M: View> Extern<M> {
    /// The parameters of the external declaration.
    pub fn children(&self) -> (r: Vec<NodeRef<'_, M>>)
        ensures
            nodes_view(r) == of_parameters(self@.params),
    {
        let mut out = none();
        push_parameters(&mut out, &self.params);
        out
    }
}

impl<M: View> Item<M> {
    /// The nodes that the item is made of.
    pub fn children(&self) -> (r: Vec<NodeRef<'_, M>>)
        ensures
            nodes_view(r) == item_children(self@),
    {
        match self {
            Item::Routine(r) => r.children(),
            Item::Struct(s) => s.children(),
            Item::Extern(e) => e.children(),
        }
    }
}

impl<M: View> Module<M> {
    /// The modules and the items of the module.
    pub fn children(&self) -> (r: Vec<NodeRef<'_, M>>)
        ensures
            nodes_view(r) == module_children(self@),
    {
        let mut out = none();
        push_modules(&mut out, &self.modules);
        push_items(&mut out, &self.functions);
        push_items(&mut out, &self.coroutines);
        push_items(&mut out, &self.structs);
        push_items(&mut out, &self.externs);
        out
    }
}

impl<'a, M: View> NodeRef<'a, M> {
    /// The nodes directly below the node.
    pub fn children(&self) -> (r: Vec<NodeRef<'a, M>>)
        ensures
            nodes_view(r) == children_of(self@),
    {
        match self {
            NodeRef::Module(m) => m.children(),
            NodeRef::Item(i) => i.children(),
            NodeRef::Parameter(_) => none(),
            NodeRef::Statement(s) => s.children(),
            NodeRef::Expression(e) => e.children(),
        }
    }
}

} // verus!
