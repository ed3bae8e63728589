//! A named and typed slot: a parameter of a routine or a field of a
//! structure.
use crate::ast::node::{Node, NodeType};
use crate::ast::ty::{Type, TypeView};
use crate::stringtable::StringId;
use vstd::prelude::*;

verus! {

#[derive(Debug, PartialEq)]
pub struct Parameter<M> {
    pub annotation: M,
    pub name: StringId,
    pub ty: Type,
}

pub ghost struct ParameterView<C> {
    pub annotation: C,
    pub name: StringId,
    pub ty: TypeView,
}

impl<M: View> View for Parameter<M> {
    type V = ParameterView<M::V>;

    open spec fn view(&self) -> ParameterView<M::V> {
        ParameterView { annotation: self.annotation@, name: self.name, ty: self.ty@ }
    }
}

/// The views of a list of parameters, in order.
pub open spec fn parameters_view<M: View>(ps: Vec<Parameter<M>>) -> Seq<ParameterView<M::V>> {
    Seq::new(ps@.len(), |i: int| ps@[i]@)
}

/// The types of a list of parameters, in order.
pub open spec fn parameter_types<C>(ps: Seq<ParameterView<C>>) -> Seq<TypeView> {
    Seq::new(ps.len(), |i: int| ps[i].ty)
}

/// The names and types of a list of parameters, in order.
pub open spec fn parameter_fields<C>(ps: Seq<ParameterView<C>>) -> Seq<(StringId, TypeView)> {
    Seq::new(ps.len(), |i: int| (ps[i].name, ps[i].ty))
}

impl<M: Copy> Clone for Parameter<M> {
    fn clone(&self) -> (r: Parameter<M>)
        ensures
            r.annotation == self.annotation,
            r.name == self.name,
            r.ty@ == self.ty@,
    {
        Parameter { annotation: self.annotation, name: self.name, ty: self.ty.clone() }
    }
}

impl<M> Node<M> for Parameter<M> {
    open spec fn spec_node_type(&self) -> NodeType {
        NodeType::Parameter
    }

    open spec fn spec_annotation(&self) -> M {
        self.annotation
    }

    open spec fn spec_with_annotation(&self, with: M) -> Parameter<M> {
        Parameter { annotation: with, ..*self }
    }

    open spec fn spec_name(&self) -> Option<StringId> {
        Some(self.name)
    }

    fn node_type(&self) -> (r: NodeType) {
        NodeType::Parameter
    }

    fn annotation(&self) -> (r: &M) {
        &self.annotation
    }

    fn annotation_mut(&mut self) -> (r: &mut M) {
        &mut self.annotation
    }

    fn name(&self) -> (r: Option<StringId>) {
        Some(self.name)
    }
}

impl<M> Parameter<M> {
    pub fn new(a: M, name: StringId, ty: &Type) -> (r: Parameter<M>)
        ensures
            r.annotation == a,
            r.name == name,
            r.ty@ == ty@,
    {
        Parameter { annotation: a, name, ty: ty.clone() }
    }

    pub fn get_annotations(&self) -> (r: &M)
        ensures
            *r == self.annotation,
    {
        &self.annotation
    }

    pub fn get_annotations_mut(&mut self) -> (r: &mut M)
        ensures
            *r == old(self).annotation,
            *final(self) == (Parameter { annotation: *final(r), ..*old(self) }),
    {
        &mut self.annotation
    }

    /// The same slot, annotated with `annotation` in place of its own
    /// annotation.
    pub fn map_annotation<N>(&self, annotation: N) -> (r: Parameter<N>)
        ensures
            r.annotation == annotation,
            r.name == self.name,
            r.ty@ == self.ty@,
    {
        Parameter { annotation, name: self.name, ty: self.ty.clone() }
    }
}

} // verus!
