//! Declarations of functions that are defined outside the project and
//! linked in by name.
use crate::ast::node::{Node, NodeType};
use crate::ast::parameter::{parameters_view, Parameter, ParameterView};
use crate::ast::ty::{HasVarArgs, Type, TypeView};
use crate::stringtable::StringId;
use vstd::prelude::*;

verus! {

#[derive(Debug, PartialEq)]
pub struct Extern<M> {
    pub annotations: M,
    pub name: StringId,
    pub params: Vec<Parameter<M>>,
    pub has_varargs: HasVarArgs,
    pub ty: Type,
}

pub ghost struct ExternView<C> {
    pub annotations: C,
    pub name: StringId,
    pub params: Seq<ParameterView<C>>,
    pub has_varargs: bool,
    pub ty: TypeView,
}

impl<M: View> View for Extern<M> {
    type V = ExternView<M::V>;

    open spec fn view(&self) -> ExternView<M::V> {
        ExternView {
            annotations: self.annotations@,
            name: self.name,
            params: parameters_view(self.params),
            has_varargs: self.has_varargs,
            ty: self.ty@,
        }
    }
}

impl<M> Node<M> for Extern<M> {
    open spec fn spec_node_type(&self) -> NodeType {
        NodeType::ExternDef
    }

    open spec fn spec_annotation(&self) -> M {
        self.annotations
    }

    open spec fn spec_with_annotation(&self, with: M) -> Extern<M> {
        Extern { annotations: with, ..*self }
    }

    open spec fn spec_name(&self) -> Option<StringId> {
        Some(self.name)
    }

    fn node_type(&self) -> (r: NodeType) {
        NodeType::ExternDef
    }

    fn annotation(&self) -> (r: &M) {
        &self.annotations
    }

    fn annotation_mut(&mut self) -> (r: &mut M) {
        &mut self.annotations
    }

    fn name(&self) -> (r: Option<StringId>) {
        Some(self.name)
    }
}

impl<M> Extern<M> {
    pub fn new(
        name: StringId,
        annotations: M,
        params: Vec<Parameter<M>>,
        has_varargs: HasVarArgs,
        ty: Type,
    ) -> (r: Extern<M>)
        ensures
            r == (Extern { annotations, name, params, has_varargs, ty }),
    {
        Extern { annotations, name, params, has_varargs, ty }
    }

    pub fn get_name(&self) -> (r: StringId)
        ensures
            r == self.name,
    {
        self.name
    }

    pub fn get_params(&self) -> (r: &Vec<Parameter<M>>)
        ensures
            *r == self.params,
    {
        &self.params
    }

    pub fn get_return_type(&self) -> (r: &Type)
        ensures
            *r == self.ty,
    {
        &self.ty
    }
}

} // verus!
