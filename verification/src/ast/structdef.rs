//! Definitions of structures.
use crate::ast::node::{Node, NodeType};
use crate::ast::parameter::{parameters_view, Parameter, ParameterView};
use crate::stringtable::StringId;
use vstd::prelude::*;

verus! {

#[derive(Debug, PartialEq)]
pub struct StructDef<M> {
    pub annotations: M,
    pub name: StringId,
    pub fields: Vec<Parameter<M>>,
}

pub ghost struct StructDefView<C> {
    pub annotations: C,
    pub name: StringId,
    pub fields: Seq<ParameterView<C>>,
}

impl<M: View> View for StructDef<M> {
    type V = StructDefView<M::V>;

    open spec fn view(&self) -> StructDefView<M::V> {
        StructDefView {
            annotations: self.annotations@,
            name: self.name,
            fields: parameters_view(self.fields),
        }
    }
}

impl<M> Node<M> for StructDef<M> {
    open spec fn spec_node_type(&self) -> NodeType {
        NodeType::StructDef
    }

    open spec fn spec_annotation(&self) -> M {
        self.annotations
    }

    open spec fn spec_with_annotation(&self, with: M) -> StructDef<M> {
        StructDef { annotations: with, ..*self }
    }

    open spec fn spec_name(&self) -> Option<StringId> {
        Some(self.name)
    }

    fn node_type(&self) -> (r: NodeType) {
        NodeType::StructDef
    }

    fn annotation(&self) -> (r: &M) {
        &self.annotations
    }

    fn annotation_mut(&mut self) -> (r: &mut M) {
        &mut self.annotations
    }

    fn name(&self) -> (r: Option<StringId>) {
        Some(self.name)
    }
}

impl<M> StructDef<M> {
    pub fn new(name: StringId, annotations: M, fields: Vec<Parameter<M>>) -> (r: StructDef<M>)
        ensures
            r == (StructDef { annotations, name, fields }),
    {
        StructDef { annotations, name, fields }
    }

    pub fn get_name(&self) -> (r: StringId)
        ensures
            r == self.name,
    {
        self.name
    }

    pub fn get_fields(&self) -> (r: &Vec<Parameter<M>>)
        ensures
            *r == self.fields,
    {
        &self.fields
    }
}

} // verus!
