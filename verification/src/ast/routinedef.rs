//! Definitions of functions and coroutines.
use crate::ast::node::{Node, NodeType};
use crate::ast::parameter::{parameters_view, Parameter, ParameterView};
use crate::ast::statement::{statements_view, Statement, StatementView};
use crate::ast::ty::{Type, TypeView};
use crate::stringtable::StringId;
use vstd::prelude::*;

verus! {

#[derive(Clone, Copy, Debug, PartialEq, Eq, Structural)]
pub enum RoutineDefType {
    Function,
    Coroutine,
}

#[derive(Debug, PartialEq)]
pub struct RoutineDef<M> {
    pub annotations: M,
    pub def: RoutineDefType,
    pub name: StringId,
    pub params: Vec<Parameter<M>>,
    pub ty: Type,
    pub body: Vec<Statement<M>>,
}

pub ghost struct RoutineDefView<C> {
    pub annotations: C,
    pub def: RoutineDefType,
    pub name: StringId,
    pub params: Seq<ParameterView<C>>,
    pub ty: TypeView,
    pub body: Seq<StatementView<C>>,
}

impl<M: View> View for RoutineDef<M> {
    type V = RoutineDefView<M::V>;

    open spec fn view(&self) -> RoutineDefView<M::V> {
        RoutineDefView {
            annotations: self.annotations@,
            def: self.def,
            name: self.name,
            params: parameters_view(self.params),
            ty: self.ty@,
            body: statements_view(self.body),
        }
    }
}

impl<M> Node<M> for RoutineDef<M> {
    open spec fn spec_node_type(&self) -> NodeType {
        match self.def {
            RoutineDefType::Function => NodeType::FnDef,
            RoutineDefType::Coroutine => NodeType::CoroutineDef,
        }
    }

    open spec fn spec_annotation(&self) -> M {
        self.annotations
    }

    open spec fn spec_with_annotation(&self, with: M) -> RoutineDef<M> {
        RoutineDef { annotations: with, ..*self }
    }

    open spec fn spec_name(&self) -> Option<StringId> {
        Some(self.name)
    }

    fn node_type(&self) -> (r: NodeType) {
        match self.def {
            RoutineDefType::Function => NodeType::FnDef,
            RoutineDefType::Coroutine => NodeType::CoroutineDef,
        }
    }

    fn annotation(&self) -> (r: &M) {
        &self.annotations
    }

    fn annotation_mut(&mut self) -> (r: &mut M) {
        &mut self.annotations
    }

    fn name(&self) -> (r: Option<StringId>) {
        Some(self.name)
    }
}

impl<M> RoutineDef<M> {
    pub fn new_function(
        name: StringId,
        annotations: M,
        params: Vec<Parameter<M>>,
        ty: Type,
        body: Vec<Statement<M>>,
    ) -> (r: RoutineDef<M>)
        ensures
            r == (RoutineDef {
                annotations,
                def: RoutineDefType::Function,
                name,
                params,
                ty,
                body,
            }),
    {
        RoutineDef { annotations, def: RoutineDefType::Function, name, params, ty, body }
    }

    pub fn new_coroutine(
        name: StringId,
        annotations: M,
        params: Vec<Parameter<M>>,
        ty: Type,
        body: Vec<Statement<M>>,
    ) -> (r: RoutineDef<M>)
        ensures
            r == (RoutineDef {
                annotations,
                def: RoutineDefType::Coroutine,
                name,
                params,
                ty,
                body,
            }),
    {
        RoutineDef { annotations, def: RoutineDefType::Coroutine, name, params, ty, body }
    }

    pub fn get_annotations(&self) -> (r: &M)
        ensures
            *r == self.annotations,
    {
        &self.annotations
    }

    pub fn get_annotations_mut(&mut self) -> (r: &mut M)
        ensures
            *r == old(self).annotations,
            *final(self) == (RoutineDef { annotations: *final(r), ..*old(self) }),
    {
        &mut self.annotations
    }

    pub fn get_body_mut(&mut self) -> (r: &mut Vec<Statement<M>>)
        ensures
            *r == old(self).body,
            *final(self) == (RoutineDef { body: *final(r), ..*old(self) }),
    {
        &mut self.body
    }

    pub fn get_name(&self) -> (r: StringId)
        ensures
            r == self.name,
    {
        self.name
    }

    pub fn get_params(&self) -> (r: &Vec<Parameter<M>>)
        ensures
            *r == self.params,
    {
        &self.params
    }

    pub fn set_params(&mut self, params: Vec<Parameter<M>>)
        ensures
            *final(self) == (RoutineDef {
                annotations: old(self).annotations,
                def: old(self).def,
                name: old(self).name,
                params,
                ty: old(self).ty,
                body: old(self).body,
            }),
    {
        self.params = params;
    }

    pub fn get_return_type(&self) -> (r: &Type)
        ensures
            *r == self.ty,
    {
        &self.ty
    }

    pub fn get_body(&self) -> (r: &Vec<Statement<M>>)
        ensures
            *r == self.body,
    {
        &self.body
    }

    pub fn get_def(&self) -> (r: &RoutineDefType)
        ensures
            *r == self.def,
    {
        &self.def
    }
}

} // verus!
