//! What all nodes of the syntax tree have in common.
use crate::stringtable::StringId;
use vstd::prelude::*;

verus! {

/// The syntactic category of a node.
#[derive(Clone, Copy, Debug, PartialEq, Eq, Structural)]
pub enum NodeType {
    Module,
    FnDef,
    CoroutineDef,
    StructDef,
    ExternDef,
    Parameter,
    Expression,
    Statement,
    RoutineCall,
    BinOp,
}

/// A node of the syntax tree, annotated with a value of type `M`.
pub trait Node<M>: Sized {
    spec fn spec_node_type(&self) -> NodeType;

    spec fn spec_annotation(&self) -> M;

    /// The node with the annotation `with` in place of its own.
    spec fn spec_with_annotation(&self, with: M) -> Self;

    spec fn spec_name(&self) -> Option<StringId>;

    /// The syntactic category of the node.
    fn node_type(&self) -> (r: NodeType)
        ensures
            r == self.spec_node_type(),
    ;

    /// The annotation of the node.
    fn annotation(&self) -> (r: &M)
        ensures
            *r == self.spec_annotation(),
    ;

    /// The annotation of the node, to be changed in place.
    fn annotation_mut(&mut self) -> (r: &mut M)
        ensures
            *r == old(self).spec_annotation(),
            *final(self) == old(self).spec_with_annotation(*final(r)),
    ;

    /// The name of the node, for the nodes that declare one.
    fn name(&self) -> (r: Option<StringId>)
        ensures
            r == self.spec_name(),
    ;
}

} // verus!
