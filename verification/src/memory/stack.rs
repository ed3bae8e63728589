//! The scopes that the code generator is in while it walks the tree.
use crate::ast::expression::{BinaryOperator, RoutineCall, UnaryOperator};
use crate::ast::routinedef::RoutineDefType;
use crate::ast::ty::Type;
use crate::memory::scope::{Level, Scope, Symbol};
use crate::text::same_text;
use vstd::prelude::*;

verus! {

/// A node of a tree whose scopes have been laid out in memory.
#[derive(Debug, PartialEq)]
pub enum CompilerNode {
    Integer(Scope, i64),
    Boolean(Scope, bool),
    StringLiteral(Scope, String),
    Identifier(Scope, String),
    MemberAccess(Scope, Box<CompilerNode>, String),
    UnaryOp(Scope, UnaryOperator, Box<CompilerNode>),
    BinaryOp(Scope, BinaryOperator, Box<CompilerNode>, Box<CompilerNode>),
    If(Scope, Box<CompilerNode>, Box<CompilerNode>, Box<CompilerNode>),
    Mutate(Scope, String, Box<CompilerNode>),
    Bind(Scope, String, bool, Type, Box<CompilerNode>),
    Yield(Scope, Box<CompilerNode>),
    Return(Scope, Option<Box<CompilerNode>>),
    YieldReturn(Scope, Option<Box<CompilerNode>>),
    RoutineCall(Scope, RoutineCall, String, Vec<CompilerNode>),
    StructDef(Scope, String, Vec<(String, Type)>),
    StructExpression(Scope, String, Vec<(String, CompilerNode)>),
    ExpressionBlock(Scope, Vec<CompilerNode>),
    RoutineDef(Scope, RoutineDefType, String, Vec<(String, Type)>, Type, Vec<CompilerNode>),
    Module {
        meta: Scope,
        functions: Vec<CompilerNode>,
        coroutines: Vec<CompilerNode>,
        structs: Vec<CompilerNode>,
    },
}

impl CompilerNode {
    /// The scope of the node.
    pub open spec fn metadata(self) -> Scope {
        match self {
            CompilerNode::Integer(m, _) => m,
            CompilerNode::Boolean(m, _) => m,
            CompilerNode::StringLiteral(m, _) => m,
            CompilerNode::Identifier(m, _) => m,
            CompilerNode::MemberAccess(m, _, _) => m,
            CompilerNode::UnaryOp(m, _, _) => m,
            CompilerNode::BinaryOp(m, _, _, _) => m,
            CompilerNode::If(m, _, _, _) => m,
            CompilerNode::Mutate(m, _, _) => m,
            CompilerNode::Bind(m, _, _, _, _) => m,
            CompilerNode::Yield(m, _) => m,
            CompilerNode::Return(m, _) => m,
            CompilerNode::YieldReturn(m, _) => m,
            CompilerNode::RoutineCall(m, _, _, _) => m,
            CompilerNode::StructDef(m, _, _) => m,
            CompilerNode::StructExpression(m, _, _) => m,
            CompilerNode::ExpressionBlock(m, _) => m,
            CompilerNode::RoutineDef(m, _, _, _, _, _) => m,
            CompilerNode::Module { meta, .. } => meta,
        }
    }

    /// The scope of the node.
    pub fn get_metadata(&self) -> (r: &Scope)
        ensures
            *r == self.metadata(),
    {
        match self {
            CompilerNode::Integer(m, _) => m,
            CompilerNode::Boolean(m, _) => m,
            CompilerNode::StringLiteral(m, _) => m,
            CompilerNode::Identifier(m, _) => m,
            CompilerNode::MemberAccess(m, _, _) => m,
            CompilerNode::UnaryOp(m, _, _) => m,
            CompilerNode::BinaryOp(m, _, _, _) => m,
            CompilerNode::If(m, _, _, _) => m,
            CompilerNode::Mutate(m, _, _) => m,
            CompilerNode::Bind(m, _, _, _, _) => m,
            CompilerNode::Yield(m, _) => m,
            CompilerNode::Return(m, _) => m,
            CompilerNode::YieldReturn(m, _) => m,
            CompilerNode::RoutineCall(m, _, _, _) => m,
            CompilerNode::StructDef(m, _, _) => m,
            CompilerNode::StructExpression(m, _, _) => m,
            CompilerNode::ExpressionBlock(m, _) => m,
            CompilerNode::RoutineDef(m, _, _, _, _, _) => m,
            CompilerNode::Module { meta, .. } => meta,
        }
    }

    /// Whether the node defines the routine of the given kind and name.
    pub open spec fn defines(self, def: RoutineDefType, name: Seq<char>) -> bool {
        match self {
            CompilerNode::RoutineDef(_, d, n, _, _, _) => d == def && n@ == name,
            _ => false,
        }
    }
}

/// The position of the first node, at or after position `i`, that defines
/// the routine of the given kind and name.
pub open spec fn first_definition(
    nodes: Seq<CompilerNode>,
    def: RoutineDefType,
    name: Seq<char>,
    i: int,
) -> Option<int>
    decreases nodes.len() - i,
{
    if i < 0 || i >= nodes.len() {
        None
    } else if nodes[i].defines(def, name) {
        Some(i)
    } else {
        first_definition(nodes, def, name, i + 1)
    }
}

/// Searches the scopes from position `i` downwards for the symbol that
/// `name` stands for; the search ends at the scope of a routine.
pub open spec fn find_from(stack: Seq<CompilerNode>, name: Seq<char>, i: int) -> Option<Symbol>
    decreases i + 1,
{
    if i < 0 || i >= stack.len() {
        None
    } else if stack[i].metadata().lookup(name) is Some {
        stack[i].metadata().lookup(name)
    } else if stack[i].metadata().spec_level() is Routine {
        None
    } else {
        find_from(stack, name, i - 1)
    }
}

/// The position of the innermost node, at or below position `i`, whose
/// scope holds a symbol called `name`.
pub open spec fn find_global_from(stack: Seq<CompilerNode>, name: Seq<char>, i: int) -> Option<int>
    decreases i + 1,
{
    if i < 0 || i >= stack.len() {
        None
    } else if stack[i].metadata().lookup(name) is Some {
        Some(i)
    } else {
        find_global_from(stack, name, i - 1)
    }
}

#[derive(Debug)]
pub struct ScopeStack<'a> {
    stack: Vec<&'a CompilerNode>,
}

impl<'a> ScopeStack<'a> {
    /// The nodes whose scopes are on the stack, outermost first.
    pub closed spec fn nodes(&self) -> Seq<CompilerNode> {
        Seq::new(self.stack@.len(), |i: int| *self.stack@[i])
    }

    pub fn new() -> (r: ScopeStack<'a>)
        ensures
            r.nodes() == Seq::<CompilerNode>::empty(),
    {
        let r = ScopeStack { stack: Vec::new() };
        assert(r.nodes() =~= Seq::empty());
        r
    }

    /// Pushes the scope of a node onto the stack.
    pub fn push(&mut self, scope: &'a CompilerNode)
        ensures
            final(self).nodes() == old(self).nodes().push(*scope),
    {
        self.stack.push(scope);
        assert(self.nodes() =~= old(self).nodes().push(*scope));
    }

    /// Pops the current scope off the stack.
    pub fn pop(&mut self) -> (r: Option<&'a CompilerNode>)
        ensures
            old(self).nodes().len() > 0 ==> r is Some && *r.unwrap() == old(self).nodes().last()
                && final(self).nodes() == old(self).nodes().drop_last(),
            old(self).nodes().len() == 0 ==> r is None && final(self).nodes() == old(self).nodes(),
    {
        let r = self.stack.pop();
        proof {
            if old(self).nodes().len() > 0 {
                assert(self.nodes() =~= old(self).nodes().drop_last());
            } else {
                assert(self.nodes() =~= old(self).nodes());
            }
        }
        r
    }

    /// Searches the stack, from the top to the bottom, for a variable with
    /// the given name.  The search does not go past the scope of the
    /// current routine.
    pub fn find(&self, name: &str) -> (r: Option<&'a Symbol>)
        ensures
            r is Some <==> find_from(self.nodes(), name@, self.nodes().len() - 1) is Some,
            r is Some ==> *r.unwrap() == find_from(
                self.nodes(),
                name@,
                self.nodes().len() - 1,
            ).unwrap(),
    {
        let mut i: usize = self.stack.len();
        while i > 0
            invariant
                0 <= i <= self.stack.len(),
                self.nodes().len() == self.stack.len(),
                find_from(self.nodes(), name@, self.nodes().len() - 1) == find_from(
                    self.nodes(),
                    name@,
                    i - 1,
                ),
            decreases i,
        {
            i -= 1;
            let node: &'a CompilerNode = self.stack[i];
            assert(self.nodes()[i as int] == *node);
            let scope = node.get_metadata();
            let t = scope.get(name);
            if t.is_some() {
                return t;
            }
            match scope.level() {
                Level::Routine { .. } => {
                    return None;
                },
                _ => {},
            }
        }
        None
    }

    /// Searches the stack, from the top to the bottom, for a node whose
    /// scope holds the given name.  Unlike `find`, the search goes past the
    /// scopes of routines, so that it finds the routines that the modules
    /// around the current node define.
    pub fn find_global(&self, name: &str) -> (r: Option<&'a CompilerNode>)
        ensures
            r is Some <==> find_global_from(self.nodes(), name@, self.nodes().len() - 1) is Some,
            r is Some ==> *r.unwrap() == self.nodes()[find_global_from(
                self.nodes(),
                name@,
                self.nodes().len() - 1,
            ).unwrap()],
    {
        let mut i: usize = self.stack.len();
        while i > 0
            invariant
                0 <= i <= self.stack.len(),
                self.nodes().len() == self.stack.len(),
                find_global_from(self.nodes(), name@, self.nodes().len() - 1) == find_global_from(
                    self.nodes(),
                    name@,
                    i - 1,
                ),
            decreases i,
        {
            i -= 1;
            let node: &'a CompilerNode = self.stack[i];
            assert(self.nodes()[i as int] == *node);
            if node.get_metadata().get(name).is_some() {
                return Some(node);
            }
        }
        None
    }

    /// The first routine of the given kind and name in the list.
    fn find_definition<'b>(nodes: &'b Vec<CompilerNode>, def: RoutineDefType, name: &str) -> (r:
        Option<&'b CompilerNode>)
        ensures
            r is Some <==> first_definition(nodes@, def, name@, 0) is Some,
            r is Some ==> *r.unwrap() == nodes@[first_definition(nodes@, def, name@, 0).unwrap()],
    {
        let mut i: usize = 0;
        while i < nodes.len()
            invariant
                0 <= i <= nodes.len(),
                first_definition(nodes@, def, name@, 0) == first_definition(
                    nodes@,
                    def,
                    name@,
                    i as int,
                ),
            decreases nodes.len() - i,
        {
            let found = match &nodes[i] {
                CompilerNode::RoutineDef(_, d, n, _, _, _) => *d == def && same_text(
                    n.as_str(),
                    name,
                ),
                _ => false,
            };
            if found {
                return Some(&nodes[i]);
            }
            i += 1;
        }
        None
    }

    /// The function called `name` of the innermost module whose scope holds
    /// that name.
    pub fn find_func(&self, name: &str) -> (r: Option<&'a CompilerNode>)
        ensures
            r is Some ==> r.unwrap().defines(RoutineDefType::Function, name@),
            r is Some <==> (match find_global_from(self.nodes(), name@, self.nodes().len() - 1) {
                Some(i) => match self.nodes()[i] {
                    CompilerNode::Module { functions, .. } => first_definition(
                        functions@,
                        RoutineDefType::Function,
                        name@,
                        0,
                    ) is Some,
                    _ => false,
                },
                None => false,
            }),
    {
        match self.find_global(name) {
            Some(node) => match node {
                CompilerNode::Module { functions, .. } => {
                    let r = Self::find_definition(functions, RoutineDefType::Function, name);
                    proof {
                        lemma_first_definition_defines(
                            functions@,
                            RoutineDefType::Function,
                            name@,
                            0,
                        );
                    }
                    r
                },
                _ => None,
            },
            None => None,
        }
    }

    /// The coroutine called `name` of the innermost module whose scope
    /// holds that name.
    pub fn find_coroutine(&self, name: &str) -> (r: Option<&'a CompilerNode>)
        ensures
            r is Some ==> r.unwrap().defines(RoutineDefType::Coroutine, name@),
            r is Some <==> (match find_global_from(self.nodes(), name@, self.nodes().len() - 1) {
                Some(i) => match self.nodes()[i] {
                    CompilerNode::Module { coroutines, .. } => first_definition(
                        coroutines@,
                        RoutineDefType::Coroutine,
                        name@,
                        0,
                    ) is Some,
                    _ => false,
                },
                None => false,
            }),
    {
        match self.find_global(name) {
            Some(node) => match node {
                CompilerNode::Module { coroutines, .. } => {
                    let r = Self::find_definition(coroutines, RoutineDefType::Coroutine, name);
                    proof {
                        lemma_first_definition_defines(
                            coroutines@,
                            RoutineDefType::Coroutine,
                            name@,
                            0,
                        );
                    }
                    r
                },
                _ => None,
            },
            None => None,
        }
    }
}

/// The node at the position that a search for a definition gives defines
/// the routine that was searched for.
pub proof fn lemma_first_definition_defines(
    nodes: Seq<CompilerNode>,
    def: RoutineDefType,
    name: Seq<char>,
    i: int,
)
    requires
        0 <= i,
    ensures
        first_definition(nodes, def, name, i) is Some ==> {
            &&& i <= first_definition(nodes, def, name, i).unwrap() < nodes.len()
            &&& nodes[first_definition(nodes, def, name, i).unwrap()].defines(def, name)
        },
    decreases nodes.len() - i,
{
    if i < nodes.len() && !nodes[i].defines(def, name) {
        lemma_first_definition_defines(nodes, def, name, i + 1);
    }
}

} // verus!
