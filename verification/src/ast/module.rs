//! Modules and the items that they hold.  A module owns its child modules,
//! its functions, coroutines, structures and external declarations; no two
//! items of one module have the same name.
use crate::ast::external::{Extern, ExternView};
use crate::ast::node::{Node, NodeType};
use crate::ast::parameter::{parameters_view, Parameter};
use crate::ast::path::{Element, Path};
use crate::ast::routinedef::{RoutineDef, RoutineDefType, RoutineDefView};
use crate::ast::statement::clone_statements;
use crate::ast::structdef::{StructDef, StructDefView};
use crate::stringtable::StringId;
use vstd::prelude::*;

verus! {

/// What can go wrong while a tree is put together.
#[derive(Clone, Copy, Debug, PartialEq, Eq, Structural)]
pub enum AstError {
    /// The module already holds an item of that name.
    ModuleAlreadyContains(StringId),
}

#[derive(Debug, PartialEq)]
pub enum Item<M> {
    Routine(RoutineDef<M>),
    Struct(StructDef<M>),
    Extern(Extern<M>),
}

pub ghost enum ItemView<C> {
    Routine(RoutineDefView<C>),
    Struct(StructDefView<C>),
    Extern(ExternView<C>),
}

impl<M: View> View for Item<M> {
    type V = ItemView<M::V>;

    open spec fn view(&self) -> ItemView<M::V> {
        match self {
            Item::Routine(r) => ItemView::Routine(r@),
            Item::Struct(s) => ItemView::Struct(s@),
            Item::Extern(e) => ItemView::Extern(e@),
        }
    }
}

impl<C> ItemView<C> {
    pub open spec fn name(self) -> StringId {
        match self {
            ItemView::Routine(r) => r.name,
            ItemView::Struct(s) => s.name,
            ItemView::Extern(e) => e.name,
        }
    }

    pub open spec fn annotations(self) -> C {
        match self {
            ItemView::Routine(r) => r.annotations,
            ItemView::Struct(s) => s.annotations,
            ItemView::Extern(e) => e.annotations,
        }
    }
}

/// The views of a list of items, in order.
pub open spec fn items_view<M: View>(items: Vec<Item<M>>) -> Seq<ItemView<M::V>> {
    Seq::new(items@.len(), |i: int| items@[i]@)
}

#[derive(Debug, PartialEq)]
pub struct Module<M> {
    pub annotations: M,
    pub name: StringId,
    pub modules: Vec<Module<M>>,
    pub functions: Vec<Item<M>>,
    pub coroutines: Vec<Item<M>>,
    pub structs: Vec<Item<M>>,
    pub externs: Vec<Item<M>>,
}

pub ghost struct ModuleView<C> {
    pub annotations: C,
    pub name: StringId,
    pub modules: Seq<ModuleView<C>>,
    pub functions: Seq<ItemView<C>>,
    pub coroutines: Seq<ItemView<C>>,
    pub structs: Seq<ItemView<C>>,
    pub externs: Seq<ItemView<C>>,
}

pub open spec fn module_view<M: View>(m: Module<M>) -> ModuleView<M::V>
    decreases m,
{
    ModuleView {
        annotations: m.annotations@,
        name: m.name,
        modules: modules_view(m.modules),
        functions: items_view(m.functions),
        coroutines: items_view(m.coroutines),
        structs: items_view(m.structs),
        externs: items_view(m.externs),
    }
}

/// The views of a list of modules, in order.
pub open spec fn modules_view<M: View>(ms: Vec<Module<M>>) -> Seq<ModuleView<M::V>>
    decreases ms,
{
    Seq::new(
        ms@.len(),
        |i: int|
            if 0 <= i < ms@.len() {
                module_view(ms@[i])
            } else {
                arbitrary()
            },
    )
}

impl<M: View> View for Module<M> {
    type V = ModuleView<M::V>;

    open spec fn view(&self) -> ModuleView<M::V> {
        module_view(*self)
    }
}

/// The first item called `name` at or after position `i`.
pub open spec fn first_item<C>(items: Seq<ItemView<C>>, name: StringId, i: int) -> Option<
    ItemView<C>,
>
    decreases items.len() - i,
{
    if i < 0 || i >= items.len() {
        None
    } else if items[i].name() == name {
        Some(items[i])
    } else {
        first_item(items, name, i + 1)
    }
}

/// The first module called `name` at or after position `i`.
pub open spec fn first_module<C>(ms: Seq<ModuleView<C>>, name: StringId, i: int) -> Option<
    ModuleView<C>,
>
    decreases ms.len() - i,
{
    if i < 0 || i >= ms.len() {
        None
    } else if ms[i].name == name {
        Some(ms[i])
    } else {
        first_module(ms, name, i + 1)
    }
}

/// The position of the first module called `name` at or after position
/// `i`.
pub open spec fn first_module_position<M>(ms: Seq<Module<M>>, name: StringId, i: int) -> Option<
    usize,
>
    decreases ms.len() - i,
{
    if i < 0 || i >= ms.len() {
        None
    } else if ms[i].name == name {
        Some(i as usize)
    } else {
        first_module_position(ms, name, i + 1)
    }
}

/// The module reached from `m` by descending through the child modules that
/// the steps of `path` name, from position `i` on.  Only names descend.
pub open spec fn module_at<C>(m: ModuleView<C>, path: Seq<Element>, i: int) -> Option<
    ModuleView<C>,
>
    decreases path.len() - i,
{
    if i < 0 || i >= path.len() {
        Some(m)
    } else {
        match path[i] {
            Element::Id(name) => match first_module(m.modules, name, 0) {
                Some(child) => module_at(child, path, i + 1),
                None => None,
            },
            _ => None,
        }
    }
}

impl<C> ModuleView<C> {
    /// The child module called `name`.
    pub open spec fn find_module(self, name: StringId) -> Option<ModuleView<C>> {
        first_module(self.modules, name, 0)
    }

    /// The item called `name`: a function, else a coroutine, else a
    /// structure, else an external declaration.
    pub open spec fn find_item(self, name: StringId) -> Option<ItemView<C>> {
        if first_item(self.functions, name, 0) is Some {
            first_item(self.functions, name, 0)
        } else if first_item(self.coroutines, name, 0) is Some {
            first_item(self.coroutines, name, 0)
        } else if first_item(self.structs, name, 0) is Some {
            first_item(self.structs, name, 0)
        } else {
            first_item(self.externs, name, 0)
        }
    }

    /// The module that `path` leads to, where `path` starts at this module:
    /// after the root sentinel, if it has one, the path names this module
    /// and then, step by step, the child modules to descend through.
    pub open spec fn go_to(self, path: Seq<Element>) -> Option<ModuleView<C>> {
        let start: int = if path.len() > 0 && path[0] == Element::CanonicalRoot {
            1
        } else {
            0
        };
        if start < path.len() && path[start] == Element::Id(self.name) {
            module_at(self, path, start + 1)
        } else {
            None
        }
    }
}

/// The position of the first item called `name`.
fn position_of<M: View>(items: &Vec<Item<M>>, name: StringId) -> (r: Option<usize>)
    ensures
        r is Some <==> first_item(items_view(*items), name, 0) is Some,
        r is Some ==> r.unwrap() < items.len() && items@[r.unwrap() as int]@ == first_item(
            items_view(*items),
            name,
            0,
        ).unwrap(),
{
    let mut i: usize = 0;
    while i < items.len()
        invariant
            0 <= i <= items.len(),
            first_item(items_view(*items), name, 0) == first_item(
                items_view(*items),
                name,
                i as int,
            ),
        decreases items.len() - i,
    {
        if items[i].get_name() == name {
            return Some(i);
        }
        i += 1;
    }
    None
}

impl<M> Node<M> for Item<M> {
    open spec fn spec_node_type(&self) -> NodeType {
        match self {
            Item::Routine(r) => r.spec_node_type(),
            Item::Struct(s) => s.spec_node_type(),
            Item::Extern(e) => e.spec_node_type(),
        }
    }

    open spec fn spec_annotation(&self) -> M {
        match self {
            Item::Routine(r) => r.annotations,
            Item::Struct(s) => s.annotations,
            Item::Extern(e) => e.annotations,
        }
    }

    open spec fn spec_with_annotation(&self, with: M) -> Item<M> {
        match self {
            Item::Routine(r) => Item::Routine(RoutineDef { annotations: with, ..*r }),
            Item::Struct(s) => Item::Struct(StructDef { annotations: with, ..*s }),
            Item::Extern(e) => Item::Extern(Extern { annotations: with, ..*e }),
        }
    }

    open spec fn spec_name(&self) -> Option<StringId> {
        Some(self.spec_get_name())
    }

    fn node_type(&self) -> (r: NodeType) {
        match self {
            Item::Routine(r) => r.node_type(),
            Item::Struct(s) => s.node_type(),
            Item::Extern(e) => e.node_type(),
        }
    }

    fn annotation(&self) -> (r: &M) {
        match self {
            Item::Routine(r) => &r.annotations,
            Item::Struct(s) => &s.annotations,
            Item::Extern(e) => &e.annotations,
        }
    }

    fn annotation_mut(&mut self) -> (r: &mut M) {
        match self {
            Item::Routine(r) => &mut r.annotations,
            Item::Struct(s) => &mut s.annotations,
            Item::Extern(e) => &mut e.annotations,
        }
    }

    fn name(&self) -> (r: Option<StringId>) {
        Some(self.get_name())
    }
}

impl<M> Item<M> {
    pub open spec fn spec_get_name(&self) -> StringId {
        match self {
            Item::Routine(r) => r.name,
            Item::Struct(s) => s.name,
            Item::Extern(e) => e.name,
        }
    }

    pub fn get_name(&self) -> (r: StringId)
        ensures
            r == self.spec_get_name(),
    {
        match self {
            Item::Routine(r) => r.get_name(),
            Item::Struct(s) => s.get_name(),
            Item::Extern(e) => e.get_name(),
        }
    }

    /// The routine that the item defines, if it defines one.
    pub fn to_routine(&self) -> (r: Option<&RoutineDef<M>>)
        ensures
            r == (match self {
                Item::Routine(def) => Some(def),
                _ => None,
            }),
    {
        match self {
            Item::Routine(r) => Some(r),
            Item::Struct(_) => None,
            Item::Extern(_) => None,
        }
    }
}

impl<M> Node<M> for Module<M> {
    open spec fn spec_node_type(&self) -> NodeType {
        NodeType::Module
    }

    open spec fn spec_annotation(&self) -> M {
        self.annotations
    }

    open spec fn spec_with_annotation(&self, with: M) -> Module<M> {
        Module { annotations: with, ..*self }
    }

    open spec fn spec_name(&self) -> Option<StringId> {
        Some(self.name)
    }

    fn node_type(&self) -> (r: NodeType) {
        NodeType::Module
    }

    fn annotation(&self) -> (r: &M) {
        &self.annotations
    }

    fn annotation_mut(&mut self) -> (r: &mut M) {
        &mut self.annotations
    }

    fn name(&self) -> (r: Option<StringId>) {
        Some(self.name)
    }
}

impl<M: View> Module<M> {
    /// A module without children and without items.
    pub fn new(name: StringId, annotation: M) -> (r: Module<M>)
        ensures
            r.annotations == annotation,
            r.name == name,
            r@ == (ModuleView {
                annotations: annotation@,
                name,
                modules: Seq::empty(),
                functions: Seq::empty(),
                coroutines: Seq::empty(),
                structs: Seq::empty(),
                externs: Seq::empty(),
            }),
    {
        let r = Module {
            annotations: annotation,
            name,
            modules: Vec::new(),
            functions: Vec::new(),
            coroutines: Vec::new(),
            structs: Vec::new(),
            externs: Vec::new(),
        };
        assert(r@.modules =~= Seq::empty());
        assert(r@.functions =~= Seq::empty());
        assert(r@.coroutines =~= Seq::empty());
        assert(r@.structs =~= Seq::empty());
        assert(r@.externs =~= Seq::empty());
        r
    }

    /// Adds `m` as the last child module.
    pub fn add_module(&mut self, m: Module<M>)
        ensures
            final(self)@ == (ModuleView { modules: old(self)@.modules.push(m@), ..old(self)@ }),
    {
        self.modules.push(m);
        assert(self@.modules =~= old(self)@.modules.push(m@));
    }

    /// Adds the function `f`, unless the module holds an item of that name.
    pub fn add_function(&mut self, f: RoutineDef<M>) -> (r: Result<(), AstError>)
        ensures
            r is Ok <==> old(self)@.find_item(f.name) is None,
            r is Ok ==> final(self)@ == (ModuleView {
                functions: old(self)@.functions.push(ItemView::Routine(f@)),
                ..old(self)@
            }),
            r is Err ==> r->Err_0 == AstError::ModuleAlreadyContains(f.name) && final(self)@
                == old(self)@,
    {
        let name = f.get_name();
        if self.get_item(name).is_none() {
            self.functions.push(Item::Routine(f));
            assert(self@.functions =~= old(self)@.functions.push(ItemView::Routine(f@)));
            Ok(())
        } else {
            Err(AstError::ModuleAlreadyContains(name))
        }
    }

    /// Adds the coroutine `c`, unless the module holds an item of that
    /// name.
    pub fn add_coroutine(&mut self, c: RoutineDef<M>) -> (r: Result<(), AstError>)
        ensures
            r is Ok <==> old(self)@.find_item(c.name) is None,
            r is Ok ==> final(self)@ == (ModuleView {
                coroutines: old(self)@.coroutines.push(ItemView::Routine(c@)),
                ..old(self)@
            }),
            r is Err ==> r->Err_0 == AstError::ModuleAlreadyContains(c.name) && final(self)@
                == old(self)@,
    {
        let name = c.get_name();
        if self.get_item(name).is_none() {
            self.coroutines.push(Item::Routine(c));
            assert(self@.coroutines =~= old(self)@.coroutines.push(ItemView::Routine(c@)));
            Ok(())
        } else {
            Err(AstError::ModuleAlreadyContains(name))
        }
    }

    /// Adds the structure `s`, unless the module holds an item of that
    /// name.
    pub fn add_struct(&mut self, s: StructDef<M>) -> (r: Result<(), AstError>)
        ensures
            r is Ok <==> old(self)@.find_item(s.name) is None,
            r is Ok ==> final(self)@ == (ModuleView {
                structs: old(self)@.structs.push(ItemView::Struct(s@)),
                ..old(self)@
            }),
            r is Err ==> r->Err_0 == AstError::ModuleAlreadyContains(s.name) && final(self)@
                == old(self)@,
    {
        let name = s.get_name();
        if self.get_item(name).is_none() {
            self.structs.push(Item::Struct(s));
            assert(self@.structs =~= old(self)@.structs.push(ItemView::Struct(s@)));
            Ok(())
        } else {
            Err(AstError::ModuleAlreadyContains(name))
        }
    }

    /// Adds the external declaration `e`, unless the module holds an item of
    /// that name.
    pub fn add_extern(&mut self, e: Extern<M>) -> (r: Result<(), AstError>)
        ensures
            r is Ok <==> old(self)@.find_item(e.name) is None,
            r is Ok ==> final(self)@ == (ModuleView {
                externs: old(self)@.externs.push(ItemView::Extern(e@)),
                ..old(self)@
            }),
            r is Err ==> r->Err_0 == AstError::ModuleAlreadyContains(e.name) && final(self)@
                == old(self)@,
    {
        let name = e.get_name();
        if self.get_item(name).is_none() {
            self.externs.push(Item::Extern(e));
            assert(self@.externs =~= old(self)@.externs.push(ItemView::Extern(e@)));
            Ok(())
        } else {
            Err(AstError::ModuleAlreadyContains(name))
        }
    }

    /// Adds the item to the list that holds items of its kind, unless the
    /// module holds an item of that name.
    pub fn add_item(&mut self, i: Item<M>) -> (r: Result<(), AstError>)
        ensures
            r is Ok <==> old(self)@.find_item(i@.name()) is None,
            r is Ok ==> final(self)@ == (match i@ {
                ItemView::Routine(def) => if def.def == RoutineDefType::Function {
                    ModuleView { functions: old(self)@.functions.push(i@), ..old(self)@ }
                } else {
                    ModuleView { coroutines: old(self)@.coroutines.push(i@), ..old(self)@ }
                },
                ItemView::Struct(_) => ModuleView {
                    structs: old(self)@.structs.push(i@),
                    ..old(self)@
                },
                ItemView::Extern(_) => ModuleView {
                    externs: old(self)@.externs.push(i@),
                    ..old(self)@
                },
            }),
            r is Err ==> r->Err_0 == AstError::ModuleAlreadyContains(i@.name()) && final(self)@
                == old(self)@,
    {
        match i {
            Item::Routine(r) => {
                if r.def == RoutineDefType::Function {
                    self.add_function(r)
                } else {
                    self.add_coroutine(r)
                }
            },
            Item::Struct(s) => self.add_struct(s),
            Item::Extern(e) => self.add_extern(e),
        }
    }

    pub fn get_name(&self) -> (r: StringId)
        ensures
            r == self.name,
    {
        self.name
    }

    pub fn get_modules(&self) -> (r: &Vec<Module<M>>)
        ensures
            *r == self.modules,
    {
        &self.modules
    }

    pub fn get_modules_mut(&mut self) -> (r: &mut Vec<Module<M>>)
        ensures
            *r == old(self).modules,
            *final(self) == (Module { modules: *final(r), ..*old(self) }),
    {
        &mut self.modules
    }

    pub fn get_functions_mut(&mut self) -> (r: &mut Vec<Item<M>>)
        ensures
            *r == old(self).functions,
            *final(self) == (Module { functions: *final(r), ..*old(self) }),
    {
        &mut self.functions
    }

    pub fn get_coroutines_mut(&mut self) -> (r: &mut Vec<Item<M>>)
        ensures
            *r == old(self).coroutines,
            *final(self) == (Module { coroutines: *final(r), ..*old(self) }),
    {
        &mut self.coroutines
    }

    pub fn get_structs_mut(&mut self) -> (r: &mut Vec<Item<M>>)
        ensures
            *r == old(self).structs,
            *final(self) == (Module { structs: *final(r), ..*old(self) }),
    {
        &mut self.structs
    }

    pub fn get_externs_mut(&mut self) -> (r: &mut Vec<Item<M>>)
        ensures
            *r == old(self).externs,
            *final(self) == (Module { externs: *final(r), ..*old(self) }),
    {
        &mut self.externs
    }

    /// The position of the child module called `name`.
    pub fn module_position(&self, name: StringId) -> (r: Option<usize>)
        ensures
            r == first_module_position(self.modules@, name, 0),
            r is Some ==> r.unwrap() < self.modules@.len() && self.modules@[r.unwrap() as int].name
                == name,
    {
        let mut i: usize = 0;
        while i < self.modules.len()
            invariant
                0 <= i <= self.modules.len(),
                first_module_position(self.modules@, name, 0) == first_module_position(
                    self.modules@,
                    name,
                    i as int,
                ),
            decreases self.modules.len() - i,
        {
            if self.modules[i].name == name {
                return Some(i);
            }
            i += 1;
        }
        None
    }

    /// The child module called `name`, to be changed in place.
    pub fn get_module_mut(&mut self, name: StringId) -> (r: Option<&mut Module<M>>)
        ensures
            match r {
                Some(m) => {
                    let i = first_module_position(old(self).modules@, name, 0).unwrap() as int;
                    &&& first_module_position(old(self).modules@, name, 0) is Some
                    &&& *m == old(self).modules@[i]
                    &&& final(self).modules@ == old(self).modules@.update(i, *final(m))
                    &&& final(self).annotations == old(self).annotations
                    &&& final(self).name == old(self).name
                    &&& final(self).functions == old(self).functions
                    &&& final(self).coroutines == old(self).coroutines
                    &&& final(self).structs == old(self).structs
                    &&& final(self).externs == old(self).externs
                },
                None => first_module_position(old(self).modules@, name, 0) is None && *final(self)
                    == *old(self),
            },
    {
        match self.module_position(name) {
            Some(i) => Some(&mut self.modules[i]),
            None => None,
        }
    }

    pub fn get_functions(&self) -> (r: &Vec<Item<M>>)
        ensures
            *r == self.functions,
    {
        &self.functions
    }

    pub fn get_coroutines(&self) -> (r: &Vec<Item<M>>)
        ensures
            *r == self.coroutines,
    {
        &self.coroutines
    }

    pub fn get_structs(&self) -> (r: &Vec<Item<M>>)
        ensures
            *r == self.structs,
    {
        &self.structs
    }

    pub fn get_externs(&self) -> (r: &Vec<Item<M>>)
        ensures
            *r == self.externs,
    {
        &self.externs
    }

    /// The child module called `name`.
    pub fn get_module(&self, name: StringId) -> (r: Option<&Module<M>>)
        ensures
            r is Some <==> self@.find_module(name) is Some,
            r is Some ==> r.unwrap()@ == self@.find_module(name).unwrap(),
    {
        let mut i: usize = 0;
        while i < self.modules.len()
            invariant
                0 <= i <= self.modules.len(),
                self@.find_module(name) == first_module(self@.modules, name, i as int),
            decreases self.modules.len() - i,
        {
            proof {
                let child = self.modules@[i as int];
                assert(self@.modules[i as int] == child@);
                assert(child@.name == child.name);
            }
            if self.modules[i].name == name {
                return Some(&self.modules[i]);
            }
            i += 1;
        }
        None
    }

    /// The item called `name`, whatever its kind.
    pub fn get_item(&self, name: StringId) -> (r: Option<&Item<M>>)
        ensures
            r is Some <==> self@.find_item(name) is Some,
            r is Some ==> r.unwrap()@ == self@.find_item(name).unwrap(),
    {
        match position_of(&self.functions, name) {
            Some(i) => Some(&self.functions[i]),
            None => match position_of(&self.coroutines, name) {
                Some(i) => Some(&self.coroutines[i]),
                None => match position_of(&self.structs, name) {
                    Some(i) => Some(&self.structs[i]),
                    None => match position_of(&self.externs, name) {
                        Some(i) => Some(&self.externs[i]),
                        None => None,
                    },
                },
            },
        }
    }

    /// Follows `path` from this module down through its descendants.  The
    /// path names this module first, after the root sentinel if it starts
    /// with one.
    pub fn go_to_module(&self, path: &Path) -> (r: Option<&Module<M>>)
        ensures
            r is Some <==> self@.go_to(path@) is Some,
            r is Some ==> r.unwrap()@ == self@.go_to(path@).unwrap(),
    {
        let start: usize = match path.get(0) {
            Some(Element::CanonicalRoot) => 1,
            _ => 0,
        };
        match path.get(start) {
            Some(Element::Id(first)) => {
                if first != self.name {
                    return None;
                }
            },
            _ => {
                return None;
            },
        }
        let mut current = self;
        let mut idx: usize = start + 1;
        while idx < path.len()
            invariant
                start + 1 <= idx,
                self@.go_to(path@) == module_at(current@, path@, idx as int),
            decreases path@.len() - idx,
        {
            match path.get(idx) {
                Some(Element::Id(name)) => match current.get_module(name) {
                    Some(m) => {
                        current = m;
                    },
                    None => {
                        return None;
                    },
                },
                _ => {
                    return None;
                },
            }
            idx += 1;
        }
        Some(current)
    }
}

/// Copies a list of parameters.
pub fn clone_parameters<M: Copy + View>(ps: &Vec<Parameter<M>>) -> (r: Vec<Parameter<M>>)
    ensures
        parameters_view(r) == parameters_view(*ps),
{
    let mut out: Vec<Parameter<M>> = Vec::new();
    let mut i: usize = 0;
    while i < ps.len()
        invariant
            0 <= i <= ps.len(),
            out.len() == i,
            forall|j: int| 0 <= j < i ==> out@[j]@ == ps@[j]@,
        decreases ps.len() - i,
    {
        out.push(ps[i].clone());
        i += 1;
    }
    assert(parameters_view(out) =~= parameters_view(*ps));
    out
}

impl<M: Copy + View> Clone for RoutineDef<M> {
    fn clone(&self) -> (r: RoutineDef<M>)
        ensures
            r@ == self@,
    {
        RoutineDef {
            annotations: self.annotations,
            def: self.def,
            name: self.name,
            params: clone_parameters(&self.params),
            ty: self.ty.clone(),
            body: clone_statements(&self.body),
        }
    }
}

impl<M: Copy + View> Clone for StructDef<M> {
    fn clone(&self) -> (r: StructDef<M>)
        ensures
            r@ == self@,
    {
        StructDef {
            annotations: self.annotations,
            name: self.name,
            fields: clone_parameters(&self.fields),
        }
    }
}

impl<M: Copy + View> Clone for Extern<M> {
    fn clone(&self) -> (r: Extern<M>)
        ensures
            r@ == self@,
    {
        Extern {
            annotations: self.annotations,
            name: self.name,
            params: clone_parameters(&self.params),
            has_varargs: self.has_varargs,
            ty: self.ty.clone(),
        }
    }
}

impl<M: Copy + View> Clone for Item<M> {
    fn clone(&self) -> (r: Item<M>)
        ensures
            r@ == self@,
    {
        match self {
            Item::Routine(r) => Item::Routine(r.clone()),
            Item::Struct(s) => Item::Struct(s.clone()),
            Item::Extern(e) => Item::Extern(e.clone()),
        }
    }
}

/// Copies a list of items.
pub fn clone_items<M: Copy + View>(items: &Vec<Item<M>>) -> (r: Vec<Item<M>>)
    ensures
        items_view(r) == items_view(*items),
{
    let mut out: Vec<Item<M>> = Vec::new();
    let mut i: usize = 0;
    while i < items.len()
        invariant
            0 <= i <= items.len(),
            out.len() == i,
            forall|j: int| 0 <= j < i ==> out@[j]@ == items@[j]@,
        decreases items.len() - i,
    {
        out.push(items[i].clone());
        i += 1;
    }
    assert(items_view(out) =~= items_view(*items));
    out
}

/// Copies a module with everything in it.
pub fn clone_module<M: Copy + View>(m: &Module<M>) -> (r: Module<M>)
    ensures
        r@ == m@,
    decreases m,
{
    Module {
        annotations: m.annotations,
        name: m.name,
        modules: clone_modules(&m.modules),
        functions: clone_items(&m.functions),
        coroutines: clone_items(&m.coroutines),
        structs: clone_items(&m.structs),
        externs: clone_items(&m.externs),
    }
}

/// Copies a list of modules.
pub fn clone_modules<M: Copy + View>(ms: &Vec<Module<M>>) -> (r: Vec<Module<M>>)
    ensures
        modules_view(r) == modules_view(*ms),
    decreases ms,
{
    let mut out: Vec<Module<M>> = Vec::new();
    let mut i: usize = 0;
    while i < ms.len()
        invariant
            0 <= i <= ms.len(),
            out.len() == i,
            forall|j: int| 0 <= j < i ==> out@[j]@ == ms@[j]@,
        decreases ms.len() - i,
    {
        let m = clone_module(&ms[i]);
        out.push(m);
        i += 1;
    }
    assert(modules_view(out) =~= modules_view(*ms));
    out
}

impl<M: Copy + View> Clone for Module<M> {
    fn clone(&self) -> (r: Module<M>)
        ensures
            r@ == self@,
    {
        clone_module(self)
    }
}

} // verus!
