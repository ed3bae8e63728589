//! Registration: before any expression is checked, every module learns the
//! symbols of its own items, so that an item can be used before the place
//! where it is defined.
use crate::ast::module::{items_view, modules_view, Item, ItemView, Module, ModuleView};
use crate::ast::parameter::{parameter_fields, parameter_types, parameters_view, Parameter};
use crate::ast::routinedef::RoutineDefType;
use crate::ast::ty::{types_view, Type, TypeView};
use crate::semantics::error::{SemanticError, SemanticErrorView};
use crate::semantics::semanticnode::{ContextView, SemanticContext};
use crate::semantics::stack::field_types;
use crate::semantics::symbol_table::{SymbolTable, SymbolTableView, SymbolView};
use vstd::prelude::*;

verus! {

/// The symbol under which a module knows one of its items: a function or a
/// coroutine by its signature, a structure by its fields, an external
/// function by its declaration.
pub open spec fn item_symbol(item: ItemView<ContextView>) -> SymbolView {
    match item {
        ItemView::Routine(r) => SymbolView {
            name: r.name,
            ty: match r.def {
                RoutineDefType::Function => TypeView::FunctionDef(
                    parameter_types(r.params),
                    Box::new(r.ty),
                ),
                RoutineDefType::Coroutine => TypeView::CoroutineDef(
                    parameter_types(r.params),
                    Box::new(r.ty),
                ),
            },
            mutable: false,
            is_extern: false,
        },
        ItemView::Struct(s) => SymbolView {
            name: s.name,
            ty: TypeView::StructDef(parameter_fields(s.fields)),
            mutable: false,
            is_extern: false,
        },
        ItemView::Extern(e) => SymbolView {
            name: e.name,
            ty: TypeView::ExternDecl(parameter_types(e.params), e.has_varargs, Box::new(e.ty)),
            mutable: false,
            is_extern: true,
        },
    }
}

/// The table after the symbols of the items from position `i` on were
/// declared in it, or the error of the first item whose name is taken.
pub open spec fn register_items(table: SymbolTableView, items: Seq<ItemView<ContextView>>, i: int)
    -> Result<SymbolTableView, SemanticErrorView>
    decreases items.len() - i,
{
    if i < 0 || i >= items.len() {
        Ok(table)
    } else {
        match table.add(item_symbol(items[i])) {
            Err(e) => Err(e),
            Ok(table) => register_items(table, items, i + 1),
        }
    }
}

/// The module after the symbols of its functions, coroutines, structures
/// and external declarations, in this order, were declared in its table,
/// and after the same was done in each of its child modules.
pub open spec fn register_module(m: ModuleView<ContextView>) -> Result<
    ModuleView<ContextView>,
    SemanticErrorView,
>
    decreases m,
{
    match register_items(m.annotations.sym, m.functions, 0) {
        Err(e) => Err(e),
        Ok(t1) => match register_items(t1, m.coroutines, 0) {
            Err(e) => Err(e),
            Ok(t2) => match register_items(t2, m.structs, 0) {
                Err(e) => Err(e),
                Ok(t3) => match register_items(t3, m.externs, 0) {
                    Err(e) => Err(e),
                    Ok(t4) => match register_modules(m.modules, 0, Seq::empty()) {
                        Err(e) => Err(e),
                        Ok(modules) => Ok(
                            ModuleView { annotations: m.annotations.with_sym(t4), modules, ..m },
                        ),
                    },
                },
            },
        },
    }
}

pub open spec fn register_modules(
    ms: Seq<ModuleView<ContextView>>,
    i: int,
    done: Seq<ModuleView<ContextView>>,
) -> Result<Seq<ModuleView<ContextView>>, SemanticErrorView>
    decreases ms, ms.len() - i,
{
    if i < 0 || i >= ms.len() {
        Ok(done)
    } else {
        match register_module(ms[i]) {
            Err(e) => Err(e),
            Ok(m) => register_modules(ms, i + 1, done.push(m)),
        }
    }
}

/// The types of a list of parameters.
fn types_of(params: &Vec<Parameter<SemanticContext>>) -> (r: Vec<Type>)
    ensures
        types_view(r) == parameter_types(parameters_view(*params)),
{
    let mut out: Vec<Type> = Vec::new();
    let mut i: usize = 0;
    while i < params.len()
        invariant
            0 <= i <= params.len(),
            out.len() == i,
            forall|j: int| 0 <= j < i ==> out@[j]@ == params@[j].ty@,
        decreases params.len() - i,
    {
        out.push(params[i].ty.clone());
        i += 1;
    }
    assert(types_view(out) =~= parameter_types(parameters_view(*params)));
    out
}

/// Declares the symbol of `item` in `table`.
fn register_item(table: &mut SemanticContext, item: &Item<SemanticContext>) -> (r: Result<
    (),
    SemanticError,
>)
    ensures
        match r {
            Ok(_) => old(table)@.sym.add(item_symbol(item@)) == Ok::<
                SymbolTableView,
                SemanticErrorView,
            >(final(table)@.sym) && final(table)@ == old(table)@.with_sym(final(table)@.sym),
            Err(e) => old(table)@.sym.add(item_symbol(item@)) == Err::<
                SymbolTableView,
                SemanticErrorView,
            >(e@) && final(table)@ == old(table)@,
        },
{
    match item {
        Item::Routine(r) => {
            let params = types_of(&r.params);
            let ty = match r.def {
                RoutineDefType::Function => Type::FunctionDef(params, Box::new(r.ty.clone())),
                RoutineDefType::Coroutine => Type::CoroutineDef(params, Box::new(r.ty.clone())),
            };
            table.add_symbol(r.name, ty, false, false)
        },
        Item::Struct(s) => {
            let ty = Type::StructDef(field_types(&s.fields));
            table.add_symbol(s.name, ty, false, false)
        },
        Item::Extern(e) => {
            let ty = Type::ExternDecl(types_of(&e.params), e.has_varargs, Box::new(e.ty.clone()));
            table.add_symbol(e.name, ty, false, true)
        },
    }
}

/// Declares the symbols of `items` in `table`, one after the other.
fn register_all(table: &mut SemanticContext, items: &Vec<Item<SemanticContext>>) -> (r: Result<
    (),
    SemanticError,
>)
    ensures
        match r {
            Ok(_) => register_items(old(table)@.sym, items_view(*items), 0) == Ok::<
                SymbolTableView,
                SemanticErrorView,
            >(final(table)@.sym) && final(table)@ == old(table)@.with_sym(final(table)@.sym),
            Err(e) => register_items(old(table)@.sym, items_view(*items), 0) == Err::<
                SymbolTableView,
                SemanticErrorView,
            >(e@),
        },
{
    let mut i: usize = 0;
    assert(old(table)@.with_sym(old(table)@.sym) == old(table)@);
    while i < items.len()
        invariant
            0 <= i <= items.len(),
            table@ == old(table)@.with_sym(table@.sym),
            register_items(old(table)@.sym, items_view(*items), 0) == register_items(
                table@.sym,
                items_view(*items),
                i as int,
            ),
        decreases items.len() - i,
    {
        match register_item(table, &items[i]) {
            Ok(()) => {},
            Err(e) => {
                return Err(e);
            },
        }
        i += 1;
    }
    Ok(())
}

impl SymbolTable {
    /// Declares, in the table of every module of the tree, the symbols of
    /// the items of that module.  Fails with `AlreadyDeclared` at the first
    /// item whose name its module has declared already.
    pub fn add_item_defs_to_table(module: &mut Module<SemanticContext>) -> (r: Result<
        (),
        SemanticError,
    >)
        ensures
            match r {
                Ok(_) => register_module(old(module)@) == Ok::<
                    ModuleView<ContextView>,
                    SemanticErrorView,
                >(final(module)@),
                Err(e) => register_module(old(module)@) == Err::<
                    ModuleView<ContextView>,
                    SemanticErrorView,
                >(e@),
            },
        decreases *old(module),
    {
        match register_all(&mut module.annotations, &module.functions) {
            Ok(()) => {},
            Err(e) => {
                return Err(e);
            },
        }
        match register_all(&mut module.annotations, &module.coroutines) {
            Ok(()) => {},
            Err(e) => {
                return Err(e);
            },
        }
        match register_all(&mut module.annotations, &module.structs) {
            Ok(()) => {},
            Err(e) => {
                return Err(e);
            },
        }
        match register_all(&mut module.annotations, &module.externs) {
            Ok(()) => {},
            Err(e) => {
                return Err(e);
            },
        }
        let mut children: Vec<Module<SemanticContext>> = Vec::new();
        core::mem::swap(&mut children, &mut module.modules);
        match register_children(children) {
            Ok(done) => {
                module.modules = done;
                Ok(())
            },
            Err(e) => Err(e),
        }
    }
}

/// Registers the items of each of the given modules.
fn register_children(children: Vec<Module<SemanticContext>>) -> (r: Result<
    Vec<Module<SemanticContext>>,
    SemanticError,
>)
    ensures
        match r {
            Ok(done) => register_modules(modules_view(children), 0, Seq::empty()) == Ok::<
                Seq<ModuleView<ContextView>>,
                SemanticErrorView,
            >(modules_view(done)),
            Err(e) => register_modules(modules_view(children), 0, Seq::empty()) == Err::<
                Seq<ModuleView<ContextView>>,
                SemanticErrorView,
            >(e@),
        },
    decreases children,
{
    let mut rest = children;
    let mut reversed: Vec<Module<SemanticContext>> = Vec::new();
    // The children are taken from the end, so they are turned around first.
    while rest.len() > 0
        invariant
            rest@.len() + reversed@.len() == children@.len(),
            forall|j: int| 0 <= j < rest@.len() ==> rest@[j] == children@[j],
            forall|j: int|
                0 <= j < reversed@.len() ==> reversed@[j] == children@[children@.len() - 1 - j],
        decreases rest.len(),
    {
        let m = rest.pop().unwrap();
        reversed.push(m);
    }
    let mut done: Vec<Module<SemanticContext>> = Vec::new();
    assert(modules_view(done) =~= Seq::empty());
    while reversed.len() > 0
        invariant
            reversed@.len() + done@.len() == children@.len(),
            forall|j: int|
                0 <= j < reversed@.len() ==> reversed@[j] == children@[children@.len() - 1 - j],
            register_modules(modules_view(children), 0, Seq::empty()) == register_modules(
                modules_view(children),
                done@.len() as int,
                modules_view(done),
            ),
        decreases reversed.len(),
    {
        let ghost before = modules_view(done);
        let ghost at = done@.len() as int;
        let mut m = reversed.pop().unwrap();
        assert(m == children@[at]);
        assert(modules_view(children)[at] == m@);
        match SymbolTable::add_item_defs_to_table(&mut m) {
            Ok(()) => {
                done.push(m);
                assert(modules_view(done) =~= before.push(m@));
            },
            Err(e) => {
                return Err(e);
            },
        }
    }
    Ok(done)
}

} // verus!
