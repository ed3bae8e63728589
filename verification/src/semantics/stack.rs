//! The stack of scopes that the resolver is in while it walks the tree.
//!
//! The table on top, the head, is the scope of the node that is being
//! analysed; below it lie the tables of the enclosing scopes, down to the
//! module at the root of the tree.  The stack knows the root of the tree, to
//! find items by their path, and the symbols that were imported from outside
//! the project.
use crate::ast::module::{Module, ModuleView};
use crate::ast::parameter::{parameter_fields, Parameter};
use crate::ast::path::{canonical, is_canonical, item_of, parent_of, Element, Path, PathError};
use crate::ast::structdef::StructDef;
use crate::ast::ty::{types_view, Type, TypeView};
use crate::semantics::canonize::{canonize_type, canonize_type_ref};
use crate::semantics::error::{SemanticError, SemanticErrorView};
use crate::semantics::semanticnode::{ContextView, SemanticContext};
use crate::semantics::symbol_table::{ScopeType, Symbol, SymbolTable, SymbolTableView, SymbolView};
use crate::stringtable::StringId;
use vstd::prelude::*;

verus! {

#[derive(Debug)]
pub struct SymbolTableScopeStack<'a> {
    root: &'a Module<SemanticContext>,
    stack: Vec<SymbolTable>,
    head: SymbolTable,
    imported_symbols: Vec<(Path, Symbol)>,
}

pub ghost struct ScopeStackView {
    pub root: ModuleView<ContextView>,
    /// The tables of the enclosing scopes, outermost first.
    pub stack: Seq<SymbolTableView>,
    pub head: SymbolTableView,
    /// The imported symbols, each with its canonical path.
    pub imported: Seq<(Seq<Element>, SymbolView)>,
}

/// The path of the innermost module among the first `upto` scopes: the root
/// sentinel, followed by the names of the modules, outermost first.
pub open spec fn path_to_module(scopes: Seq<SymbolTableView>, upto: int) -> Seq<Element>
    decreases upto,
{
    if upto <= 0 || upto > scopes.len() {
        seq![Element::CanonicalRoot]
    } else {
        match scopes[upto - 1].scope {
            ScopeType::Module { name } => path_to_module(scopes, upto - 1).push(Element::Id(name)),
            _ => path_to_module(scopes, upto - 1),
        }
    }
}

/// Searches the scopes from position `i` outwards for a symbol called
/// `name` and returns it with the position of its scope.  Until the scope of
/// a routine has been searched without success every scope is searched;
/// after that (`sealed`) only the scopes of modules are: a routine sees
/// neither the variables of another routine nor those of a block around it.
pub open spec fn search(scopes: Seq<SymbolTableView>, name: StringId, i: int, sealed: bool)
    -> Option<(SymbolView, int)>
    decreases i + 1,
{
    if i < 0 || i >= scopes.len() {
        None
    } else if (!sealed || scopes[i].scope is Module) && scopes[i].get(name) is Some {
        Some((scopes[i].get(name).unwrap(), i))
    } else {
        search(scopes, name, i - 1, sealed || scopes[i].scope is Routine)
    }
}

/// The name of the innermost routine among the scopes up to position `i`.
pub open spec fn current_routine(scopes: Seq<SymbolTableView>, i: int) -> Option<StringId>
    decreases i + 1,
{
    if i < 0 || i >= scopes.len() {
        None
    } else {
        match scopes[i].scope {
            ScopeType::Routine { name } => Some(name),
            _ => current_routine(scopes, i - 1),
        }
    }
}

/// The position of the first imported symbol with the given path, at or
/// after position `i`.
pub open spec fn first_import(
    imported: Seq<(Seq<Element>, SymbolView)>,
    path: Seq<Element>,
    i: int,
) -> Option<int>
    decreases imported.len() - i,
{
    if i < 0 || i >= imported.len() {
        None
    } else if imported[i].0 == path {
        Some(i)
    } else {
        first_import(imported, path, i + 1)
    }
}

/// A search for an imported symbol that finds nothing has seen no symbol
/// with the path, and one that finds a symbol has found it under the path.
pub proof fn lemma_first_import(
    imported: Seq<(Seq<Element>, SymbolView)>,
    path: Seq<Element>,
    i: int,
)
    requires
        0 <= i,
    ensures
        match first_import(imported, path, i) {
            Some(k) => i <= k < imported.len() && imported[k].0 == path,
            None => forall|k: int| i <= k < imported.len() ==> imported[k].0 != path,
        },
    decreases imported.len() - i,
{
    if i < imported.len() && imported[i].0 != path {
        lemma_first_import(imported, path, i + 1);
    }
}

/// Importing keeps the paths of the imported symbols distinct: a symbol
/// that is imported under a path that is taken replaces the earlier one.
pub proof fn lemma_import_keeps_paths_distinct(
    stack: ScopeStackView,
    path: Seq<Element>,
    symbol: SymbolView,
)
    requires
        stack.distinct_imports(),
    ensures
        stack.import(path, symbol).distinct_imports(),
        stack.import(path, symbol).imported_symbol(path) == Some(symbol),
{
    lemma_first_import(stack.imported, path, 0);
    let after = stack.import(path, symbol).imported;
    lemma_first_import(after, path, 0);
    match first_import(stack.imported, path, 0) {
        Some(i) => {
            assert(after[i].0 == path);
        },
        None => {
            assert(after[stack.imported.len() as int].0 == path);
        },
    }
}

/// How a symbol and its path are reported: an external function is linked
/// by its bare name, whatever module declares it.
pub open spec fn reported(symbol: SymbolView, path: Seq<Element>) -> (SymbolView, Seq<Element>) {
    if symbol.is_extern {
        (symbol, seq![Element::Id(symbol.name)])
    } else {
        (symbol, path)
    }
}

impl ScopeStackView {
    /// All scopes, outermost first; the head is the last.
    pub open spec fn scopes(self) -> Seq<SymbolTableView> {
        self.stack.push(self.head)
    }

    /// The canonical path of the module that the head is in.
    pub open spec fn to_path(self) -> Seq<Element> {
        path_to_module(self.scopes(), self.scopes().len() as int)
    }

    pub open spec fn enter(self, table: SymbolTableView) -> ScopeStackView {
        ScopeStackView { stack: self.stack.push(self.head), head: table, ..self }
    }

    pub open spec fn leave(self) -> ScopeStackView {
        ScopeStackView { stack: self.stack.drop_last(), head: self.stack.last(), ..self }
    }

    pub open spec fn with_head(self, head: SymbolTableView) -> ScopeStackView {
        ScopeStackView { head, ..self }
    }

    /// The name of the routine that the head is in.
    pub open spec fn current_fn(self) -> Option<StringId> {
        current_routine(self.scopes(), self.scopes().len() - 1)
    }

    /// The imported symbol with the given canonical path.
    pub open spec fn imported_symbol(self, path: Seq<Element>) -> Option<SymbolView> {
        match first_import(self.imported, path, 0) {
            Some(i) => Some(self.imported[i].1),
            None => None,
        }
    }

    /// No two imported symbols have the same path: a path stands for one
    /// imported symbol.
    pub open spec fn distinct_imports(self) -> bool {
        forall|i: int, j: int|
            0 <= i < j < self.imported.len() ==> self.imported[i].0 != self.imported[j].0
    }

    /// The stack after a symbol was imported under `path`: a symbol that was
    /// imported under that path before is replaced.
    pub open spec fn import(self, path: Seq<Element>, symbol: SymbolView) -> ScopeStackView {
        match first_import(self.imported, path, 0) {
            Some(i) => ScopeStackView { imported: self.imported.update(i, (path, symbol)), ..self },
            None => ScopeStackView { imported: self.imported.push((path, symbol)), ..self },
        }
    }

    /// The symbol of the project's item with the given canonical path: the
    /// symbol that the module which the path leads to declares under the
    /// item's name.
    pub open spec fn project_symbol(self, path: Seq<Element>) -> Option<SymbolView> {
        match item_of(path) {
            Some(item) => match self.root.go_to(parent_of(path)) {
                Some(m) => m.annotations.sym.get(item),
                None => None,
            },
            None => None,
        }
    }

    /// The symbol that a plain name stands for in the current scope, with
    /// its canonical path.
    pub open spec fn symbol(self, name: StringId) -> Option<(SymbolView, Seq<Element>)> {
        match search(self.scopes(), name, self.scopes().len() - 1, false) {
            Some((symbol, at)) => Some(
                (symbol, path_to_module(self.scopes(), at + 1).push(Element::Id(name))),
            ),
            None => None,
        }
    }

    /// The symbol that `path` stands for in the current scope, with its
    /// canonical path.
    ///
    /// A single name is searched for in the scopes, innermost first.  A
    /// longer path is canonicalized against the current module and then
    /// looked up among the items of the project and among the imported
    /// symbols; it must name exactly one of them.
    pub open spec fn lookup(self, path: Seq<Element>) -> Result<
        (SymbolView, Seq<Element>),
        SemanticErrorView,
    > {
        if path.len() > 1 {
            match canonical(path, self.to_path()) {
                Err(_) => Err(SemanticErrorView::PathTooSuper),
                Ok(canon) => match (self.project_symbol(canon), self.imported_symbol(canon)) {
                    (Some(s), None) => Ok(reported(s, canon)),
                    (None, Some(s)) => Ok(reported(s, canon)),
                    (Some(_), Some(_)) => Err(SemanticErrorView::MultipleDefs(path)),
                    (None, None) => Err(SemanticErrorView::PathNotFound(path, canon)),
                },
            }
        } else if path.len() == 1 {
            match path[0] {
                Element::Id(name) => match self.symbol(name) {
                    Some((s, canon)) => Ok(reported(s, canon)),
                    None => Err(SemanticErrorView::NotDefined(name)),
                },
                _ => Err(SemanticErrorView::PathNotValid),
            }
        } else {
            Err(SemanticErrorView::EmptyPath)
        }
    }

    /// The variable called `id`: the symbol that the name stands for, unless
    /// that is a routine, a structure, an external function or unknown.
    pub open spec fn lookup_var(self, id: StringId) -> Result<SymbolView, SemanticErrorView> {
        match self.lookup(seq![Element::Id(id)]) {
            Err(e) => Err(e),
            Ok((symbol, _)) => match symbol.ty {
                TypeView::FunctionDef(..)
                | TypeView::CoroutineDef(..)
                | TypeView::ExternDecl(..)
                | TypeView::StructDef(_)
                | TypeView::Unknown => Err(SemanticErrorView::NotVariable(id)),
                _ => Ok(symbol),
            },
        }
    }

    /// The parameter types and the return type of the function or coroutine
    /// called `id`.
    pub open spec fn lookup_func_or_cor(self, id: StringId) -> Result<
        (Seq<TypeView>, TypeView),
        SemanticErrorView,
    > {
        match self.lookup(seq![Element::Id(id)]) {
            Err(e) => Err(e),
            Ok((symbol, _)) => match symbol.ty {
                TypeView::FunctionDef(params, ret) => Ok((params, *ret)),
                TypeView::CoroutineDef(params, ret) => Ok((params, *ret)),
                _ => Err(SemanticErrorView::NotRoutine(id)),
            },
        }
    }

    /// The parameter types and the return type of the coroutine called
    /// `id`.
    pub open spec fn lookup_coroutine(self, id: StringId) -> Result<
        (Seq<TypeView>, TypeView),
        SemanticErrorView,
    > {
        match self.lookup(seq![Element::Id(id)]) {
            Err(e) => Err(e),
            Ok((symbol, _)) => match symbol.ty {
                TypeView::CoroutineDef(params, ret) => Ok((params, *ret)),
                _ => Err(SemanticErrorView::NotCoroutine(id)),
            },
        }
    }
}

/// The path of a module is canonical.
pub proof fn lemma_path_to_module_is_canonical(scopes: Seq<SymbolTableView>, upto: int)
    ensures
        is_canonical(path_to_module(scopes, upto)),
    decreases upto,
{
    if 0 < upto <= scopes.len() {
        lemma_path_to_module_is_canonical(scopes, upto - 1);
    }
}

/// Once a routine has been searched without success, a name that no module
/// declares is not found, whatever the other routines and the blocks below
/// declare.
pub proof fn lemma_sealed_search_sees_modules_only(
    scopes: Seq<SymbolTableView>,
    name: StringId,
    i: int,
)
    requires
        forall|j: int| 0 <= j <= i && j < scopes.len() && scopes[j].scope is Module
            ==> scopes[j].get(
            name,
        ) is None,
    ensures
        search(scopes, name, i, true) is None,
    decreases i + 1,
{
    if 0 <= i < scopes.len() {
        lemma_sealed_search_sees_modules_only(scopes, name, i - 1);
    }
}

/// Routines are isolated from each other: a name that is declared neither
/// in the innermost routine, nor in the blocks inside it, nor in a module,
/// is not found from inside that routine, even where another routine or a
/// block around it declares the name.
pub proof fn lemma_routine_isolation(
    scopes: Seq<SymbolTableView>,
    name: StringId,
    routine: int,
    i: int,
    sealed: bool,
)
    requires
        0 <= routine <= i < scopes.len(),
        scopes[routine].scope is Routine,
        forall|j: int| routine <= j <= i ==> scopes[j].get(name) is None,
        forall|j: int| 0 <= j < routine && scopes[j].scope is Module
            ==> scopes[j].get(name) is None,
    ensures
        search(scopes, name, i, sealed) is None,
    decreases i,
{
    if i == routine {
        lemma_sealed_search_sees_modules_only(scopes, name, i - 1);
    } else {
        lemma_routine_isolation(scopes, name, routine, i - 1, sealed || scopes[i].scope is Routine);
    }
}

/// An inner declaration shadows the outer ones: a name that the head
/// declares stands for the symbol of the head.
pub proof fn lemma_head_shadows(stack: ScopeStackView, name: StringId)
    requires
        stack.head.get(name) is Some,
    ensures
        stack.symbol(name) is Some,
        stack.symbol(name).unwrap().0 == stack.head.get(name).unwrap(),
{
}

/// Leaving a scope restores the scopes around it exactly as they were when
/// it was entered, whatever was declared inside: a declaration in a nested
/// scope does not alter the symbols of the enclosing scopes.
pub proof fn lemma_enter_leave(
    stack: ScopeStackView,
    entered: SymbolTableView,
    left: SymbolTableView,
)
    ensures
        stack.enter(entered).with_head(left).leave() == stack,
{
    assert(stack.stack.push(stack.head).drop_last() =~= stack.stack);
}

/// A type that is written in the current module has one canonical form,
/// whether it is made canonical as a local reference or, with the path of
/// the current module derived again, as a reference from elsewhere.
pub proof fn lemma_local_reference_is_nonlocal_from_here(
    stack: ScopeStackView,
    parent: Seq<Element>,
    ty: TypeView,
)
    requires
        parent == path_to_module(stack.scopes(), stack.scopes().len() as int),
    ensures
        canonize_type(ty, stack.to_path()) == canonize_type(ty, parent),
        is_canonical(parent),
{
    lemma_path_to_module_is_canonical(stack.scopes(), stack.scopes().len() as int);
}

impl<'a> View for SymbolTableScopeStack<'a> {
    type V = ScopeStackView;

    closed spec fn view(&self) -> ScopeStackView {
        ScopeStackView {
            root: self.root@,
            stack: Seq::new(self.stack@.len(), |i: int| self.stack@[i]@),
            head: self.head@,
            imported: Seq::new(
                self.imported_symbols@.len(),
                |i: int| (self.imported_symbols@[i].0@, self.imported_symbols@[i].1@),
            ),
        }
    }
}

impl<'a> SymbolTableScopeStack<'a> {
    /// The stack before any scope was entered: its head is an empty block.
    pub fn new(root: &'a Module<SemanticContext>) -> (r: SymbolTableScopeStack<'a>)
        ensures
            r@ == (ScopeStackView {
                root: root@,
                stack: Seq::empty(),
                head: SymbolTableView::empty(ScopeType::Local),
                imported: Seq::empty(),
            }),
            r@.distinct_imports(),
    {
        let r = SymbolTableScopeStack {
            root,
            stack: Vec::new(),
            head: SymbolTable::new(),
            imported_symbols: Vec::new(),
        };
        assert(r@.stack =~= Seq::empty());
        assert(r@.imported =~= Seq::empty());
        r
    }

    /// The root of the tree that is being analysed.
    pub fn get_root(&self) -> (r: &'a Module<SemanticContext>)
        ensures
            r@ == self@.root,
    {
        self.root
    }

    /// The position of the imported symbol with the given path.
    fn import_position(&self, path: &Path) -> (r: Option<usize>)
        ensures
            r is Some <==> first_import(self@.imported, path@, 0) is Some,
            r is Some ==> r.unwrap() == first_import(self@.imported, path@, 0).unwrap()
                && r.unwrap() < self.imported_symbols.len(),
    {
        let mut i: usize = 0;
        while i < self.imported_symbols.len()
            invariant
                0 <= i <= self.imported_symbols.len(),
                first_import(self@.imported, path@, 0) == first_import(
                    self@.imported,
                    path@,
                    i as int,
                ),
            decreases self.imported_symbols.len() - i,
        {
            if self.imported_symbols[i].0.same(path) {
                return Some(i);
            }
            i += 1;
        }
        None
    }

    /// Puts `symbol` among the imported symbols under `path` and returns the
    /// symbol that was there before.
    fn import_symbol(&mut self, path: Path, symbol: Symbol) -> (r: Option<Symbol>)
        ensures
            old(self)@.distinct_imports() ==> final(self)@.distinct_imports(),
            final(self)@ == old(self)@.import(path@, symbol@),
            match r {
                Some(s) => old(self)@.imported_symbol(path@) == Some(s@),
                None => old(self)@.imported_symbol(path@) is None,
            },
    {
        proof {
            if self@.distinct_imports() {
                lemma_import_keeps_paths_distinct(self@, path@, symbol@);
            }
        }
        match self.import_position(&path) {
            Some(i) => {
                let ghost before = self@;
                let ghost added = (path@, symbol@);
                let mut entry = (path, symbol);
                core::mem::swap(&mut self.imported_symbols[i], &mut entry);
                assert(self@.imported =~= before.imported.update(i as int, added));
                Some(entry.1)
            },
            None => {
                let ghost before = self@;
                let ghost added = (path@, symbol@);
                self.imported_symbols.push((path, symbol));
                assert(self@.imported =~= before.imported.push(added));
                None
            },
        }
    }

    /// Makes a function of another compilation unit known, so that calls to
    /// it can be checked.  Returns the symbol that was imported under the
    /// same path before, if there was one.  A path that does not end in a
    /// name imports nothing.
    pub fn import_function(&mut self, canonical_name: Path, params: Vec<Type>, return_ty: Type)
        -> (r: Option<Symbol>)
        ensures
            old(self)@.distinct_imports() ==> final(self)@.distinct_imports(),
            match item_of(canonical_name@) {
                Some(item) => {
                    &&& final(self)@ == old(self)@.import(
                        canonical_name@,
                        SymbolView {
                            name: item,
                            ty: TypeView::FunctionDef(types_view(params), Box::new(return_ty@)),
                            mutable: false,
                            is_extern: false,
                        },
                    )
                    &&& match r {
                        Some(s) => old(self)@.imported_symbol(canonical_name@) == Some(s@),
                        None => old(self)@.imported_symbol(canonical_name@) is None,
                    }
                },
                None => final(self)@ == old(self)@ && r is None,
            },
    {
        match canonical_name.item() {
            Some(item) => {
                let symbol = Symbol {
                    name: item,
                    ty: Type::FunctionDef(params, Box::new(return_ty)),
                    mutable: false,
                    is_extern: false,
                };
                self.import_symbol(canonical_name, symbol)
            },
            None => None,
        }
    }

    /// Makes a structure of another compilation unit known under its
    /// canonical path, given the names and types of its fields.  A path that
    /// does not end in a name imports nothing.
    pub fn import_struct(&mut self, canonical_name: Path, fields: Vec<(StringId, Type)>) -> (r:
        Option<Symbol>)
        ensures
            old(self)@.distinct_imports() ==> final(self)@.distinct_imports(),
            match item_of(canonical_name@) {
                Some(item) => {
                    &&& final(self)@ == old(self)@.import(
                        canonical_name@,
                        SymbolView {
                            name: item,
                            ty: TypeView::StructDef(crate::ast::ty::fields_view(fields)),
                            mutable: false,
                            is_extern: false,
                        },
                    )
                    &&& match r {
                        Some(s) => old(self)@.imported_symbol(canonical_name@) == Some(s@),
                        None => old(self)@.imported_symbol(canonical_name@) is None,
                    }
                },
                None => final(self)@ == old(self)@ && r is None,
            },
    {
        match canonical_name.item() {
            Some(item) => {
                let symbol = Symbol {
                    name: item,
                    ty: Type::StructDef(fields),
                    mutable: false,
                    is_extern: false,
                };
                self.import_symbol(canonical_name, symbol)
            },
            None => None,
        }
    }

    /// Makes a structure of another compilation unit known under its
    /// canonical path.  Returns the symbol that was imported under the same
    /// path before, if there was one.
    pub fn import_structdef(&mut self, sd: &StructDef<SemanticContext>) -> (r: Option<Symbol>)
        ensures
            old(self)@.distinct_imports() ==> final(self)@.distinct_imports(),
            match item_of(sd@.annotations.canonical_path) {
                Some(item) => {
                    &&& final(self)@ == old(self)@.import(
                        sd@.annotations.canonical_path,
                        SymbolView {
                            name: item,
                            ty: TypeView::StructDef(parameter_fields(sd@.fields)),
                            mutable: false,
                            is_extern: false,
                        },
                    )
                    &&& match r {
                        Some(s) => old(self)@.imported_symbol(sd@.annotations.canonical_path)
                            == Some(s@),
                        None => old(self)@.imported_symbol(sd@.annotations.canonical_path) is None,
                    }
                },
                None => final(self)@ == old(self)@ && r is None,
            },
    {
        let canon_path = sd.annotations.canonical_path();
        match canon_path.item() {
            Some(item) => {
                let fields = field_types(&sd.fields);
                let symbol = Symbol {
                    name: item,
                    ty: Type::StructDef(fields),
                    mutable: false,
                    is_extern: false,
                };
                self.import_symbol(canon_path.clone(), symbol)
            },
            None => None,
        }
    }

    /// Enters a scope: the head goes onto the stack and `sym` becomes the
    /// head.
    pub fn enter_scope(&mut self, sym: &SymbolTable)
        ensures
            final(self)@ == old(self)@.enter(sym@),
    {
        let ghost before = self@;
        let mut entered = sym.clone();
        core::mem::swap(&mut self.head, &mut entered);
        self.stack.push(entered);
        assert(self@.stack =~= before.stack.push(before.head));
    }

    /// Leaves the scope of the head: returns its table, with the symbols
    /// that were declared while it was the head, and makes the table below
    /// it the head again.
    pub fn leave_scope(&mut self) -> (r: SymbolTable)
        requires
            old(self)@.stack.len() > 0,
        ensures
            r@ == old(self)@.head,
            final(self)@ == old(self)@.leave(),
    {
        let ghost before = self@;
        let mut top = self.stack.pop().unwrap();
        core::mem::swap(&mut self.head, &mut top);
        assert(self@.stack =~= before.stack.drop_last());
        top
    }

    /// The number of scopes below the head.
    pub fn depth(&self) -> (r: usize)
        ensures
            r == self@.stack.len(),
    {
        self.stack.len()
    }

    /// The name of the innermost routine that the head is in.
    pub fn get_current_fn(&self) -> (r: Option<StringId>)
        ensures
            r == self@.current_fn(),
    {
        if let ScopeType::Routine { name } = self.head.scope_type() {
            return Some(*name);
        }
        let mut i: usize = self.stack.len();
        while i > 0
            invariant
                0 <= i <= self.stack.len(),
                self@.current_fn() == current_routine(self@.scopes(), i - 1),
            decreases i,
        {
            i -= 1;
            if let ScopeType::Routine { name } = self.stack[i].scope_type() {
                return Some(*name);
            }
        }
        None
    }

    /// Declares a name in the scope of the head.  Fails with
    /// `AlreadyDeclared` where that scope declares the name already;
    /// shadowing a name of an enclosing scope is allowed.
    pub fn add(&mut self, name: StringId, ty: Type, mutable: bool, is_extern: bool) -> (r: Result<
        (),
        SemanticError,
    >)
        ensures
            match r {
                Ok(_) => old(self)@.head.add(SymbolView { name, ty: ty@, mutable, is_extern })
                    == Ok::<SymbolTableView, SemanticErrorView>(final(self)@.head) && final(self)@
                    == old(self)@.with_head(final(self)@.head),
                Err(e) => old(self)@.head.add(SymbolView { name, ty: ty@, mutable, is_extern })
                    == Err::<SymbolTableView, SemanticErrorView>(e@) && final(self)@ == old(self)@,
            },
    {
        self.head.add(name, ty, mutable, is_extern)
    }

    /// The canonical path of the innermost module among the lowest `upto`
    /// scopes of the stack, and the head too where `with_head` is set.
    fn path_of_scopes(&self, upto: usize, with_head: bool) -> (r: Path)
        requires
            upto <= self@.stack.len(),
            with_head ==> upto == self@.stack.len(),
        ensures
            r@ == path_to_module(
                self@.scopes(),
                if with_head {
                    upto + 1
                } else {
                    upto as int
                },
            ),
    {
        let mut path = Path::new();
        path.push_element(Element::CanonicalRoot);
        assert(path@ =~= seq![Element::CanonicalRoot]);
        let mut i: usize = 0;
        while i < upto
            invariant
                0 <= i <= upto <= self.stack.len(),
                self@.stack.len() == self.stack.len(),
                path@ == path_to_module(self@.scopes(), i as int),
            decreases upto - i,
        {
            if let ScopeType::Module { name } = self.stack[i].scope_type() {
                path.push(*name);
            }
            i += 1;
        }
        if with_head {
            if let ScopeType::Module { name } = self.head.scope_type() {
                path.push(*name);
            }
        }
        path
    }

    /// The canonical path of the module that the head is in: the root
    /// sentinel, followed by the name of every module scope from the bottom
    /// of the stack to the head.
    pub fn to_path(&self) -> (r: Option<Path>)
        ensures
            r is Some,
            r.unwrap()@ == self@.to_path(),
            is_canonical(r.unwrap()@),
    {
        proof {
            lemma_path_to_module_is_canonical(self@.scopes(), self@.scopes().len() as int);
        }
        Some(self.path_of_scopes(self.stack.len(), true))
    }

    /// Converts `path` to its canonical form, as seen from the module that
    /// the head is in.
    pub fn to_canonical(&self, path: &Path) -> (r: Result<Path, SemanticError>)
        ensures
            match r {
                Ok(p) => canonical(path@, self@.to_path()) == Ok::<Seq<Element>, PathError>(p@),
                Err(e) => canonical(path@, self@.to_path()) is Err && e@
                    == SemanticErrorView::PathTooSuper,
            },
    {
        let current = self.to_path().unwrap();
        match path.to_canonical(&current) {
            Ok(p) => Ok(p),
            Err(e) => Err(SemanticError::from_path_error(e)),
        }
    }

    /// Searches the scopes, innermost first, for a symbol called `name`.
    fn get_symbol(&self, name: StringId) -> (r: Option<(&Symbol, Path)>)
        ensures
            match r {
                Some((s, p)) => self@.symbol(name) == Some((s@, p@)),
                None => self@.symbol(name) is None,
            },
    {
        if let Some(s) = self.head.get(name) {
            let mut p = self.path_of_scopes(self.stack.len(), true);
            p.push(name);
            return Some((s, p));
        }
        let mut sealed = match self.head.scope_type() {
            ScopeType::Routine { .. } => true,
            _ => false,
        };
        let mut i: usize = self.stack.len();
        while i > 0
            invariant
                0 <= i <= self.stack.len(),
                self@.stack.len() == self.stack.len(),
                search(self@.scopes(), name, self@.scopes().len() - 1, false) == search(
                    self@.scopes(),
                    name,
                    i - 1,
                    sealed,
                ),
            decreases i,
        {
            i -= 1;
            let table = &self.stack[i];
            let visible = !sealed || match table.scope_type() {
                ScopeType::Module { .. } => true,
                _ => false,
            };
            if visible {
                if let Some(s) = table.get(name) {
                    let mut p = self.path_of_scopes(i + 1, false);
                    p.push(name);
                    return Some((s, p));
                }
            }
            if let ScopeType::Routine { .. } = table.scope_type() {
                sealed = true;
            }
        }
        None
    }

    /// The symbol of the project's item with the given canonical path.
    fn get_item(&self, canon_path: &Path) -> (r: Option<&'a Symbol>)
        ensures
            match r {
                Some(s) => self@.project_symbol(canon_path@) == Some(s@),
                None => self@.project_symbol(canon_path@) is None,
            },
    {
        match canon_path.item() {
            Some(item) => {
                let parent = canon_path.parent();
                match self.root.go_to_module(&parent) {
                    Some(m) => m.annotations.sym().get(item),
                    None => None,
                }
            },
            None => None,
        }
    }

    /// The imported symbol with the given canonical path.
    fn get_imported_symbol(&self, canonical_name: &Path) -> (r: Option<&Symbol>)
        ensures
            match r {
                Some(s) => self@.imported_symbol(canonical_name@) == Some(s@),
                None => self@.imported_symbol(canonical_name@) is None,
            },
    {
        match self.import_position(canonical_name) {
            Some(i) => Some(&self.imported_symbols[i].1),
            None => None,
        }
    }

    /// Finds the symbol that `path` stands for and its canonical path.  The
    /// path may be relative or canonical.
    ///
    /// A single name is searched for in the scopes, innermost first; the
    /// search sees the variables of the innermost routine and the items of
    /// the modules around it.  A longer path is canonicalized and looked up
    /// among the items of the project and the imported symbols.  An
    /// external function is reported under its bare name.
    pub fn lookup_symbol_by_path(&self, path: &Path) -> (r: Result<(&Symbol, Path), SemanticError>)
        ensures
            match r {
                Ok((s, p)) => self@.lookup(path@) == Ok::<
                    (SymbolView, Seq<Element>),
                    SemanticErrorView,
                >((s@, p@)),
                Err(e) => self@.lookup(path@) == Err::<
                    (SymbolView, Seq<Element>),
                    SemanticErrorView,
                >(e@),
            },
    {
        let found: (&Symbol, Path) = if path.len() > 1 {
            let canon_path = match self.to_canonical(path) {
                Ok(p) => p,
                Err(e) => {
                    return Err(e);
                },
            };
            let project_symbol = self.get_item(&canon_path);
            let imported_symbol = self.get_imported_symbol(&canon_path);
            match (project_symbol, imported_symbol) {
                (Some(ps), None) => (ps, canon_path),
                (None, Some(is)) => (is, canon_path),
                (Some(_), Some(_)) => {
                    return Err(SemanticError::MultipleDefs(path.clone()));
                },
                (None, None) => {
                    return Err(SemanticError::PathNotFound(path.clone(), canon_path));
                },
            }
        } else if path.len() == 1 {
            match path.get(0) {
                Some(Element::Id(name)) => match self.get_symbol(name) {
                    Some(sp) => sp,
                    None => {
                        return Err(SemanticError::NotDefined(name));
                    },
                },
                _ => {
                    return Err(SemanticError::PathNotValid);
                },
            }
        } else {
            return Err(SemanticError::EmptyPath);
        };
        let (s, p) = found;
        if s.is_extern {
            let mut bare = Path::new();
            bare.push(s.name);
            assert(bare@ =~= seq![Element::Id(s.name)]);
            Ok((s, bare))
        } else {
            Ok((s, p))
        }
    }

    /// The path that stands for a plain name.
    fn plain(id: StringId) -> (r: Path)
        ensures
            r@ == seq![Element::Id(id)],
    {
        let mut p = Path::new();
        p.push(id);
        assert(p@ =~= seq![Element::Id(id)]);
        p
    }

    /// Finds the variable called `id` in the scopes that the head can see.
    /// A name that stands for a routine, a structure or an external
    /// function is no variable.
    pub fn lookup_var(&self, id: StringId) -> (r: Result<&Symbol, SemanticError>)
        ensures
            match r {
                Ok(s) => self@.lookup_var(id) == Ok::<SymbolView, SemanticErrorView>(s@),
                Err(e) => self@.lookup_var(id) == Err::<SymbolView, SemanticErrorView>(e@),
            },
    {
        let path = Self::plain(id);
        match self.lookup_symbol_by_path(&path) {
            Err(e) => Err(e),
            Ok((symbol, _)) => match symbol.ty {
                Type::FunctionDef(..)
                | Type::CoroutineDef(..)
                | Type::ExternDecl(..)
                | Type::StructDef(_)
                | Type::Unknown => Err(SemanticError::NotVariable(id)),
                _ => Ok(symbol),
            },
        }
    }

    /// Finds the function or coroutine called `id` and returns the types of
    /// its parameters and of its result.
    pub fn lookup_func_or_cor(&self, id: StringId) -> (r: Result<(&Vec<Type>, &Type),
        SemanticError>)
        ensures
            match r {
                Ok((params, ret)) => self@.lookup_func_or_cor(id) == Ok::<
                    (Seq<TypeView>, TypeView),
                    SemanticErrorView,
                >((types_view(*params), ret@)),
                Err(e) => self@.lookup_func_or_cor(id) == Err::<
                    (Seq<TypeView>, TypeView),
                    SemanticErrorView,
                >(e@),
            },
    {
        let path = Self::plain(id);
        match self.lookup_symbol_by_path(&path) {
            Err(e) => Err(e),
            Ok((symbol, _)) => match &symbol.ty {
                Type::CoroutineDef(params, p) => Ok((params, &**p)),
                Type::FunctionDef(params, p) => Ok((params, &**p)),
                _ => Err(SemanticError::NotRoutine(id)),
            },
        }
    }

    /// Finds the coroutine called `id` and returns the types of its
    /// parameters and of the values that it yields.
    pub fn lookup_coroutine(&self, id: StringId) -> (r: Result<(&Vec<Type>, &Type), SemanticError>)
        ensures
            match r {
                Ok((params, ret)) => self@.lookup_coroutine(id) == Ok::<
                    (Seq<TypeView>, TypeView),
                    SemanticErrorView,
                >((types_view(*params), ret@)),
                Err(e) => self@.lookup_coroutine(id) == Err::<
                    (Seq<TypeView>, TypeView),
                    SemanticErrorView,
                >(e@),
            },
    {
        let path = Self::plain(id);
        match self.lookup_symbol_by_path(&path) {
            Err(e) => Err(e),
            Ok((symbol, _)) => match &symbol.ty {
                Type::CoroutineDef(params, p) => Ok((params, &**p)),
                _ => Err(SemanticError::NotCoroutine(id)),
            },
        }
    }

    /// Makes the references to named types in `ty` canonical, where `ty` was
    /// written in the module `parent_path` and not in the current one: the
    /// signature of a routine that is called from elsewhere, say.
    pub fn canonize_nonlocal_type_ref(&self, parent_path: &Path, ty: &Type) -> (r: Result<
        Type,
        SemanticError,
    >)
        requires
            is_canonical(parent_path@),
        ensures
            match r {
                Ok(t) => canonize_type(ty@, parent_path@) == Ok::<TypeView, SemanticErrorView>(t@),
                Err(e) => canonize_type(ty@, parent_path@) == Err::<TypeView, SemanticErrorView>(
                    e@,
                ),
            },
    {
        canonize_type_ref(parent_path, ty)
    }

    /// Makes the references to named types in `ty` canonical, where `ty` was
    /// written in the module that the head is in.
    pub fn canonize_local_type_ref(&self, ty: &Type) -> (r: Result<Type, SemanticError>)
        ensures
            match r {
                Ok(t) => canonize_type(ty@, self@.to_path()) == Ok::<TypeView, SemanticErrorView>(
                    t@,
                ),
                Err(e) => canonize_type(ty@, self@.to_path()) == Err::<
                    TypeView,
                    SemanticErrorView,
                >(e@),
            },
    {
        let current = self.to_path().unwrap();
        canonize_type_ref(&current, ty)
    }
}

/// The names and types of a list of fields.
pub fn field_types(fields: &Vec<Parameter<SemanticContext>>) -> (r: Vec<(StringId, Type)>)
    ensures
        crate::ast::ty::fields_view(r) == parameter_fields(
            crate::ast::parameter::parameters_view(*fields),
        ),
{
    let mut out: Vec<(StringId, Type)> = Vec::new();
    let mut i: usize = 0;
    while i < fields.len()
        invariant
            0 <= i <= fields.len(),
            out.len() == i,
            forall|j: int| 0 <= j < i ==> out@[j].0 == fields@[j].name && out@[j].1@
                == fields@[j].ty@,
        decreases fields.len() - i,
    {
        out.push((fields[i].name, fields[i].ty.clone()));
        i += 1;
    }
    assert(crate::ast::ty::fields_view(out) =~= parameter_fields(
        crate::ast::parameter::parameters_view(*fields),
    ));
    out
}

} // verus!
