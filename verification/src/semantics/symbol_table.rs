//! Symbols and the tables that hold the symbols of one scope.
use crate::ast::ty::{Type, TypeView};
use crate::semantics::error::{SemanticError, SemanticErrorView};
use crate::stringtable::StringId;
use vstd::prelude::*;

verus! {

/// The kind of scope that a table belongs to.  Modules and routines are the
/// boundaries of the search for a plain name.
#[derive(Clone, Copy, Debug, PartialEq, Eq, Structural)]
pub enum ScopeType {
    Local,
    Routine { name: StringId },
    Module { name: StringId },
}

impl ScopeType {
    pub open spec fn spec_is_boundary(self) -> bool {
        !(self is Local)
    }

    /// Whether the scope is that of a routine or of a module.
    pub fn is_boundary(&self) -> (r: bool)
        ensures
            r == self.spec_is_boundary(),
    {
        match self {
            ScopeType::Local => false,
            ScopeType::Routine { .. } | ScopeType::Module { .. } => true,
        }
    }
}

/// A declared name with its type.  A symbol is never changed once it is in
/// a table.
#[derive(Debug, PartialEq)]
pub struct Symbol {
    pub name: StringId,
    pub ty: Type,
    pub mutable: bool,
    pub is_extern: bool,
}

pub ghost struct SymbolView {
    pub name: StringId,
    pub ty: TypeView,
    pub mutable: bool,
    pub is_extern: bool,
}

impl View for Symbol {
    type V = SymbolView;

    open spec fn view(&self) -> SymbolView {
        SymbolView {
            name: self.name,
            ty: self.ty@,
            mutable: self.mutable,
            is_extern: self.is_extern,
        }
    }
}

impl Clone for Symbol {
    fn clone(&self) -> (r: Symbol)
        ensures
            r@ == self@,
    {
        Symbol {
            name: self.name,
            ty: self.ty.clone(),
            mutable: self.mutable,
            is_extern: self.is_extern,
        }
    }
}

/// The symbols of one scope, in the order of their declaration.
#[derive(Debug, PartialEq)]
pub struct SymbolTable {
    ty: ScopeType,
    sym: Vec<Symbol>,
}

pub ghost struct SymbolTableView {
    pub scope: ScopeType,
    pub symbols: Seq<SymbolView>,
}

/// The first symbol called `name` at or after position `i`.
pub open spec fn first_symbol(symbols: Seq<SymbolView>, name: StringId, i: int) -> Option<
    SymbolView,
>
    decreases symbols.len() - i,
{
    if i < 0 || i >= symbols.len() {
        None
    } else if symbols[i].name == name {
        Some(symbols[i])
    } else {
        first_symbol(symbols, name, i + 1)
    }
}

impl SymbolTableView {
    /// The table of a scope of the given kind that declares nothing yet.
    pub open spec fn empty(scope: ScopeType) -> SymbolTableView {
        SymbolTableView { scope, symbols: Seq::empty() }
    }

    /// The symbol called `name`.
    pub open spec fn get(self, name: StringId) -> Option<SymbolView> {
        first_symbol(self.symbols, name, 0)
    }

    /// The table after `symbol` was declared in it, or the error that the
    /// declaration causes: a scope declares a name once.
    pub open spec fn add(self, symbol: SymbolView) -> Result<SymbolTableView, SemanticErrorView> {
        if self.get(symbol.name) is Some {
            Err(SemanticErrorView::AlreadyDeclared(symbol.name))
        } else {
            Ok(SymbolTableView { symbols: self.symbols.push(symbol), ..self })
        }
    }

    /// No two symbols of the table have the same name.
    pub open spec fn unique_names(self) -> bool {
        forall|i: int, j: int|
            0 <= i < j < self.symbols.len() ==> self.symbols[i].name != self.symbols[j].name
    }
}

/// A search that finds nothing has seen no symbol of that name.
pub proof fn lemma_first_symbol_none(symbols: Seq<SymbolView>, name: StringId, i: int)
    requires
        0 <= i,
        first_symbol(symbols, name, i) is None,
    ensures
        forall|j: int| i <= j < symbols.len() ==> symbols[j].name != name,
    decreases symbols.len() - i,
{
    if i < symbols.len() {
        lemma_first_symbol_none(symbols, name, i + 1);
    }
}

/// Declaring a symbol in a table whose names are unique leaves them unique.
pub proof fn lemma_add_keeps_names_unique(table: SymbolTableView, symbol: SymbolView)
    requires
        table.unique_names(),
        table.add(symbol) is Ok,
    ensures
        table.add(symbol)->Ok_0.unique_names(),
{
    lemma_first_symbol_none(table.symbols, symbol.name, 0);
}

impl View for SymbolTable {
    type V = SymbolTableView;

    closed spec fn view(&self) -> SymbolTableView {
        SymbolTableView { scope: self.ty, symbols: Seq::new(self.sym@.len(),
            |i: int| self.sym@[i]@) }
    }
}

impl Clone for SymbolTable {
    fn clone(&self) -> (r: SymbolTable)
        ensures
            r@ == self@,
    {
        let mut sym: Vec<Symbol> = Vec::new();
        let mut i: usize = 0;
        while i < self.sym.len()
            invariant
                0 <= i <= self.sym.len(),
                sym.len() == i,
                forall|j: int| 0 <= j < i ==> sym@[j]@ == self.sym@[j]@,
            decreases self.sym.len() - i,
        {
            let s = self.sym[i].clone();
            sym.push(s);
            i += 1;
        }
        let r = SymbolTable { ty: self.ty, sym };
        assert(r@.symbols =~= self@.symbols);
        r
    }
}

impl SymbolTable {
    /// The empty table of a block.
    pub fn new() -> (r: SymbolTable)
        ensures
            r@ == SymbolTableView::empty(ScopeType::Local),
    {
        let r = SymbolTable { ty: ScopeType::Local, sym: Vec::new() };
        assert(r@.symbols =~= Seq::empty());
        r
    }

    /// The empty table of the routine called `name`.
    pub fn new_routine(name: StringId) -> (r: SymbolTable)
        ensures
            r@ == SymbolTableView::empty(ScopeType::Routine { name }),
    {
        let r = SymbolTable { ty: ScopeType::Routine { name }, sym: Vec::new() };
        assert(r@.symbols =~= Seq::empty());
        r
    }

    /// The empty table of the module called `name`.
    pub fn new_module(name: StringId) -> (r: SymbolTable)
        ensures
            r@ == SymbolTableView::empty(ScopeType::Module { name }),
    {
        let r = SymbolTable { ty: ScopeType::Module { name }, sym: Vec::new() };
        assert(r@.symbols =~= Seq::empty());
        r
    }

    pub fn scope_type(&self) -> (r: &ScopeType)
        ensures
            *r == self@.scope,
    {
        &self.ty
    }

    /// The number of symbols in the table.
    pub fn size(&self) -> (r: usize)
        ensures
            r == self@.symbols.len(),
    {
        self.sym.len()
    }

    /// The symbols of the table, in the order of their declaration.
    pub fn table(&self) -> (r: &Vec<Symbol>)
        ensures
            r@.len() == self@.symbols.len(),
            forall|i: int| 0 <= i < r@.len() ==> r@[i]@ == self@.symbols[i],
    {
        &self.sym
    }

    /// The symbol called `name`.
    pub fn get(&self, name: StringId) -> (r: Option<&Symbol>)
        ensures
            r is Some <==> self@.get(name) is Some,
            r is Some ==> r.unwrap()@ == self@.get(name).unwrap(),
    {
        let mut i: usize = 0;
        while i < self.sym.len()
            invariant
                0 <= i <= self.sym.len(),
                self@.get(name) == first_symbol(self@.symbols, name, i as int),
            decreases self.sym.len() - i,
        {
            if self.sym[i].name == name {
                return Some(&self.sym[i]);
            }
            i += 1;
        }
        None
    }

    /// Declares a name.  Fails with `AlreadyDeclared` where this table holds
    /// a symbol of that name already; the table is then left as it was.
    pub fn add(&mut self, name: StringId, ty: Type, mutable: bool, is_extern: bool) -> (r: Result<
        (),
        SemanticError,
    >)
        ensures
            match r {
                Ok(_) => old(self)@.add(SymbolView { name, ty: ty@, mutable, is_extern }) == Ok::<
                    SymbolTableView,
                    SemanticErrorView,
                >(final(self)@),
                Err(e) => old(self)@.add(SymbolView { name, ty: ty@, mutable, is_extern }) == Err::<
                    SymbolTableView,
                    SemanticErrorView,
                >(e@) && final(self)@ == old(self)@,
            },
    {
        if self.get(name).is_some() {
            Err(SemanticError::AlreadyDeclared(name))
        } else {
            self.sym.push(Symbol { name, ty, mutable, is_extern });
            assert(self@.symbols =~= old(self)@.symbols.push(
                SymbolView { name, ty: ty@, mutable, is_extern },
            ));
            Ok(())
        }
    }
}

} // verus!
