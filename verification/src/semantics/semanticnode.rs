//! The annotation that semantic analysis attaches to every node of the
//! syntax tree.
use crate::ast::expression::Expression;
use crate::ast::path::{Element, Path};
use crate::ast::statement::Statement;
use crate::ast::ty::{Type, TypeView};
use crate::semantics::error::{SemanticError, SemanticErrorView};
use crate::semantics::symbol_table::{ScopeType, SymbolTable, SymbolTableView, SymbolView};
use crate::source::span::{HasSpan, Span};
use crate::stringtable::StringId;
use vstd::prelude::*;

verus! {

/// What is known of a node: its id, the text it was read from, its type,
/// the symbols of the scope that it opens, and, for an item, its canonical
/// path.
#[derive(Debug, PartialEq)]
pub struct SemanticContext {
    id: u32,
    span: Span,
    ty: Type,
    sym: SymbolTable,
    canonical_path: Path,
}

pub ghost struct ContextView {
    pub id: u32,
    pub span: Span,
    pub ty: TypeView,
    pub sym: SymbolTableView,
    pub canonical_path: Seq<Element>,
}

impl ContextView {
    /// The annotation of a node that was not analysed yet and that opens a
    /// scope of the given kind.
    pub open spec fn fresh(id: u32, span: Span, scope: ScopeType, ty: TypeView) -> ContextView {
        ContextView {
            id,
            span,
            ty,
            sym: SymbolTableView::empty(scope),
            canonical_path: Seq::empty(),
        }
    }

    pub open spec fn with_type(self, ty: TypeView) -> ContextView {
        ContextView { ty, ..self }
    }

    pub open spec fn with_sym(self, sym: SymbolTableView) -> ContextView {
        ContextView { sym, ..self }
    }

    pub open spec fn with_path(self, canonical_path: Seq<Element>) -> ContextView {
        ContextView { canonical_path, ..self }
    }
}

impl View for SemanticContext {
    type V = ContextView;

    closed spec fn view(&self) -> ContextView {
        ContextView {
            id: self.id,
            span: self.span,
            ty: self.ty@,
            sym: self.sym@,
            canonical_path: self.canonical_path@,
        }
    }
}

impl Clone for SemanticContext {
    fn clone(&self) -> (r: SemanticContext)
        ensures
            r@ == self@,
    {
        SemanticContext {
            id: self.id,
            span: self.span,
            ty: self.ty.clone(),
            sym: self.sym.clone(),
            canonical_path: self.canonical_path.clone(),
        }
    }
}

impl HasSpan for SemanticContext {
    closed spec fn spec_span(&self) -> Span {
        self.span
    }

    fn span(&self) -> (r: Span) {
        self.span
    }
}

impl SemanticContext {
    /// The span of a context is the span of its view.
    pub proof fn lemma_span(&self)
        ensures
            self.spec_span() == self@.span,
    {
    }

    /// The context of a node that opens the scope of a block, or none.
    pub fn new_local(id: u32, span: Span, ty: Type) -> (r: SemanticContext)
        ensures
            r@ == ContextView::fresh(id, span, ScopeType::Local, ty@),
    {
        SemanticContext { id, span, ty, sym: SymbolTable::new(), canonical_path: Path::new() }
    }

    /// The context of the routine called `name`.
    pub fn new_routine(id: u32, span: Span, name: StringId, ty: Type) -> (r: SemanticContext)
        ensures
            r@ == ContextView::fresh(id, span, ScopeType::Routine { name }, ty@),
    {
        SemanticContext {
            id,
            span,
            ty,
            sym: SymbolTable::new_routine(name),
            canonical_path: Path::new(),
        }
    }

    /// The context of the module called `name`.
    pub fn new_module(id: u32, span: Span, name: StringId, ty: Type) -> (r: SemanticContext)
        ensures
            r@ == ContextView::fresh(id, span, ScopeType::Module { name }, ty@),
    {
        SemanticContext {
            id,
            span,
            ty,
            sym: SymbolTable::new_module(name),
            canonical_path: Path::new(),
        }
    }

    /// A copy of this context in which the type is `ty`.
    pub fn with_type(&self, ty: Type) -> (r: SemanticContext)
        ensures
            r@ == self@.with_type(ty@),
    {
        SemanticContext {
            id: self.id,
            span: self.span,
            ty,
            sym: self.sym.clone(),
            canonical_path: self.canonical_path.clone(),
        }
    }

    /// A copy of this context in which the symbol table is `sym`.
    pub fn with_sym(&self, sym: SymbolTable) -> (r: SemanticContext)
        ensures
            r@ == self@.with_sym(sym@),
    {
        SemanticContext {
            id: self.id,
            span: self.span,
            ty: self.ty.clone(),
            sym,
            canonical_path: self.canonical_path.clone(),
        }
    }

    pub fn id(&self) -> (r: u32)
        ensures
            r == self@.id,
    {
        self.id
    }

    /// The span of source text that the node was read from.
    pub fn span(&self) -> (r: Span)
        ensures
            r == self@.span,
    {
        self.span
    }

    /// The symbols of the scope that the node opens.
    pub fn sym(&self) -> (r: &SymbolTable)
        ensures
            r@ == self@.sym,
    {
        &self.sym
    }

    /// The type of the node.
    pub fn ty(&self) -> (r: &Type)
        ensures
            r@ == self@.ty,
    {
        &self.ty
    }

    pub fn canonical_path(&self) -> (r: &Path)
        ensures
            r@ == self@.canonical_path,
    {
        &self.canonical_path
    }

    pub fn set_canonical_path(&mut self, path: Path)
        ensures
            final(self)@ == old(self)@.with_path(path@),
    {
        self.canonical_path = path;
    }

    /// Declares a name in the scope that the node opens.
    pub fn add_symbol(&mut self, name: StringId, ty: Type, mutable: bool, is_extern: bool) -> (r:
        Result<(), SemanticError>)
        ensures
            match r {
                Ok(_) => old(self)@.sym.add(SymbolView { name, ty: ty@, mutable, is_extern })
                    == Ok::<SymbolTableView, SemanticErrorView>(final(self)@.sym) && final(self)@
                    == old(self)@.with_sym(final(self)@.sym),
                Err(e) => old(self)@.sym.add(SymbolView { name, ty: ty@, mutable, is_extern })
                    == Err::<SymbolTableView, SemanticErrorView>(e@) && final(self)@ == old(self)@,
            },
    {
        self.sym.add(name, ty, mutable, is_extern)
    }
}

/// An expression of an analysed tree.
pub type SemanticNode = Expression<SemanticContext>;

impl Expression<SemanticContext> {
    /// The type that the resolver gave to the expression.
    pub fn get_type(&self) -> (r: &Type)
        ensures
            r@ == self@.context().ty,
    {
        self.get_context().ty()
    }
}

impl Statement<SemanticContext> {
    /// The type that the resolver gave to the statement.
    pub fn get_type(&self) -> (r: &Type)
        ensures
            r@ == self@.context().ty,
    {
        self.get_metadata().ty()
    }
}

} // verus!
