//! Items that are defined outside the compilation unit: in another module,
//! project or library.  Their definitions are read from the descriptions of
//! those artifacts and let the resolver check that the items are used
//! correctly.
use crate::ast::path::{item_of, Element, Path};
use crate::ast::ty::{
    clone_fields, clone_types, fields_view, types_view, Type, TypeView,
};
use crate::semantics::stack::{ScopeStackView, SymbolTableScopeStack};
use crate::semantics::symbol_table::SymbolView;
use crate::stringtable::StringId;
use vstd::prelude::*;

verus! {

/// The items imported from one artifact.
pub struct Import {
    /// The structures of the artifact.
    pub structs: Vec<ImportStructDef>,
    /// The functions of the artifact.
    pub funcs: Vec<ImportRoutineDef>,
}

/// The parameter list and the return type of a function that is defined
/// outside the compilation unit.
pub struct ImportRoutineDef {
    /// The canonical path of the routine.
    path: Path,
    /// The types of its parameters.
    params: Vec<Type>,
    /// The type of its result.
    ty: Type,
}

pub ghost struct ImportRoutineView {
    pub path: Seq<Element>,
    pub params: Seq<TypeView>,
    pub ty: TypeView,
}

impl View for ImportRoutineDef {
    type V = ImportRoutineView;

    closed spec fn view(&self) -> ImportRoutineView {
        ImportRoutineView { path: self.path@, params: types_view(self.params), ty: self.ty@ }
    }
}

impl ImportRoutineDef {
    pub fn new(path: Path, params: Vec<Type>, ty: Type) -> (r: ImportRoutineDef)
        ensures
            r@ == (ImportRoutineView { path: path@, params: types_view(params), ty: ty@ }),
    {
        ImportRoutineDef { path, params, ty }
    }

    pub fn path(&self) -> (r: &Path)
        ensures
            r@ == self@.path,
    {
        &self.path
    }

    pub fn params(&self) -> (r: &Vec<Type>)
        ensures
            types_view(*r) == self@.params,
    {
        &self.params
    }

    pub fn ty(&self) -> (r: &Type)
        ensures
            r@ == self@.ty,
    {
        &self.ty
    }
}

/// A structure that is defined outside the compilation unit.
pub struct ImportStructDef {
    /// The canonical path of the structure.
    path: Path,
    /// Its fields, in order.
    fields: Vec<(StringId, Type)>,
}

pub ghost struct ImportStructView {
    pub path: Seq<Element>,
    pub fields: Seq<(StringId, TypeView)>,
}

impl View for ImportStructDef {
    type V = ImportStructView;

    closed spec fn view(&self) -> ImportStructView {
        ImportStructView { path: self.path@, fields: fields_view(self.fields) }
    }
}

impl ImportStructDef {
    pub fn new(path: Path, fields: Vec<(StringId, Type)>) -> (r: ImportStructDef)
        ensures
            r@ == (ImportStructView { path: path@, fields: fields_view(fields) }),
    {
        ImportStructDef { path, fields }
    }

    pub fn path(&self) -> (r: &Path)
        ensures
            r@ == self@.path,
    {
        &self.path
    }

    pub fn fields(&self) -> (r: &Vec<(StringId, Type)>)
        ensures
            fields_view(*r) == self@.fields,
    {
        &self.fields
    }
}

pub ghost struct ImportView {
    pub structs: Seq<ImportStructView>,
    pub funcs: Seq<ImportRoutineView>,
}

impl View for Import {
    type V = ImportView;

    open spec fn view(&self) -> ImportView {
        ImportView {
            structs: Seq::new(self.structs@.len(), |i: int| self.structs@[i]@),
            funcs: Seq::new(self.funcs@.len(), |i: int| self.funcs@[i]@),
        }
    }
}

/// The views of a list of imports, in order.
pub open spec fn imports_view(imports: Vec<Import>) -> Seq<ImportView> {
    Seq::new(imports@.len(), |i: int| imports@[i]@)
}

/// The symbol that stands for an imported function.
pub open spec fn function_symbol(f: ImportRoutineView, name: StringId) -> SymbolView {
    SymbolView {
        name,
        ty: TypeView::FunctionDef(f.params, Box::new(f.ty)),
        mutable: false,
        is_extern: false,
    }
}

/// The symbol that stands for an imported structure.
pub open spec fn struct_symbol(s: ImportStructView, name: StringId) -> SymbolView {
    SymbolView { name, ty: TypeView::StructDef(s.fields), mutable: false, is_extern: false }
}

/// The stack after the functions from position `i` on were imported.  A
/// function whose path does not end in a name is passed over.
pub open spec fn import_functions(stack: ScopeStackView, funcs: Seq<ImportRoutineView>, i: int)
    -> ScopeStackView
    decreases funcs.len() - i,
{
    if i < 0 || i >= funcs.len() {
        stack
    } else {
        match item_of(funcs[i].path) {
            Some(name) => import_functions(
                stack.import(funcs[i].path, function_symbol(funcs[i], name)),
                funcs,
                i + 1,
            ),
            None => import_functions(stack, funcs, i + 1),
        }
    }
}

/// The stack after the structures from position `i` on were imported.
pub open spec fn import_structs(stack: ScopeStackView, structs: Seq<ImportStructView>, i: int)
    -> ScopeStackView
    decreases structs.len() - i,
{
    if i < 0 || i >= structs.len() {
        stack
    } else {
        match item_of(structs[i].path) {
            Some(name) => import_structs(
                stack.import(structs[i].path, struct_symbol(structs[i], name)),
                structs,
                i + 1,
            ),
            None => import_structs(stack, structs, i + 1),
        }
    }
}

/// The stack after the imports from position `i` on were made known: of
/// each import first its functions, then its structures.
pub open spec fn import_all(stack: ScopeStackView, imports: Seq<ImportView>, i: int)
    -> ScopeStackView
    decreases imports.len() - i,
{
    if i < 0 || i >= imports.len() {
        stack
    } else {
        import_all(
            import_structs(import_functions(stack, imports[i].funcs, 0), imports[i].structs, 0),
            imports,
            i + 1,
        )
    }
}

/// Importing changes the imported symbols only: the tree and the scopes of
/// the stack stay as they are.
pub proof fn lemma_import_keeps_scopes(stack: ScopeStackView, imports: Seq<ImportView>, i: int)
    ensures
        import_all(stack, imports, i).root == stack.root,
        import_all(stack, imports, i).stack == stack.stack,
        import_all(stack, imports, i).head == stack.head,
    decreases imports.len() - i,
{
    if 0 <= i < imports.len() {
        let a = import_functions(stack, imports[i].funcs, 0);
        let b = import_structs(a, imports[i].structs, 0);
        lemma_import_functions_keeps_scopes(stack, imports[i].funcs, 0);
        lemma_import_structs_keeps_scopes(a, imports[i].structs, 0);
        lemma_import_keeps_scopes(b, imports, i + 1);
    }
}

pub proof fn lemma_import_functions_keeps_scopes(
    stack: ScopeStackView,
    funcs: Seq<ImportRoutineView>,
    i: int,
)
    ensures
        import_functions(stack, funcs, i).root == stack.root,
        import_functions(stack, funcs, i).stack == stack.stack,
        import_functions(stack, funcs, i).head == stack.head,
    decreases funcs.len() - i,
{
    if 0 <= i < funcs.len() {
        match item_of(funcs[i].path) {
            Some(name) => lemma_import_functions_keeps_scopes(
                stack.import(funcs[i].path, function_symbol(funcs[i], name)),
                funcs,
                i + 1,
            ),
            None => lemma_import_functions_keeps_scopes(stack, funcs, i + 1),
        }
    }
}

pub proof fn lemma_import_structs_keeps_scopes(
    stack: ScopeStackView,
    structs: Seq<ImportStructView>,
    i: int,
)
    ensures
        import_structs(stack, structs, i).root == stack.root,
        import_structs(stack, structs, i).stack == stack.stack,
        import_structs(stack, structs, i).head == stack.head,
    decreases structs.len() - i,
{
    if 0 <= i < structs.len() {
        match item_of(structs[i].path) {
            Some(name) => lemma_import_structs_keeps_scopes(
                stack.import(structs[i].path, struct_symbol(structs[i], name)),
                structs,
                i + 1,
            ),
            None => lemma_import_structs_keeps_scopes(stack, structs, i + 1),
        }
    }
}

/// Makes every item of `imports` known to the stack.  The paths of the
/// imported symbols stay distinct.
pub fn inject<'a>(stack: &mut SymbolTableScopeStack<'a>, imports: &Vec<Import>)
    ensures
        final(stack)@ == import_all(old(stack)@, imports_view(*imports), 0),
        old(stack)@.distinct_imports() ==> final(stack)@.distinct_imports(),
{
    let mut i: usize = 0;
    while i < imports.len()
        invariant
            old(stack)@.distinct_imports() ==> stack@.distinct_imports(),
            0 <= i <= imports.len(),
            import_all(old(stack)@, imports_view(*imports), 0) == import_all(
                stack@,
                imports_view(*imports),
                i as int,
            ),
        decreases imports.len() - i,
    {
        let import = &imports[i];
        let ghost start = stack@;
        let mut j: usize = 0;
        while j < import.funcs.len()
            invariant
                old(stack)@.distinct_imports() ==> stack@.distinct_imports(),
                0 <= j <= import.funcs.len(),
                import_functions(start, import@.funcs, 0) == import_functions(
                    stack@,
                    import@.funcs,
                    j as int,
                ),
            decreases import.funcs.len() - j,
        {
            let f = &import.funcs[j];
            assert(import@.funcs[j as int] == f@);
            stack.import_function(f.path().clone(), clone_types(f.params()), f.ty().clone());
            j += 1;
        }
        let ghost middle = stack@;
        let mut k: usize = 0;
        while k < import.structs.len()
            invariant
                old(stack)@.distinct_imports() ==> stack@.distinct_imports(),
                0 <= k <= import.structs.len(),
                import_structs(middle, import@.structs, 0) == import_structs(
                    stack@,
                    import@.structs,
                    k as int,
                ),
            decreases import.structs.len() - k,
        {
            let s = &import.structs[k];
            assert(import@.structs[k as int] == s@);
            stack.import_struct(s.path().clone(), clone_fields(s.fields()));
            k += 1;
        }
        i += 1;
    }
}

} // verus!
