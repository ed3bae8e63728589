use braid::ast::module::Module;
use braid::ast::path::{Element, Path};
use braid::ast::ty::Type;
use braid::semantics::error::SemanticError;
use braid::semantics::semanticnode::SemanticContext;
use braid::semantics::stack::SymbolTableScopeStack;
use braid::semantics::symbol_table::{ScopeType, SymbolTable};
use braid::source::span::Span;
use braid::stringtable::{StringId, StringTable};

fn root(table: &mut StringTable) -> Module<SemanticContext> {
    let test = table.insert("test".into());
    Module::new(test, SemanticContext::new_module(1, Span::zero(), test, Type::Unit))
}

fn path_of(names: &[StringId]) -> Path {
    let mut steps = vec![Element::CanonicalRoot];
    for n in names {
        steps.push(Element::Id(*n));
    }
    Path::from_elements(steps)
}

// The path of the current module always starts with the root sentinel, so
// the paths that these tests expect start with it too.

#[test]
fn test_empty_stack_to_path() {
    let mut table = StringTable::new();
    let m = root(&mut table);
    let mut stack = SymbolTableScopeStack::new(&m);
    let local = SymbolTable::new();
    stack.enter_scope(&local);
    let path = stack.to_path();
    assert_eq!(path, Some(path_of(&[])));
}

#[test]
fn test_one_module_stack_to_path() {
    let mut table = StringTable::new();
    let m = root(&mut table);
    let root_name = table.insert("root".into());
    let mut stack = SymbolTableScopeStack::new(&m);
    let sym = SymbolTable::new_module(root_name);
    stack.enter_scope(&sym);
    let local = SymbolTable::new();
    stack.enter_scope(&local);
    let path = stack.to_path().unwrap();
    let expected = path_of(&[root_name]);
    assert_eq!(path, expected);
}

#[test]
fn test_one_module_stack_module_current_to_path() {
    let mut table = StringTable::new();
    let m = root(&mut table);
    let root_name = table.insert("root".into());
    let inner = table.insert("inner".into());
    let mut stack = SymbolTableScopeStack::new(&m);
    let sym = SymbolTable::new_module(root_name);
    stack.enter_scope(&sym);
    let current = SymbolTable::new_module(inner);
    stack.enter_scope(&current);
    let path = stack.to_path().unwrap();
    let expected = path_of(&[root_name, inner]);
    assert_eq!(path, expected);
}

#[test]
fn test_local_then_one_module_stack_to_path() {
    let mut table = StringTable::new();
    let m = root(&mut table);
    let root_name = table.insert("root".into());
    let mut stack = SymbolTableScopeStack::new(&m);
    let module = SymbolTable::new_module(root_name);
    stack.enter_scope(&module);
    let local = SymbolTable::new();
    stack.enter_scope(&local);
    let local2 = SymbolTable::new();
    stack.enter_scope(&local2);
    let path = stack.to_path().unwrap();
    let expected = path_of(&[root_name]);
    assert_eq!(path, expected);
}

#[test]
fn test_local_then_two_module_stack_to_path() {
    let mut table = StringTable::new();
    let m = root(&mut table);
    let first = table.insert("first".into());
    let second = table.insert("second".into());
    let mut stack = SymbolTableScopeStack::new(&m);
    let module = SymbolTable::new_module(first);
    stack.enter_scope(&module);
    let module2 = SymbolTable::new_module(second);
    stack.enter_scope(&module2);
    let local = SymbolTable::new();
    stack.enter_scope(&local);
    let local2 = SymbolTable::new();
    stack.enter_scope(&local2);
    let path = stack.to_path().unwrap();
    let expected = path_of(&[first, second]);
    assert_eq!(path, expected);
}

#[test]
fn routines_do_not_add_to_the_path() {
    let mut table = StringTable::new();
    let m = root(&mut table);
    let a = table.insert("a".into());
    let f = table.insert("f".into());
    let mut stack = SymbolTableScopeStack::new(&m);
    stack.enter_scope(&SymbolTable::new_module(a));
    stack.enter_scope(&SymbolTable::new_routine(f));
    stack.enter_scope(&SymbolTable::new());
    assert_eq!(stack.to_path().unwrap(), path_of(&[a]));
    assert_eq!(stack.get_current_fn(), Some(f));
    assert_eq!(stack.depth(), 3);
    assert_eq!(stack.leave_scope().scope_type(), &ScopeType::Local);
    assert_eq!(stack.leave_scope().scope_type(), &ScopeType::Routine { name: f });
    assert_eq!(stack.get_current_fn(), None);
}

#[test]
fn inner_declarations_shadow_and_leave_the_outer_ones_alone() {
    let mut table = StringTable::new();
    let m = root(&mut table);
    let a = table.insert("a".into());
    let f = table.insert("f".into());
    let x = table.insert("x".into());
    let mut stack = SymbolTableScopeStack::new(&m);
    stack.enter_scope(&SymbolTable::new_module(a));
    stack.enter_scope(&SymbolTable::new_routine(f));
    stack.add(x, Type::I32, false, false).unwrap();
    assert_eq!(stack.add(x, Type::Bool, false, false), Err(SemanticError::AlreadyDeclared(x)));

    stack.enter_scope(&SymbolTable::new());
    assert_eq!(stack.lookup_var(x).unwrap().ty, Type::I32);
    stack.add(x, Type::Bool, true, false).unwrap();
    let inner = stack.lookup_var(x).unwrap();
    assert_eq!(inner.ty, Type::Bool);
    assert!(inner.mutable);
    let left = stack.leave_scope();
    assert_eq!(left.size(), 1);
    assert_eq!(left.get(x).unwrap().ty, Type::Bool);

    let outer = stack.lookup_var(x).unwrap();
    assert_eq!(outer.ty, Type::I32);
    assert!(!outer.mutable);
    let (_, path) = stack.lookup_symbol_by_path(&Path::from_elements(vec![Element::Id(x)])).unwrap();
    assert_eq!(path, path_of(&[a, x]));
}

#[test]
fn a_routine_does_not_see_the_variables_of_another() {
    let mut table = StringTable::new();
    let m = root(&mut table);
    let a = table.insert("a".into());
    let f = table.insert("f".into());
    let g = table.insert("g".into());
    let x = table.insert("x".into());
    let mut module = SymbolTable::new_module(a);
    module.add(f, Type::FunctionDef(vec![], Box::new(Type::Unit)), false, false).unwrap();
    module.add(g, Type::CoroutineDef(vec![Type::I8], Box::new(Type::I64)), false, false).unwrap();

    let mut stack = SymbolTableScopeStack::new(&m);
    stack.enter_scope(&module);
    // A routine around g, or a block around it, may declare x: g does not
    // see it.
    let mut around = SymbolTable::new_routine(f);
    around.add(x, Type::I32, false, false).unwrap();
    stack.enter_scope(&around);
    stack.enter_scope(&SymbolTable::new_routine(g));
    stack.enter_scope(&SymbolTable::new());

    assert_eq!(stack.lookup_var(x).err(), Some(SemanticError::NotDefined(x)));
    // The items of the module are visible from both routines.
    let (params, ret) = stack.lookup_func_or_cor(f).unwrap();
    assert_eq!(params.len(), 0);
    assert_eq!(ret, &Type::Unit);
    let (params, ret) = stack.lookup_coroutine(g).unwrap();
    assert_eq!(params, &vec![Type::I8]);
    assert_eq!(ret, &Type::I64);
    assert_eq!(stack.lookup_coroutine(f).err(), Some(SemanticError::NotCoroutine(f)));
    assert_eq!(stack.lookup_var(f).err(), Some(SemanticError::NotVariable(f)));
    assert_eq!(stack.lookup_func_or_cor(x).err(), Some(SemanticError::NotDefined(x)));
    assert_eq!(stack.get_current_fn(), Some(g));
    assert_eq!(
        stack.lookup_symbol_by_path(&Path::new()).err(),
        Some(SemanticError::EmptyPath)
    );
    assert_eq!(
        stack.lookup_symbol_by_path(&Path::from_elements(vec![Element::Selph])).err(),
        Some(SemanticError::PathNotValid)
    );
}

#[test]
fn imported_symbols_are_found_by_their_canonical_path() {
    let mut table = StringTable::new();
    let m = root(&mut table);
    let test = table.insert("test".into());
    let std = table.insert("std".into());
    let write = table.insert("write".into());
    let mut stack = SymbolTableScopeStack::new(&m);
    let canonical = path_of(&[std, write]);
    assert!(stack
        .import_function(canonical.clone(), vec![Type::StringLiteral], Type::Unit)
        .is_none());
    let before = stack
        .import_function(canonical.clone(), vec![Type::I64], Type::Unit)
        .unwrap();
    assert_eq!(
        before.ty,
        Type::FunctionDef(vec![Type::StringLiteral], Box::new(Type::Unit))
    );
    assert!(stack.import_function(Path::new(), vec![], Type::Unit).is_none());

    stack.enter_scope(&SymbolTable::new_module(test));
    let (symbol, path) = stack.lookup_symbol_by_path(&canonical).unwrap();
    assert_eq!(symbol.name, write);
    assert_eq!(symbol.ty, Type::FunctionDef(vec![Type::I64], Box::new(Type::Unit)));
    assert_eq!(path, canonical);

    // From the module `test`, `super::std::write` is the same item.
    let relative = Path::from_elements(vec![Element::Super, Element::Id(std), Element::Id(write)]);
    assert_eq!(stack.lookup_symbol_by_path(&relative).unwrap().1, canonical);
    assert_eq!(stack.to_canonical(&relative).unwrap(), canonical);
    let missing = Path::from_elements(vec![Element::Selph, Element::Id(write)]);
    assert_eq!(
        stack.lookup_symbol_by_path(&missing).err(),
        Some(SemanticError::PathNotFound(
            Path::from_elements(vec![Element::Selph, Element::Id(write)]),
            path_of(&[test, write])
        ))
    );
    let too_super = Path::from_elements(vec![Element::Super, Element::Super, Element::Id(write)]);
    assert_eq!(
        stack.lookup_symbol_by_path(&too_super).err(),
        Some(SemanticError::PathTooSuper)
    );
    assert_eq!(stack.get_root().get_name(), test);
}

#[test]
fn type_references_are_made_canonical() {
    let mut table = StringTable::new();
    let m = root(&mut table);
    let a = table.insert("a".into());
    let b = table.insert("b".into());
    let s = table.insert("S".into());
    let mut stack = SymbolTableScopeStack::new(&m);
    stack.enter_scope(&SymbolTable::new_module(a));
    stack.enter_scope(&SymbolTable::new_module(b));

    let relative = Type::Custom(Path::from_elements(vec![Element::Super, Element::Id(s)]));
    let canonical = Type::Custom(path_of(&[a, s]));
    assert_eq!(stack.canonize_local_type_ref(&relative).unwrap(), canonical);
    // Canonicalizing against the path of the current module, derived
    // again, gives the same; and a canonical type stays as it is.
    let current = stack.to_path().unwrap();
    assert_eq!(stack.canonize_nonlocal_type_ref(&current, &relative).unwrap(), canonical);
    assert_eq!(stack.canonize_local_type_ref(&canonical).unwrap(), canonical);
    assert_eq!(stack.canonize_nonlocal_type_ref(&path_of(&[]), &canonical).unwrap(), canonical);

    let nested = Type::FunctionDef(
        vec![Type::Array(Box::new(relative.clone()), 3), Type::I8],
        Box::new(Type::Coroutine(Box::new(relative.clone()))),
    );
    assert_eq!(
        stack.canonize_local_type_ref(&nested).unwrap(),
        Type::FunctionDef(
            vec![Type::Array(Box::new(canonical.clone()), 3), Type::I8],
            Box::new(Type::Coroutine(Box::new(canonical.clone()))),
        )
    );
    assert_eq!(
        stack.canonize_local_type_ref(&Type::Array(Box::new(Type::I8), 0)).err(),
        Some(SemanticError::ArrayInvalidSize(0))
    );
    let too_super = Type::Custom(Path::from_elements(vec![
        Element::Super,
        Element::Super,
        Element::Super,
        Element::Id(s),
    ]));
    assert_eq!(
        stack.canonize_local_type_ref(&too_super).err(),
        Some(SemanticError::PathTooSuper)
    );
}
