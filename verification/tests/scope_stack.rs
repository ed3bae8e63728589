use braid::ast::routinedef::RoutineDefType;
use braid::ast::ty::Type;
use braid::memory::scope::{Level, Scope};
use braid::memory::stack::{CompilerNode, ScopeStack};

#[test]
fn test_find_symbol_in_current_scope() {
    let mut scope = Scope::new(Level::Block);
    scope.insert("x", 4, 4);
    let node = CompilerNode::ExpressionBlock(scope, vec![]);
    let mut stack = ScopeStack::new();
    stack.push(&node);

    let sym = stack.find("x").unwrap();
    assert_eq!(sym.name, "x");
    assert_eq!(sym.size, 4);
    assert_eq!(sym.offset, 8);
}

#[test]
fn test_find_symbol_in_outer_scope() {
    let mut stack = ScopeStack::new();

    let mut outer_scope = Scope::new(Level::Block);
    outer_scope.insert("x", 4, 4);
    let outer_node = CompilerNode::ExpressionBlock(outer_scope, vec![]);
    stack.push(&outer_node);
    let inner_scope = Scope::new(Level::Block);
    let inner_node = CompilerNode::ExpressionBlock(inner_scope, vec![]);
    stack.push(&inner_node);

    let sym = stack.find("x").unwrap();
    assert_eq!(sym.name, "x");
    assert_eq!(sym.size, 4);
    assert_eq!(sym.offset, 8);
}

#[test]
fn test_find_symbol_defined_in_both_scopes() {
    let mut stack = ScopeStack::new();

    let mut outer_scope = Scope::new(Level::Block);
    outer_scope.insert("x", 4, 4);
    let outer_node = CompilerNode::ExpressionBlock(outer_scope, vec![]);
    stack.push(&outer_node);
    let mut inner_scope = Scope::new(Level::Block);
    inner_scope.insert("x", 4, 16);
    let inner_node = CompilerNode::ExpressionBlock(inner_scope, vec![]);
    stack.push(&inner_node);

    let sym = stack.find("x").unwrap();
    assert_eq!(sym.name, "x");
    assert_eq!(sym.size, 4);
    assert_eq!(sym.offset, 20);
}

#[test]
fn test_find_symbol_does_not_exist() {
    let mut stack = ScopeStack::new();

    let mut outer_scope = Scope::new(Level::Block);
    outer_scope.insert("x", 4, 4);
    let outer_node = CompilerNode::ExpressionBlock(outer_scope, vec![]);
    stack.push(&outer_node);
    let inner_scope = Scope::new(Level::Block);
    let inner_node = CompilerNode::ExpressionBlock(inner_scope, vec![]);
    stack.push(&inner_node);

    assert_eq!(stack.find("y").is_none(), true);
}

#[test]
fn test_find_symbol_does_not_pass_function() {
    let mut stack = ScopeStack::new();

    let mut outer_scope = Scope::new(Level::Block);
    outer_scope.insert("nope", 4, 4);
    let outer_node = CompilerNode::ExpressionBlock(outer_scope, vec![]);
    stack.push(&outer_node);

    let mut fun_scope = Scope::new(Level::Routine {
        next_label: 0,
        allocation: 8,
    });
    fun_scope.insert("y", 4, 4);
    fun_scope.insert("z", 4, 8);
    let outer_node = CompilerNode::RoutineDef(
        fun_scope,
        RoutineDefType::Function,
        "func".into(),
        vec![],
        Type::I32,
        vec![],
    );
    stack.push(&outer_node);

    let mut inner_scope = Scope::new(Level::Block);
    inner_scope.insert("x", 4, 4);
    let inner_node = CompilerNode::ExpressionBlock(inner_scope, vec![]);
    stack.push(&inner_node);

    assert_eq!(stack.find("x").is_some(), true);
    assert_eq!(stack.find("y").is_some(), true);
    assert_eq!(stack.find("nope").is_some(), false);
}

#[test]
fn test_get_routine_parameters() {
    let mut stack = ScopeStack::new();

    let mut fun_scope = Scope::new(Level::Routine {
        next_label: 0,
        allocation: 8,
    });
    fun_scope.insert("y", 4, 0);
    fun_scope.insert("z", 4, 4);
    let fun_node = CompilerNode::RoutineDef(
        fun_scope,
        RoutineDefType::Function,
        "func".into(),
        vec![("y".into(), Type::I32)],
        Type::I32,
        vec![],
    );

    let mut module_scope = Scope::new(Level::Block);
    module_scope.insert("func", 0, 0);
    let module_node = CompilerNode::Module {
        meta: module_scope,
        functions: vec![fun_node],
        coroutines: vec![],
        structs: vec![],
    };
    stack.push(&module_node);

    let fun2_scope = Scope::new(Level::Routine {
        next_label: 0,
        allocation: 0,
    });
    let fun2_node = CompilerNode::RoutineDef(
        fun2_scope,
        RoutineDefType::Function,
        "func2".into(),
        vec![],
        Type::I32,
        vec![],
    );
    stack.push(&fun2_node);

    assert_eq!(stack.find("func").is_none(), true);

    let node = stack.find_func("func").unwrap();
    match node {
        CompilerNode::RoutineDef(meta, RoutineDefType::Function, name, params, _, _) => {
            assert_eq!(name, "func");
            assert_eq!(params.len(), 1);
            let y_param = meta.get("y").unwrap();
            assert_eq!(y_param.offset, 4);
            assert_eq!(y_param.size, 4);
        }
        _ => assert!(false),
    }
}

#[test]
fn test_get_coroutine_parameters() {
    let mut stack = ScopeStack::new();

    let mut cor_scope = Scope::new(Level::Routine {
        next_label: 0,
        allocation: 8,
    });
    cor_scope.insert("y", 4, 20);
    cor_scope.insert("z", 4, 24);
    let cor_node = CompilerNode::RoutineDef(
        cor_scope,
        RoutineDefType::Coroutine,
        "cor".into(),
        vec![("y".into(), Type::I32)],
        Type::I32,
        vec![],
    );

    let mut module_scope = Scope::new(Level::Block);
    module_scope.insert("cor", 0, 0);
    let module_node = CompilerNode::Module {
        meta: module_scope,
        functions: vec![],
        coroutines: vec![cor_node],
        structs: vec![],
    };
    stack.push(&module_node);

    let fun2_scope = Scope::new(Level::Routine {
        next_label: 0,
        allocation: 0,
    });
    let fun2_node = CompilerNode::RoutineDef(
        fun2_scope,
        RoutineDefType::Coroutine,
        "func2".into(),
        vec![],
        Type::I32,
        vec![],
    );
    stack.push(&fun2_node);

    let node = stack.find_coroutine("cor").unwrap();
    match node {
        CompilerNode::RoutineDef(meta, RoutineDefType::Coroutine, name, params, _, _) => {
            assert_eq!(name, "cor");
            assert_eq!(params.len(), 1);
            let y_param = meta.get("y").unwrap();
            assert_eq!(y_param.offset, 24);
            assert_eq!(y_param.size, 4);
        }
        _ => assert!(false),
    }
}

#[test]
fn scope_insert_replaces_and_pop_returns_the_top() {
    let mut scope = Scope::new(Level::Routine { next_label: 0, allocation: 12 });
    assert_eq!(scope.insert("a", 4, 0), 4);
    assert_eq!(scope.insert("a", 8, 4), 12);
    assert_eq!(scope.get("a").unwrap().size, 8);
    assert_eq!(scope.get("a").unwrap().offset, 12);
    assert_eq!(scope.local_allocation(), Some(12));
    assert_eq!(scope.id(), 0);
    assert_eq!(scope.line(), 0);
    assert_eq!(scope.ty(), &Type::Unit);
    assert_eq!(scope.canon_path().len(), 0);
    assert_eq!(Level::Block.allocation(), None);

    let node = CompilerNode::ExpressionBlock(scope, vec![]);
    let mut stack = ScopeStack::new();
    assert!(stack.pop().is_none());
    stack.push(&node);
    assert!(stack.find_global("a").is_some());
    assert!(stack.find_func("a").is_none());
    assert_eq!(stack.pop(), Some(&node));
    assert!(stack.find("a").is_none());
}
