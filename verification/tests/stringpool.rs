use braid::ast::routinedef::RoutineDefType;
use braid::ast::ty::Type;
use braid::memory::scope::{Level, Scope};
use braid::memory::set_reg::RegSize;
use braid::memory::stack::CompilerNode;
use braid::memory::stringpool::StringPool;

#[test]
fn insert_string() {
    let mut sp = StringPool::new();
    sp.insert("hello, world");

    assert!(sp.get("hello, world").is_some());
    assert!(sp.get("not there").is_none());
}

#[test]
fn insert_duplicate() {
    let mut sp = StringPool::new();
    sp.insert("test");
    let first_id = sp.get("test").unwrap();
    sp.insert("test");
    let second_id = sp.get("test").unwrap();

    assert_eq!(first_id, second_id);
}

fn scope() -> Scope {
    Scope::new(Level::Block)
}

fn literal(s: &str) -> Box<CompilerNode> {
    Box::new(CompilerNode::StringLiteral(scope(), s.into()))
}

/// The tree of a module that holds the function `test`, which returns a
/// string and has the given body.
fn program(body: Vec<CompilerNode>) -> CompilerNode {
    let routine_scope = Scope::new(Level::Routine { next_label: 0, allocation: 0 });
    CompilerNode::Module {
        meta: scope(),
        functions: vec![CompilerNode::RoutineDef(
            routine_scope,
            RoutineDefType::Function,
            "test".into(),
            vec![],
            Type::StringLiteral,
            body,
        )],
        coroutines: vec![],
        structs: vec![],
    }
}

fn holds(sp: &StringPool, expected: &Vec<&str>) -> bool {
    if sp.len() != expected.len() {
        return false;
    }
    for e in expected.iter() {
        if sp.get(e).is_none() {
            return false;
        }
    }
    true
}

#[test]
fn extract_from_ast() {
    // fn test() -> string {return "test";}
    // fn test() -> string {return "test2";}
    // fn test() -> string {let s: string := "hello"; return "test2";}
    for (ast, expected) in vec![
        (
            program(vec![CompilerNode::Return(scope(), Some(literal("test")))]),
            vec!["test"],
        ),
        (
            program(vec![CompilerNode::Return(scope(), Some(literal("test2")))]),
            vec!["test2"],
        ),
        (
            program(vec![
                CompilerNode::Bind(scope(), "s".into(), false, Type::StringLiteral, literal("hello")),
                CompilerNode::Return(scope(), Some(literal("test2"))),
            ]),
            vec!["hello", "test2"],
        ),
    ] {
        let mut sp = StringPool::new();
        sp.extract_from(&ast);

        assert!(holds(&sp, &expected));
    }
}

#[test]
fn pool_ids_follow_the_order_of_insertion() {
    let mut sp = StringPool::new();
    sp.insert("a");
    sp.insert("b");
    sp.insert("a");
    assert_eq!(sp.len(), 2);
    assert_eq!(sp.get("a"), Some(0));
    assert_eq!(sp.get("b"), Some(1));
    let entries = sp.iter();
    assert_eq!(entries.len(), 2);
    assert_eq!(entries[1].0, "b");
    assert_eq!(entries[1].1, 1);
}

#[test]
fn register_sizes() {
    assert_eq!(RegSize::assign(0), None);
    assert_eq!(RegSize::assign(1), Some(RegSize::R8));
    assert_eq!(RegSize::assign(2), Some(RegSize::R16));
    assert_eq!(RegSize::assign(3), Some(RegSize::R32));
    assert_eq!(RegSize::assign(4), Some(RegSize::R32));
    assert_eq!(RegSize::assign(5), Some(RegSize::R64));
    assert_eq!(RegSize::assign(8), Some(RegSize::R64));
    assert_eq!(RegSize::assign(9), None);
}
