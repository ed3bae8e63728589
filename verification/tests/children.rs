use braid::ast::children::NodeRef;
use braid::ast::expression::Expression;
use braid::ast::module::Module;
use braid::ast::node::{Node, NodeType};
use braid::source::span::{Offset, Span};
use braid::lexer::lexer::tokenize;
use braid::parser::context::ParserContext;
use braid::parser::items::parse;
use braid::parser::parser::Parser;
use braid::stringtable::StringTable;

fn kind(n: &NodeRef<ParserContext>) -> &'static str {
    match n {
        NodeRef::Module(_) => "module",
        NodeRef::Item(_) => "item",
        NodeRef::Parameter(_) => "parameter",
        NodeRef::Statement(_) => "statement",
        NodeRef::Expression(_) => "expression",
    }
}

fn kinds(nodes: &[NodeRef<ParserContext>]) -> Vec<&'static str> {
    nodes.iter().map(kind).collect()
}

fn expression(text: &str) -> Expression<ParserContext> {
    let mut table = StringTable::new();
    let tokens = tokenize(text, &mut table).unwrap();
    Parser::new(&tokens).expression().unwrap().unwrap()
}

fn module(text: &str) -> Module<ParserContext> {
    let mut table = StringTable::new();
    let main = table.insert("main".into());
    let tokens = tokenize(text, &mut table).unwrap();
    parse(main, &tokens).unwrap().unwrap()
}

/// The number of nodes below the node, itself included.
fn size(n: &NodeRef<ParserContext>) -> usize {
    1 + n.children().iter().map(size).sum::<usize>()
}

#[test]
fn leaves_have_no_children() {
    for text in ["1", "true", "x", "\"s\"", "a::b"] {
        assert!(expression(text).children().is_empty(), "{}", text);
    }
}

#[test]
fn operations_have_their_operands() {
    let e = expression("1 + x");
    let children = e.children();
    assert_eq!(children.len(), 2);
    match (&children[0], &children[1]) {
        (NodeRef::Expression(Expression::I64(_, 1)), NodeRef::Expression(Expression::Identifier(..))) => {}
        _ => panic!("expected the two operands, from left to right"),
    }
    assert_eq!(expression("-x").children().len(), 1);
    assert_eq!(expression("a.b").children().len(), 1);
    assert_eq!(expression("a[1]").children().len(), 2);
    assert_eq!(expression("yield c").children().len(), 1);
}

#[test]
fn calls_and_values_have_their_parts() {
    assert_eq!(expression("f(1, 2, 3)").children().len(), 3);
    assert_eq!(expression("f()").children().len(), 0);
    assert_eq!(expression("[1, 2]").children().len(), 2);
    assert_eq!(expression("S { a: 1, b: f(2) }").children().len(), 2);
}

#[test]
fn conditionals_have_two_or_three_children() {
    assert_eq!(expression("if (c) {1}").children().len(), 2);
    assert_eq!(expression("if (c) {1} else {2}").children().len(), 3);
    assert_eq!(expression("while (c) {f();}").children().len(), 2);
}

#[test]
fn blocks_have_their_statements_and_their_value() {
    let e = expression("{ let x: i64 := 1; f(x); x }");
    assert_eq!(kinds(&e.children()), vec!["statement", "statement", "expression"]);
    let e = expression("{ f(); }");
    assert_eq!(kinds(&e.children()), vec!["statement"]);
    match &e.children()[0] {
        NodeRef::Statement(s) => assert_eq!(kinds(&s.children()), vec!["expression"]),
        _ => panic!("expected a statement"),
    }
}

#[test]
fn modules_have_their_modules_and_items() {
    let m = module(
        "struct S { a: i64, b: bool }
         extern fn e(x: i64);
         co c() { return; }
         fn f(x: i64, y: i64) -> i64 { let z: i64 := x; return z; }
         mod inner { fn g() { return; } }",
    );
    let children = m.children();
    assert_eq!(kinds(&children), vec!["module", "item", "item", "item", "item"]);
    // The function, with its parameters and its statements.
    assert_eq!(
        kinds(&children[1].children()),
        vec!["parameter", "parameter", "statement", "statement"]
    );
    // The coroutine, the structure and the external declaration.
    assert_eq!(kinds(&children[2].children()), vec!["statement"]);
    assert_eq!(kinds(&children[3].children()), vec!["parameter", "parameter"]);
    assert_eq!(kinds(&children[4].children()), vec!["parameter"]);
    assert!(children[1].children()[0].children().is_empty());
    assert_eq!(kinds(&children[0].children()), vec!["item"]);
}

#[test]
fn every_node_is_reached_through_children() {
    let m = module("fn f() -> i64 { return if (true) { 1 + 2 } else { g(3) }; }");
    // module, item, return, if, true, two blocks, 1 + 2 with its operands,
    // the call with its argument
    assert_eq!(size(&NodeRef::Module(&m)), 12);
}

#[test]
fn annotations_change_in_place() {
    let other = ParserContext::new(Span::new(Offset::new(7), Offset::new(9)));

    let mut e = expression("1 + 2");
    assert_eq!(e.node_type(), NodeType::BinOp);
    assert_ne!(*e.annotation(), other);
    *e.annotation_mut() = other;
    assert_eq!(*e.annotation(), other);
    assert_eq!(*e.get_context(), other);
    // Nothing but the annotation has changed.
    assert_eq!(e.children().len(), 2);
    match &e {
        Expression::BinaryOp(_, _, l, r) => {
            assert!(matches!(**l, Expression::I64(_, 1)));
            assert!(matches!(**r, Expression::I64(_, 2)));
        }
        _ => panic!("expected an operation"),
    }

    let mut m = module("fn f(x: i64) { g(); return; } struct S { a: i64 }");
    *m.annotation_mut() = other;
    assert_eq!(*m.annotation(), other);
    for item in m.functions.iter_mut().chain(m.structs.iter_mut()) {
        assert_ne!(*item.annotation(), other);
        *item.annotation_mut() = other;
        assert_eq!(*item.annotation(), other);
        assert!(item.name().is_some());
    }
    match &mut m.functions[0] {
        braid::ast::module::Item::Routine(f) => {
            for s in f.body.iter_mut() {
                *s.annotation_mut() = other;
                assert_eq!(*s.annotation(), other);
            }
            *f.params[0].annotation_mut() = other;
            assert_eq!(*f.params[0].annotation(), other);
            assert_eq!(f.body.len(), 2);
        }
        _ => panic!("expected a routine"),
    }
}
