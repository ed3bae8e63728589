use braid::ast::module::{Item, Module};
use braid::lexer::lexer::tokenize;
use braid::lexer::tokens::{Lex, Token};
use braid::parser::context::ParserContext;
use braid::parser::error::ParserError;
use braid::project::{append_module, parse_project, parse_src_tokens, CompilationUnit, ProjectError};
use braid::source::span::{Offset, Span};
use braid::stringtable::{StringId, StringTable};

fn unit(table: &mut StringTable, path: &[&str], text: &str) -> CompilationUnit<Vec<Token>> {
    let path = path.iter().map(|p| table.insert((*p).into())).collect();
    let data = tokenize(text, table).unwrap();
    CompilationUnit { path, data }
}

fn names(m: &Module<ParserContext>, table: &StringTable) -> Vec<String> {
    m.get_modules().iter().map(|c| table.get(c.get_name()).unwrap().clone()).collect()
}

fn child<'a>(
    m: &'a Module<ParserContext>,
    table: &StringTable,
    name: &str,
) -> &'a Module<ParserContext> {
    m.get_module(table.find(&name.to_string()).unwrap()).unwrap()
}

#[test]
fn a_unit_is_named_by_the_end_of_its_path() {
    let mut table = StringTable::new();
    let u = unit(&mut table, &["a", "b", "main"], "fn f() { return; }");
    let parsed = parse_src_tokens(&u).unwrap();
    assert_eq!(parsed.path, vec![StringId(0), StringId(1)]);
    assert_eq!(parsed.data.get_name(), StringId(2));
    assert_eq!(parsed.data.get_functions().len(), 1);
}

#[test]
fn a_unit_without_a_name_or_without_tokens_is_refused() {
    let mut table = StringTable::new();
    let e = parse_src_tokens(&unit(&mut table, &[], "fn f() { return; }")).unwrap_err();
    assert_eq!(e.take(), (Span::zero(), ProjectError::InvalidPath));
    let e = parse_src_tokens(&unit(&mut table, &["main"], "  // nothing\n")).unwrap_err();
    assert_eq!(e.take(), (Span::zero(), ProjectError::NoAstGenerated));
    let e = parse_src_tokens(&unit(&mut table, &["main"], "fn f() { return 1 +; }")).unwrap_err();
    assert_eq!(
        e.take(),
        (
            Span::new(Offset::new(19), Offset::new(19)),
            ProjectError::ParserError(ParserError::ExpectedExprAfter(Lex::Add))
        )
    );
}

#[test]
fn units_are_put_where_their_paths_lead() {
    let mut table = StringTable::new();
    let root = table.insert("project".into());
    let units = vec![
        unit(&mut table, &["main"], "fn my_main() -> i64 { return 0; }"),
        unit(&mut table, &["lib", "shapes"], "struct Point { x: i64 }"),
        unit(&mut table, &["lib", "math"], "fn one() -> i64 { return 1; }"),
        unit(&mut table, &["lib"], "fn helper() { return; }"),
        unit(&mut table, &["lib", "deep", "er", "leaf"], "fn f() { return; }"),
    ];
    let tree = parse_project(root, Span::new(Offset::new(0), Offset::new(99)), units).unwrap();
    assert_eq!(tree.get_name(), root);
    assert_eq!(tree.annotations.span, Span::new(Offset::new(0), Offset::new(99)));
    // The module `lib` was created for the first unit below it; the unit
    // `lib` is a module of its own behind it.
    assert_eq!(names(&tree, &table), ["main", "lib", "lib"]);
    assert_eq!(child(&tree, &table, "main").get_functions().len(), 1);
    let lib = child(&tree, &table, "lib");
    assert_eq!(lib.annotations.span, Span::zero());
    assert_eq!(lib.get_functions().len(), 0);
    assert_eq!(names(lib, &table), ["shapes", "math", "deep"]);
    assert_eq!(child(lib, &table, "shapes").get_structs().len(), 1);
    match &child(lib, &table, "math").get_functions()[0] {
        Item::Routine(f) => assert_eq!(table.get(f.name).unwrap(), "one"),
        _ => panic!("expected a routine"),
    }
    let er = child(child(lib, &table, "deep"), &table, "er");
    assert_eq!(names(er, &table), ["leaf"]);
    assert_eq!(tree.get_modules()[2].get_functions().len(), 1);
}

#[test]
fn the_errors_of_all_units_are_returned() {
    let mut table = StringTable::new();
    let root = table.insert("project".into());
    let units = vec![
        unit(&mut table, &["a"], "fn f() { return; }"),
        unit(&mut table, &["b"], ""),
        unit(&mut table, &[], "fn f() { return; }"),
        unit(&mut table, &["c"], "fn () { return; }"),
    ];
    let errors = parse_project(root, Span::zero(), units).unwrap_err();
    let errors: Vec<ProjectError> = errors.into_iter().map(|e| e.take().1).collect();
    assert_eq!(
        errors,
        [
            ProjectError::NoAstGenerated,
            ProjectError::InvalidPath,
            ProjectError::ParserError(ParserError::FnExpectedIdentifierAfterFn),
        ]
    );
}

#[test]
fn a_project_without_units_is_its_root() {
    let tree = parse_project(StringId(7), Span::zero(), vec![]).unwrap();
    assert_eq!(tree.get_name(), StringId(7));
    assert!(tree.get_modules().is_empty());
}

#[test]
fn a_module_is_appended_below_an_existing_path() {
    let mut table = StringTable::new();
    let root_name = table.insert("root".into());
    let ctx = ParserContext::new(Span::zero());
    let mut root = Module::new(root_name, ctx);
    let a = table.insert("a".into());
    let b = table.insert("b".into());
    let x = table.insert("x".into());
    let y = table.insert("y".into());
    append_module(&mut root, CompilationUnit { path: vec![a, b], data: Module::new(x, ctx) });
    append_module(&mut root, CompilationUnit { path: vec![a], data: Module::new(y, ctx) });
    append_module(&mut root, CompilationUnit { path: vec![], data: Module::new(y, ctx) });
    assert_eq!(names(&root, &table), ["a", "y"]);
    let a_mod = child(&root, &table, "a");
    assert_eq!(names(a_mod, &table), ["b", "y"]);
    assert_eq!(names(child(a_mod, &table, "b"), &table), ["x"]);
}
