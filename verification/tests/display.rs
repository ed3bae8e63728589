use braid::ast::expression::{BinaryOperator, RoutineCall, UnaryOperator};
use braid::ast::module::AstError;
use braid::ast::path::{Element, Path};
use braid::ast::ty::Type;
use braid::display::text::{decimal, signed};
use braid::display::tokens::write_lex;
use braid::display::{CompilerDisplay, CompilerDisplayError};
use braid::lexer::error::LexerError;
use braid::lexer::tokens::{Lex, Primitive, Token};
use braid::parser::error::ParserError;
use braid::semantics::error::SemanticError;
use braid::stringtable::{StringId, StringTable};

fn table() -> (StringTable, StringId, StringId, StringId) {
    let mut t = StringTable::new();
    let a = t.insert("alpha".into());
    let b = t.insert("beta".into());
    let c = t.insert("gamma".into());
    (t, a, b, c)
}

fn path(steps: Vec<Element>) -> Path {
    Path::from_elements(steps)
}

#[test]
fn numbers_are_written_in_decimal() {
    assert_eq!(decimal(0), "0");
    assert_eq!(decimal(7), "7");
    assert_eq!(decimal(10), "10");
    assert_eq!(decimal(1234567890), "1234567890");
    assert_eq!(decimal(u64::MAX), "18446744073709551615");
    assert_eq!(signed(0), "0");
    assert_eq!(signed(-1), "-1");
    assert_eq!(signed(42), "42");
    assert_eq!(signed(i64::MAX), "9223372036854775807");
    assert_eq!(signed(i64::MIN), "-9223372036854775808");
}

#[test]
fn names_are_looked_up() {
    let (t, a, _, c) = table();
    assert_eq!(a.fmt(&t).unwrap(), "alpha");
    assert_eq!(c.fmt(&t).unwrap(), "gamma");
    assert_eq!(StringId(3).fmt(&t), Err(CompilerDisplayError::StringIdNotFound));
    assert_eq!(
        AstError::ModuleAlreadyContains(a).fmt(&t).unwrap(),
        "alpha already exists in module"
    );
}

#[test]
fn paths_are_joined_by_separators() {
    let (t, a, b, _) = table();
    assert_eq!(path(vec![]).fmt(&t).unwrap(), "");
    assert_eq!(path(vec![Element::Id(a)]).fmt(&t).unwrap(), "alpha");
    assert_eq!(
        path(vec![Element::CanonicalRoot, Element::Id(a), Element::Id(b)]).fmt(&t).unwrap(),
        "project::alpha::beta"
    );
    assert_eq!(
        path(vec![Element::FileRoot, Element::Selph, Element::Super, Element::Id(b)])
            .fmt(&t)
            .unwrap(),
        "root::self::super::beta"
    );
    assert_eq!(
        path(vec![Element::Id(a), Element::Id(StringId(9))]).fmt(&t),
        Err(CompilerDisplayError::StringIdNotFound)
    );
}

#[test]
fn types_are_written_as_in_the_language() {
    let (t, a, b, _) = table();
    assert_eq!(Type::I64.fmt(&t).unwrap(), "i64");
    assert_eq!(Type::U8.fmt(&t).unwrap(), "u8");
    assert_eq!(Type::Bool.fmt(&t).unwrap(), "bool");
    assert_eq!(Type::StringLiteral.fmt(&t).unwrap(), "string");
    assert_eq!(Type::Unit.fmt(&t).unwrap(), "unit");
    assert_eq!(Type::Unknown.fmt(&t).unwrap(), "unknown");
    assert_eq!(Type::Array(Box::new(Type::I32), 12).fmt(&t).unwrap(), "[i32; 12]");
    assert_eq!(Type::Coroutine(Box::new(Type::Bool)).fmt(&t).unwrap(), "co<bool>");
    assert_eq!(
        Type::Custom(path(vec![Element::CanonicalRoot, Element::Id(a)])).fmt(&t).unwrap(),
        "project::alpha"
    );
    assert_eq!(
        Type::StructDef(vec![(a, Type::I64), (b, Type::Bool)]).fmt(&t).unwrap(),
        "StructDef(alpha: i64,beta: bool)"
    );
    assert_eq!(Type::StructDef(vec![]).fmt(&t).unwrap(), "StructDef()");
    assert_eq!(
        Type::FunctionDef(vec![Type::I64, Type::Bool], Box::new(Type::Unit)).fmt(&t).unwrap(),
        "fn (i64,bool) -> unit"
    );
    assert_eq!(
        Type::CoroutineDef(vec![], Box::new(Type::I8)).fmt(&t).unwrap(),
        "co () -> i8"
    );
    assert_eq!(
        Type::ExternDecl(vec![Type::StringLiteral], true, Box::new(Type::I32)).fmt(&t).unwrap(),
        "extern fn (string, ...) -> i32"
    );
    assert_eq!(
        Type::ExternDecl(vec![Type::I32], false, Box::new(Type::Unit)).fmt(&t).unwrap(),
        "extern fn (i32) -> unit"
    );
    assert_eq!(
        Type::Array(Box::new(Type::Custom(path(vec![Element::Id(StringId(5))]))), 1).fmt(&t),
        Err(CompilerDisplayError::StringIdNotFound)
    );
}

#[test]
fn words_are_written_as_in_the_text() {
    let (t, a, _, _) = table();
    assert_eq!(write_lex(Lex::I64(-5), &t).unwrap(), "literal -5");
    assert_eq!(write_lex(Lex::U8(200), &t).unwrap(), "literal 200");
    assert_eq!(write_lex(Lex::I8(-128), &t).unwrap(), "literal -128");
    assert_eq!(write_lex(Lex::Bool(true), &t).unwrap(), "literal true");
    assert_eq!(write_lex(Lex::Identifier(a), &t).unwrap(), "identifier alpha");
    assert_eq!(write_lex(Lex::StringLiteral(a), &t).unwrap(), "literal \"alpha\"");
    assert_eq!(write_lex(Lex::Primitive(Primitive::U16), &t).unwrap(), "u16");
    assert_eq!(write_lex(Lex::Assign, &t).unwrap(), ":=");
    assert_eq!(write_lex(Lex::YieldReturn, &t).unwrap(), "yret");
    assert_eq!(write_lex(Lex::VarArgs, &t).unwrap(), "...");
    assert_eq!(
        write_lex(Lex::Identifier(StringId(7)), &t),
        Err(CompilerDisplayError::StringIdNotFound)
    );
}

#[test]
fn semantic_errors_name_what_is_wrong() {
    let (t, a, b, _) = table();
    let p = || path(vec![Element::CanonicalRoot, Element::Id(a)]);
    for (e, expected) in [
        (SemanticError::NotDefined(a), "alpha is not defined"),
        (SemanticError::NotVariable(b), "beta is not a variable"),
        (SemanticError::PathNotValid, "Path is not valid"),
        (
            SemanticError::PathNotFound(path(vec![Element::Id(a)]), p()),
            "Could not find item with the given path: alpha (project::alpha)",
        ),
        (
            SemanticError::ArrayInvalidSize(0),
            "Expected length > 0 for array, but found 0",
        ),
        (SemanticError::BindExpected(Type::I32, Type::Bool), "Bind expected i32 but got bool"),
        (
            SemanticError::BindMismatch(a, Type::I32, Type::Bool),
            "alpha is of type i32 but is assigned bool",
        ),
        (
            SemanticError::IfExprMismatchArms(Type::I32, Type::Bool),
            "If expression has mismatching arms: expected i32 got bool",
        ),
        (
            SemanticError::RoutineCallWrongNumParams(p(), 2, 1),
            "Incorrect number of parameters passed to routine: project::alpha. Expected 2 but got 1",
        ),
        (
            SemanticError::FunctionParamsNotEnough(p(), 1, 0),
            "Function project::alpha expects at least 1 parameters, but got 0",
        ),
        (
            SemanticError::StructExprFieldTypeMismatch(p(), b, Type::I64, Type::U8),
            "project::alpha.beta expects i64 but got u8",
        ),
        (
            SemanticError::ExpectedSignedInteger(UnaryOperator::Negate, Type::U8),
            "- expected a signed integer but found u8",
        ),
        (SemanticError::ExpectedBool(UnaryOperator::Not, Type::I64), "! expected bool but found i64"),
        (
            SemanticError::OpExpected(BinaryOperator::LsEq, Type::I64, Type::I64, Type::Bool),
            "<= expected i64 but found i64 and bool",
        ),
        (
            SemanticError::RoutineParamTypeMismatch(
                p(),
                vec![(1, Type::I64, Type::Bool), (3, Type::Bool, Type::U8)],
            ),
            "One or more parameters have mismatching types for function project::alpha: \
             parameter 1 expected i64 but got bool, parameter 3 expected bool but got u8",
        ),
        (
            SemanticError::RoutineCallInvalidTarget(RoutineCall::CoroutineInit, p(), Type::I64),
            "Expected init but project::alpha is a i64",
        ),
        (
            SemanticError::MainFnInvalidParams,
            "my_main must take no parameters. It must be of type () -> i64",
        ),
    ] {
        assert_eq!(e.fmt(&t).unwrap(), expected);
    }
    assert_eq!(
        SemanticError::NotDefined(StringId(3)).fmt(&t),
        Err(CompilerDisplayError::StringIdNotFound)
    );
    assert_eq!(
        SemanticError::BindMismatch(a, Type::I32, Type::Custom(path(vec![Element::Id(StringId(8))])))
            .fmt(&t),
        Err(CompilerDisplayError::StringIdNotFound)
    );
}

#[test]
fn parser_errors_name_what_is_wrong() {
    let (t, a, _, _) = table();
    for (e, expected) in [
        (ParserError::Locked(None), "Parser cannot advance past EOF"),
        (
            ParserError::Locked(Some(Token::new(1, 4, Lex::I64(5)))),
            "Parser cannot advance past literal 5",
        ),
        (ParserError::ModAlreadyContains(a), "Module already contains alpha"),
        (
            ParserError::ExpectedButFound(Lex::RBrace, Some(Lex::I64(10))),
            "Expected }, but found literal 10",
        ),
        (
            ParserError::ExpectedButFound(Lex::RBrace, Some(Lex::Let)),
            "Expected }, but found let",
        ),
        (ParserError::ExpectedButFound(Lex::Semicolon, None), "Expected ;, but found EOF"),
        (
            ParserError::FnExpectedReturn(Some(Token::new(2, 9, Lex::RBrace))),
            "Routines must end with a return statement, but found }",
        ),
        (ParserError::PathExpectedIdentifier, "Expected identifier after ::"),
        (
            ParserError::StructExpectedFieldExpr(a),
            "Expected an expression to be assigned to field alpha",
        ),
        (ParserError::ExpectedExprAfter(Lex::Add), "Expected expression after +"),
        (ParserError::ExpectedTermAfter(Lex::Not), "Expected term after !"),
        (ParserError::NotAUnaryOp(Lex::Mul), "* is not a unary operator"),
        (ParserError::IndexOpInvalidExpr, "Index operator must contain valid expression"),
    ] {
        assert_eq!(e.fmt(&t).unwrap(), expected);
    }
    assert_eq!(
        ParserError::ModAlreadyContains(StringId(4)).fmt(&t),
        Err(CompilerDisplayError::StringIdNotFound)
    );
}

#[test]
fn lexer_errors_name_what_is_wrong() {
    let (t, _, _, _) = table();
    assert_eq!(LexerError::UnexpectedCharacter('#').fmt(&t).unwrap(), "Unexpected character #");
    assert_eq!(LexerError::InvalidInteger.fmt(&t).unwrap(), "Invalid integer");
    assert_eq!(
        LexerError::StringDoesNotEnd.fmt(&t).unwrap(),
        "The string literal does not end on its line"
    );
}

fn parsed(text: &str) -> (braid::ast::module::Module<braid::parser::context::ParserContext>, StringTable) {
    let mut t = StringTable::new();
    let main = t.insert("main".into());
    let tokens = braid::lexer::lexer::tokenize(text, &mut t).unwrap();
    (braid::parser::items::parse(main, &tokens).unwrap().unwrap(), t)
}

fn root_of(text: &str) -> String {
    let mut t = StringTable::new();
    let tokens = braid::lexer::lexer::tokenize(text, &mut t).unwrap();
    let e = braid::parser::parser::Parser::new(&tokens).expression().unwrap().unwrap();
    e.root_str(&t).unwrap()
}

#[test]
fn expressions_are_named_by_their_root() {
    for (text, expected) in [
        ("5", "i64(5)"),
        ("5u8", "u8(5)"),
        ("7i16", "i16(7)"),
        ("true", "bool(true)"),
        ("false", "bool(false)"),
        ("\"hi\"", "\"hi\""),
        ("x", "x"),
        ("a::b", "a::b"),
        ("[1, x, true]", "[i64(1),x,bool(true)]"),
        ("a[1]", "a[i64(1)]"),
        ("a.b.c", "a.b.c"),
        ("1 + 2", "+"),
        ("a <= b", "<="),
        ("-x", "-"),
        ("!x", "!"),
        ("f(1)", "call f"),
        ("init m::c()", "init m::c"),
        ("S { a: 1 }", "initialization for struct S"),
        ("if (x) {1}", "if"),
        ("while (x) {}", "while"),
        ("{ 1 }", "expression block"),
        ("yield c", "yield"),
    ] {
        assert_eq!(root_of(text), expected, "{}", text);
    }
}

#[test]
fn items_and_statements_are_named_by_their_root() {
    let (m, t) = parsed(
        "fn f(x: i64, y: [bool; 2]) -> i64 { let z: i64 := x; mut z := 1; g(); return z; }
         co c() { yret 1; return; }
         struct S { a: i64 }
         extern fn e(x: i64);",
    );
    assert_eq!(m.root_str(&t).unwrap(), "module main");
    assert_eq!(m.functions[0].root_str(&t).unwrap(), "function def f");
    assert_eq!(m.coroutines[0].root_str(&t).unwrap(), "coroutine def c");
    assert_eq!(m.structs[0].root_str(&t).unwrap(), "struct S");
    assert_eq!(m.externs[0].root_str(&t).unwrap(), "extern e");
    match &m.functions[0] {
        braid::ast::module::Item::Routine(f) => {
            assert_eq!(f.params[0].root_str(&t).unwrap(), "x:i64");
            assert_eq!(f.params[1].root_str(&t).unwrap(), "y:[bool; 2]");
            let roots: Vec<String> = f.body.iter().map(|s| s.root_str(&t).unwrap()).collect();
            assert_eq!(roots, vec!["bind z", "mut z", "call g", "return"]);
        }
        _ => panic!("expected a routine"),
    }
    match &m.coroutines[0] {
        braid::ast::module::Item::Routine(c) => {
            assert_eq!(c.body[0].root_str(&t).unwrap(), "yret")
        }
        _ => panic!("expected a routine"),
    }
    let empty = StringTable::new();
    assert_eq!(m.root_str(&empty), Err(CompilerDisplayError::StringIdNotFound));
    assert_eq!(m.functions[0].root_str(&empty), Err(CompilerDisplayError::StringIdNotFound));
}
