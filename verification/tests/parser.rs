use braid::ast::expression::{BinaryOperator, Expression, RoutineCall, UnaryOperator};
use braid::ast::module::{Item, Module};
use braid::ast::path::{Element, Path};
use braid::ast::routinedef::{RoutineDef, RoutineDefType};
use braid::ast::statement::Statement;
use braid::ast::ty::Type;
use braid::lexer::lexer::tokenize;
use braid::lexer::tokens::{Lex, Token};
use braid::parser::context::ParserContext;
use braid::parser::error::ParserError;
use braid::parser::items::parse;
use braid::parser::parser::Parser;
use braid::stringtable::{StringId, StringTable};

type Node = Expression<ParserContext>;

fn lex(text: &str) -> (Vec<Token>, StringTable) {
    let mut table = StringTable::new();
    let tokens = tokenize(text, &mut table).unwrap();
    (tokens, table)
}

fn name(table: &StringTable, id: StringId) -> String {
    table.get(id).unwrap().clone()
}

fn show_path(p: &Path, t: &StringTable) -> String {
    let mut steps = vec![];
    for i in 0..p.len() {
        steps.push(match p.get(i).unwrap() {
            Element::FileRoot => "root".to_string(),
            Element::CanonicalRoot => "project".to_string(),
            Element::Selph => "self".to_string(),
            Element::Super => "super".to_string(),
            Element::Id(id) => name(t, id),
        });
    }
    steps.join("::")
}

fn show_type(ty: &Type, t: &StringTable) -> String {
    match ty {
        Type::U8 => "u8".into(),
        Type::U16 => "u16".into(),
        Type::U32 => "u32".into(),
        Type::U64 => "u64".into(),
        Type::I8 => "i8".into(),
        Type::I16 => "i16".into(),
        Type::I32 => "i32".into(),
        Type::I64 => "i64".into(),
        Type::Bool => "bool".into(),
        Type::StringLiteral => "string".into(),
        Type::Unit => "unit".into(),
        Type::Array(el, n) => format!("[{}; {}]", show_type(el, t), n),
        Type::Coroutine(ty) => format!("co {}", show_type(ty, t)),
        Type::Custom(p) => show_path(p, t),
        other => format!("{:?}", other),
    }
}

fn show_list(es: &[Node], t: &StringTable) -> String {
    es.iter().map(|e| show(e, t)).collect::<Vec<_>>().join(" ")
}

/// The expression without its annotations, with the names written out.
fn show(e: &Node, t: &StringTable) -> String {
    match e {
        Expression::U8(_, v) => format!("{}u8", v),
        Expression::U16(_, v) => format!("{}u16", v),
        Expression::U32(_, v) => format!("{}u32", v),
        Expression::U64(_, v) => format!("{}u64", v),
        Expression::I8(_, v) => format!("{}i8", v),
        Expression::I16(_, v) => format!("{}i16", v),
        Expression::I32(_, v) => format!("{}i32", v),
        Expression::I64(_, v) => format!("{}", v),
        Expression::Boolean(_, v) => format!("{}", v),
        Expression::StringLiteral(_, id) => format!("{:?}", name(t, *id)),
        Expression::ArrayExpression(_, es, n) => format!("[{}]#{}", show_list(es, t), n),
        Expression::ArrayAt { array, index, .. } => {
            format!("(at {} {})", show(array, t), show(index, t))
        }
        Expression::CustomType(_, p) => format!("(type {})", show_path(p, t)),
        Expression::Identifier(_, id) => name(t, *id),
        Expression::Path(_, p) => format!("(path {})", show_path(p, t)),
        Expression::MemberAccess(_, src, member) => {
            format!("(. {} {})", show(src, t), name(t, *member))
        }
        Expression::IdentifierDeclare(_, id, ty) => {
            format!("(decl {} {})", name(t, *id), show_type(ty, t))
        }
        Expression::RoutineCall(_, call, p, args) => format!(
            "({} {} [{}])",
            match call {
                RoutineCall::Function => "call",
                RoutineCall::CoroutineInit => "init",
                RoutineCall::Extern => "extern",
            },
            show_path(p, t),
            show_list(args, t)
        ),
        Expression::StructExpression(_, p, fields) => format!(
            "(struct {} [{}])",
            show_path(p, t),
            fields
                .iter()
                .map(|(n, e)| format!("{}: {}", name(t, *n), show(e, t)))
                .collect::<Vec<_>>()
                .join(", ")
        ),
        Expression::If { cond, if_arm, else_arm, .. } => format!(
            "(if {} {} {})",
            show(cond, t),
            show(if_arm, t),
            else_arm.as_ref().map_or("-".to_string(), |e| show(e, t))
        ),
        Expression::While { cond, body, .. } => {
            format!("(while {} {})", show(cond, t), show(body, t))
        }
        Expression::ExpressionBlock(_, body, last) => format!(
            "{{{}| {}}}",
            body.iter().map(|s| show_statement(s, t) + " ").collect::<String>(),
            last.as_ref().map_or("-".to_string(), |e| show(e, t))
        ),
        Expression::BinaryOp(_, op, l, r) => {
            format!("({:?} {} {})", op, show(l, t), show(r, t))
        }
        Expression::UnaryOp(_, op, operand) => format!("({:?} {})", op, show(operand, t)),
        Expression::Yield(_, e) => format!("(yield {})", show(e, t)),
    }
}

fn show_statement(s: &Statement<ParserContext>, t: &StringTable) -> String {
    match s {
        Statement::Bind(b) => format!(
            "(let{} {} {} {})",
            if b.is_mutable() { " mut" } else { "" },
            name(t, b.get_id()),
            show_type(b.get_type(), t),
            show(b.get_rhs(), t)
        ),
        Statement::Mutate(m) => format!("(mut {} {})", name(t, m.get_id()), show(m.get_rhs(), t)),
        Statement::Return(r) => format!(
            "(return {})",
            r.get_value().as_ref().map_or("-".to_string(), |e| show(e, t))
        ),
        Statement::YieldReturn(r) => format!(
            "(yret {})",
            r.get_value().as_ref().map_or("-".to_string(), |e| show(e, t))
        ),
        Statement::Expression(e) => format!("({};)", show(e, t)),
    }
}

fn show_routine(r: &RoutineDef<ParserContext>, t: &StringTable) -> String {
    format!(
        "({} {} [{}] {} [{}])",
        match r.def {
            RoutineDefType::Function => "fn",
            RoutineDefType::Coroutine => "co",
        },
        name(t, r.name),
        r.params
            .iter()
            .map(|p| format!("{}: {}", name(t, p.name), show_type(&p.ty, t)))
            .collect::<Vec<_>>()
            .join(", "),
        show_type(&r.ty, t),
        r.body.iter().map(|s| show_statement(s, t)).collect::<Vec<_>>().join(" ")
    )
}

fn expression(text: &str) -> Result<Option<String>, ParserError> {
    let (tokens, table) = lex(text);
    let mut parser = Parser::new(&tokens);
    match parser.expression() {
        Ok(e) => Ok(e.map(|e| show(&e, &table))),
        Err(e) => Err(*e.inner()),
    }
}

fn statement(text: &str) -> Result<Option<String>, ParserError> {
    let (tokens, table) = lex(text);
    let mut parser = Parser::new(&tokens);
    match parser.statement() {
        Ok(s) => Ok(s.map(|s| show_statement(&s, &table))),
        Err(e) => Err(*e.inner()),
    }
}

fn unit(text: &str) -> (Result<Option<Module<ParserContext>>, ParserError>, StringTable) {
    let mut table = StringTable::new();
    let root = table.insert("root".into());
    let tokens = tokenize(text, &mut table).unwrap();
    let r = match parse(root, &tokens) {
        Ok(m) => Ok(m),
        Err(e) => Err(*e.inner()),
    };
    (r, table)
}

fn span_of(ctx: &ParserContext) -> (u32, u32) {
    (ctx.span.low().0, ctx.span.high().0)
}

#[test]
fn parse_unary_operators() {
    for (text, expected) in [("-a", UnaryOperator::Negate), ("!a", UnaryOperator::Not)] {
        let (tokens, table) = lex(text);
        let mut parser = Parser::new(&tokens);
        match parser.expression().unwrap() {
            Some(Expression::UnaryOp(ctx, op, operand)) => {
                assert_eq!(op, expected);
                assert_eq!(span_of(&ctx), (0, 2));
                assert_eq!(show(&operand, &table), "a");
            }
            other => panic!("No nodes returned by parser for {:?} => {:?}", text, other),
        }
    }
}

#[test]
fn parse_double_unary_operators() {
    for (text, expected) in [("--a", UnaryOperator::Negate), ("!!a", UnaryOperator::Not)] {
        let (tokens, table) = lex(text);
        let mut parser = Parser::new(&tokens);
        match parser.expression().unwrap() {
            Some(Expression::UnaryOp(_, op, operand)) => {
                assert_eq!(op, expected);
                match *operand {
                    Expression::UnaryOp(_, op, operand) => {
                        assert_eq!(op, expected);
                        assert_eq!(show(&operand, &table), "a");
                    }
                    other => panic!("Expected a second operator, got {:?}", other),
                }
            }
            other => panic!("No nodes returned by parser for {:?} => {:?}", text, other),
        }
    }
}

#[test]
fn parse_arithmetic_expressions() {
    for (text, expected) in [
        ("2+2", BinaryOperator::Add),
        ("2-2", BinaryOperator::Sub),
        ("2*2", BinaryOperator::Mul),
        ("2/2", BinaryOperator::Div),
        ("2==2", BinaryOperator::Eq),
        ("2!=2", BinaryOperator::NEq),
        ("2<2", BinaryOperator::Ls),
        ("2<=2", BinaryOperator::LsEq),
        ("2>2", BinaryOperator::Gr),
        ("2>=2", BinaryOperator::GrEq),
    ] {
        let (tokens, table) = lex(text);
        let mut parser = Parser::new(&tokens);
        match parser.expression().unwrap() {
            Some(Expression::BinaryOp(_, op, left, right)) => {
                assert_eq!(op, expected);
                assert_eq!(show(&left, &table), "2");
                assert_eq!(show(&right, &table), "2");
            }
            other => panic!("No nodes returned by parser for {}: {:?}", text, other),
        }
    }
}

#[test]
fn parse_boolean_expresions() {
    for (text, expected) in
        [("true && false", BinaryOperator::BAnd), ("true || false", BinaryOperator::BOr)]
    {
        let (tokens, table) = lex(text);
        let mut parser = Parser::new(&tokens);
        match parser.expression().unwrap() {
            Some(Expression::BinaryOp(_, op, left, right)) => {
                assert_eq!(op, expected);
                assert_eq!(show(&left, &table), "true");
                assert_eq!(show(&right, &table), "false");
            }
            other => panic!("No nodes returned by parser: {:?}", other),
        }
    }
}

#[test]
fn parse_nested_arithmetic_expression() {
    assert_eq!(expression("(2 + 4) * 3"), Ok(Some("(Mul (Add 2 4) 3)".into())));
}

#[test]
fn parse_boolean_expression() {
    assert_eq!(expression("true || false"), Ok(Some("(BOr true false)".into())));
}

#[test]
fn parse_path() {
    for (text, expected) in [
        ("thing", Ok("thing")),
        ("::thing", Ok("(path root::thing)")),
        ("thing::first", Ok("(path thing::first)")),
        ("thing::first::second", Ok("(path thing::first::second)")),
        ("thing::", Err(ParserError::PathExpectedIdentifier)),
        ("thing::first::", Err(ParserError::PathExpectedIdentifier)),
    ] {
        assert_eq!(expression(text), expected.map(|e| Some(e.to_string())), "{}", text);
    }
}

#[test]
fn parse_member_access() {
    for text in ["thing.first", "(thing).first", "(thing.first)"] {
        assert_eq!(expression(text), Ok(Some("(. thing first)".into())), "Input: {}", text);
    }
}

#[test]
fn parse_multiple_member_access() {
    for text in [
        "thing.first.second",
        "(thing).first.second",
        "(thing.first).second",
        "((thing.first).second)",
        "(thing.first.second)",
    ] {
        assert_eq!(
            expression(text),
            Ok(Some("(. (. thing first) second)".into())),
            "Input: {}",
            text
        );
    }
}

#[test]
fn parse_bind() {
    assert_eq!(statement("let x:i32 := 5;"), Ok(Some("(let x i32 5)".into())));
}

#[test]
fn parse_mut_bind() {
    assert_eq!(statement("let mut x:i32 := 5;"), Ok(Some("(let mut x i32 5)".into())));
}

#[test]
fn parse_mutation() {
    assert_eq!(statement("mut x := 5;"), Ok(Some("(mut x 5)".into())));
}

#[test]
fn parse_module_empty() {
    let (tokens, table) = lex("mod test_mod {}");
    let mut parser = Parser::new(&tokens);
    match parser.module().unwrap() {
        Some(m) => {
            assert_eq!(span_of(&m.annotations), (0, 15));
            assert_eq!(name(&table, m.get_name()), "test_mod");
        }
        None => panic!("No nodes returned by parser"),
    }
}

#[test]
fn parse_module_with_function() {
    let (m, table) = unit("mod test_fn_mod { fn test(x:i32) {return;} }");
    let m = m.unwrap().expect("No nodes returned by parser");
    assert_eq!(name(&table, m.get_name()), "root");
    assert_eq!(m.get_modules().len(), 1);
    assert_eq!(m.get_functions().len(), 0);
    assert_eq!(m.get_coroutines().len(), 0);
    assert_eq!(m.get_structs().len(), 0);

    let m = &m.get_modules()[0];
    assert_eq!(name(&table, m.get_name()), "test_fn_mod");
    assert_eq!(m.get_modules().len(), 0);
    assert_eq!(m.get_functions().len(), 1);
    assert_eq!(m.get_coroutines().len(), 0);
    assert_eq!(m.get_structs().len(), 0);
    match &m.get_functions()[0] {
        Item::Routine(r) => {
            assert_eq!(show_routine(r, &table), "(fn test [x: i32] unit [(return -)])")
        }
        _ => panic!("Expected function definition"),
    }
}

#[test]
fn parse_module_with_coroutine() {
    let (tokens, table) = lex("mod test_co_mod { co test(x:i32) {return;} }");
    let mut parser = Parser::new(&tokens);
    let m = parser.module().unwrap().expect("No nodes returned by parser");
    assert_eq!(name(&table, m.get_name()), "test_co_mod");
    assert_eq!(m.get_modules().len(), 0);
    assert_eq!(m.get_functions().len(), 0);
    assert_eq!(m.get_coroutines().len(), 1);
    assert_eq!(m.get_structs().len(), 0);
    let test = table.find(&"test".to_string()).unwrap();
    match m.get_item(test) {
        Some(Item::Routine(r)) => {
            assert_eq!(show_routine(r, &table), "(co test [x: i32] unit [(return -)])")
        }
        _ => panic!("Expected coroutine definition"),
    }
}

#[test]
fn parse_module_with_struct() {
    let (tokens, table) = lex("mod test_struct_mod { struct my_struct{x: i32} }");
    let mut parser = Parser::new(&tokens);
    let m = parser.module().unwrap().expect("No nodes returned by parser");
    assert_eq!(name(&table, m.get_name()), "test_struct_mod");
    assert_eq!(m.get_modules().len(), 0);
    assert_eq!(m.get_functions().len(), 0);
    assert_eq!(m.get_coroutines().len(), 0);
    assert_eq!(m.get_structs().len(), 1);
    let my_struct = table.find(&"my_struct".to_string()).unwrap();
    match m.get_item(my_struct) {
        Some(Item::Struct(sd)) => {
            assert_eq!(name(&table, sd.get_name()), "my_struct");
            assert_eq!(sd.get_fields().len(), 1);
            assert_eq!(name(&table, sd.get_fields()[0].name), "x");
            assert_eq!(sd.get_fields()[0].ty, Type::I32);
        }
        _ => panic!("Expected structure definition"),
    }
}

#[test]
fn parse_unit_function_def() {
    let (tokens, table) = lex("fn test(x:i32) {return;}");
    let mut parser = Parser::new(&tokens);
    let r = parser.routine().unwrap().expect("No nodes returned by parser");
    assert_eq!(span_of(&r.annotations), (0, 24));
    assert_eq!(show_routine(&r, &table), "(fn test [x: i32] unit [(return -)])");
}

#[test]
fn parse_function_def() {
    let (tokens, table) = lex("fn test(x:i32) -> bool {return true;}");
    let mut parser = Parser::new(&tokens);
    let r = parser.routine().unwrap().expect("No nodes returned by parser");
    assert_eq!(show_routine(&r, &table), "(fn test [x: i32] bool [(return true)])");
}

#[test]
fn parse_routine_call() {
    assert_eq!(expression("test(x, y)"), Ok(Some("(call test [x y])".into())));
}

#[test]
fn parse_routine_by_path_call() {
    assert_eq!(expression("self::test(x, y)"), Ok(Some("(call self::test [x y])".into())));
}

#[test]
fn parse_coroutine_def() {
    let (m, table) = unit("co test(x:i32) -> bool {return true;}");
    let m = m.unwrap().expect("No nodes returned by parser");
    let test = table.find(&"test".to_string()).unwrap();
    match m.get_item(test) {
        Some(Item::Routine(r)) => {
            assert_eq!(show_routine(r, &table), "(co test [x: i32] bool [(return true)])")
        }
        _ => panic!("Expected coroutine definition"),
    }
}

#[test]
fn parse_coroutine_init() {
    assert_eq!(
        statement("let x:co i32 := init c(1, 2);"),
        Ok(Some("(let x co i32 (init c [1 2]))".into()))
    );
}

#[test]
fn parse_coroutine_path_init() {
    assert_eq!(
        statement("let x:co i32 := init a::b::c(1, 2);"),
        Ok(Some("(let x co i32 (init a::b::c [1 2]))".into()))
    );
}

#[test]
fn parse_yield() {
    let (tokens, table) = lex("fn test(x:i32) -> bool {return yield cor;}");
    let mut parser = Parser::new(&tokens);
    let r = parser.routine().unwrap().expect("No nodes returned by parser");
    assert_eq!(show_routine(&r, &table), "(fn test [x: i32] bool [(return (yield cor))])");
}

#[test]
fn parse_if_expression() {
    assert_eq!(expression("if (x) {5} else {7}"), Ok(Some("(if x {| 5} {| 7})".into())));
}

#[test]
fn parse_if_else_if_expression() {
    assert_eq!(
        expression("if (x) {5} else if (y && z) {7} else {8}"),
        Ok(Some("(if x {| 5} (if (BAnd y z) {| 7} {| 8}))".into()))
    );
}

#[test]
fn parse_expression_block_oneline() {
    let (tokens, table) = lex("{5}");
    let mut parser = Parser::new(&tokens);
    match parser.expression().unwrap() {
        Some(Expression::ExpressionBlock(ctx, body, last)) => {
            assert_eq!(span_of(&ctx), (0, 3));
            assert_eq!(body.len(), 0);
            assert_eq!(show(&last.unwrap(), &table), "5");
        }
        other => panic!("No nodes returned by parser: {:?}", other),
    }
}

#[test]
fn parse_expression_block_bad() {
    for (text, expected, found) in [
        ("{5 10 51}", Lex::RBrace, Lex::I64(10)),
        ("{5; 10 51}", Lex::RBrace, Lex::I64(51)),
        ("{5; 10 let x:i32 := 5}", Lex::RBrace, Lex::Let),
        ("{let x: i32 := 10 5}", Lex::Semicolon, Lex::I64(5)),
    ] {
        assert_eq!(
            expression(text),
            Err(ParserError::ExpectedButFound(expected, Some(found))),
            "{:?}",
            text
        );
    }
}

#[test]
fn parse_expression_block_multiline() {
    assert_eq!(
        expression("{let x:i32 := 5; f(x); x * x}"),
        Ok(Some("{(let x i32 5) ((call f [x]);) | (Mul x x)}".into()))
    );
}

#[test]
fn parse_struct_def() {
    for (text, expected) in [
        ("struct MyStruct {}", vec![]),
        ("struct MyStruct {x: i32}", vec![("x", Type::I32)]),
        ("struct MyStruct {x: i32, y: bool}", vec![("x", Type::I32), ("y", Type::Bool)]),
    ] {
        let (tokens, table) = lex(text);
        let mut parser = Parser::new(&tokens);
        assert!(parser.module().unwrap().is_none());
        let sd = parser.structure().unwrap().expect("No structure returned by parser");
        assert_eq!(name(&table, sd.get_name()), "MyStruct");
        let fields: Vec<(String, Type)> =
            sd.get_fields().iter().map(|p| (name(&table, p.name), p.ty.clone())).collect();
        let expected: Vec<(String, Type)> =
            expected.into_iter().map(|(n, t)| (n.to_string(), t)).collect();
        assert_eq!(fields, expected, "{:?}", text);
    }
}

#[test]
fn parse_struct_init() {
    for (text, expected) in [
        ("MyStruct{}", "(struct MyStruct [])"),
        ("MyStruct{x: 5}", "(struct MyStruct [x: 5])"),
        ("MyStruct{x: 5, y: false}", "(struct MyStruct [x: 5, y: false])"),
        (
            "MyStruct{x: 5, y: MyStruct2{z:3}}",
            "(struct MyStruct [x: 5, y: (struct MyStruct2 [z: 3])])",
        ),
    ] {
        assert_eq!(expression(text), Ok(Some(expected.to_string())), "{:?}", text);
    }
}

#[test]
fn parse_string_literals() {
    for (text, expected) in [
        ("fn test() -> String {return \"test\";}", "test"),
        ("fn test() -> String {return \"test 2\";}", "test 2"),
    ] {
        let (m, table) = unit(text);
        let m = m.unwrap().expect("No module returned by parser");
        match &m.get_functions()[0] {
            Item::Routine(r) => match &r.body[0] {
                Statement::Return(ret) => match ret.get_value() {
                    Some(Expression::StringLiteral(_, id)) => {
                        assert_eq!(name(&table, *id), expected)
                    }
                    other => panic!("Not a string literal: {:?}", other),
                },
                _ => panic!("Not a return statement"),
            },
            _ => panic!("Not a routine"),
        }
    }
}

#[test]
fn no_tokens_give_no_module() {
    let (m, _) = unit("  // nothing but a comment\n");
    assert_eq!(m, Ok(None));
}

#[test]
fn operators_bind_by_their_level() {
    assert_eq!(expression("1 + 2 * 3"), Ok(Some("(Add 1 (Mul 2 3))".into())));
    assert_eq!(expression("1 * 2 + 3"), Ok(Some("(Add (Mul 1 2) 3)".into())));
    assert_eq!(
        expression("a || b && c == d + e * f"),
        Ok(Some("(BOr a (BAnd b (Eq c (Add d (Mul e f)))))".into()))
    );
    assert_eq!(expression("-a * b"), Ok(Some("(Mul (Negate a) b)".into())));
    assert_eq!(expression("!a.b"), Ok(Some("(Not (. a b))".into())));
}

#[test]
fn operators_of_one_level_group_to_the_right() {
    assert_eq!(expression("1 - 2 - 3"), Ok(Some("(Sub 1 (Sub 2 3))".into())));
    assert_eq!(expression("8 / 4 * 2"), Ok(Some("(Div 8 (Mul 4 2))".into())));
}

#[test]
fn literals_keep_their_types() {
    assert_eq!(
        expression("[1u8, 2u16, 3u32, 4u64, 5i8, 6i16, 7i32, 8i64, 9]"),
        Ok(Some("[1u8 2u16 3u32 4u64 5i8 6i16 7i32 8 9]#9".into()))
    );
    assert_eq!(expression("\"a\\n\\\"b\\\"\""), Ok(Some("\"a\\n\\\"b\\\"\"".into())));
}

#[test]
fn elements_and_members_follow_a_factor() {
    assert_eq!(expression("a[1].b[c + 1]"), Ok(Some("(at (. (at a 1) b) (Add c 1))".into())));
    assert_eq!(expression("f(1)[2]"), Ok(Some("(at (call f [1]) 2)".into())));
    assert_eq!(expression("a."), Err(ParserError::MemberAccessExpectedField));
    assert_eq!(expression("a[]"), Err(ParserError::IndexOpInvalidExpr));
    assert_eq!(expression("a[1"), Err(ParserError::EOF));
}

#[test]
fn paths_start_at_named_places() {
    assert_eq!(expression("project::a::b"), Ok(Some("(path project::a::b)".into())));
    assert_eq!(expression("root::a"), Ok(Some("(path root::a)".into())));
    assert_eq!(expression("super::super::a()"), Ok(Some("(call super::super::a [])".into())));
    assert_eq!(expression("self"), Ok(Some("(path self)".into())));
}

#[test]
fn conditionals_and_loops() {
    assert_eq!(expression("if (x) {1}"), Ok(Some("(if x {| 1} -)".into())));
    assert_eq!(
        expression("while (x < 5) { mut x := x + 1; }"),
        Ok(Some("(while (Ls x 5) {(mut x (Add x 1)) | -})".into()))
    );
    assert_eq!(
        expression("if x {1}"),
        Err(ParserError::ExpectedButFound(Lex::LParen, Some(Lex::Identifier(StringId(0)))))
    );
    assert_eq!(expression("if () {1}"), Err(ParserError::IfExpectedConditional));
    assert_eq!(expression("if (x) 1"), Err(ParserError::IfTrueArmMissingExpr));
    assert_eq!(expression("if (x) {1} else 2"), Err(ParserError::IfFalseArmMissingExpr));
    assert_eq!(expression("while () {}"), Err(ParserError::WhileExpectedConditional));
    assert_eq!(expression("while (x) 1"), Err(ParserError::WhileMissingBody));
}

#[test]
fn operands_must_follow_operators() {
    assert_eq!(expression("1 +"), Err(ParserError::ExpectedExprAfter(Lex::Add)));
    assert_eq!(expression("1 && "), Err(ParserError::ExpectedExprAfter(Lex::BAnd)));
    assert_eq!(expression("-"), Err(ParserError::ExpectedTermAfter(Lex::Minus)));
    assert_eq!(expression("!"), Err(ParserError::ExpectedTermAfter(Lex::Not)));
    assert_eq!(expression("()"), Err(ParserError::ExpectedExprAfter(Lex::LParen)));
    assert_eq!(expression("(1"), Err(ParserError::EOF));
    assert_eq!(expression(")"), Ok(None));
}

#[test]
fn coroutines_are_created_and_resumed() {
    assert_eq!(expression("yield c"), Ok(Some("(yield c)".into())));
    assert_eq!(expression("yield"), Err(ParserError::YieldExpectedIdentifier));
    assert_eq!(expression("init"), Err(ParserError::ExpectedIdAfterInit));
    assert_eq!(expression("init c"), Err(ParserError::ExpectedParams));
    assert_eq!(expression("init c()"), Ok(Some("(init c [])".into())));
}

#[test]
fn structure_values_name_their_fields() {
    let (tokens, table) = lex("P{x: }");
    let x = table.find(&"x".to_string()).unwrap();
    let mut parser = Parser::new(&tokens);
    assert_eq!(
        parser.expression().map_err(|e| *e.inner()),
        Err(ParserError::StructExpectedFieldExpr(x))
    );
    assert_eq!(
        expression("P{x: 1 y: 2}"),
        Err(ParserError::ExpectedButFound(Lex::RBrace, Some(Lex::Identifier(StringId(2)))))
    );
}

#[test]
fn statements_end_in_a_semicolon() {
    assert_eq!(statement("f(x);"), Ok(Some("((call f [x]);)".into())));
    assert_eq!(statement("f(x)"), Ok(None));
    assert_eq!(statement("return;"), Ok(Some("(return -)".into())));
    assert_eq!(statement("return 1 + 2;"), Ok(Some("(return (Add 1 2))".into())));
    assert_eq!(statement("yret 1;"), Ok(Some("(yret 1)".into())));
    assert_eq!(statement("yret;"), Ok(Some("(yret -)".into())));
    assert_eq!(statement("return 1"), Err(ParserError::EOF));
    assert_eq!(statement("let := 5;"), Err(ParserError::ExpectedIdDeclAfterLet));
    assert_eq!(
        statement("let x := 5;"),
        Err(ParserError::ExpectedButFound(Lex::Colon, Some(Lex::Assign)))
    );
    assert_eq!(statement("let x: := 5;"), Err(ParserError::ExpectedTypeInIdDecl));
    assert_eq!(statement("let x: i32 := ;"), Err(ParserError::ExpectedExpressionOnRhs));
    assert_eq!(statement("mut x := ;"), Err(ParserError::ExpectedExpressionOnRhs));
    assert_eq!(
        statement("let x: [i32; 4] := [1, 2, 3, 4];"),
        Ok(Some("(let x [i32; 4] [1 2 3 4]#4)".into()))
    );
    assert_eq!(statement("let x: [; 4] := 1;"), Err(ParserError::ArrayDeclExpectedType));
    assert_eq!(statement("let x: [i32; y] := 1;"), Err(ParserError::ArrayDeclExpectedSize));
    assert_eq!(statement("let x: co := 1;"), Err(ParserError::FnExpectedTypeAfterArrow));
    assert_eq!(statement("let x: a::b::T := 1;"), Ok(Some("(let x a::b::T 1)".into())));
}

#[test]
fn routines_end_with_a_return() {
    let (m, _) = unit("fn f() { let x: i32 := 1; }");
    assert_eq!(
        m,
        Err(ParserError::FnExpectedReturn(Some(Token::new(1, 26, Lex::RBrace))))
    );
    let (m, _) = unit("fn f() { }");
    assert_eq!(m, Err(ParserError::FnExpectedReturn(Some(Token::new(1, 9, Lex::RBrace)))));
    let (m, _) = unit("fn f() { return; ");
    assert_eq!(m, Err(ParserError::EOF));
}

#[test]
fn items_have_names_and_parameters() {
    assert_eq!(unit("fn () {return;}").0, Err(ParserError::FnExpectedIdentifierAfterFn));
    assert_eq!(unit("co () {return;}").0, Err(ParserError::CoExpectedIdentifierAfterCo));
    assert_eq!(unit("struct {}").0, Err(ParserError::StructExpectedIdentifier));
    assert_eq!(unit("mod {}").0, Err(ParserError::ModExpectedName));
    assert_eq!(unit("extern f();").0, Err(ParserError::ExternExpectedFnDecl));
    assert_eq!(
        unit("fn f(x) {return;}").0,
        Err(ParserError::ExpectedButFound(Lex::RParen, Some(Lex::Identifier(StringId(2)))))
    );
    assert_eq!(unit("fn f(x:) {return;}").0, Err(ParserError::IdDeclExpectedType));
    assert_eq!(unit("fn f() -> {return;}").0, Err(ParserError::FnExpectedTypeAfterArrow));
    assert_eq!(unit("fn f(x: i64, ...) {return;}").0, Err(ParserError::FnVarArgsNotAllowed));
    assert_eq!(unit("co c(...) {return;}").0, Err(ParserError::FnVarArgsNotAllowed));
}

#[test]
fn names_of_items_differ() {
    let (m, table) = unit("fn f() {return;} struct f {}");
    let f = table.find(&"f".to_string()).unwrap();
    assert_eq!(m, Err(ParserError::ModAlreadyContains(f)));
    let (m, _) = unit("mod a { fn f() {return;} } mod b { fn f() {return;} }");
    assert!(m.unwrap().is_some());
}

#[test]
fn external_functions_are_declared() {
    let (m, table) =
        unit("extern fn printf(fmt: string, ...) -> i32; extern fn exit(code: i32);");
    let m = m.unwrap().unwrap();
    assert_eq!(m.get_externs().len(), 2);
    match &m.get_externs()[0] {
        Item::Extern(e) => {
            assert_eq!(name(&table, e.get_name()), "printf");
            assert_eq!(e.params.len(), 1);
            assert!(e.has_varargs);
            assert_eq!(e.ty, Type::I32);
            assert_eq!(span_of(&e.annotations), (0, 43));
        }
        _ => panic!("Expected an external declaration"),
    }
    match &m.get_externs()[1] {
        Item::Extern(e) => {
            assert_eq!(name(&table, e.get_name()), "exit");
            assert!(!e.has_varargs);
            assert_eq!(e.ty, Type::Unit);
        }
        _ => panic!("Expected an external declaration"),
    }
    assert_eq!(unit("extern fn f(...);").0, Err(ParserError::ExternInvalidVarArgs));
}

#[test]
fn every_token_belongs_to_an_item() {
    let (m, _) = unit("fn f() {return;} 5");
    assert_eq!(m, Err(ParserError::Locked(Some(Token::new(1, 17, Lex::I64(5))))));
}

#[test]
fn modules_nest() {
    let (m, table) = unit(
        "mod a { mod b { struct S {x: i32} } fn f() {return;} }\nco c() {yret 1; return;}",
    );
    let m = m.unwrap().unwrap();
    assert_eq!(span_of(&m.annotations), (0, 79));
    let a = &m.get_modules()[0];
    assert_eq!(name(&table, a.get_name()), "a");
    assert_eq!(span_of(&a.annotations), (0, 55));
    let b = &a.get_modules()[0];
    assert_eq!(name(&table, b.get_name()), "b");
    assert_eq!(b.get_structs().len(), 1);
    assert_eq!(a.get_functions().len(), 1);
    match &m.get_coroutines()[0] {
        Item::Routine(r) => {
            assert_eq!(show_routine(r, &table), "(co c [] unit [(yret 1) (return -)])")
        }
        _ => panic!("Expected a coroutine"),
    }
}

#[test]
fn errors_carry_the_place_of_the_token() {
    let (tokens, _) = lex("1 + ;");
    let mut parser = Parser::new(&tokens);
    let e = parser.expression().unwrap_err();
    assert_eq!((e.span().low().0, e.span().high().0), (4, 4));
    assert_eq!(*e.inner(), ParserError::ExpectedExprAfter(Lex::Add));
}
