use braid::ast::children::NodeRef;
use braid::ast::module::{Item, Module};
use braid::ast::node::Node;
use braid::ast::path::{Element, Path};
use braid::ast::statement::Statement;
use braid::ast::ty::Type;
use braid::lexer::lexer::tokenize;
use braid::mir::ir::{
    BasicBlockId, Constant, LValue, Operand, RValue, StatementKind, TempId, TerminatorKind, VarId,
};
use braid::mir::transform::try_module_transform;
use braid::parser::items::parse;
use braid::semantics::error::SemanticError;
use braid::semantics::semanticnode::SemanticContext;
use braid::semantics::type_resolver::resolve_types;
use braid::stringtable::{StringId, StringTable};

/// Reads the text as the module `main` and resolves its types.
fn compile(text: &str) -> (Result<Module<SemanticContext>, SemanticError>, StringTable) {
    let mut table = StringTable::new();
    let main = table.insert("main".into());
    let my_main = table.insert("my_main".into());
    let tokens = tokenize(text, &mut table).unwrap();
    let module = parse(main, &tokens).unwrap().unwrap();
    let resolved = resolve_types(&module, main, my_main).map_err(|e| e.take().1);
    (resolved, table)
}

fn id(table: &StringTable, name: &str) -> StringId {
    table.find(&name.to_string()).unwrap()
}

fn assign(stm: &braid::mir::ir::Statement) -> (&LValue, &RValue) {
    match stm.kind() {
        StatementKind::Assign(l, r) => (l, r),
    }
}

#[test]
fn a_bind_of_another_type_is_refused() {
    let (r, _) = compile("fn test() { let x: i32 := true; return; }");
    assert_eq!(r, Err(SemanticError::BindExpected(Type::I32, Type::Bool)));
    let (r, _) = compile("fn test() { let x: i32 := 5i32; return; }");
    assert!(r.is_ok());
}

#[test]
fn the_arms_of_a_conditional_agree() {
    let (r, _) = compile("fn test() -> i32 { return if (true) { 5i32 } else { 7i32 }; }");
    let m = r.unwrap();
    match &m.functions[0] {
        Item::Routine(f) => match &f.body[0] {
            Statement::Return(ret) => {
                assert_eq!(ret.get_value().as_ref().unwrap().get_type(), &Type::I32)
            }
            _ => panic!("expected a return"),
        },
        _ => panic!("expected a routine"),
    }
    let (r, _) = compile("fn test() -> i32 { return if (true) { 5i32 } else { true }; }");
    assert_eq!(r, Err(SemanticError::IfExprMismatchArms(Type::I32, Type::Bool)));
}

#[test]
fn calls_give_what_the_signature_asks() {
    let text = "fn two(a: i64, b: i64) -> i64 { return a; } fn test() -> i64 { return two(1); }";
    let (r, table) = compile(text);
    let two = Path::from_elements(vec![Element::Id(id(&table, "two"))]);
    assert_eq!(r, Err(SemanticError::RoutineCallWrongNumParams(two, 2, 1)));

    let text = "extern fn printf(fmt: string, ...) -> i32;
        fn test() -> i32 { return printf(\"%d %d\", 1, 2); }";
    let (r, _) = compile(text);
    assert!(r.is_ok());

    let text = "extern fn printf(fmt: string, ...) -> i32;
        fn test() -> i32 { return printf(); }";
    let (r, table) = compile(text);
    let printf = Path::from_elements(vec![Element::Id(id(&table, "printf"))]);
    assert_eq!(r, Err(SemanticError::FunctionParamsNotEnough(printf, 1, 0)));
}

#[test]
fn an_inner_name_hides_the_outer_one() {
    let text = "fn test() -> i64 {
            let x: i64 := 1;
            let y: bool := { let x: bool := true; x };
            return x;
        }";
    let (r, _) = compile(text);
    let m = r.unwrap();
    match &m.functions[0] {
        Item::Routine(f) => {
            match &f.body[1] {
                Statement::Bind(b) => assert_eq!(b.get_rhs().get_type(), &Type::Bool),
                _ => panic!("expected a bind"),
            }
            match &f.body[2] {
                Statement::Return(ret) => {
                    assert_eq!(ret.get_value().as_ref().unwrap().get_type(), &Type::I64)
                }
                _ => panic!("expected a return"),
            }
        }
        _ => panic!("expected a routine"),
    }
}

#[test]
fn the_names_of_a_routine_end_with_it() {
    let text = "fn f() -> i64 { let a: i64 := 1; return g(); } fn g() -> i64 { return a; }";
    let (r, table) = compile(text);
    assert_eq!(r, Err(SemanticError::NotDefined(id(&table, "a"))));
    let text = "fn f() -> i64 { let a: i64 := 1; return g(); } fn g() -> i64 { return f(); }";
    let (r, _) = compile(text);
    assert!(r.is_ok());
}

#[test]
fn resolving_a_text_twice_gives_one_tree() {
    let text = "mod m { struct S { a: i64 } fn make() -> S { return S { a: 1 }; } }
        fn test() -> i64 { let s: m::S := m::make(); return s.a; }";
    let (first, _) = compile(text);
    let (second, _) = compile(text);
    assert!(first.is_ok());
    assert_eq!(first, second);
}

#[test]
fn a_conditional_with_a_value_lowers_to_a_diamond() {
    let text = "fn test() -> i64 { let x: i64 := 5; let y: i64 := if (true) {13} else {29}; \
                return 1+2+3+x+y; }";
    let (r, table) = compile(text);
    let module = r.unwrap();
    let mirs = try_module_transform(&module).unwrap();
    assert_eq!(mirs.len(), 1);
    let mir = &mirs[0];
    assert_eq!(mir.ret_ty(), &Type::I64);
    assert_eq!(mir.bb_count(), 4);
    assert_eq!(mir.var_count(), 2);
    assert_eq!(mir.get_var(VarId::new(0)).name(), id(&table, "x"));
    assert_eq!(mir.get_var(VarId::new(1)).name(), id(&table, "y"));
    let shared = LValue::Temp(TempId::new(0));

    let entry = mir.get_bb(BasicBlockId::entry());
    assert_eq!(entry.len(), 1);
    let (lv, rv) = assign(entry.get_stm(0));
    assert_eq!(*lv, LValue::Var(VarId::new(0)));
    assert_eq!(*rv, RValue::Use(Operand::Constant(Constant::I64(5))));
    assert_eq!(
        *entry.get_term().unwrap().kind(),
        TerminatorKind::CondGoTo {
            cond: Operand::Constant(Constant::Bool(true)),
            tru: BasicBlockId::new(1),
            fls: BasicBlockId::new(2),
        }
    );

    for (block, value) in [(1, 13), (2, 29)] {
        let arm = mir.get_bb(BasicBlockId::new(block));
        assert_eq!(arm.len(), 1);
        let (lv, rv) = assign(arm.get_stm(0));
        assert_eq!(*lv, shared);
        assert_eq!(*rv, RValue::Use(Operand::Constant(Constant::I64(value))));
        assert_eq!(
            *arm.get_term().unwrap().kind(),
            TerminatorKind::GoTo { target: BasicBlockId::new(3) }
        );
    }

    let merge = mir.get_bb(BasicBlockId::new(3));
    let (lv, rv) = assign(merge.get_stm(0));
    assert_eq!(*lv, LValue::Var(VarId::new(1)));
    assert_eq!(*rv, RValue::Use(Operand::LValue(shared)));
    assert!(matches!(merge.get_term().unwrap().kind(), TerminatorKind::Return));
}

#[test]
fn text_that_is_no_program_is_refused_with_its_place() {
    let mut table = StringTable::new();
    let main = table.insert("main".into());
    let tokens = tokenize("fn test() {\n  return 1 +;\n}", &mut table).unwrap();
    let e = parse(main, &tokens).unwrap_err();
    assert_eq!((e.span().low().0, e.span().high().0), (24, 24));
}

/// The types of the node and of every node below it.
fn types_below(n: &NodeRef<SemanticContext>, out: &mut Vec<Type>) {
    out.push(match n {
        NodeRef::Module(m) => m.annotation().ty().clone(),
        NodeRef::Item(i) => i.annotation().ty().clone(),
        NodeRef::Parameter(p) => p.annotation().ty().clone(),
        NodeRef::Statement(s) => s.annotation().ty().clone(),
        NodeRef::Expression(e) => e.annotation().ty().clone(),
    });
    for child in n.children() {
        types_below(&child, out);
    }
}

#[test]
fn no_node_is_left_without_a_type() {
    let text = "mod shapes {
            struct Point { x: i64, y: i64 }
            fn origin() -> Point { return Point { x: 0, y: 0 }; }
            mod inner { fn one() -> i64 { return 1; } }
        }
        extern fn put(n: i64, ...) -> i32;
        co count(from: i64) -> i64 { yret from; return from + 1; }
        fn test(flag: bool, list: [i64; 2]) -> i64 {
            let p: shapes::Point := shapes::origin();
            let mut total: i64 := p.x + list[0];
            let c: co i64 := init count(total);
            while (flag && total < 10) { mut total := total + yield c; };
            put(total, 1, 2);
            let sign: i64 := if (!flag) { -1 } else { shapes::inner::one() };
            return [total, sign][1];
        }";
    let (r, _) = compile(text);
    let m = r.unwrap();
    let mut types = vec![];
    types_below(&NodeRef::Module(&m), &mut types);
    assert!(types.len() > 60);
    assert!(types.iter().all(|t| *t != Type::Unknown), "{:?}", types);
    // The modules and the definition of the structure have no value.
    assert_eq!(m.annotations.ty(), &Type::Unit);
    assert_eq!(m.modules[0].annotations.ty(), &Type::Unit);
    assert_eq!(m.modules[0].modules[0].annotations.ty(), &Type::Unit);
    assert_eq!(m.modules[0].structs[0].annotation().ty(), &Type::Unit);
    // A parameter and a field have the type that they declare.
    match &m.functions[0] {
        Item::Routine(f) => {
            assert_eq!(f.params[0].annotation.ty(), &Type::Bool);
            assert_eq!(f.params[1].annotation.ty(), &Type::Array(Box::new(Type::I64), 2));
        }
        _ => panic!("expected a routine"),
    }
    match &m.externs[0] {
        Item::Extern(e) => assert_eq!(e.params[0].annotation.ty(), &Type::I64),
        _ => panic!("expected an external declaration"),
    }
    match &m.modules[0].structs[0] {
        Item::Struct(s) => assert_eq!(s.fields[1].annotation.ty(), &Type::I64),
        _ => panic!("expected a structure"),
    }
}
