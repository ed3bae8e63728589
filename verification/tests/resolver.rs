use braid::ast::expression::{BinaryOperator, Expression, RoutineCall, UnaryOperator};
use braid::ast::external::Extern;
use braid::ast::module::{Item, Module};
use braid::ast::parameter::Parameter;
use braid::ast::path::{Element, Path};
use braid::ast::routinedef::{RoutineDef, RoutineDefType};
use braid::ast::statement::{Bind, Mutate, Return, Statement, YieldReturn};
use braid::ast::structdef::StructDef;
use braid::ast::ty::Type;
use braid::import::{Import, ImportRoutineDef, ImportStructDef};
use braid::parser::context::ParserContext;
use braid::semantics::error::SemanticError;
use braid::semantics::semanticnode::SemanticContext;
use braid::semantics::symbol_table::ScopeType;
use braid::semantics::type_resolver::{resolve_types, resolve_types_with_imports};
use braid::source::span::{Offset, Span};
use braid::stringtable::{StringId, StringTable};

type P = ParserContext;

fn span(low: u32, high: u32) -> Span {
    Span::new(Offset::new(low), Offset::new(high))
}

fn at(low: u32, high: u32) -> P {
    ParserContext::new(span(low, high))
}

fn names(table: &mut StringTable, texts: &[&str]) -> Vec<StringId> {
    texts.iter().map(|t| table.insert((*t).into())).collect()
}

fn bind(ctx: P, id: StringId, mutable: bool, ty: Type, rhs: Expression<P>) -> Statement<P> {
    Statement::Bind(Box::new(Bind::new(ctx, id, ty, mutable, rhs)))
}

fn mutate(ctx: P, id: StringId, rhs: Expression<P>) -> Statement<P> {
    Statement::Mutate(Box::new(Mutate::new(ctx, id, rhs)))
}

fn ret(ctx: P, value: Option<Expression<P>>) -> Statement<P> {
    Statement::Return(Box::new(Return::new(ctx, value)))
}

fn yret(ctx: P, value: Option<Expression<P>>) -> Statement<P> {
    Statement::YieldReturn(Box::new(YieldReturn::new(ctx, value)))
}

fn expr(e: Expression<P>) -> Statement<P> {
    Statement::Expression(Box::new(e))
}

fn block(ctx: P, body: Vec<Statement<P>>, last: Option<Expression<P>>) -> Expression<P> {
    Expression::ExpressionBlock(ctx, body, last.map(Box::new))
}

fn binary(ctx: P, op: BinaryOperator, l: Expression<P>, r: Expression<P>) -> Expression<P> {
    Expression::BinaryOp(ctx, op, Box::new(l), Box::new(r))
}

fn if_else(ctx: P, cond: Expression<P>, then: Expression<P>, els: Option<Expression<P>>) -> Expression<P> {
    Expression::If {
        context: ctx,
        cond: Box::new(cond),
        if_arm: Box::new(then),
        else_arm: els.map(Box::new),
    }
}

fn name_path(ids: &[StringId]) -> Path {
    Path::from_elements(ids.iter().map(|i| Element::Id(*i)).collect())
}

fn canonical(ids: &[StringId]) -> Path {
    let mut steps = vec![Element::CanonicalRoot];
    steps.extend(ids.iter().map(|i| Element::Id(*i)));
    Path::from_elements(steps)
}

fn call(ctx: P, target: &[StringId], params: Vec<Expression<P>>) -> Expression<P> {
    Expression::RoutineCall(ctx, RoutineCall::Function, name_path(target), params)
}

fn function(name: StringId, params: Vec<Parameter<P>>, ty: Type, body: Vec<Statement<P>>) -> RoutineDef<P> {
    RoutineDef::new_function(name, at(0, 100), params, ty, body)
}

/// A module called `main` with the given functions.
fn program(table: &mut StringTable, functions: Vec<RoutineDef<P>>) -> Module<P> {
    let main = table.insert("main".into());
    let mut module = Module::new(main, at(0, 1000));
    for f in functions {
        module.add_function(f).unwrap();
    }
    module
}

fn resolve(table: &mut StringTable, module: &Module<P>) -> Result<Module<SemanticContext>, (Span, SemanticError)> {
    let main = table.insert("main".into());
    let my_main = table.insert("my_main".into());
    resolve_types(module, main, my_main).map_err(|e| e.take())
}

/// Resolves a function `test` of the module `main` with the given body.
fn check(table: &mut StringTable, ty: Type, body: Vec<Statement<P>>) -> Result<RoutineDef<SemanticContext>, (Span, SemanticError)> {
    let test = table.insert("test".into());
    let module = program(table, vec![function(test, vec![], ty, body)]);
    let mut resolved = resolve(table, &module)?;
    match resolved.functions.remove(0) {
        Item::Routine(r) => Ok(r),
        _ => panic!("expected a routine"),
    }
}

#[test]
fn bind_must_have_the_type_of_its_value() {
    // let x: i32 := true;
    let mut table = StringTable::new();
    let x = table.insert("x".into());
    let result = check(
        &mut table,
        Type::Unit,
        vec![bind(at(10, 30), x, false, Type::I32, Expression::Boolean(at(25, 29), true))],
    );
    assert_eq!(
        result.err(),
        Some((span(10, 30), SemanticError::BindExpected(Type::I32, Type::Bool)))
    );
}

#[test]
fn arms_of_a_conditional_have_one_type() {
    let mut table = StringTable::new();
    let good = check(
        &mut table,
        Type::Unit,
        vec![expr(if_else(
            at(1, 30),
            Expression::Boolean(at(4, 8), true),
            block(at(10, 13), vec![], Some(Expression::I32(at(11, 12), 5))),
            Some(block(at(20, 23), vec![], Some(Expression::I32(at(21, 22), 7)))),
        ))],
    )
    .unwrap();
    assert_eq!(good.body[0].get_type(), &Type::I32);

    let bad = check(
        &mut table,
        Type::Unit,
        vec![expr(if_else(
            at(1, 30),
            Expression::Boolean(at(4, 8), true),
            block(at(10, 13), vec![], Some(Expression::I32(at(11, 12), 5))),
            Some(block(at(20, 26), vec![], Some(Expression::Boolean(at(21, 25), true)))),
        ))],
    );
    assert_eq!(
        bad.err(),
        Some((span(1, 30), SemanticError::IfExprMismatchArms(Type::I32, Type::Bool)))
    );

    let missing_else = check(
        &mut table,
        Type::Unit,
        vec![expr(if_else(
            at(1, 30),
            Expression::Boolean(at(4, 8), true),
            block(at(10, 13), vec![], Some(Expression::I32(at(11, 12), 5))),
            None,
        ))],
    );
    assert_eq!(
        missing_else.err(),
        Some((span(1, 30), SemanticError::IfExprMismatchArms(Type::I32, Type::Unit)))
    );

    let not_bool = check(
        &mut table,
        Type::Unit,
        vec![expr(if_else(
            at(1, 30),
            Expression::I8(at(4, 8), 1),
            block(at(10, 13), vec![], None),
            None,
        ))],
    );
    assert_eq!(
        not_bool.err(),
        Some((span(1, 30), SemanticError::CondExpectedBool(Type::I8)))
    );
}

#[test]
fn calls_are_checked_against_the_signature() {
    let mut table = StringTable::new();
    let n = names(&mut table, &["test", "two", "a", "b", "printf", "fmt", "main"]);
    let (test, two, a, b, printf, fmt, main) = (n[0], n[1], n[2], n[3], n[4], n[5], n[6]);
    let two_params = || {
        function(
            two,
            vec![
                Parameter::new(at(0, 1), a, &Type::I32),
                Parameter::new(at(2, 3), b, &Type::Bool),
            ],
            Type::I64,
            vec![ret(at(5, 9), Some(Expression::I64(at(6, 7), 0)))],
        )
    };
    let caller = |args: Vec<Expression<P>>| {
        function(test, vec![], Type::Unit, vec![expr(call(at(40, 50), &[two], args))])
    };

    // One argument for two parameters: expected 2, got 1.
    let module = program(&mut table, vec![caller(vec![Expression::I32(at(44, 45), 1)]), two_params()]);
    assert_eq!(
        resolve(&mut table, &module).err(),
        Some((
            span(40, 50),
            SemanticError::RoutineCallWrongNumParams(name_path(&[two]), 2, 1)
        ))
    );

    // Every argument of a wrong type is reported, with its position.
    let module = program(
        &mut table,
        vec![
            caller(vec![Expression::Boolean(at(44, 45), true), Expression::I32(at(46, 47), 1)]),
            two_params(),
        ],
    );
    assert_eq!(
        resolve(&mut table, &module).err(),
        Some((
            span(40, 50),
            SemanticError::RoutineParamTypeMismatch(
                name_path(&[two]),
                vec![(1, Type::I32, Type::Bool), (2, Type::Bool, Type::I32)]
            )
        ))
    );

    // The call is resolved although `two` is defined after its caller.
    let module = program(
        &mut table,
        vec![
            caller(vec![Expression::I32(at(44, 45), 1), Expression::Boolean(at(46, 47), true)]),
            two_params(),
        ],
    );
    let resolved = resolve(&mut table, &module).unwrap();
    match &resolved.functions[0] {
        Item::Routine(r) => match &r.body[0] {
            Statement::Expression(e) => match &**e {
                Expression::RoutineCall(ctx, kind, path, args) => {
                    assert_eq!(ctx.ty(), &Type::I64);
                    assert_eq!(*kind, RoutineCall::Function);
                    assert_eq!(*path, canonical(&[main, two]));
                    assert_eq!(args.len(), 2);
                }
                other => panic!("unexpected expression {:?}", other),
            },
            other => panic!("unexpected statement {:?}", other),
        },
        _ => panic!("expected a routine"),
    }

    // An external function with variable arguments takes more arguments
    // than it declares parameters, and not fewer.
    let with_extern = |table: &mut StringTable, args: Vec<Expression<P>>| {
        let mut module = program(
            table,
            vec![function(test, vec![], Type::Unit, vec![expr(call(at(40, 50), &[printf], args))])],
        );
        module
            .add_extern(Extern::new(
                printf,
                at(60, 70),
                vec![Parameter::new(at(61, 62), fmt, &Type::StringLiteral)],
                true,
                Type::I32,
            ))
            .unwrap();
        module
    };
    let module = with_extern(
        &mut table,
        vec![
            Expression::StringLiteral(at(41, 42), fmt),
            Expression::I64(at(43, 44), 1),
            Expression::Boolean(at(45, 46), true),
        ],
    );
    let resolved = resolve(&mut table, &module).unwrap();
    match &resolved.functions[0] {
        Item::Routine(r) => match &r.body[0] {
            Statement::Expression(e) => match &**e {
                Expression::RoutineCall(ctx, kind, path, _) => {
                    assert_eq!(ctx.ty(), &Type::I32);
                    assert_eq!(*kind, RoutineCall::Extern);
                    assert_eq!(*path, name_path(&[printf]));
                }
                other => panic!("unexpected expression {:?}", other),
            },
            other => panic!("unexpected statement {:?}", other),
        },
        _ => panic!("expected a routine"),
    }
    match &resolved.externs[0] {
        Item::Extern(e) => assert_eq!(e.annotations.ty(), &Type::I32),
        _ => panic!("expected an external declaration"),
    }
    let module = with_extern(&mut table, vec![]);
    assert_eq!(
        resolve(&mut table, &module).err(),
        Some((
            span(40, 50),
            SemanticError::FunctionParamsNotEnough(name_path(&[printf]), 1, 0)
        ))
    );
}

#[test]
fn a_routine_does_not_see_the_variables_of_its_sibling() {
    let mut table = StringTable::new();
    let n = names(&mut table, &["f", "g", "x"]);
    let (f, g, x) = (n[0], n[1], n[2]);
    let module = program(
        &mut table,
        vec![
            function(
                f,
                vec![],
                Type::Unit,
                vec![
                    bind(at(1, 5), x, false, Type::I64, Expression::I64(at(3, 4), 1)),
                    expr(call(at(6, 9), &[g], vec![])),
                ],
            ),
            function(
                g,
                vec![],
                Type::Unit,
                vec![
                    expr(call(at(10, 13), &[f], vec![])),
                    expr(Expression::Identifier(at(14, 15), x)),
                ],
            ),
        ],
    );
    assert_eq!(
        resolve(&mut table, &module).err(),
        Some((span(14, 15), SemanticError::NotDefined(x)))
    );
}

#[test]
fn a_nested_binding_shadows_without_changing_the_outer_one() {
    let mut table = StringTable::new();
    let x = table.insert("x".into());
    let y = table.insert("y".into());
    let body = vec![
        bind(at(1, 5), x, false, Type::I64, Expression::I64(at(3, 4), 1)),
        expr(block(
            at(6, 30),
            vec![
                bind(at(7, 12), x, false, Type::Bool, Expression::Boolean(at(9, 11), true)),
                bind(
                    at(13, 20),
                    y,
                    false,
                    Type::Bool,
                    Expression::UnaryOp(
                        at(15, 19),
                        UnaryOperator::Not,
                        Box::new(Expression::Identifier(at(16, 17), x)),
                    ),
                ),
            ],
            None,
        )),
        bind(
            at(31, 40),
            y,
            false,
            Type::I64,
            binary(
                at(33, 39),
                BinaryOperator::Add,
                Expression::Identifier(at(33, 34), x),
                Expression::I64(at(37, 38), 1),
            ),
        ),
    ];
    let routine = check(&mut table, Type::Unit, body).unwrap();
    // The scope of the routine holds x: i64 and y: i64; the scope of the
    // block holds x: bool and y: bool.
    let outer = routine.annotations.sym();
    assert_eq!(outer.scope_type(), &ScopeType::Routine { name: routine.name });
    assert_eq!(outer.size(), 2);
    assert_eq!(outer.get(x).unwrap().ty, Type::I64);
    assert_eq!(outer.get(y).unwrap().ty, Type::I64);
    match &routine.body[1] {
        Statement::Expression(e) => match &**e {
            Expression::ExpressionBlock(ctx, _, _) => {
                assert_eq!(ctx.ty(), &Type::Unit);
                assert_eq!(ctx.sym().get(x).unwrap().ty, Type::Bool);
                assert_eq!(ctx.sym().get(y).unwrap().ty, Type::Bool);
            }
            other => panic!("unexpected expression {:?}", other),
        },
        other => panic!("unexpected statement {:?}", other),
    }
    assert_eq!(routine.body[2].get_type(), &Type::I64);

    // In one scope a name is declared once.
    let twice = check(
        &mut table,
        Type::Unit,
        vec![
            bind(at(1, 5), x, false, Type::I64, Expression::I64(at(3, 4), 1)),
            bind(at(6, 10), x, false, Type::I64, Expression::I64(at(8, 9), 1)),
        ],
    );
    assert_eq!(twice.err(), Some((span(6, 10), SemanticError::AlreadyDeclared(x))));
}

#[test]
fn resolving_a_copy_gives_the_same_tree() {
    let mut table = StringTable::new();
    let n = names(&mut table, &["test", "x", "S", "a"]);
    let (test, x, s, a) = (n[0], n[1], n[2], n[3]);
    let mut module = program(
        &mut table,
        vec![function(
            test,
            vec![Parameter::new(at(1, 2), a, &Type::Custom(name_path(&[s])))],
            Type::I64,
            vec![
                bind(
                    at(3, 9),
                    x,
                    true,
                    Type::I64,
                    Expression::MemberAccess(
                        at(5, 8),
                        Box::new(Expression::Identifier(at(5, 6), a)),
                        a,
                    ),
                ),
                ret(at(10, 15), Some(Expression::Identifier(at(12, 13), x))),
            ],
        )],
    );
    module
        .add_struct(StructDef::new(s, at(20, 30), vec![Parameter::new(at(21, 22), a, &Type::I64)]))
        .unwrap();
    let copy = module.clone();
    assert_eq!(module, copy);
    let first = resolve(&mut table, &module).unwrap();
    let second = resolve(&mut table, &copy).unwrap();
    let again = resolve(&mut table, &module).unwrap();
    assert_eq!(first, second);
    assert_eq!(first, again);
}

#[test]
fn every_node_is_annotated() {
    let mut table = StringTable::new();
    let n = names(&mut table, &["main", "test", "x", "inner", "helper", "S", "a"]);
    let (main, test, x, inner, helper, s, a) = (n[0], n[1], n[2], n[3], n[4], n[5], n[6]);
    let mut module = program(
        &mut table,
        vec![function(
            test,
            vec![Parameter::new(at(1, 2), a, &Type::Custom(name_path(&[inner, s])))],
            Type::Unit,
            vec![bind(
                at(3, 9),
                x,
                false,
                Type::Custom(name_path(&[inner, s])),
                Expression::StructExpression(
                    at(5, 8),
                    name_path(&[inner, s]),
                    vec![(a, Expression::U8(at(6, 7), 3))],
                ),
            )],
        )],
    );
    let mut child = Module::new(inner, at(500, 600));
    child
        .add_function(function(helper, vec![], Type::Unit, vec![]))
        .unwrap();
    child
        .add_struct(StructDef::new(s, at(520, 530), vec![Parameter::new(at(521, 522), a, &Type::U8)]))
        .unwrap();
    module.add_module(child);

    let resolved = resolve(&mut table, &module).unwrap();
    // Ids are handed out in the order of a walk: the module, its child
    // modules, then its functions.
    assert_eq!(resolved.annotations.id(), 0);
    assert_eq!(resolved.annotations.span(), span(0, 1000));
    assert_eq!(resolved.annotations.canonical_path(), &canonical(&[main]));
    assert_eq!(resolved.annotations.ty(), &Type::Unit);
    let child = resolved.get_module(inner).unwrap();
    assert_eq!(child.annotations.id(), 1);
    assert_eq!(child.annotations.ty(), &Type::Unit);
    assert_eq!(child.annotations.canonical_path(), &canonical(&[main, inner]));
    assert_eq!(child.annotations.sym().scope_type(), &ScopeType::Module { name: inner });
    assert_eq!(child.annotations.sym().size(), 2);
    assert_eq!(
        child.annotations.sym().get(s).unwrap().ty,
        Type::StructDef(vec![(a, Type::U8)])
    );
    match child.get_item(helper).unwrap() {
        Item::Routine(r) => {
            assert_eq!(r.annotations.id(), 2);
            assert_eq!(r.annotations.canonical_path(), &canonical(&[main, inner, helper]));
        }
        _ => panic!("expected a routine"),
    }
    match child.get_item(s).unwrap() {
        Item::Struct(def) => {
            assert_eq!(def.annotations.id(), 3);
            assert_eq!(def.annotations.ty(), &Type::Unit);
            assert_eq!(def.fields[0].annotation.id(), 4);
            assert_eq!(def.fields[0].annotation.ty(), &Type::U8);
        }
        _ => panic!("expected a structure"),
    }
    let struct_ty = Type::Custom(canonical(&[main, inner, s]));
    match resolved.get_item(test).unwrap() {
        Item::Routine(r) => {
            assert_eq!(r.annotations.id(), 5);
            assert_eq!(r.annotations.ty(), &Type::Unit);
            assert_eq!(r.params[0].annotation.id(), 6);
            assert_eq!(r.params[0].ty, struct_ty);
            assert_eq!(r.params[0].annotation.ty(), &struct_ty);
            assert_eq!(r.annotations.sym().get(a).unwrap().ty, struct_ty);
            match &r.body[0] {
                Statement::Bind(b) => {
                    assert_eq!(b.get_metadata().id(), 7);
                    assert_eq!(b.get_type(), &struct_ty);
                    assert_eq!(b.get_rhs().get_type(), &struct_ty);
                    match b.get_rhs() {
                        Expression::StructExpression(ctx, path, fields) => {
                            assert_eq!(ctx.id(), 8);
                            assert_eq!(*path, canonical(&[main, inner, s]));
                            assert_eq!(fields[0].1.get_type(), &Type::U8);
                        }
                        other => panic!("unexpected expression {:?}", other),
                    }
                }
                other => panic!("unexpected statement {:?}", other),
            }
        }
        _ => panic!("expected a routine"),
    }
    assert_eq!(
        resolved.annotations.sym().get(test).unwrap().ty,
        Type::FunctionDef(vec![struct_ty.clone()], Box::new(Type::Unit))
    );
}

#[test]
fn the_entry_point_has_a_fixed_shape() {
    let mut table = StringTable::new();
    let my_main = table.insert("my_main".into());
    let a = table.insert("a".into());
    let ok = program(
        &mut table,
        vec![function(
            my_main,
            vec![],
            Type::I64,
            vec![ret(at(1, 5), Some(Expression::I64(at(2, 3), 0)))],
        )],
    );
    assert!(resolve(&mut table, &ok).is_ok());

    let with_params = program(
        &mut table,
        vec![function(my_main, vec![Parameter::new(at(1, 2), a, &Type::I64)], Type::I64, vec![])],
    );
    assert_eq!(
        resolve(&mut table, &with_params).err(),
        Some((span(0, 100), SemanticError::MainFnInvalidParams))
    );
    let wrong_type = program(&mut table, vec![function(my_main, vec![], Type::I32, vec![])]);
    assert_eq!(
        resolve(&mut table, &wrong_type).err(),
        Some((span(0, 100), SemanticError::MainFnInvalidType))
    );
    let main = table.insert("main".into());
    let mut coroutine = Module::new(main, at(0, 1000));
    coroutine
        .add_coroutine(RoutineDef::new_coroutine(my_main, at(0, 100), vec![], Type::I64, vec![]))
        .unwrap();
    assert_eq!(
        resolve(&mut table, &coroutine).err(),
        Some((span(0, 100), SemanticError::MainFnInvalidType))
    );
}

#[test]
fn operators_take_operands_of_the_right_types() {
    let mut table = StringTable::new();
    let one = |n: u32| Expression::I32(at(n, n + 1), 1);
    let yes = |n: u32| Expression::Boolean(at(n, n + 4), true);
    let typed = |table: &mut StringTable, e: Expression<P>| {
        check(table, Type::Unit, vec![expr(e)]).map(|r| match &r.body[0] {
            Statement::Expression(e) => e.get_type().clone(),
            other => panic!("unexpected statement {:?}", other),
        })
    };
    for op in [BinaryOperator::Add, BinaryOperator::Sub, BinaryOperator::Mul, BinaryOperator::Div] {
        assert_eq!(typed(&mut table, binary(at(0, 9), op, one(0), one(5))), Ok(Type::I32));
        assert_eq!(
            typed(&mut table, binary(at(0, 9), op, one(0), Expression::I64(at(5, 6), 1))).err(),
            Some((span(0, 1), SemanticError::OpExpected(op, Type::I32, Type::I32, Type::I64)))
        );
        assert_eq!(
            typed(&mut table, binary(at(0, 9), op, yes(0), one(5))).err(),
            Some((span(0, 4), SemanticError::OpExpected(op, Type::I64, Type::Bool, Type::I32)))
        );
    }
    for op in [BinaryOperator::BAnd, BinaryOperator::BOr] {
        assert_eq!(typed(&mut table, binary(at(0, 9), op, yes(0), yes(5))), Ok(Type::Bool));
        assert_eq!(
            typed(&mut table, binary(at(0, 9), op, yes(0), one(5))).err(),
            Some((span(0, 4), SemanticError::OpExpected(op, Type::Bool, Type::Bool, Type::I32)))
        );
    }
    for op in [
        BinaryOperator::Eq,
        BinaryOperator::NEq,
        BinaryOperator::Ls,
        BinaryOperator::LsEq,
        BinaryOperator::Gr,
        BinaryOperator::GrEq,
    ] {
        assert_eq!(typed(&mut table, binary(at(0, 9), op, one(0), one(5))), Ok(Type::Bool));
        assert_eq!(
            typed(&mut table, binary(at(0, 9), op, one(0), yes(5))).err(),
            Some((span(0, 1), SemanticError::OpExpected(op, Type::I32, Type::I32, Type::Bool)))
        );
    }
    let negate = |e: Expression<P>| Expression::UnaryOp(at(0, 9), UnaryOperator::Negate, Box::new(e));
    let not = |e: Expression<P>| Expression::UnaryOp(at(0, 9), UnaryOperator::Not, Box::new(e));
    assert_eq!(typed(&mut table, negate(one(1))), Ok(Type::I32));
    assert_eq!(
        typed(&mut table, negate(Expression::U8(at(1, 2), 1))).err(),
        Some((span(1, 2), SemanticError::ExpectedSignedInteger(UnaryOperator::Negate, Type::U8)))
    );
    assert_eq!(typed(&mut table, not(yes(1))), Ok(Type::Bool));
    assert_eq!(
        typed(&mut table, not(one(1))).err(),
        Some((span(1, 2), SemanticError::ExpectedBool(UnaryOperator::Not, Type::I32)))
    );
    // Literals have the type of their kind.
    assert_eq!(typed(&mut table, Expression::U8(at(0, 1), 1)), Ok(Type::U8));
    assert_eq!(typed(&mut table, Expression::U16(at(0, 1), 1)), Ok(Type::U16));
    assert_eq!(typed(&mut table, Expression::U32(at(0, 1), 1)), Ok(Type::U32));
    assert_eq!(typed(&mut table, Expression::U64(at(0, 1), 1)), Ok(Type::U64));
    assert_eq!(typed(&mut table, Expression::I8(at(0, 1), 1)), Ok(Type::I8));
    assert_eq!(typed(&mut table, Expression::I16(at(0, 1), 1)), Ok(Type::I16));
    assert_eq!(typed(&mut table, Expression::I64(at(0, 1), 1)), Ok(Type::I64));
    let text = table.insert("text".into());
    assert_eq!(
        typed(&mut table, Expression::StringLiteral(at(0, 1), text)),
        Ok(Type::StringLiteral)
    );
    assert_eq!(
        typed(&mut table, Expression::Path(at(0, 1), name_path(&[text, text]))).err(),
        Some((span(0, 1), SemanticError::PathNotValid))
    );
}

#[test]
fn arrays_and_loops() {
    let mut table = StringTable::new();
    let typed = |table: &mut StringTable, e: Expression<P>| {
        check(table, Type::Unit, vec![expr(e)]).map(|r| match &r.body[0] {
            Statement::Expression(e) => e.get_type().clone(),
            other => panic!("unexpected statement {:?}", other),
        })
    };
    let array = |elements: Vec<Expression<P>>| {
        let len = elements.len();
        Expression::ArrayExpression(at(0, 20), elements, len)
    };
    let pair = || array(vec![Expression::I16(at(1, 2), 1), Expression::I16(at(3, 4), 2)]);
    assert_eq!(typed(&mut table, pair()), Ok(Type::Array(Box::new(Type::I16), 2)));
    assert_eq!(
        typed(&mut table, array(vec![])).err(),
        Some((span(0, 20), SemanticError::ArrayInvalidSize(0)))
    );
    assert_eq!(
        typed(&mut table, array(vec![Expression::I16(at(1, 2), 1), Expression::I8(at(3, 4), 2)])).err(),
        Some((span(0, 20), SemanticError::ArrayInconsistentElementTypes))
    );
    let index = |array: Expression<P>, index: Expression<P>| Expression::ArrayAt {
        context: at(0, 30),
        array: Box::new(array),
        index: Box::new(index),
    };
    assert_eq!(typed(&mut table, index(pair(), Expression::U64(at(25, 26), 0))), Ok(Type::I16));
    assert_eq!(
        typed(&mut table, index(pair(), Expression::Boolean(at(25, 26), true))).err(),
        Some((span(0, 30), SemanticError::ArrayIndexingInvalidIndexType(Type::Bool)))
    );
    assert_eq!(
        typed(&mut table, index(Expression::I8(at(1, 2), 1), Expression::U64(at(25, 26), 0))).err(),
        Some((span(0, 30), SemanticError::ArrayIndexingInvalidType(Type::I8)))
    );

    let repeat = |cond: Expression<P>, body: Expression<P>| Expression::While {
        context: at(0, 40),
        cond: Box::new(cond),
        body: Box::new(body),
    };
    assert_eq!(
        typed(
            &mut table,
            repeat(Expression::Boolean(at(6, 10), true), block(at(12, 14), vec![], None))
        ),
        Ok(Type::Unit)
    );
    assert_eq!(
        typed(
            &mut table,
            repeat(Expression::I8(at(6, 7), 1), block(at(12, 14), vec![], None))
        )
        .err(),
        Some((span(0, 40), SemanticError::WhileCondInvalidType(Type::I8)))
    );
    assert_eq!(
        typed(
            &mut table,
            repeat(
                Expression::Boolean(at(6, 10), true),
                block(at(12, 16), vec![], Some(Expression::I8(at(13, 14), 1)))
            )
        )
        .err(),
        Some((span(0, 40), SemanticError::WhileInvalidType(Type::I8)))
    );
}

#[test]
fn assignments_and_returns() {
    let mut table = StringTable::new();
    let x = table.insert("x".into());
    let fixed = check(
        &mut table,
        Type::Unit,
        vec![
            bind(at(1, 5), x, false, Type::I64, Expression::I64(at(3, 4), 1)),
            mutate(at(6, 10), x, Expression::I64(at(8, 9), 2)),
        ],
    );
    assert_eq!(fixed.err(), Some((span(6, 10), SemanticError::VariableNotMutable(x))));
    let wrong = check(
        &mut table,
        Type::Unit,
        vec![
            bind(at(1, 5), x, true, Type::I64, Expression::I64(at(3, 4), 1)),
            mutate(at(6, 10), x, Expression::Boolean(at(8, 9), true)),
        ],
    );
    assert_eq!(
        wrong.err(),
        Some((span(6, 10), SemanticError::BindMismatch(x, Type::I64, Type::Bool)))
    );
    let unknown = check(&mut table, Type::Unit, vec![mutate(at(6, 10), x, Expression::I64(at(8, 9), 2))]);
    assert_eq!(unknown.err(), Some((span(6, 10), SemanticError::NotDefined(x))));
    let good = check(
        &mut table,
        Type::I64,
        vec![
            bind(at(1, 5), x, true, Type::I64, Expression::I64(at(3, 4), 1)),
            mutate(at(6, 10), x, Expression::I64(at(8, 9), 2)),
            ret(at(11, 15), Some(Expression::Identifier(at(12, 13), x))),
        ],
    )
    .unwrap();
    assert_eq!(good.body[1].get_type(), &Type::I64);
    assert_eq!(good.body[2].get_type(), &Type::I64);
    assert!(good.annotations.sym().get(x).unwrap().mutable);

    let bad_return = check(&mut table, Type::I64, vec![ret(at(11, 15), None)]);
    assert_eq!(
        bad_return.err(),
        Some((span(11, 15), SemanticError::ReturnExpected(Type::I64, Type::Unit)))
    );
    // A function does not yield.
    let test = table.insert("test".into());
    let yields = check(&mut table, Type::I64, vec![yret(at(11, 15), Some(Expression::I64(at(12, 13), 1)))]);
    assert_eq!(yields.err(), Some((span(11, 15), SemanticError::NotCoroutine(test))));
}

#[test]
fn coroutines_yield_their_type() {
    let mut table = StringTable::new();
    let n = names(&mut table, &["main", "test", "count", "c", "v"]);
    let (main, test, count, c, v) = (n[0], n[1], n[2], n[3], n[4]);
    let build = |yielded: Expression<P>, resumed: Expression<P>| {
        let mut module = Module::new(main, at(0, 1000));
        module
            .add_coroutine(RoutineDef::new_coroutine(
                count,
                at(100, 200),
                vec![],
                Type::I32,
                vec![yret(at(110, 120), Some(yielded)), ret(at(121, 130), Some(Expression::I32(at(122, 123), 0)))],
            ))
            .unwrap();
        module
            .add_function(function(
                test,
                vec![],
                Type::Unit,
                vec![
                    bind(
                        at(1, 20),
                        c,
                        false,
                        Type::Coroutine(Box::new(Type::I32)),
                        Expression::RoutineCall(at(5, 19), RoutineCall::CoroutineInit, name_path(&[count]), vec![]),
                    ),
                    bind(
                        at(21, 40),
                        v,
                        false,
                        Type::I32,
                        Expression::Yield(at(25, 39), Box::new(resumed)),
                    ),
                ],
            ))
            .unwrap();
        module
    };
    let module = build(Expression::I32(at(111, 112), 1), Expression::Identifier(at(30, 31), c));
    let resolved = resolve(&mut table, &module).unwrap();
    match &resolved.coroutines[0] {
        Item::Routine(r) => {
            assert_eq!(r.def, RoutineDefType::Coroutine);
            assert_eq!(r.body[0].get_type(), &Type::I32);
        }
        _ => panic!("expected a routine"),
    }
    let module = build(Expression::Boolean(at(111, 112), true), Expression::Identifier(at(30, 31), c));
    assert_eq!(
        resolve(&mut table, &module).err(),
        Some((span(110, 120), SemanticError::YieldExpected(Type::I32, Type::Bool)))
    );
    let module = build(Expression::I32(at(111, 112), 1), Expression::I32(at(30, 31), 1));
    assert_eq!(
        resolve(&mut table, &module).err(),
        Some((span(25, 39), SemanticError::YieldInvalidType(Type::I32)))
    );
    // A coroutine is created, not called.
    let mut module = build(Expression::I32(at(111, 112), 1), Expression::Identifier(at(30, 31), c));
    module
        .add_function(function(v, vec![], Type::Unit, vec![expr(call(at(300, 310), &[count], vec![]))]))
        .unwrap();
    assert_eq!(
        resolve(&mut table, &module).err(),
        Some((
            span(300, 310),
            SemanticError::RoutineCallInvalidTarget(
                RoutineCall::Function,
                Path::from_elements(vec![
                    Element::CanonicalRoot,
                    Element::Id(main),
                    Element::Id(count)
                ]),
                Type::CoroutineDef(vec![], Box::new(Type::I32))
            )
        ))
    );
}

#[test]
fn structures() {
    let mut table = StringTable::new();
    let n = names(&mut table, &["main", "test", "S", "a", "b", "x", "f"]);
    let (main, test, s, a, b, x, f) = (n[0], n[1], n[2], n[3], n[4], n[5], n[6]);
    let build = |fields: Vec<(StringId, Expression<P>)>, member: StringId| {
        let mut module = Module::new(main, at(0, 1000));
        module
            .add_struct(StructDef::new(
                s,
                at(100, 200),
                vec![
                    Parameter::new(at(101, 102), a, &Type::I64),
                    Parameter::new(at(103, 104), b, &Type::Bool),
                ],
            ))
            .unwrap();
        module
            .add_function(function(
                test,
                vec![],
                Type::Unit,
                vec![
                    bind(
                        at(1, 30),
                        x,
                        false,
                        Type::Custom(name_path(&[s])),
                        Expression::StructExpression(at(5, 29), name_path(&[s]), fields),
                    ),
                    expr(Expression::MemberAccess(
                        at(31, 40),
                        Box::new(Expression::Identifier(at(31, 32), x)),
                        member,
                    )),
                ],
            ))
            .unwrap();
        module
    };
    let both = || vec![(a, Expression::I64(at(6, 7), 1)), (b, Expression::Boolean(at(8, 9), true))];
    let resolved = resolve(&mut table, &build(both(), b)).unwrap();
    match &resolved.functions[0] {
        Item::Routine(r) => assert_eq!(r.body[1].get_type(), &Type::Bool),
        _ => panic!("expected a routine"),
    }
    let path = canonical(&[main, s]);
    assert_eq!(
        resolve(&mut table, &build(both(), x)).err(),
        Some((span(31, 40), SemanticError::MemberAccessMemberNotFound(canonical(&[main, s]), x)))
    );
    assert_eq!(
        resolve(&mut table, &build(vec![(a, Expression::I64(at(6, 7), 1))], b)).err(),
        Some((span(5, 29), SemanticError::StructExprWrongNumParams(2, 1)))
    );
    assert_eq!(
        resolve(
            &mut table,
            &build(vec![(a, Expression::I64(at(6, 7), 1)), (x, Expression::Boolean(at(8, 9), true))], b)
        )
        .err(),
        Some((span(5, 29), SemanticError::StructExprMemberNotFound(canonical(&[main, s]), x)))
    );
    assert_eq!(
        resolve(
            &mut table,
            &build(vec![(a, Expression::I64(at(6, 7), 1)), (b, Expression::I8(at(8, 9), 1))], b)
        )
        .err(),
        Some((
            span(5, 29),
            SemanticError::StructExprFieldTypeMismatch(path, b, Type::Bool, Type::I8)
        ))
    );

    // A member is read from a structure only.
    let not_a_struct = check(
        &mut table,
        Type::Unit,
        vec![expr(Expression::MemberAccess(at(31, 40), Box::new(Expression::I8(at(31, 32), 1)), a))],
    );
    assert_eq!(
        not_a_struct.err(),
        Some((span(31, 40), SemanticError::MemberAccessInvalidRootType(Type::I8)))
    );
    // A named type of a parameter or of a field names a structure.
    let module = program(
        &mut table,
        vec![
            function(f, vec![], Type::Unit, vec![]),
            function(test, vec![Parameter::new(at(1, 2), a, &Type::Custom(name_path(&[f])))], Type::Unit, vec![]),
        ],
    );
    assert_eq!(
        resolve(&mut table, &module).err(),
        Some((
            span(0, 100),
            SemanticError::InvalidIdentifierType(Type::FunctionDef(vec![], Box::new(Type::Unit)))
        ))
    );
    // An external function takes no structures.
    let mut module = Module::new(main, at(0, 1000));
    module
        .add_extern(Extern::new(
            f,
            at(60, 70),
            vec![Parameter::new(at(61, 62), a, &Type::Custom(name_path(&[s])))],
            false,
            Type::Unit,
        ))
        .unwrap();
    assert_eq!(
        resolve(&mut table, &module).err(),
        Some((
            span(60, 70),
            SemanticError::InvalidIdentifierType(Type::Custom(canonical(&[main, s])))
        ))
    );
}

#[test]
fn imported_items_are_known() {
    let mut table = StringTable::new();
    let n = names(&mut table, &["main", "my_main", "std", "io", "writei64", "Pair", "first", "p"]);
    let (main, my_main, std, io, writei64, pair, first, p) = (n[0], n[1], n[2], n[3], n[4], n[5], n[6], n[7]);
    let write_path = canonical(&[std, io, writei64]);
    let pair_path = canonical(&[std, pair]);
    let imports = vec![Import {
        structs: vec![ImportStructDef::new(pair_path.clone(), vec![(first, Type::I64)])],
        funcs: vec![ImportRoutineDef::new(write_path.clone(), vec![Type::I64], Type::Unit)],
    }];
    assert_eq!(imports[0].funcs[0].path(), &write_path);
    assert_eq!(imports[0].funcs[0].params(), &vec![Type::I64]);
    assert_eq!(imports[0].funcs[0].ty(), &Type::Unit);
    assert_eq!(imports[0].structs[0].path(), &pair_path);
    assert_eq!(imports[0].structs[0].fields(), &vec![(first, Type::I64)]);

    let module = program(
        &mut table,
        vec![function(
            my_main,
            vec![],
            Type::I64,
            vec![
                bind(
                    at(1, 20),
                    p,
                    false,
                    Type::Custom(pair_path.clone()),
                    Expression::StructExpression(
                        at(5, 19),
                        pair_path.clone(),
                        vec![(first, Expression::I64(at(6, 7), 4))],
                    ),
                ),
                expr(Expression::RoutineCall(
                    at(21, 40),
                    RoutineCall::Function,
                    write_path.clone(),
                    vec![Expression::MemberAccess(
                        at(30, 35),
                        Box::new(Expression::Identifier(at(30, 31), p)),
                        first,
                    )],
                )),
                ret(at(41, 50), Some(Expression::I64(at(48, 49), 0))),
            ],
        )],
    );
    let resolved = resolve_types_with_imports(&module, main, my_main, &imports).unwrap();
    match &resolved.functions[0] {
        Item::Routine(r) => assert_eq!(r.body[1].get_type(), &Type::Unit),
        _ => panic!("expected a routine"),
    }
    // Without the imports the structure is not found.
    assert_eq!(
        resolve(&mut table, &module).err(),
        Some((span(5, 19), SemanticError::PathNotFound(pair_path.clone(), pair_path.clone())))
    );
    // An item of the project that has the path of an imported item makes
    // the path ambiguous.
    let clash = vec![Import {
        structs: vec![],
        funcs: vec![ImportRoutineDef::new(canonical(&[main, my_main]), vec![], Type::I64)],
    }];
    let module = program(
        &mut table,
        vec![function(
            my_main,
            vec![],
            Type::I64,
            vec![ret(
                at(1, 9),
                Some(Expression::RoutineCall(
                    at(2, 8),
                    RoutineCall::Function,
                    canonical(&[main, my_main]),
                    vec![],
                )),
            )],
        )],
    );
    assert_eq!(
        resolve_types_with_imports(&module, main, my_main, &clash).err().map(|e| e.take()),
        Some((span(2, 8), SemanticError::MultipleDefs(canonical(&[main, my_main]))))
    );
}
