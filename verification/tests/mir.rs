use braid::ast::expression::{BinaryOperator, Expression, UnaryOperator};
use braid::ast::module::{Item, Module};
use braid::ast::routinedef::RoutineDef;
use braid::ast::statement::{Bind, Mutate, Return, Statement};
use braid::ast::ty::Type;
use braid::mir::ir::{
    BasicBlockId, BinOp, Constant, LValue, Operand, Procedure, RValue, StatementKind, TempId,
    TerminatorKind, UnOp, VarId,
};
use braid::mir::transform::{module_transform, try_module_transform, FuncTransformer, MirBuilder};
use braid::parser::context::ParserContext;
use braid::semantics::semanticnode::SemanticContext;
use braid::semantics::type_resolver::resolve_types;
use braid::source::span::{Offset, Span};
use braid::stringtable::{StringId, StringTable};

type P = ParserContext;

fn at(low: u32, high: u32) -> P {
    ParserContext::new(Span::new(Offset::new(low), Offset::new(high)))
}

fn bind(ctx: P, id: StringId, mutable: bool, ty: Type, rhs: Expression<P>) -> Statement<P> {
    Statement::Bind(Box::new(Bind::new(ctx, id, ty, mutable, rhs)))
}

fn ret(ctx: P, value: Option<Expression<P>>) -> Statement<P> {
    Statement::Return(Box::new(Return::new(ctx, value)))
}

fn block(ctx: P, body: Vec<Statement<P>>, last: Option<Expression<P>>) -> Expression<P> {
    Expression::ExpressionBlock(ctx, body, last.map(Box::new))
}

fn add(ctx: P, l: Expression<P>, r: Expression<P>) -> Expression<P> {
    Expression::BinaryOp(ctx, BinaryOperator::Add, Box::new(l), Box::new(r))
}

/// Resolves a module, called `main`, that holds the function `test` with
/// the given return type and body.
fn compile(table: &mut StringTable, ty: Type, body: Vec<Statement<P>>) -> Module<SemanticContext> {
    let main = table.insert("main".into());
    let main_fn = table.insert("my_main".into());
    let test = table.insert("test".into());
    let mut module = Module::new(main, at(0, 200));
    module
        .add_function(RoutineDef::new_function(test, at(0, 200), vec![], ty, body))
        .unwrap();
    resolve_types(&module, main, main_fn).unwrap()
}

fn assign(stm: &braid::mir::ir::Statement) -> (&LValue, &RValue) {
    match stm.kind() {
        StatementKind::Assign(l, r) => (l, r),
    }
}

#[test]
fn basic() {
    // fn test() -> i64 {
    //     let x: i64 := 5;
    //     let mut b: bool := true;
    //     let y: i64 := if (b) {13} else {29};
    //     return 1 + 2 + 3 + x + y;
    // }
    let mut table = StringTable::new();
    let x = table.insert("x".into());
    let b = table.insert("b".into());
    let y = table.insert("y".into());
    let body = vec![
        bind(at(20, 36), x, false, Type::I64, Expression::I64(at(34, 35), 5)),
        bind(at(37, 60), b, true, Type::Bool, Expression::Boolean(at(55, 59), true)),
        bind(
            at(61, 96),
            y,
            false,
            Type::I64,
            Expression::If {
                context: at(75, 95),
                cond: Box::new(Expression::Identifier(at(79, 80), b)),
                if_arm: Box::new(block(at(82, 86), vec![], Some(Expression::I64(at(83, 85), 13)))),
                else_arm: Some(Box::new(block(
                    at(92, 96),
                    vec![],
                    Some(Expression::I64(at(93, 95), 29)),
                ))),
            },
        ),
        ret(
            at(97, 122),
            Some(add(
                at(104, 121),
                Expression::I64(at(104, 105), 1),
                add(
                    at(108, 121),
                    Expression::I64(at(108, 109), 2),
                    add(
                        at(112, 121),
                        Expression::I64(at(112, 113), 3),
                        add(
                            at(116, 121),
                            Expression::Identifier(at(116, 117), x),
                            Expression::Identifier(at(120, 121), y),
                        ),
                    ),
                ),
            )),
        ),
    ];
    let module = compile(&mut table, Type::I64, body);
    let mirs = module_transform(&module);
    for mir in mirs {
        println!("{:?}", mir);
    }
}

#[test]
fn if_no_else() {
    // fn test() -> i64 {
    //     let x: i64 := 5;
    //     let b: bool := true;
    //     if (b) {};
    //     return 1 + 2 + 3 + x;
    // }
    let mut table = StringTable::new();
    let x = table.insert("x".into());
    let b = table.insert("b".into());
    let body = vec![
        bind(at(20, 36), x, false, Type::I64, Expression::I64(at(34, 35), 5)),
        bind(at(37, 57), b, false, Type::Bool, Expression::Boolean(at(52, 56), true)),
        Statement::Expression(Box::new(Expression::If {
            context: at(58, 67),
            cond: Box::new(Expression::Identifier(at(62, 63), b)),
            if_arm: Box::new(block(at(65, 67), vec![], None)),
            else_arm: None,
        })),
        ret(
            at(69, 90),
            Some(add(
                at(76, 89),
                Expression::I64(at(76, 77), 1),
                add(
                    at(80, 89),
                    Expression::I64(at(80, 81), 2),
                    add(
                        at(84, 89),
                        Expression::I64(at(84, 85), 3),
                        Expression::Identifier(at(88, 89), x),
                    ),
                ),
            )),
        ),
    ];
    let module = compile(&mut table, Type::I64, body);
    let mirs = module_transform(&module);
    for mir in mirs.iter() {
        println!("{:?}", mir);
    }
    // Without an else arm the conditional jumps to the merge block where
    // the condition does not hold, and it has no value.
    let mir = &mirs[0];
    assert_eq!(mir.bb_count(), 3);
    assert_eq!(mir.temp_count(), 3);
    match mir.get_bb(BasicBlockId::new(0)).get_term().unwrap().kind() {
        TerminatorKind::CondGoTo { cond, tru, fls } => {
            assert_eq!(*cond, Operand::LValue(LValue::Var(VarId::new(1))));
            assert_eq!(*tru, BasicBlockId::new(1));
            assert_eq!(*fls, BasicBlockId::new(2));
        }
        other => panic!("unexpected terminator {:?}", other),
    }
    assert_eq!(mir.get_bb(BasicBlockId::new(1)).len(), 0);
}

#[test]
fn constants() {
    for (ty, v, exp) in vec![
        (Type::I8, Expression::I8(at(30, 31), 1), Constant::I8(1)),
        (Type::I16, Expression::I16(at(30, 31), 1), Constant::I16(1)),
        (Type::I32, Expression::I32(at(30, 31), 1), Constant::I32(1)),
        (Type::I64, Expression::I64(at(30, 31), 1), Constant::I64(1)),
        (Type::U8, Expression::U8(at(30, 31), 1), Constant::U8(1)),
        (Type::U16, Expression::U16(at(30, 31), 1), Constant::U16(1)),
        (Type::U32, Expression::U32(at(30, 31), 1), Constant::U32(1)),
        (Type::U64, Expression::U64(at(30, 31), 1), Constant::U64(1)),
        (Type::Bool, Expression::Boolean(at(30, 34), true), Constant::Bool(true)),
    ] {
        // fn test() {
        //     let x: {ty} := {v};
        //     return;
        // }
        let mut table = StringTable::new();
        let x = table.insert("x".into());
        let body = vec![bind(at(20, 35), x, false, ty, v), ret(at(36, 43), None)];
        let module = compile(&mut table, Type::Unit, body);
        let mirs = module_transform(&module);
        assert_eq!(1, mirs.len());
        let bb = mirs[0].get_bb(BasicBlockId::new(0));
        let stm = bb.get_stm(0);
        match stm.kind() {
            StatementKind::Assign(_, r) => {
                assert_eq!(*r, RValue::Use(Operand::Constant(exp.clone())));
            }
        }
    }
}

/// fn test() -> i64 { let x: i64 := 5; let y: i64 := if (true) {13} else {29}; return 1+2+3+x+y; }
fn shape_program(table: &mut StringTable) -> Module<SemanticContext> {
    let x = table.insert("x".into());
    let y = table.insert("y".into());
    let body = vec![
        bind(at(19, 35), x, false, Type::I64, Expression::I64(at(33, 34), 5)),
        bind(
            at(36, 74),
            y,
            false,
            Type::I64,
            Expression::If {
                context: at(50, 73),
                cond: Box::new(Expression::Boolean(at(54, 58), true)),
                if_arm: Box::new(block(at(60, 64), vec![], Some(Expression::I64(at(61, 63), 13)))),
                else_arm: Some(Box::new(block(
                    at(70, 74),
                    vec![],
                    Some(Expression::I64(at(71, 73), 29)),
                ))),
            },
        ),
        ret(
            at(76, 93),
            Some(add(
                at(83, 92),
                Expression::I64(at(83, 84), 1),
                add(
                    at(85, 92),
                    Expression::I64(at(85, 86), 2),
                    add(
                        at(87, 92),
                        Expression::I64(at(87, 88), 3),
                        add(
                            at(89, 92),
                            Expression::Identifier(at(89, 90), x),
                            Expression::Identifier(at(91, 92), y),
                        ),
                    ),
                ),
            )),
        ),
    ];
    compile(table, Type::I64, body)
}

#[test]
fn conditional_with_value_has_the_shape_of_a_diamond() {
    let mut table = StringTable::new();
    let module = shape_program(&mut table);
    let mirs = module_transform(&module);
    assert_eq!(mirs.len(), 1);
    let mir: &Procedure = &mirs[0];
    assert_eq!(mir.ret_ty(), &Type::I64);
    assert_eq!(mir.span(), Span::new(Offset::new(0), Offset::new(200)));
    assert_eq!(mir.bb_count(), 4);
    assert_eq!(mir.var_count(), 2);
    assert_eq!(mir.get_var(VarId::new(0)).name(), table.insert("x".into()));
    assert_eq!(mir.get_var(VarId::new(1)).name(), table.insert("y".into()));
    assert_eq!(mir.get_var(VarId::new(1)).ty(), &Type::I64);
    assert!(!mir.get_var(VarId::new(1)).is_mutable());

    let shared = LValue::Temp(TempId::new(0));
    assert_eq!(mir.get_temp(TempId::new(0)), &Type::I64);

    // The entry block binds x and ends in the conditional branch.
    let entry = mir.get_bb(BasicBlockId::entry());
    assert_eq!(entry.len(), 1);
    let (lv, rv) = assign(entry.get_stm(0));
    assert_eq!(*lv, LValue::Var(VarId::new(0)));
    assert_eq!(*rv, RValue::Use(Operand::Constant(Constant::I64(5))));
    assert_eq!(entry.get_stm(0).span(), Span::new(Offset::new(19), Offset::new(35)));
    let term = entry.get_term().unwrap();
    assert_eq!(
        *term.kind(),
        TerminatorKind::CondGoTo {
            cond: Operand::Constant(Constant::Bool(true)),
            tru: BasicBlockId::new(1),
            fls: BasicBlockId::new(2),
        }
    );
    assert_eq!(term.span(), Span::new(Offset::new(54), Offset::new(58)));

    // Each arm stores its value in the shared temporary and goes to the
    // merge block; the jump is tagged with the end of the arm.
    let then_bb = mir.get_bb(BasicBlockId::new(1));
    assert_eq!(then_bb.len(), 1);
    let (lv, rv) = assign(then_bb.get_stm(0));
    assert_eq!(*lv, shared);
    assert_eq!(*rv, RValue::Use(Operand::Constant(Constant::I64(13))));
    let term = then_bb.get_term().unwrap();
    assert_eq!(*term.kind(), TerminatorKind::GoTo { target: BasicBlockId::new(3) });
    assert_eq!(term.span(), Span::new(Offset::new(64), Offset::new(64)));

    let else_bb = mir.get_bb(BasicBlockId::new(2));
    assert_eq!(else_bb.len(), 1);
    let (lv, rv) = assign(else_bb.get_stm(0));
    assert_eq!(*lv, shared);
    assert_eq!(*rv, RValue::Use(Operand::Constant(Constant::I64(29))));
    let term = else_bb.get_term().unwrap();
    assert_eq!(*term.kind(), TerminatorKind::GoTo { target: BasicBlockId::new(3) });
    assert_eq!(term.span(), Span::new(Offset::new(74), Offset::new(74)));

    // The merge block reads the shared temporary into y, computes the sum
    // into temporaries, and returns.
    let merge = mir.get_bb(BasicBlockId::new(3));
    assert_eq!(merge.len(), 6);
    let (lv, rv) = assign(merge.get_stm(0));
    assert_eq!(*lv, LValue::Var(VarId::new(1)));
    assert_eq!(*rv, RValue::Use(Operand::LValue(shared.clone())));
    let (lv, rv) = assign(merge.get_stm(1));
    assert_eq!(*lv, LValue::Temp(TempId::new(1)));
    assert_eq!(
        *rv,
        RValue::BinOp(
            BinOp::Add,
            Operand::LValue(LValue::Var(VarId::new(0))),
            Operand::LValue(LValue::Var(VarId::new(1))),
        )
    );
    let (lv, rv) = assign(merge.get_stm(4));
    assert_eq!(*lv, LValue::Temp(TempId::new(4)));
    assert_eq!(
        *rv,
        RValue::BinOp(
            BinOp::Add,
            Operand::Constant(Constant::I64(1)),
            Operand::LValue(LValue::Temp(TempId::new(3))),
        )
    );
    let (lv, rv) = assign(merge.get_stm(5));
    assert_eq!(*lv, LValue::ReturnPointer);
    assert_eq!(*rv, RValue::Use(Operand::LValue(LValue::Temp(TempId::new(4)))));
    let term = merge.get_term().unwrap();
    assert_eq!(*term.kind(), TerminatorKind::Return);
    assert_eq!(term.span(), Span::new(Offset::new(200), Offset::new(200)));
    assert_eq!(mir.temp_count(), 5);
}

#[test]
fn lowered_graphs_are_complete() {
    let mut table = StringTable::new();
    let module = shape_program(&mut table);
    let mirs = module_transform(&module);
    let mut project = braid::mir::ir::MirProject::new();
    for mir in mirs {
        for id in 0..mir.bb_count() {
            assert!(mir.get_bb(BasicBlockId::new(id)).get_term().is_some());
        }
        project.add_func(mir);
    }
    assert!(braid::mir::traverser::is_supported(&project));
}

#[test]
fn what_the_graph_has_no_form_for_is_not_lowered() {
    let mut table = StringTable::new();
    let x = table.insert("x".into());
    let body = vec![
        bind(at(1, 2), x, true, Type::I64, Expression::I64(at(1, 2), 5)),
        Statement::Mutate(Box::new(Mutate::new(at(3, 4), x, Expression::I64(at(3, 4), 6)))),
    ];
    let module = compile(&mut table, Type::Unit, body);
    assert!(try_module_transform(&module).is_none());
    match &module.get_functions()[0] {
        Item::Routine(r) => assert!(FuncTransformer::new().try_transform(r).is_none()),
        _ => panic!("expected a routine"),
    }
}

#[test]
fn operations_are_stored_in_temporaries() {
    let mut table = StringTable::new();
    let b = table.insert("b".into());
    let body = vec![bind(
        at(1, 20),
        b,
        false,
        Type::Bool,
        Expression::UnaryOp(
            at(5, 20),
            UnaryOperator::Not,
            Box::new(Expression::BinaryOp(
                at(6, 20),
                BinaryOperator::Ls,
                Box::new(Expression::UnaryOp(
                    at(6, 8),
                    UnaryOperator::Negate,
                    Box::new(Expression::I32(at(7, 8), 1)),
                )),
                Box::new(Expression::I32(at(11, 12), 2)),
            )),
        ),
    )];
    let module = compile(&mut table, Type::Unit, body);
    let mirs = module_transform(&module);
    let bb = mirs[0].get_bb(BasicBlockId::new(0));
    assert_eq!(bb.len(), 4);
    let (lv, rv) = assign(bb.get_stm(0));
    assert_eq!(*lv, LValue::Temp(TempId::new(0)));
    assert_eq!(*rv, RValue::UnOp(UnOp::Negate, Operand::Constant(Constant::I32(1))));
    let (_, rv) = assign(bb.get_stm(1));
    assert_eq!(
        *rv,
        RValue::BinOp(
            BinOp::Lt,
            Operand::LValue(LValue::Temp(TempId::new(0))),
            Operand::Constant(Constant::I32(2)),
        )
    );
    let (_, rv) = assign(bb.get_stm(2));
    assert_eq!(*rv, RValue::UnOp(UnOp::Not, Operand::LValue(LValue::Temp(TempId::new(1)))));
    let (lv, rv) = assign(bb.get_stm(3));
    assert_eq!(*lv, LValue::Var(VarId::new(0)));
    assert_eq!(*rv, RValue::Use(Operand::LValue(LValue::Temp(TempId::new(2)))));
    assert_eq!(mirs[0].get_temp(TempId::new(0)), &Type::I32);
    assert_eq!(mirs[0].get_temp(TempId::new(2)), &Type::Bool);
    assert_eq!(mirs[0].find_var(b), Some(VarId::new(0)));
}

#[test]
fn builder_emits_into_the_current_block() {
    let mut builder = MirBuilder::new();
    let first = builder.new_bb();
    let second = builder.new_bb();
    assert_eq!(first, BasicBlockId::new(0));
    assert_eq!(second, BasicBlockId::new(1));
    builder.set_bb(second);
    let name = StringId(3);
    let v = builder.var(name, true, &Type::U8, Span::zero());
    assert_eq!(builder.find_var(name), Some(v));
    let sum = builder.add(builder.const_u8(1), builder.const_u8(2));
    let t = builder.temp_store(sum, &Type::U8, Span::zero());
    assert_eq!(t, Operand::LValue(LValue::Temp(TempId::new(0))));
    assert_eq!(builder.sub(t.clone(), t.clone()), RValue::BinOp(BinOp::Sub, t.clone(), t.clone()));
    assert_eq!(builder.mul(t.clone(), t.clone()), RValue::BinOp(BinOp::Mul, t.clone(), t.clone()));
    assert_eq!(builder.div(t.clone(), t.clone()), RValue::BinOp(BinOp::Div, t.clone(), t.clone()));
    assert_eq!(builder.eq(t.clone(), t.clone()), RValue::BinOp(BinOp::Eq, t.clone(), t.clone()));
    assert_eq!(builder.neq(t.clone(), t.clone()), RValue::BinOp(BinOp::Ne, t.clone(), t.clone()));
    assert_eq!(builder.lt(t.clone(), t.clone()), RValue::BinOp(BinOp::Lt, t.clone(), t.clone()));
    assert_eq!(builder.le(t.clone(), t.clone()), RValue::BinOp(BinOp::Le, t.clone(), t.clone()));
    assert_eq!(builder.gt(t.clone(), t.clone()), RValue::BinOp(BinOp::Gt, t.clone(), t.clone()));
    assert_eq!(builder.ge(t.clone(), t.clone()), RValue::BinOp(BinOp::Ge, t.clone(), t.clone()));
    assert_eq!(
        builder.bitwise_and(t.clone(), t.clone()),
        RValue::BinOp(BinOp::And, t.clone(), t.clone())
    );
    assert_eq!(
        builder.bitwise_or(t.clone(), t.clone()),
        RValue::BinOp(BinOp::Or, t.clone(), t.clone())
    );
    assert_eq!(builder.not(t.clone()), RValue::UnOp(UnOp::Not, t.clone()));
    assert_eq!(builder.negate(t.clone()), RValue::UnOp(UnOp::Negate, t.clone()));
    assert_eq!(builder.const_null(), Operand::Constant(Constant::Null));
    assert_eq!(
        builder.const_stringliteral(name),
        Operand::Constant(Constant::StringLiteral(name))
    );
    assert_eq!(builder.const_i8(-1), Operand::Constant(Constant::I8(-1)));
    assert_eq!(builder.const_i16(-1), Operand::Constant(Constant::I16(-1)));
    assert_eq!(builder.const_i32(-1), Operand::Constant(Constant::I32(-1)));
    assert_eq!(builder.const_i64(-1), Operand::Constant(Constant::I64(-1)));
    assert_eq!(builder.const_u16(1), Operand::Constant(Constant::U16(1)));
    assert_eq!(builder.const_u32(1), Operand::Constant(Constant::U32(1)));
    assert_eq!(builder.const_u64(1), Operand::Constant(Constant::U64(1)));
    assert_eq!(builder.const_bool(false), Operand::Constant(Constant::Bool(false)));
    builder.term_goto(first, Span::zero());
    builder.set_bb(first);
    builder.term_cond_goto(t.clone(), first, second, Span::zero());
    builder.term_return(Span::zero());
}
