use std::cell::RefCell;

use braid::ast::ty::Type;
use braid::mir::ir::{
    BasicBlockId, BinOp, Constant, LValue, MirProject, Operand, Procedure, RValue, ScopeId,
    Statement, StatementKind, TempId, Terminator, TerminatorKind, UnOp, VarDecl, VarId,
};
use braid::mir::transformer::{Transformer, TransformerError};
use braid::mir::traverser::Traverser;
use braid::source::span::Span;
use braid::stringtable::StringId;

/// A transformer that writes down every call, the questions too, and
/// answers each question with a value of its own.
struct Asked {
    log: RefCell<Vec<String>>,
    /// The call that is refused, and the error that it is refused with.
    refuse: Option<(&'static str, TransformerError)>,
}

impl Asked {
    fn new() -> Asked {
        Asked { log: RefCell::new(vec![]), refuse: None }
    }

    fn refusing(call: &'static str, e: TransformerError) -> Asked {
        Asked { log: RefCell::new(vec![]), refuse: Some((call, e)) }
    }

    /// Writes the call down, unless it is the one to refuse.
    fn accept(&self, call: String) -> Result<(), TransformerError> {
        match self.refuse {
            Some((refused, e)) if refused == call => Err(e),
            _ => {
                self.answer(call);
                Ok(())
            }
        }
    }

    /// Writes the call down and gives the number of the call as its answer.
    fn answer(&self, call: String) -> usize {
        let mut log = self.log.borrow_mut();
        log.push(call);
        log.len()
    }
}

impl Transformer<usize, usize> for Asked {
    fn create_bb(&mut self, bb: BasicBlockId) -> Result<(), TransformerError> {
        self.accept(format!("create {}", bb.index()))
    }

    fn set_bb(&mut self, bb: BasicBlockId) -> Result<(), TransformerError> {
        self.accept(format!("set {}", bb.index()))
    }

    fn alloc_var(&mut self, id: VarId, _decl: &VarDecl) -> Result<(), TransformerError> {
        self.accept(format!("alloc v{}", id.index()))
    }

    fn alloc_temp(&mut self, id: TempId, _ty: &Type) -> Result<(), TransformerError> {
        self.accept(format!("alloc t{}", id.index()))
    }

    fn bin_op(&mut self, op: BinOp, left: usize, right: usize) -> usize {
        self.answer(format!("{:?} #{} #{}", op, left, right))
    }

    fn un_op(&mut self, op: UnOp, operand: usize) -> usize {
        self.answer(format!("{:?} #{}", op, operand))
    }

    fn term_return(&mut self) {
        self.answer("return".into());
    }

    fn term_goto(&mut self, target: BasicBlockId) {
        self.answer(format!("goto {}", target.index()));
    }

    fn term_cond_goto(&mut self, cond: usize, then_bb: BasicBlockId, else_bb: BasicBlockId) {
        self.answer(format!("if #{} goto {} else {}", cond, then_bb.index(), else_bb.index()));
    }

    fn assign(&mut self, _span: Span, l: usize, v: usize) {
        self.answer(format!("#{} := #{}", l, v));
    }

    fn var(&self, v: VarId) -> usize {
        self.answer(format!("var {}", v.index()))
    }

    fn temp(&self, t: TempId) -> usize {
        self.answer(format!("temp {}", t.index()))
    }

    fn return_pointer(&self) -> usize {
        self.answer("return pointer".into())
    }

    fn load(&self, lv: usize) -> usize {
        self.answer(format!("load #{}", lv))
    }

    fn const_unit(&self) -> usize {
        self.answer("unit".into())
    }

    fn const_i8(&self, i: i8) -> usize {
        self.answer(format!("{}i8", i))
    }

    fn const_i16(&self, i: i16) -> usize {
        self.answer(format!("{}i16", i))
    }

    fn const_i32(&self, i: i32) -> usize {
        self.answer(format!("{}i32", i))
    }

    fn const_i64(&self, i: i64) -> usize {
        self.answer(format!("{}i64", i))
    }

    fn const_u8(&self, i: u8) -> usize {
        self.answer(format!("{}u8", i))
    }

    fn const_u16(&self, i: u16) -> usize {
        self.answer(format!("{}u16", i))
    }

    fn const_u32(&self, i: u32) -> usize {
        self.answer(format!("{}u32", i))
    }

    fn const_u64(&self, i: u64) -> usize {
        self.answer(format!("{}u64", i))
    }

    fn const_bool(&self, b: bool) -> usize {
        self.answer(format!("{}", b))
    }

    fn const_stringliteral(&self, s: StringId) -> usize {
        self.answer(format!("string {}", s.as_u32()))
    }

    fn const_null(&self) -> usize {
        self.answer("null".into())
    }
}

fn statement(l: LValue, r: RValue) -> Statement {
    Statement::new(StatementKind::Assign(l, r), Span::zero())
}

/// The calls that replaying the block makes, without those that set the
/// procedure up.
fn calls_of(statements: Vec<Statement>, terminator: TerminatorKind) -> Vec<String> {
    let mut p = Procedure::new(&Type::Unit, Span::zero());
    let bb = p.new_bb();
    p.new_bb();
    p.add_var(StringId(0), false, &Type::I64, ScopeId::new(0), Span::zero());
    p.add_var(StringId(1), false, &Type::I64, ScopeId::new(0), Span::zero());
    p.add_temp(&Type::I64);
    for s in statements {
        p.add_stm(bb, s);
    }
    p.set_terminator(bb, Terminator::new(terminator, Span::zero()));
    p.set_terminator(BasicBlockId::new(1), Terminator::new(TerminatorKind::Return, Span::zero()));
    let mut project = MirProject::new();
    project.add_func(p);
    let mut traverser = Traverser::new(&project, Asked::new());
    assert_eq!(traverser.map(), Ok(()));
    let log = traverser.into_transformer().log.into_inner();
    assert_eq!(
        log[..7],
        ["create 0", "create 1", "set 0", "alloc v0", "alloc v1", "alloc t0", "set 0"]
    );
    assert_eq!(log[log.len() - 2..], ["set 1", "return"]);
    log[7..log.len() - 2].to_vec()
}

fn var(i: usize) -> LValue {
    LValue::Var(VarId::new(i))
}

#[test]
fn a_constant_is_asked_for_and_stored() {
    // Call 8 asks for the location, call 9 for the constant.
    assert_eq!(
        calls_of(
            vec![statement(var(1), RValue::Use(Operand::Constant(Constant::I64(5))))],
            TerminatorKind::Return
        ),
        ["var 1", "5i64", "#8 := #9", "return"]
    );
    for (c, text) in [
        (Constant::Unit, "unit"),
        (Constant::I8(-1), "-1i8"),
        (Constant::I16(2), "2i16"),
        (Constant::I32(3), "3i32"),
        (Constant::U8(4), "4u8"),
        (Constant::U16(5), "5u16"),
        (Constant::U32(6), "6u32"),
        (Constant::U64(7), "7u64"),
        (Constant::Bool(true), "true"),
        (Constant::StringLiteral(StringId(3)), "string 3"),
        (Constant::Null, "null"),
    ] {
        assert_eq!(
            calls_of(
                vec![statement(var(0), RValue::Use(Operand::Constant(c)))],
                TerminatorKind::Return
            ),
            ["var 0", text, "#8 := #9", "return"]
        );
    }
}

#[test]
fn the_value_in_a_location_is_loaded_from_the_answer() {
    assert_eq!(
        calls_of(
            vec![statement(LValue::Temp(TempId::new(0)), RValue::Use(Operand::LValue(var(1))))],
            TerminatorKind::Return
        ),
        ["temp 0", "var 1", "load #9", "#8 := #10", "return"]
    );
    assert_eq!(
        calls_of(
            vec![statement(
                LValue::ReturnPointer,
                RValue::Use(Operand::LValue(LValue::Temp(TempId::new(0))))
            )],
            TerminatorKind::Return
        ),
        ["return pointer", "temp 0", "load #9", "#8 := #10", "return"]
    );
}

#[test]
fn operations_take_the_answers_to_their_operands() {
    assert_eq!(
        calls_of(
            vec![statement(
                var(0),
                RValue::BinOp(
                    BinOp::Sub,
                    Operand::LValue(var(1)),
                    Operand::Constant(Constant::I64(2))
                )
            )],
            TerminatorKind::Return
        ),
        ["var 0", "var 1", "load #9", "2i64", "Sub #10 #11", "#8 := #12", "return"]
    );
    assert_eq!(
        calls_of(
            vec![statement(var(0), RValue::UnOp(UnOp::Negate, Operand::LValue(var(0))))],
            TerminatorKind::Return
        ),
        ["var 0", "var 0", "load #9", "Negate #10", "#8 := #11", "return"]
    );
}

#[test]
fn a_jump_is_on_the_answer_to_its_condition() {
    assert_eq!(
        calls_of(
            vec![],
            TerminatorKind::CondGoTo {
                cond: Operand::LValue(var(1)),
                tru: BasicBlockId::new(1),
                fls: BasicBlockId::new(0),
            }
        ),
        ["var 1", "load #8", "if #9 goto 1 else 0"]
    );
    assert_eq!(
        calls_of(
            vec![],
            TerminatorKind::CondGoTo {
                cond: Operand::Constant(Constant::Bool(false)),
                tru: BasicBlockId::new(0),
                fls: BasicBlockId::new(1),
            }
        ),
        ["false", "if #8 goto 0 else 1"]
    );
    assert_eq!(calls_of(vec![], TerminatorKind::GoTo { target: BasicBlockId::new(1) }), ["goto 1"]);
}

#[test]
fn statements_are_replayed_in_their_order() {
    assert_eq!(
        calls_of(
            vec![
                statement(var(0), RValue::Use(Operand::Constant(Constant::I64(1)))),
                statement(var(1), RValue::Use(Operand::LValue(var(0)))),
            ],
            TerminatorKind::Return
        ),
        ["var 0", "1i64", "#8 := #9", "var 1", "var 0", "load #12", "#11 := #13", "return"]
    );
}

/// A procedure with two blocks, two variables and a temporary.
fn two_blocks() -> Procedure {
    let mut p = Procedure::new(&Type::Unit, Span::zero());
    let b0 = p.new_bb();
    let b1 = p.new_bb();
    p.add_var(StringId(0), false, &Type::I64, ScopeId::new(0), Span::zero());
    p.add_var(StringId(1), false, &Type::I64, ScopeId::new(0), Span::zero());
    p.add_temp(&Type::I64);
    p.add_stm(b0, statement(var(0), RValue::Use(Operand::Constant(Constant::I64(1)))));
    p.set_terminator(b0, Terminator::new(TerminatorKind::GoTo { target: b1 }, Span::zero()));
    p.set_terminator(b1, Terminator::new(TerminatorKind::Return, Span::zero()));
    p
}

/// What the traversal returns where the transformer refuses the call, and
/// the calls that were made before.
fn refused_at(
    call: &'static str,
    e: TransformerError,
) -> (Result<(), TransformerError>, Vec<String>) {
    let mut project = MirProject::new();
    project.add_func(two_blocks());
    project.add_func(two_blocks());
    let mut traverser = Traverser::new(&project, Asked::refusing(call, e));
    let r = traverser.map();
    (r, traverser.into_transformer().log.into_inner())
}

#[test]
fn a_project_without_procedures_is_replayed_without_a_call() {
    let project = MirProject::new();
    let refusing = Asked::refusing("create 0", TransformerError::BasicBlockNotFound);
    let mut traverser = Traverser::new(&project, refusing);
    assert_eq!(traverser.map(), Ok(()));
    assert!(traverser.into_transformer().log.into_inner().is_empty());
}

#[test]
fn a_refusal_ends_the_traversal_with_its_error() {
    let all = [
        "create 0", "create 1", "set 0", "alloc v0", "alloc v1", "alloc t0", "set 0", "var 0",
        "1i64", "#8 := #9", "goto 1", "set 1", "return",
    ];
    // The first procedure is replayed whole, then the second.
    let mut traverser_project = MirProject::new();
    traverser_project.add_func(two_blocks());
    let mut traverser = Traverser::new(&traverser_project, Asked::new());
    assert_eq!(traverser.map(), Ok(()));
    assert_eq!(traverser.into_transformer().log.into_inner(), all);

    // The blocks are created first: nothing else was called.
    let (r, log) = refused_at("create 1", TransformerError::BasicBlockAlreadyCreated);
    assert_eq!(r, Err(TransformerError::BasicBlockAlreadyCreated));
    assert_eq!(log, all[..1]);

    // Then the entry block is selected and the variables are allocated.
    let (r, log) = refused_at("alloc v1", TransformerError::VariableAlreadyAllocated);
    assert_eq!(r, Err(TransformerError::VariableAlreadyAllocated));
    assert_eq!(log, all[..4]);
    let (r, log) = refused_at("alloc t0", TransformerError::TemporaryAlreadyAllocated);
    assert_eq!(r, Err(TransformerError::TemporaryAlreadyAllocated));
    assert_eq!(log, all[..5]);

    // Then the blocks are replayed, in their order.
    let (r, log) = refused_at("set 1", TransformerError::BasicBlockNotFound);
    assert_eq!(r, Err(TransformerError::BasicBlockNotFound));
    assert_eq!(log, all[..11]);
    let (r, log) = refused_at("set 0", TransformerError::BasicBlockNotFound);
    assert_eq!(r, Err(TransformerError::BasicBlockNotFound));
    assert_eq!(log, all[..2]);
}

#[test]
fn a_block_is_selected_before_it_is_replayed() {
    let project = MirProject::new();
    let p = two_blocks();
    let refusing = Asked::refusing("set 0", TransformerError::BasicBlockNotFound);
    let mut traverser = Traverser::new(&project, refusing);
    let entry = p.get_bb(BasicBlockId::new(0));
    assert_eq!(
        traverser.basic_block(BasicBlockId::new(0), entry),
        Err(TransformerError::BasicBlockNotFound)
    );
    assert_eq!(traverser.basic_block(BasicBlockId::new(1), p.get_bb(BasicBlockId::new(1))), Ok(()));
    assert_eq!(traverser.basic_block(BasicBlockId::new(5), entry), Ok(()));
    assert_eq!(
        traverser.into_transformer().log.into_inner(),
        ["set 1", "return", "set 5", "var 0", "1i64", "#4 := #5", "goto 1"]
    );
}
