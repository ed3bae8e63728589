//! Lowering: turns the type-checked tree of a routine into its control-flow
//! graph.
//!
//! A builder keeps track of one current block; every statement that is
//! emitted goes to the end of that block until the builder is told to
//! switch.  The result of an operation is always stored in a fresh
//! temporary, so that whoever uses the result reads it from a location.  A
//! conditional that has a value gets one temporary that both of its arms
//! write to and that is read after the arms have met again.
use crate::ast::expression::{BinaryOperator, Expression, ExpressionView, UnaryOperator};
use crate::ast::module::{Item, ItemView, Module};
use crate::ast::routinedef::{RoutineDef, RoutineDefView};
use crate::ast::statement::{statements_view, Bind, Return, Statement as AstStatement,
    StatementView};
use crate::ast::ty::{Type, TypeView};
use crate::mir::ir::{
    BasicBlockId, BinOp, Constant, LValue, Operand, Procedure, ProcedureView, RValue, ScopeId,
    Statement, StatementKind, TempId, Terminator, TerminatorKind, UnOp, VarDeclView, VarId,
};
use crate::mir::traverser::procedure_supported;
use crate::semantics::rules::{type_of, Expr, Stmt};
use crate::semantics::semanticnode::{ContextView, SemanticContext};
use crate::source::span::Span;
use crate::stringtable::StringId;
use vstd::prelude::*;

verus! {

/// Builds the graph of one procedure.
pub struct MirBuilder {
    proc: Procedure,
    current_bb: Option<BasicBlockId>,
}

pub ghost struct BuilderView {
    pub proc: ProcedureView,
    /// The block that statements are appended to.
    pub current: Option<BasicBlockId>,
}

/// The empty span at the upper bound of `span`: the span of an instruction
/// that the compiler inserts after a construct.
pub open spec fn span_end_of(span: Span) -> Span {
    Span::of(span.end(), span.end())
}

/// The operation of the graph that stands for a binary operator.
pub open spec fn binop_of(op: BinaryOperator) -> BinOp {
    match op {
        BinaryOperator::Add => BinOp::Add,
        BinaryOperator::Sub => BinOp::Sub,
        BinaryOperator::Mul => BinOp::Mul,
        BinaryOperator::Div => BinOp::Div,
        BinaryOperator::BAnd => BinOp::And,
        BinaryOperator::BOr => BinOp::Or,
        BinaryOperator::Eq => BinOp::Eq,
        BinaryOperator::NEq => BinOp::Ne,
        BinaryOperator::Ls => BinOp::Lt,
        BinaryOperator::LsEq => BinOp::Le,
        BinaryOperator::Gr => BinOp::Gt,
        BinaryOperator::GrEq => BinOp::Ge,
    }
}

/// The operation of the graph that stands for a unary operator.
pub open spec fn unop_of(op: UnaryOperator) -> UnOp {
    match op {
        UnaryOperator::Negate => UnOp::Negate,
        UnaryOperator::Not => UnOp::Not,
    }
}

pub open spec fn unit() -> Operand {
    Operand::Constant(Constant::Unit)
}

impl BuilderView {
    /// The current block exists, and every block has an id.
    pub open spec fn wf(self) -> bool {
        &&& self.current is Some
        &&& self.current.unwrap().0 < self.proc.blocks.len()
        &&& self.proc.blocks.len() <= usize::MAX
    }

    /// Whether there are ids left for the blocks of one more conditional.
    pub open spec fn has_room(self) -> bool {
        self.proc.blocks.len() <= usize::MAX - 3
    }

    pub open spec fn with_proc(self, proc: ProcedureView) -> BuilderView {
        BuilderView { proc, ..self }
    }

    /// The id of the block that would be created next.
    pub open spec fn next_bb(self) -> BasicBlockId {
        BasicBlockId(self.proc.blocks.len() as usize)
    }

    /// The id of the temporary that would be declared next.
    pub open spec fn next_temp(self) -> TempId {
        TempId(self.proc.temps.len() as usize)
    }

    /// The id of the variable that would be declared next.
    pub open spec fn next_var(self) -> VarId {
        VarId(self.proc.vars.len() as usize)
    }

    pub open spec fn new_bb(self) -> BuilderView {
        self.with_proc(self.proc.new_bb())
    }

    pub open spec fn set_bb(self, bb: BasicBlockId) -> BuilderView {
        BuilderView { current: Some(bb), ..self }
    }

    pub open spec fn var(self, name: StringId, mutable: bool, ty: TypeView, span: Span)
        -> BuilderView {
        self.with_proc(
            self.proc.add_var(VarDeclView { name, mutable, ty, scope: ScopeId(0), span }),
        )
    }

    pub open spec fn temp(self, ty: TypeView) -> BuilderView {
        self.with_proc(self.proc.add_temp(ty))
    }

    /// Appends the assignment of `rv` to `lv` to the current block.
    pub open spec fn store(self, lv: LValue, rv: RValue, span: Span) -> BuilderView {
        self.with_proc(
            self.proc.add_stm(
                self.current.unwrap(),
                Statement { kind: StatementKind::Assign(lv, rv), span },
            ),
        )
    }

    /// Declares a temporary and stores `rv` in it.
    pub open spec fn temp_store(self, rv: RValue, ty: TypeView, span: Span) -> BuilderView {
        self.temp(ty).store(LValue::Temp(self.next_temp()), rv, span)
    }

    /// Sets the terminator of the current block.
    pub open spec fn terminate(self, kind: TerminatorKind, span: Span) -> BuilderView {
        self.with_proc(self.proc.set_terminator(self.current.unwrap(), Terminator { kind, span }))
    }
}

/// Lowers an expression into the graph: gives the builder after the
/// statements of the expression were emitted, and the operand that holds
/// its value.  Gives nothing for an expression that cannot be lowered: one
/// of a kind that the graph has no form for yet, one that names a variable
/// that was not declared, or a conditional for whose blocks no ids are
/// left.
pub open spec fn lower_expression(b: BuilderView, e: Expr) -> Option<(BuilderView, Operand)>
    decreases e, 0int,
{
    match e {
        ExpressionView::I8(_, i) => Some((b, Operand::Constant(Constant::I8(i)))),
        ExpressionView::I16(_, i) => Some((b, Operand::Constant(Constant::I16(i)))),
        ExpressionView::I32(_, i) => Some((b, Operand::Constant(Constant::I32(i)))),
        ExpressionView::I64(_, i) => Some((b, Operand::Constant(Constant::I64(i)))),
        ExpressionView::U8(_, u) => Some((b, Operand::Constant(Constant::U8(u)))),
        ExpressionView::U16(_, u) => Some((b, Operand::Constant(Constant::U16(u)))),
        ExpressionView::U32(_, u) => Some((b, Operand::Constant(Constant::U32(u)))),
        ExpressionView::U64(_, u) => Some((b, Operand::Constant(Constant::U64(u)))),
        ExpressionView::Boolean(_, v) => Some((b, Operand::Constant(Constant::Bool(v)))),
        ExpressionView::StringLiteral(_, sid) => Some(
            (b, Operand::Constant(Constant::StringLiteral(sid))),
        ),
        ExpressionView::BinaryOp(ctx, op, left, right) => match lower_expression(b, *left) {
            None => None,
            Some((b1, l)) => match lower_expression(b1, *right) {
                None => None,
                Some((b2, r)) => Some(
                    (
                        b2.temp_store(RValue::BinOp(binop_of(op), l, r), ctx.ty, ctx.span),
                        Operand::LValue(LValue::Temp(b2.next_temp())),
                    ),
                ),
            },
        },
        ExpressionView::UnaryOp(ctx, op, right) => match lower_expression(b, *right) {
            None => None,
            Some((b1, r)) => Some(
                (
                    b1.temp_store(RValue::UnOp(unop_of(op), r), ctx.ty, ctx.span),
                    Operand::LValue(LValue::Temp(b1.next_temp())),
                ),
            ),
        },
        ExpressionView::Identifier(_, id) => match b.proc.find_var(id) {
            Some(vid) => Some((b, Operand::LValue(LValue::Var(vid)))),
            None => None,
        },
        ExpressionView::If { context, cond, if_arm, else_arm } => if !b.has_room() {
            None
        } else {
            // The blocks of the conditional are created first: then, else,
            // merge.
            let then_bb = b.next_bb();
            let b0 = b.new_bb();
            let else_bb = b0.next_bb();
            let b1 = if else_arm is Some {
                b0.new_bb()
            } else {
                b0
            };
            let merge_bb = b1.next_bb();
            let b2 = b1.new_bb();
            match lower_expression(b2, *cond) {
                None => None,
                Some((b3, cond_val)) => {
                    let b4 = b3.terminate(
                        TerminatorKind::CondGoTo {
                            cond: cond_val,
                            tru: then_bb,
                            fls: if else_arm is Some {
                                else_bb
                            } else {
                                merge_bb
                            },
                        },
                        cond.context().span,
                    );
                    // Only a conditional with two arms that are not of the
                    // type `Unit` has a value, and a temporary for it.
                    let result = if else_arm is Some && type_of(*if_arm) != TypeView::Unit {
                        Some(b4.next_temp())
                    } else {
                        None
                    };
                    let b5 = if result is Some {
                        b4.temp(type_of(*if_arm))
                    } else {
                        b4
                    };
                    match lower_arm(b5.set_bb(then_bb), *if_arm, result, merge_bb) {
                        None => None,
                        Some(b6) => match else_arm {
                            None => Some((b6.set_bb(merge_bb), unit())),
                            Some(else_arm) => match lower_arm(
                                b6.set_bb(else_bb),
                                *else_arm,
                                result,
                                merge_bb,
                            ) {
                                None => None,
                                Some(b7) => Some(
                                    (
                                        b7.set_bb(merge_bb),
                                        match result {
                                            Some(t) => Operand::LValue(LValue::Temp(t)),
                                            None => unit(),
                                        },
                                    ),
                                ),
                            },
                        },
                    }
                },
            }
        },
        ExpressionView::ExpressionBlock(_, block, last) => match lower_statements(b, block, 0) {
            None => None,
            Some(b1) => match last {
                Some(e) => lower_expression(b1, *e),
                None => Some((b1, unit())),
            },
        },
        _ => None,
    }
}

/// Lowers one arm of a conditional into the current block: the statements
/// of the arm, the store of its value into the temporary `result` where the
/// conditional has a value, and the jump to the block where the arms meet.
pub open spec fn lower_arm(
    b: BuilderView,
    arm: Expr,
    result: Option<TempId>,
    merge_bb: BasicBlockId,
) -> Option<BuilderView>
    decreases arm, 1int,
{
    match lower_expression(b, arm) {
        None => None,
        Some((b1, val)) => {
            let b2 = match result {
                Some(t) => b1.store(LValue::Temp(t), RValue::Use(val), arm.context().span),
                None => b1,
            };
            Some(
                b2.terminate(
                    TerminatorKind::GoTo { target: merge_bb },
                    span_end_of(arm.context().span),
                ),
            )
        },
    }
}

/// Lowers a statement into the graph.  Gives nothing for a statement that
/// cannot be lowered.
pub open spec fn lower_statement(b: BuilderView, s: Stmt) -> Option<BuilderView>
    decreases s, 0int,
{
    match s {
        StatementView::Bind { metadata, id, ty, mutable, rhs } => {
            let vid = b.next_var();
            match lower_expression(b.var(id, mutable, ty, metadata.span), rhs) {
                None => None,
                Some((b1, value)) => Some(
                    b1.store(LValue::Var(vid), RValue::Use(value), metadata.span),
                ),
            }
        },
        StatementView::Expression(e) => match lower_expression(b, e) {
            None => None,
            Some((b1, _)) => Some(b1),
        },
        StatementView::Return { metadata, value } => match value {
            Some(val) => match lower_expression(b, val) {
                None => None,
                Some((b1, v)) => Some(
                    b1.store(LValue::ReturnPointer, RValue::Use(v), val.context().span).terminate(
                        TerminatorKind::Return,
                        metadata.span,
                    ),
                ),
            },
            None => Some(b.terminate(TerminatorKind::Return, metadata.span)),
        },
        _ => None,
    }
}

/// Lowers the statements from position `i` on, one after the other.
pub open spec fn lower_statements(b: BuilderView, ss: Seq<Stmt>, i: int) -> Option<BuilderView>
    decreases ss, ss.len() - i,
{
    if i < 0 || i >= ss.len() {
        Some(b)
    } else {
        match lower_statement(b, ss[i]) {
            None => None,
            Some(b1) => lower_statements(b1, ss, i + 1),
        }
    }
}

/// The graph of a routine: one entry block that the statements of the body
/// are lowered into, and a return at the end of the block that is current
/// when the body ends.
pub open spec fn lower_routine(r: RoutineDefView<ContextView>) -> Option<ProcedureView> {
    let start = BuilderView {
        proc: ProcedureView::empty(r.ty, r.annotations.span).new_bb(),
        current: Some(BasicBlockId(0)),
    };
    match lower_statements(start, r.body, 0) {
        None => None,
        Some(b) => Some(
            b.terminate(TerminatorKind::Return, span_end_of(r.annotations.span)).proc,
        ),
    }
}

impl View for MirBuilder {
    type V = BuilderView;

    closed spec fn view(&self) -> BuilderView {
        BuilderView { proc: self.proc@, current: self.current_bb }
    }
}

impl MirBuilder {
    /// A builder for a procedure that returns nothing and has no block yet.
    pub fn new() -> (r: MirBuilder)
        ensures
            r@ == (BuilderView {
                proc: ProcedureView::empty(TypeView::Unit, Span::of(0, 0)),
                current: None,
            }),
    {
        MirBuilder { proc: Procedure::new(&Type::Unit, Span::zero()), current_bb: None }
    }

    /// Adds a new block to the procedure.
    pub fn new_bb(&mut self) -> (r: BasicBlockId)
        ensures
            r == old(self)@.next_bb(),
            final(self)@ == old(self)@.new_bb(),
    {
        self.proc.new_bb()
    }

    /// Changes the current block: from now on statements are appended to
    /// the block `bb`.
    pub fn set_bb(&mut self, bb: BasicBlockId)
        ensures
            final(self)@ == old(self)@.set_bb(bb),
    {
        self.current_bb = Some(bb)
    }

    /// The variable that `name` stands for.
    pub fn find_var(&self, name: StringId) -> (r: Option<VarId>)
        ensures
            r == self@.proc.find_var(name),
    {
        self.proc.find_var(name)
    }

    pub fn const_i8(&self, i: i8) -> (r: Operand)
        ensures
            r == Operand::Constant(Constant::I8(i)),
    {
        Operand::Constant(Constant::I8(i))
    }

    pub fn const_i16(&self, i: i16) -> (r: Operand)
        ensures
            r == Operand::Constant(Constant::I16(i)),
    {
        Operand::Constant(Constant::I16(i))
    }

    pub fn const_i32(&self, i: i32) -> (r: Operand)
        ensures
            r == Operand::Constant(Constant::I32(i)),
    {
        Operand::Constant(Constant::I32(i))
    }

    pub fn const_i64(&self, i: i64) -> (r: Operand)
        ensures
            r == Operand::Constant(Constant::I64(i)),
    {
        Operand::Constant(Constant::I64(i))
    }

    pub fn const_u8(&self, i: u8) -> (r: Operand)
        ensures
            r == Operand::Constant(Constant::U8(i)),
    {
        Operand::Constant(Constant::U8(i))
    }

    pub fn const_u16(&self, i: u16) -> (r: Operand)
        ensures
            r == Operand::Constant(Constant::U16(i)),
    {
        Operand::Constant(Constant::U16(i))
    }

    pub fn const_u32(&self, i: u32) -> (r: Operand)
        ensures
            r == Operand::Constant(Constant::U32(i)),
    {
        Operand::Constant(Constant::U32(i))
    }

    pub fn const_u64(&self, i: u64) -> (r: Operand)
        ensures
            r == Operand::Constant(Constant::U64(i)),
    {
        Operand::Constant(Constant::U64(i))
    }

    pub fn const_bool(&self, b: bool) -> (r: Operand)
        ensures
            r == Operand::Constant(Constant::Bool(b)),
    {
        Operand::Constant(Constant::Bool(b))
    }

    /// A reference to a string literal.
    pub fn const_stringliteral(&self, s: StringId) -> (r: Operand)
        ensures
            r == Operand::Constant(Constant::StringLiteral(s)),
    {
        Operand::Constant(Constant::StringLiteral(s))
    }

    pub fn const_null(&self) -> (r: Operand)
        ensures
            r == Operand::Constant(Constant::Null),
    {
        Operand::Constant(Constant::Null)
    }

    /// Declares a variable of the user.
    pub fn var(&mut self, name: StringId, mutable: bool, ty: &Type, span: Span) -> (r: VarId)
        ensures
            r == old(self)@.next_var(),
            final(self)@ == old(self)@.var(name, mutable, ty@, span),
    {
        self.proc.add_var(name, mutable, ty, ScopeId::new(0), span)
    }

    /// Declares a temporary.
    pub fn temp(&mut self, ty: &Type) -> (r: TempId)
        ensures
            r == old(self)@.next_temp(),
            final(self)@ == old(self)@.temp(ty@),
    {
        self.proc.add_temp(ty)
    }

    /// Declares a temporary, stores `rv` in it and returns the operand that
    /// reads it.
    pub fn temp_store(&mut self, rv: RValue, ty: &Type, span: Span) -> (r: Operand)
        requires
            old(self)@.wf(),
        ensures
            r == Operand::LValue(LValue::Temp(old(self)@.next_temp())),
            final(self)@ == old(self)@.temp_store(rv, ty@, span),
            final(self)@.wf(),
    {
        let t = self.temp(ty);
        self.store(LValue::Temp(t), rv, span);
        Operand::LValue(LValue::Temp(t))
    }

    /// Appends the assignment of `rv` to `lv` to the current block.
    pub fn store(&mut self, lv: LValue, rv: RValue, span: Span)
        requires
            old(self)@.wf(),
        ensures
            final(self)@ == old(self)@.store(lv, rv, span),
            final(self)@.wf(),
    {
        let cid = self.current_bb.unwrap();
        self.proc.add_stm(cid, Statement::new(StatementKind::Assign(lv, rv), span));
    }

    pub fn not(&self, right: Operand) -> (r: RValue)
        ensures
            r == RValue::UnOp(UnOp::Not, right),
    {
        RValue::UnOp(UnOp::Not, right)
    }

    pub fn negate(&self, right: Operand) -> (r: RValue)
        ensures
            r == RValue::UnOp(UnOp::Negate, right),
    {
        RValue::UnOp(UnOp::Negate, right)
    }

    pub fn add(&self, left: Operand, right: Operand) -> (r: RValue)
        ensures
            r == RValue::BinOp(BinOp::Add, left, right),
    {
        RValue::BinOp(BinOp::Add, left, right)
    }

    pub fn sub(&self, left: Operand, right: Operand) -> (r: RValue)
        ensures
            r == RValue::BinOp(BinOp::Sub, left, right),
    {
        RValue::BinOp(BinOp::Sub, left, right)
    }

    pub fn mul(&self, left: Operand, right: Operand) -> (r: RValue)
        ensures
            r == RValue::BinOp(BinOp::Mul, left, right),
    {
        RValue::BinOp(BinOp::Mul, left, right)
    }

    pub fn div(&self, left: Operand, right: Operand) -> (r: RValue)
        ensures
            r == RValue::BinOp(BinOp::Div, left, right),
    {
        RValue::BinOp(BinOp::Div, left, right)
    }

    pub fn bitwise_and(&self, left: Operand, right: Operand) -> (r: RValue)
        ensures
            r == RValue::BinOp(BinOp::And, left, right),
    {
        RValue::BinOp(BinOp::And, left, right)
    }

    pub fn bitwise_or(&self, left: Operand, right: Operand) -> (r: RValue)
        ensures
            r == RValue::BinOp(BinOp::Or, left, right),
    {
        RValue::BinOp(BinOp::Or, left, right)
    }

    pub fn eq(&self, left: Operand, right: Operand) -> (r: RValue)
        ensures
            r == RValue::BinOp(BinOp::Eq, left, right),
    {
        RValue::BinOp(BinOp::Eq, left, right)
    }

    pub fn neq(&self, left: Operand, right: Operand) -> (r: RValue)
        ensures
            r == RValue::BinOp(BinOp::Ne, left, right),
    {
        RValue::BinOp(BinOp::Ne, left, right)
    }

    pub fn lt(&self, left: Operand, right: Operand) -> (r: RValue)
        ensures
            r == RValue::BinOp(BinOp::Lt, left, right),
    {
        RValue::BinOp(BinOp::Lt, left, right)
    }

    pub fn le(&self, left: Operand, right: Operand) -> (r: RValue)
        ensures
            r == RValue::BinOp(BinOp::Le, left, right),
    {
        RValue::BinOp(BinOp::Le, left, right)
    }

    pub fn gt(&self, left: Operand, right: Operand) -> (r: RValue)
        ensures
            r == RValue::BinOp(BinOp::Gt, left, right),
    {
        RValue::BinOp(BinOp::Gt, left, right)
    }

    pub fn ge(&self, left: Operand, right: Operand) -> (r: RValue)
        ensures
            r == RValue::BinOp(BinOp::Ge, left, right),
    {
        RValue::BinOp(BinOp::Ge, left, right)
    }

    /// Ends the current block by returning to the caller.
    pub fn term_return(&mut self, span: Span)
        requires
            old(self)@.wf(),
        ensures
            final(self)@ == old(self)@.terminate(TerminatorKind::Return, span),
            final(self)@.wf(),
    {
        let cid = self.current_bb.unwrap();
        self.proc.set_terminator(cid, Terminator::new(TerminatorKind::Return, span));
    }

    /// Ends the current block by going to the block `target`.
    pub fn term_goto(&mut self, target: BasicBlockId, span: Span)
        requires
            old(self)@.wf(),
        ensures
            final(self)@ == old(self)@.terminate(TerminatorKind::GoTo { target }, span),
            final(self)@.wf(),
    {
        let cid = self.current_bb.unwrap();
        self.proc.set_terminator(cid, Terminator::new(TerminatorKind::GoTo { target }, span));
    }

    /// Ends the current block by going to `then_bb` where `cond` holds and
    /// to `else_bb` where it does not.
    pub fn term_cond_goto(
        &mut self,
        cond: Operand,
        then_bb: BasicBlockId,
        else_bb: BasicBlockId,
        span: Span,
    )
        requires
            old(self)@.wf(),
        ensures
            final(self)@ == old(self)@.terminate(
                TerminatorKind::CondGoTo { cond, tru: then_bb, fls: else_bb },
                span,
            ),
            final(self)@.wf(),
    {
        let cid = self.current_bb.unwrap();
        self.proc.set_terminator(
            cid,
            Terminator::new(TerminatorKind::CondGoTo { cond, tru: then_bb, fls: else_bb }, span),
        );
    }
}

/// Transforms a single routine into its graph.
pub struct FuncTransformer {
    mir: MirBuilder,
}

/// The empty span at the upper bound of `span`.
fn span_end(span: Span) -> (r: Span)
    ensures
        r == span_end_of(span),
{
    span.end_point()
}

impl FuncTransformer {
    pub closed spec fn builder(&self) -> BuilderView {
        self.mir@
    }

    pub fn new() -> (r: FuncTransformer)
        ensures
            r.builder() == (BuilderView {
                proc: ProcedureView::empty(TypeView::Unit, Span::of(0, 0)),
                current: None,
            }),
    {
        FuncTransformer { mir: MirBuilder::new() }
    }

    /// Lowers the routine `func`, if it can be lowered: if every statement
    /// and expression of it is of a kind that the graph has a form for, and
    /// every name in it stands for a variable that was bound before.
    pub fn try_transform(self, func: &RoutineDef<SemanticContext>) -> (r: Option<Procedure>)
        requires
            self.builder() == (BuilderView {
                proc: ProcedureView::empty(TypeView::Unit, Span::of(0, 0)),
                current: None,
            }),
        ensures
            match r {
                Some(p) => lower_routine(func@) == Some(p@) && p@.complete()
                    && procedure_supported(p@),
                None => lower_routine(func@) is None,
            },
    {
        proof {
            if lower_routine(func@) is Some {
                crate::mir::laws::lemma_graph_is_complete(func@);
                crate::mir::laws::lemma_graph_is_replayable(func@);
            }
        }
        let mut this = self;
        this.mir.proc.set_span(func.annotations.span());
        this.mir.proc.set_ret_ty(&func.ty);
        let bb = this.mir.new_bb();
        this.mir.set_bb(bb);
        if !this.statements(&func.body) {
            return None;
        }
        this.mir.term_return(span_end(func.annotations.span()));
        Some(this.mir.proc)
    }

    /// Lowers the routine `func` into its graph.  The routine has passed
    /// the resolver and holds only what the graph has a form for.
    pub fn transform(self, func: &RoutineDef<SemanticContext>) -> (r: Procedure)
        requires
            self.builder() == (BuilderView {
                proc: ProcedureView::empty(TypeView::Unit, Span::of(0, 0)),
                current: None,
            }),
            lower_routine(func@) is Some,
        ensures
            Some(r@) == lower_routine(func@),
            r@.complete(),
            procedure_supported(r@),
    {
        self.try_transform(func).unwrap()
    }

    /// Lowers a list of statements; tells whether all could be lowered.
    fn statements(&mut self, ss: &Vec<AstStatement<SemanticContext>>) -> (ok: bool)
        requires
            old(self).builder().wf(),
        ensures
            ok ==> lower_statements(old(self).builder(), statements_view(*ss), 0) == Some(
                final(self).builder(),
            ) && final(self).builder().wf()
                && old(self).builder().proc.blocks.len() <= final(self).builder().proc.blocks.len(),
            !ok ==> lower_statements(old(self).builder(), statements_view(*ss), 0) is None,
        decreases ss,
    {
        let mut i: usize = 0;
        while i < ss.len()
            invariant
                0 <= i <= ss.len(),
                self.builder().wf(),
                old(self).builder().proc.blocks.len() <= self.builder().proc.blocks.len(),
                lower_statements(old(self).builder(), statements_view(*ss), 0) == lower_statements(
                    self.builder(),
                    statements_view(*ss),
                    i as int,
                ),
            decreases ss.len() - i,
        {
            if !self.statement(&ss[i]) {
                return false;
            }
            i += 1;
        }
        true
    }

    fn statement(&mut self, stm: &AstStatement<SemanticContext>) -> (ok: bool)
        requires
            old(self).builder().wf(),
        ensures
            ok ==> lower_statement(old(self).builder(), stm@) == Some(final(self).builder())
                && final(self).builder().wf() && old(self).builder().proc.blocks.len()
                <= final(self).builder().proc.blocks.len(),
            !ok ==> lower_statement(old(self).builder(), stm@) is None,
        decreases stm,
    {
        match stm {
            AstStatement::Bind(bind) => self.bind(bind),
            AstStatement::Expression(expr) => self.expression(expr).is_some(),
            AstStatement::Mutate(_) => false,
            AstStatement::YieldReturn(_) => false,
            AstStatement::Return(ret) => self.ret(ret),
        }
    }

    fn bind(&mut self, bind: &Bind<SemanticContext>) -> (ok: bool)
        requires
            old(self).builder().wf(),
        ensures
            ok ==> lower_statement(old(self).builder(), AstStatement::Bind(Box::new(*bind))@)
                == Some(final(self).builder()) && final(self).builder().wf()
                && old(self).builder().proc.blocks.len() <= final(self).builder().proc.blocks.len(),
            !ok ==> lower_statement(
                old(self).builder(),
                AstStatement::Bind(Box::new(*bind))@,
            ) is None,
        decreases bind,
    {
        let span = bind.get_metadata().span();
        let vid = self.mir.var(bind.get_id(), bind.is_mutable(), bind.get_type(), span);
        match self.expression(bind.get_rhs()) {
            Some(expr) => {
                self.mir.store(LValue::Var(vid), RValue::Use(expr), span);
                true
            },
            None => false,
        }
    }

    fn ret(&mut self, ret: &Return<SemanticContext>) -> (ok: bool)
        requires
            old(self).builder().wf(),
        ensures
            ok ==> lower_statement(old(self).builder(), AstStatement::Return(Box::new(*ret))@)
                == Some(final(self).builder()) && final(self).builder().wf()
                && old(self).builder().proc.blocks.len() <= final(self).builder().proc.blocks.len(),
            !ok ==> lower_statement(
                old(self).builder(),
                AstStatement::Return(Box::new(*ret))@,
            ) is None,
        decreases ret,
    {
        match ret.get_value() {
            Some(val) => match self.expression(val) {
                Some(v) => {
                    self.mir.store(
                        LValue::ReturnPointer,
                        RValue::Use(v),
                        val.get_context().span(),
                    );
                },
                None => {
                    return false;
                },
            },
            None => {},
        }
        self.mir.term_return(ret.get_metadata().span());
        true
    }

    /// Lowers an expression and returns the operand that holds its value: a
    /// constant, a variable, or the temporary that the result of an
    /// operation was stored in.
    fn expression(&mut self, expr: &Expression<SemanticContext>) -> (r: Option<Operand>)
        requires
            old(self).builder().wf(),
        ensures
            match r {
                Some(o) => lower_expression(old(self).builder(), expr@) == Some(
                    (final(self).builder(), o),
                ) && final(self).builder().wf() && old(self).builder().proc.blocks.len()
                <= final(self).builder().proc.blocks.len(),
                None => lower_expression(old(self).builder(), expr@) is None,
            },
        decreases expr, 1int,
    {
        match expr {
            Expression::I8(_, i) => Some(self.mir.const_i8(*i)),
            Expression::I16(_, i) => Some(self.mir.const_i16(*i)),
            Expression::I32(_, i) => Some(self.mir.const_i32(*i)),
            Expression::I64(_, i) => Some(self.mir.const_i64(*i)),
            Expression::U8(_, u) => Some(self.mir.const_u8(*u)),
            Expression::U16(_, u) => Some(self.mir.const_u16(*u)),
            Expression::U32(_, u) => Some(self.mir.const_u32(*u)),
            Expression::U64(_, u) => Some(self.mir.const_u64(*u)),
            Expression::Boolean(_, b) => Some(self.mir.const_bool(*b)),
            Expression::StringLiteral(_, sid) => Some(self.mir.const_stringliteral(*sid)),
            Expression::BinaryOp(ctx, op, left, right) => {
                match self.binary_op(Ghost(*expr), *op, left, right) {
                    Some(rv) => Some(self.mir.temp_store(rv, ctx.ty(), ctx.span())),
                    None => None,
                }
            },
            Expression::UnaryOp(ctx, op, right) => {
                match self.unary_op(*op, right) {
                    Some(rv) => Some(self.mir.temp_store(rv, ctx.ty(), ctx.span())),
                    None => None,
                }
            },
            Expression::Identifier(_, id) => {
                match self.mir.find_var(*id) {
                    Some(vid) => Some(Operand::LValue(LValue::Var(vid))),
                    None => None,
                }
            },
            Expression::If { context: _, cond, if_arm, else_arm } => self.if_expr(
                Ghost(*expr),
                cond,
                if_arm,
                else_arm,
            ),
            Expression::ExpressionBlock(_, block, last) => {
                if !self.statements(block) {
                    return None;
                }
                match last {
                    Some(e) => self.expression(e),
                    None => Some(Operand::Constant(Constant::Unit)),
                }
            },
            _ => None,
        }
    }

    /// Lowers one arm of a conditional into the current block.
    fn arm(
        &mut self,
        arm: &Expression<SemanticContext>,
        result: Option<TempId>,
        merge_bb: BasicBlockId,
    ) -> (ok: bool)
        requires
            old(self).builder().wf(),
        ensures
            ok ==> lower_arm(old(self).builder(), arm@, result, merge_bb) == Some(
                final(self).builder(),
            ) && final(self).builder().wf()
                && old(self).builder().proc.blocks.len() <= final(self).builder().proc.blocks.len(),
            !ok ==> lower_arm(old(self).builder(), arm@, result, merge_bb) is None,
        decreases arm, 2int,
    {
        let val = match self.expression(arm) {
            Some(v) => v,
            None => {
                return false;
            },
        };
        match result {
            Some(t) => {
                self.mir.store(LValue::Temp(t), RValue::Use(val), arm.get_context().span());
            },
            None => {},
        }
        self.mir.term_goto(merge_bb, span_end(arm.get_context().span()));
        true
    }

    /// Lowers a conditional: the condition goes to the current block, which
    /// ends in a conditional jump; each arm goes to a block of its own that
    /// ends in a jump to the block where the arms meet, which is the
    /// current block afterwards.
    fn if_expr(
        &mut self,
        whole: Ghost<Expression<SemanticContext>>,
        cond: &Expression<SemanticContext>,
        then_block: &Expression<SemanticContext>,
        else_block: &Option<Box<Expression<SemanticContext>>>,
    ) -> (r: Option<Operand>)
        requires
            old(self).builder().wf(),
            whole@ is If,
            whole@->If_cond == *cond,
            whole@->If_if_arm == *then_block,
            whole@->If_else_arm == *else_block,
        ensures
            match r {
                Some(o) => lower_expression(old(self).builder(), whole@@) == Some(
                    (final(self).builder(), o),
                ) && final(self).builder().wf() && old(self).builder().proc.blocks.len()
                <= final(self).builder().proc.blocks.len(),
                None => lower_expression(old(self).builder(), whole@@) is None,
            },
        decreases whole@, 0int,
    {
        if self.mir.proc.bb_count() > usize::MAX - 3 {
            return None;
        }
        let then_bb = self.mir.new_bb();
        let else_bb = match else_block {
            Some(_) => Some(self.mir.new_bb()),
            None => None,
        };
        let merge_bb = self.mir.new_bb();
        let cond_val = match self.expression(cond) {
            Some(v) => v,
            None => {
                return None;
            },
        };
        match else_bb {
            Some(bb) => {
                self.mir.term_cond_goto(cond_val, then_bb, bb, cond.get_context().span());
            },
            None => {
                self.mir.term_cond_goto(cond_val, then_bb, merge_bb, cond.get_context().span());
            },
        }
        let result = if else_block.is_some() && !then_block.get_type().same(&Type::Unit) {
            Some(self.mir.temp(then_block.get_type()))
        } else {
            None
        };
        self.mir.set_bb(then_bb);
        if !self.arm(then_block, result, merge_bb) {
            return None;
        }
        match (else_block, else_bb) {
            (Some(else_block), Some(else_bb)) => {
                self.mir.set_bb(else_bb);
                if !self.arm(else_block, result, merge_bb) {
                    return None;
                }
            },
            _ => {},
        }
        self.mir.set_bb(merge_bb);
        match result {
            Some(r) => Some(Operand::LValue(LValue::Temp(r))),
            None => Some(Operand::Constant(Constant::Unit)),
        }
    }

    fn unary_op(&mut self, op: UnaryOperator, right: &Expression<SemanticContext>) -> (r: Option<
        RValue,
    >)
        requires
            old(self).builder().wf(),
        ensures
            match r {
                Some(rv) => exists|o: Operand|
                    lower_expression(old(self).builder(), right@) == Some(
                        (final(self).builder(), o),
                    ) && rv == RValue::UnOp(unop_of(op), o),
                None => lower_expression(old(self).builder(), right@) is None,
            },
            r is Some ==> final(self).builder().wf() && old(self).builder().proc.blocks.len()
                <= final(self).builder().proc.blocks.len(),
        decreases right, 2int,
    {
        match self.expression(right) {
            Some(right) => match op {
                UnaryOperator::Negate => Some(self.mir.negate(right)),
                UnaryOperator::Not => Some(self.mir.not(right)),
            },
            None => None,
        }
    }

    fn binary_op(
        &mut self,
        whole: Ghost<Expression<SemanticContext>>,
        op: BinaryOperator,
        left: &Expression<SemanticContext>,
        right: &Expression<SemanticContext>,
    ) -> (r: Option<RValue>)
        requires
            old(self).builder().wf(),
            whole@ is BinaryOp,
            whole@->BinaryOp_2 == *left,
            whole@->BinaryOp_3 == *right,
        ensures
            match r {
                Some(rv) => exists|b1: BuilderView, l: Operand, o: Operand|
                    lower_expression(old(self).builder(), left@) == Some((b1, l))
                        && lower_expression(b1, right@) == Some((final(self).builder(), o)) && rv
                        == RValue::BinOp(binop_of(op), l, o),
                None => lower_expression(old(self).builder(), left@) is None || lower_expression(
                    lower_expression(old(self).builder(), left@).unwrap().0,
                    right@,
                ) is None,
            },
            r is Some ==> final(self).builder().wf() && old(self).builder().proc.blocks.len()
                <= final(self).builder().proc.blocks.len(),
        decreases whole@, 0int,
    {
        let left = match self.expression(left) {
            Some(l) => l,
            None => {
                return None;
            },
        };
        let right = match self.expression(right) {
            Some(r) => r,
            None => {
                return None;
            },
        };
        Some(
            match op {
                BinaryOperator::Add => self.mir.add(left, right),
                BinaryOperator::Sub => self.mir.sub(left, right),
                BinaryOperator::Mul => self.mir.mul(left, right),
                BinaryOperator::Div => self.mir.div(left, right),
                BinaryOperator::BAnd => self.mir.bitwise_and(left, right),
                BinaryOperator::BOr => self.mir.bitwise_or(left, right),
                BinaryOperator::Eq => self.mir.eq(left, right),
                BinaryOperator::NEq => self.mir.neq(left, right),
                BinaryOperator::Ls => self.mir.lt(left, right),
                BinaryOperator::LsEq => self.mir.le(left, right),
                BinaryOperator::Gr => self.mir.gt(left, right),
                BinaryOperator::GrEq => self.mir.ge(left, right),
            },
        )
    }
}

/// The graphs of the functions from position `i` on, appended to `done`.
/// Gives nothing where one of them is no routine or cannot be lowered.
pub open spec fn lower_functions(
    items: Seq<ItemView<ContextView>>,
    i: int,
    done: Seq<ProcedureView>,
) -> Option<Seq<ProcedureView>>
    decreases items.len() - i,
{
    if i < 0 || i >= items.len() {
        Some(done)
    } else {
        match items[i] {
            ItemView::Routine(r) => match lower_routine(r) {
                Some(p) => lower_functions(items, i + 1, done.push(p)),
                None => None,
            },
            _ => None,
        }
    }
}

/// The views of a list of procedures, in order.
pub open spec fn procedures_view(ps: Vec<Procedure>) -> Seq<ProcedureView> {
    Seq::new(ps@.len(), |i: int| ps@[i]@)
}

/// Lowers every function of the module, if all of them can be lowered.
pub fn try_module_transform(module: &Module<SemanticContext>) -> (r: Option<Vec<Procedure>>)
    ensures
        match r {
            Some(mirs) => lower_functions(module@.functions, 0, Seq::empty()) == Some(
                procedures_view(mirs),
            ) && forall|i: int|
                0 <= i < mirs@.len() ==> (#[trigger] mirs@[i])@.complete() && procedure_supported(
                    mirs@[i]@,
                ),
            None => lower_functions(module@.functions, 0, Seq::empty()) is None,
        },
{
    let funcs = module.get_functions();
    let mut mirs: Vec<Procedure> = Vec::new();
    let mut i: usize = 0;
    assert(procedures_view(mirs) =~= Seq::empty());
    while i < funcs.len()
        invariant
            0 <= i <= funcs.len(),
            *funcs == module.functions,
            forall|j: int|
                0 <= j < mirs@.len() ==> (#[trigger] mirs@[j])@.complete() && procedure_supported(
                    mirs@[j]@,
                ),
            lower_functions(module@.functions, 0, Seq::empty()) == lower_functions(
                module@.functions,
                i as int,
                procedures_view(mirs),
            ),
        decreases funcs.len() - i,
    {
        let ghost before = procedures_view(mirs);
        assert(module@.functions[i as int] == funcs@[i as int]@);
        match &funcs[i] {
            Item::Routine(r) => {
                let ft = FuncTransformer::new();
                match ft.try_transform(r) {
                    Some(p) => {
                        let ghost added = p@;
                        mirs.push(p);
                        assert(procedures_view(mirs) =~= before.push(added));
                    },
                    None => {
                        return None;
                    },
                }
            },
            _ => {
                return None;
            },
        }
        i += 1;
    }
    Some(mirs)
}

/// Lowers every function of the module into its graph.  The module has
/// passed the resolver and its functions hold only what the graph has a
/// form for.
pub fn module_transform(module: &Module<SemanticContext>) -> (r: Vec<Procedure>)
    requires
        lower_functions(module@.functions, 0, Seq::empty()) is Some,
    ensures
        Some(procedures_view(r)) == lower_functions(module@.functions, 0, Seq::empty()),
        forall|i: int|
            0 <= i < r@.len() ==> (#[trigger] r@[i])@.complete() && procedure_supported(r@[i]@),
{
    try_module_transform(module).unwrap()
}

} // verus!
