//! What holds of every graph that lowering builds.
//!
//! Lowering leaves exactly one block open: the current one.  Every other
//! block that it creates ends in a terminator, and it touches no block but
//! the current one and the blocks that it creates.  At the end of a routine
//! the current block gets its return, so every block of the graph of a
//! routine ends in a terminator.
use crate::ast::expression::ExpressionView;
use crate::ast::routinedef::RoutineDefView;
use crate::ast::statement::StatementView;
use crate::ast::ty::TypeView;
use crate::mir::ir::{
    BasicBlockId, BlockView, LValue, ProcedureView, RValue, TempId, Terminator, TerminatorKind,
};
use crate::mir::transform::{
    binop_of, lower_arm, lower_expression, lower_routine, lower_statement, lower_statements,
    span_end_of, unop_of, BuilderView,
};
use crate::mir::traverser::{
    block_supported, lvalue_supported, operand_supported, procedure_supported, rvalue_supported,
    statement_supported, terminator_supported,
};
use crate::source::span::Span;
use crate::semantics::rules::{type_of, Expr, Stmt};
use crate::semantics::semanticnode::ContextView;
use vstd::prelude::*;

verus! {

/// The block `i` of the builder.
pub open spec fn block(b: BuilderView, i: int) -> BlockView {
    b.proc.blocks[i]
}

/// The number of blocks of the builder.
pub open spec fn count(b: BuilderView) -> int {
    b.proc.blocks.len() as int
}

/// The position of the current block.
pub open spec fn current(b: BuilderView) -> int {
    b.current.unwrap().0 as int
}

/// `after` continues `before`: it has all the blocks of `before`, unchanged
/// but for the block that was current; every block that it has more, but
/// for its own current block, ends in a terminator; and where its current
/// block is another one than before, that is a new block, and the block
/// that was current ends in a terminator.
pub open spec fn continues(before: BuilderView, after: BuilderView) -> bool {
    &&& after.wf()
    &&& count(before) <= count(after)
    &&& forall|i: int|
        0 <= i < count(before) && i != current(before) ==> #[trigger] block(after, i) == block(
            before,
            i,
        )
    &&& forall|i: int|
        count(before) <= i < count(after) && i != current(after) ==> (#[trigger] block(
            after,
            i,
        )).terminator is Some
    &&& (current(after) == current(before) || (current(after) >= count(before) && block(
        after,
        current(before),
    ).terminator is Some))
}

/// `after` closes `before`: as `continues`, and the block that was current
/// and every new block end in a terminator.
pub open spec fn closes(before: BuilderView, after: BuilderView) -> bool {
    &&& after.wf()
    &&& count(before) <= count(after)
    &&& forall|i: int|
        0 <= i < count(before) && i != current(before) ==> #[trigger] block(after, i) == block(
            before,
            i,
        )
    &&& forall|i: int|
        count(before) <= i < count(after) ==> (#[trigger] block(after, i)).terminator is Some
    &&& block(after, current(before)).terminator is Some
}

/// A builder continues itself.
pub proof fn lemma_continues_itself(b: BuilderView)
    requires
        b.wf(),
    ensures
        continues(b, b),
{
}

/// Continuing is transitive.
pub proof fn lemma_continues_chain(a: BuilderView, b: BuilderView, c: BuilderView)
    requires
        a.wf(),
        continues(a, b),
        continues(b, c),
    ensures
        continues(a, c),
{
    assert forall|i: int| 0 <= i < count(a) && i != current(a) implies #[trigger] block(c, i)
        == block(a, i) by {
        assert(block(b, i) == block(a, i));
        assert(i != current(b));
        assert(block(c, i) == block(b, i));
    }
    assert forall|i: int| count(a) <= i < count(c) && i != current(c) implies (#[trigger] block(
        c,
        i,
    )).terminator is Some by {
        if i < count(b) {
            if i != current(b) {
                assert(block(b, i).terminator is Some);
                assert(block(c, i) == block(b, i));
            }
        }
    }
    if current(c) != current(a) {
        if current(b) == current(a) {
        } else {
            assert(block(b, current(a)).terminator is Some);
            assert(block(c, current(a)) == block(b, current(a)));
        }
    }
}

/// Storing into the current block continues the builder and leaves its
/// terminator as it is.
pub proof fn lemma_store_continues(b: BuilderView, after: BuilderView)
    requires
        b.wf(),
        after.current == b.current,
        count(after) == count(b),
        forall|i: int| 0 <= i < count(b) && i != current(b) ==> #[trigger] block(after, i) == block(
            b,
            i,
        ),
    ensures
        continues(b, after),
{
}

/// While a conditional is lowered, the blocks in `open` wait for their
/// turn; all other blocks that were created since `b` end in a terminator,
/// and so does the block that was current in `b`; the older blocks are as
/// they were.
pub open spec fn pending(b: BuilderView, x: BuilderView, open: Set<int>) -> bool {
    &&& count(b) <= count(x) <= usize::MAX
    &&& forall|i: int|
        0 <= i < count(b) && i != current(b) ==> #[trigger] block(x, i) == block(b, i)
    &&& block(x, current(b)).terminator is Some
    &&& forall|i: int|
        count(b) <= i < count(x) && !open.contains(i) ==> (#[trigger] block(
            x,
            i,
        )).terminator is Some
}

/// After the condition was lowered into `x` and its block was ended, only
/// the blocks of the conditional, which were created in `start`, are open.
proof fn lemma_condition_leaves_arms_open(
    b: BuilderView,
    start: BuilderView,
    x: BuilderView,
    after: BuilderView,
    open: Set<int>,
)
    requires
        b.wf(),
        start.current == b.current,
        count(b) <= count(start),
        forall|i: int| 0 <= i < count(b) ==> #[trigger] block(start, i) == block(b, i),
        forall|i: int| count(b) <= i < count(start) ==> open.contains(i),
        continues(start, x),
        count(after) == count(x),
        after.current == x.current,
        forall|i: int| 0 <= i < count(x) && i != current(x) ==> #[trigger] block(after, i) == block(
            x,
            i,
        ),
        block(after, current(x)).terminator is Some,
    ensures
        pending(b, after, open),
{
    assert forall|i: int| 0 <= i < count(b) && i != current(b) implies #[trigger] block(after, i)
        == block(b, i) by {
        assert(block(x, i) == block(start, i));
        assert(block(start, i) == block(b, i));
    }
    if current(x) != current(b) {
        assert(block(x, current(b)).terminator is Some);
        assert(block(after, current(b)) == block(x, current(b)));
    }
    assert forall|i: int| count(b) <= i < count(after) && !open.contains(i) implies (
    #[trigger] block(after, i)).terminator is Some by {
        if i != current(x) {
            assert(block(x, i).terminator is Some);
            assert(block(after, i) == block(x, i));
        }
    }
}

/// After an arm was lowered into its block `t`, that block is open no
/// more.
proof fn lemma_arm_closes_its_block(
    b: BuilderView,
    x: BuilderView,
    y: BuilderView,
    open: Set<int>,
    t: int,
)
    requires
        b.wf(),
        pending(b, x, open),
        count(b) <= t < count(x),
        closes(x.set_bb(BasicBlockId(t as usize)), y),
    ensures
        pending(b, y, open.remove(t)),
{
    let xt = x.set_bb(BasicBlockId(t as usize));
    assert(current(xt) == t);
    assert forall|i: int| 0 <= i < count(b) && i != current(b) implies #[trigger] block(y, i)
        == block(b, i) by {
        assert(block(y, i) == block(xt, i));
        assert(block(x, i) == block(b, i));
    }
    assert(block(y, current(b)) == block(xt, current(b)));
    assert forall|i: int| count(b) <= i < count(y) && !open.remove(t).contains(i) implies (
    #[trigger] block(y, i)).terminator is Some by {
        if i < count(x) && i != t {
            assert(block(y, i) == block(xt, i));
            assert(block(x, i).terminator is Some);
        }
    }
}

/// Once only the block where the arms meet is open, making it the current
/// block continues the builder from before the conditional.
proof fn lemma_merge_continues(b: BuilderView, y: BuilderView, merge: int)
    requires
        b.wf(),
        pending(b, y, set![merge]),
        count(b) <= merge < count(y),
    ensures
        continues(b, y.set_bb(BasicBlockId(merge as usize))),
{
    let done = y.set_bb(BasicBlockId(merge as usize));
    assert(current(done) == merge);
    assert forall|i: int| 0 <= i < count(b) && i != current(b) implies #[trigger] block(done, i)
        == block(b, i) by {
        assert(block(y, i) == block(b, i));
    }
    assert forall|i: int| count(b) <= i < count(done) && i != current(done) implies (
    #[trigger] block(done, i)).terminator is Some by {
        assert(!set![merge].contains(i));
        assert(block(y, i).terminator is Some);
    }
}

proof fn lemma_conditional(b: BuilderView, e: Expr)
    requires
        b.wf(),
        e is If,
        lower_expression(b, e) is Some,
    ensures
        continues(b, lower_expression(b, e).unwrap().0),
    decreases e, 1int,
{
    match e {
        ExpressionView::If { context, cond, if_arm, else_arm } => {
            let n = count(b);
            let then_bb = b.next_bb();
            let b0 = b.new_bb();
            let else_bb = b0.next_bb();
            let b1 = if else_arm is Some {
                b0.new_bb()
            } else {
                b0
            };
            let merge_bb = b1.next_bb();
            let b2 = b1.new_bb();
            let open: Set<int> = if else_arm is Some {
                set![n, n + 1, n + 2]
            } else {
                set![n, n + 1]
            };
            lemma_expression(b2, *cond);
            let (b3, cond_val) = lower_expression(b2, *cond).unwrap();
            let b4 = b3.terminate(
                TerminatorKind::CondGoTo {
                    cond: cond_val,
                    tru: then_bb,
                    fls: if else_arm is Some {
                        else_bb
                    } else {
                        merge_bb
                    },
                },
                cond.context().span,
            );
            let result = if else_arm is Some && type_of(*if_arm) != TypeView::Unit {
                Some(b4.next_temp())
            } else {
                None
            };
            let b5 = if result is Some {
                b4.temp(type_of(*if_arm))
            } else {
                b4
            };
            assert forall|i: int| 0 <= i < count(b) implies #[trigger] block(b2, i) == block(
                b,
                i,
            ) by {}
            lemma_condition_leaves_arms_open(b, b2, b3, b5, open);
            lemma_arm(b5.set_bb(then_bb), *if_arm, result, merge_bb);
            let b6 = lower_arm(b5.set_bb(then_bb), *if_arm, result, merge_bb).unwrap();
            lemma_arm_closes_its_block(b, b5, b6, open, n);
            match else_arm {
                None => {
                    assert(open.remove(n) =~= set![n + 1]);
                    lemma_merge_continues(b, b6, n + 1);
                },
                Some(else_arm) => {
                    lemma_arm(b6.set_bb(else_bb), *else_arm, result, merge_bb);
                    let b7 = lower_arm(b6.set_bb(else_bb), *else_arm, result, merge_bb).unwrap();
                    lemma_arm_closes_its_block(b, b6, b7, open.remove(n), n + 1);
                    assert(open.remove(n).remove(n + 1) =~= set![n + 2]);
                    lemma_merge_continues(b, b7, n + 2);
                },
            }
        },
        _ => {},
    }
}

/// Lowering an expression continues the builder.
pub proof fn lemma_expression(b: BuilderView, e: Expr)
    requires
        b.wf(),
        lower_expression(b, e) is Some,
    ensures
        continues(b, lower_expression(b, e).unwrap().0),
    decreases e, 2int,
{
    match e {
        ExpressionView::BinaryOp(ctx, op, left, right) => {
            lemma_expression(b, *left);
            let b1 = lower_expression(b, *left).unwrap().0;
            lemma_expression(b1, *right);
            let b2 = lower_expression(b1, *right).unwrap().0;
            let b3 = lower_expression(b, e).unwrap().0;
            lemma_store_continues(b2, b3);
            lemma_continues_chain(b, b1, b2);
            lemma_continues_chain(b, b2, b3);
        },
        ExpressionView::UnaryOp(ctx, op, right) => {
            lemma_expression(b, *right);
            let b1 = lower_expression(b, *right).unwrap().0;
            let b2 = lower_expression(b, e).unwrap().0;
            lemma_store_continues(b1, b2);
            lemma_continues_chain(b, b1, b2);
        },
        ExpressionView::If { .. } => {
            lemma_conditional(b, e);
        },
        ExpressionView::ExpressionBlock(_, body, last) => {
            lemma_statements(b, body, 0);
            let b1 = lower_statements(b, body, 0).unwrap();
            match last {
                Some(e) => {
                    lemma_expression(b1, *e);
                    lemma_continues_chain(b, b1, lower_expression(b1, *e).unwrap().0);
                },
                None => {},
            }
        },
        _ => {},
    }
}

/// Lowering an arm of a conditional closes the block of the arm.
pub proof fn lemma_arm(
    b: BuilderView,
    arm: Expr,
    result: Option<TempId>,
    merge_bb: BasicBlockId,
)
    requires
        b.wf(),
        lower_arm(b, arm, result, merge_bb) is Some,
    ensures
        closes(b, lower_arm(b, arm, result, merge_bb).unwrap()),
    decreases arm, 3int,
{
    lemma_expression(b, arm);
    let b1 = lower_expression(b, arm).unwrap().0;
    let b3 = lower_arm(b, arm, result, merge_bb).unwrap();
    assert forall|i: int| 0 <= i < count(b) && i != current(b) implies #[trigger] block(b3, i)
        == block(b, i) by {
        assert(block(b1, i) == block(b, i));
    }
    assert forall|i: int| count(b) <= i < count(b3) implies (#[trigger] block(
        b3,
        i,
    )).terminator is Some by {
        if i != current(b1) {
            assert(block(b1, i).terminator is Some);
        }
    }
    if current(b1) != current(b) {
        assert(block(b1, current(b)).terminator is Some);
    }
}

/// Lowering a statement continues the builder.
pub proof fn lemma_statement(b: BuilderView, s: Stmt)
    requires
        b.wf(),
        lower_statement(b, s) is Some,
    ensures
        continues(b, lower_statement(b, s).unwrap()),
    decreases s, 2int,
{
    match s {
        StatementView::Bind { metadata, id, ty, mutable, rhs } => {
            let b0 = b.var(id, mutable, ty, metadata.span);
            lemma_store_continues(b, b0);
            lemma_expression(b0, rhs);
            let b1 = lower_expression(b0, rhs).unwrap().0;
            let b2 = lower_statement(b, s).unwrap();
            lemma_store_continues(b1, b2);
            lemma_continues_chain(b, b0, b1);
            lemma_continues_chain(b, b1, b2);
        },
        StatementView::Expression(e) => {
            lemma_expression(b, e);
        },
        StatementView::Return { metadata, value } => {
            match value {
                Some(val) => {
                    lemma_expression(b, val);
                    let b1 = lower_expression(b, val).unwrap().0;
                    let b2 = lower_statement(b, s).unwrap();
                    lemma_store_continues(b1, b2);
                    lemma_continues_chain(b, b1, b2);
                },
                None => {
                    lemma_store_continues(b, lower_statement(b, s).unwrap());
                },
            }
        },
        _ => {},
    }
}

/// Lowering a list of statements continues the builder.
pub proof fn lemma_statements(b: BuilderView, ss: Seq<Stmt>, i: int)
    requires
        b.wf(),
        lower_statements(b, ss, i) is Some,
    ensures
        continues(b, lower_statements(b, ss, i).unwrap()),
    decreases ss, ss.len() - i,
{
    if 0 <= i < ss.len() {
        lemma_statement(b, ss[i]);
        let b1 = lower_statement(b, ss[i]).unwrap();
        lemma_statements(b1, ss, i + 1);
        lemma_continues_chain(b, b1, lower_statements(b1, ss, i + 1).unwrap());
    }
}

/// Every block of the graph of a routine ends in a terminator, and one of
/// them in a return.
pub proof fn lemma_graph_is_complete(r: RoutineDefView<ContextView>)
    requires
        lower_routine(r) is Some,
    ensures
        lower_routine(r).unwrap().complete(),
        lower_routine(r).unwrap().blocks.len() > 0,
        exists|i: int|
            0 <= i < lower_routine(r).unwrap().blocks.len() && (
            #[trigger] lower_routine(r).unwrap().blocks[i]).terminator is Some && lower_routine(
                r,
            ).unwrap().blocks[i].terminator.unwrap().kind == TerminatorKind::Return,
{
    let start = BuilderView {
        proc: ProcedureView::empty(r.ty, r.annotations.span).new_bb(),
        current: Some(BasicBlockId(0)),
    };
    lemma_statements(start, r.body, 0);
    let b = lower_statements(start, r.body, 0).unwrap();
    let done = b.terminate(TerminatorKind::Return, span_end_of(r.annotations.span));
    assert(block(done, current(b)).terminator.unwrap().kind == TerminatorKind::Return);
    assert forall|i: int| 0 <= i < done.proc.blocks.len() implies (
    #[trigger] done.proc.blocks[i]).terminator is Some by {
        if i != current(b) {
            assert(block(done, i) == block(b, i));
            if i >= count(start) {
                assert(block(b, i).terminator is Some);
            } else {
                assert(i == 0);
                assert(block(b, current(start)).terminator is Some);
            }
        }
    }
}

/// Everything in the blocks of the builder is of a form that the traverser
/// can replay.
pub open spec fn replayable(b: BuilderView) -> bool {
    forall|i: int|
        0 <= i < count(b) ==> {
            &&& forall|j: int|
                0 <= j < (#[trigger] block(b, i)).statements.len() ==> statement_supported(
                    #[trigger] block(b, i).statements[j],
                )
            &&& block(b, i).terminator is Some ==> terminator_supported(
                block(b, i).terminator.unwrap(),
            )
        }
}

/// Storing a statement of a supported form keeps the builder replayable.
proof fn lemma_store_replayable(b: BuilderView, lv: LValue, rv: RValue, span: Span)
    requires
        b.wf(),
        replayable(b),
        lvalue_supported(lv),
        rvalue_supported(rv),
    ensures
        replayable(b.store(lv, rv, span)),
{
    let after = b.store(lv, rv, span);
    assert forall|i: int| 0 <= i < count(after) implies {
        &&& forall|j: int|
            0 <= j < (#[trigger] block(after, i)).statements.len() ==> statement_supported(
                #[trigger] block(after, i).statements[j],
            )
        &&& block(after, i).terminator is Some ==> terminator_supported(
            block(after, i).terminator.unwrap(),
        )
    } by {
        assert(block(b, i).terminator is Some ==> terminator_supported(
            block(b, i).terminator.unwrap(),
        ));
        assert forall|j: int| 0 <= j < block(after, i).statements.len() implies statement_supported(
            #[trigger] block(after, i).statements[j],
        ) by {
            if i == current(b) && j == block(b, i).statements.len() {
            } else {
                assert(block(after, i).statements[j] == block(b, i).statements[j]);
            }
        }
    }
}

/// Ending the current block with a terminator of a supported form keeps the
/// builder replayable.
proof fn lemma_terminate_replayable(b: BuilderView, kind: TerminatorKind, span: Span)
    requires
        b.wf(),
        replayable(b),
        terminator_supported(Terminator { kind, span }),
    ensures
        replayable(b.terminate(kind, span)),
{
    let after = b.terminate(kind, span);
    assert forall|i: int| 0 <= i < count(after) implies {
        &&& forall|j: int|
            0 <= j < (#[trigger] block(after, i)).statements.len() ==> statement_supported(
                #[trigger] block(after, i).statements[j],
            )
        &&& block(after, i).terminator is Some ==> terminator_supported(
            block(after, i).terminator.unwrap(),
        )
    } by {
        assert(block(b, i).terminator is Some ==> terminator_supported(
            block(b, i).terminator.unwrap(),
        ));
        assert forall|j: int| 0 <= j < block(after, i).statements.len() implies statement_supported(
            #[trigger] block(after, i).statements[j],
        ) by {
            assert(block(after, i).statements[j] == block(b, i).statements[j]);
        }
    }
}

/// A builder with the same blocks is as replayable.
proof fn lemma_same_blocks_replayable(b: BuilderView, after: BuilderView)
    requires
        replayable(b),
        after.proc.blocks == b.proc.blocks,
    ensures
        replayable(after),
{
    assert forall|i: int| 0 <= i < count(after) implies {
        &&& forall|j: int|
            0 <= j < (#[trigger] block(after, i)).statements.len() ==> statement_supported(
                #[trigger] block(after, i).statements[j],
            )
        &&& block(after, i).terminator is Some ==> terminator_supported(
            block(after, i).terminator.unwrap(),
        )
    } by {
        assert(block(after, i) == block(b, i));
    }
}

/// A new, empty block keeps the builder replayable.
proof fn lemma_new_bb_replayable(b: BuilderView)
    requires
        replayable(b),
    ensures
        replayable(b.new_bb()),
{
    let after = b.new_bb();
    assert forall|i: int| 0 <= i < count(after) implies {
        &&& forall|j: int|
            0 <= j < (#[trigger] block(after, i)).statements.len() ==> statement_supported(
                #[trigger] block(after, i).statements[j],
            )
        &&& block(after, i).terminator is Some ==> terminator_supported(
            block(after, i).terminator.unwrap(),
        )
    } by {
        if i < count(b) {
            assert(block(after, i) == block(b, i));
        }
    }
}

/// Lowering an expression emits only what the traverser can replay, and
/// gives an operand that it can replay.
pub proof fn lemma_expression_replayable(b: BuilderView, e: Expr)
    requires
        b.wf(),
        replayable(b),
        lower_expression(b, e) is Some,
    ensures
        replayable(lower_expression(b, e).unwrap().0),
        operand_supported(lower_expression(b, e).unwrap().1),
    decreases e, 0int,
{
    match e {
        ExpressionView::BinaryOp(ctx, op, left, right) => {
            lemma_expression(b, *left);
            lemma_expression_replayable(b, *left);
            let (b1, l) = lower_expression(b, *left).unwrap();
            lemma_expression(b1, *right);
            lemma_expression_replayable(b1, *right);
            let (b2, r) = lower_expression(b1, *right).unwrap();
            lemma_same_blocks_replayable(b2, b2.temp(ctx.ty));
            lemma_store_replayable(
                b2.temp(ctx.ty),
                LValue::Temp(b2.next_temp()),
                RValue::BinOp(binop_of(op), l, r),
                ctx.span,
            );
        },
        ExpressionView::UnaryOp(ctx, op, right) => {
            lemma_expression(b, *right);
            lemma_expression_replayable(b, *right);
            let (b1, r) = lower_expression(b, *right).unwrap();
            lemma_same_blocks_replayable(b1, b1.temp(ctx.ty));
            lemma_store_replayable(
                b1.temp(ctx.ty),
                LValue::Temp(b1.next_temp()),
                RValue::UnOp(unop_of(op), r),
                ctx.span,
            );
        },
        ExpressionView::If { context, cond, if_arm, else_arm } => {
            let then_bb = b.next_bb();
            let b0 = b.new_bb();
            let else_bb = b0.next_bb();
            let b1 = if else_arm is Some {
                b0.new_bb()
            } else {
                b0
            };
            let merge_bb = b1.next_bb();
            let b2 = b1.new_bb();
            lemma_new_bb_replayable(b);
            if else_arm is Some {
                lemma_new_bb_replayable(b0);
            }
            lemma_new_bb_replayable(b1);
            lemma_expression(b2, *cond);
            lemma_expression_replayable(b2, *cond);
            let (b3, cond_val) = lower_expression(b2, *cond).unwrap();
            let kind = TerminatorKind::CondGoTo {
                cond: cond_val,
                tru: then_bb,
                fls: if else_arm is Some {
                    else_bb
                } else {
                    merge_bb
                },
            };
            lemma_terminate_replayable(b3, kind, cond.context().span);
            let b4 = b3.terminate(kind, cond.context().span);
            let result = if else_arm is Some && type_of(*if_arm) != TypeView::Unit {
                Some(b4.next_temp())
            } else {
                None
            };
            let b5 = if result is Some {
                b4.temp(type_of(*if_arm))
            } else {
                b4
            };
            lemma_same_blocks_replayable(b4, b5.set_bb(then_bb));
            lemma_arm_replayable(b5.set_bb(then_bb), *if_arm, result, merge_bb);
            let b6 = lower_arm(b5.set_bb(then_bb), *if_arm, result, merge_bb).unwrap();
            lemma_arm(b5.set_bb(then_bb), *if_arm, result, merge_bb);
            match else_arm {
                None => {
                    lemma_same_blocks_replayable(b6, b6.set_bb(merge_bb));
                },
                Some(else_arm) => {
                    lemma_same_blocks_replayable(b6, b6.set_bb(else_bb));
                    lemma_arm_replayable(b6.set_bb(else_bb), *else_arm, result, merge_bb);
                    let b7 = lower_arm(b6.set_bb(else_bb), *else_arm, result, merge_bb).unwrap();
                    lemma_same_blocks_replayable(b7, b7.set_bb(merge_bb));
                },
            }
        },
        ExpressionView::ExpressionBlock(_, body, last) => {
            lemma_statements(b, body, 0);
            lemma_statements_replayable(b, body, 0);
            let b1 = lower_statements(b, body, 0).unwrap();
            match last {
                Some(e) => {
                    lemma_expression_replayable(b1, *e);
                },
                None => {},
            }
        },
        _ => {},
    }
}

/// Lowering an arm of a conditional emits only what the traverser can
/// replay.
pub proof fn lemma_arm_replayable(
    b: BuilderView,
    arm: Expr,
    result: Option<TempId>,
    merge_bb: BasicBlockId,
)
    requires
        b.wf(),
        replayable(b),
        lower_arm(b, arm, result, merge_bb) is Some,
    ensures
        replayable(lower_arm(b, arm, result, merge_bb).unwrap()),
    decreases arm, 1int,
{
    lemma_expression(b, arm);
    lemma_expression_replayable(b, arm);
    let (b1, val) = lower_expression(b, arm).unwrap();
    let b2 = match result {
        Some(t) => {
            lemma_store_replayable(b1, LValue::Temp(t), RValue::Use(val), arm.context().span);
            b1.store(LValue::Temp(t), RValue::Use(val), arm.context().span)
        },
        None => b1,
    };
    lemma_terminate_replayable(
        b2,
        TerminatorKind::GoTo { target: merge_bb },
        span_end_of(arm.context().span),
    );
}

/// Lowering a statement emits only what the traverser can replay.
pub proof fn lemma_statement_replayable(b: BuilderView, s: Stmt)
    requires
        b.wf(),
        replayable(b),
        lower_statement(b, s) is Some,
    ensures
        replayable(lower_statement(b, s).unwrap()),
    decreases s, 0int,
{
    match s {
        StatementView::Bind { metadata, id, ty, mutable, rhs } => {
            let b0 = b.var(id, mutable, ty, metadata.span);
            lemma_same_blocks_replayable(b, b0);
            lemma_expression(b0, rhs);
            lemma_expression_replayable(b0, rhs);
            let (b1, value) = lower_expression(b0, rhs).unwrap();
            lemma_store_replayable(b1, LValue::Var(b.next_var()), RValue::Use(value),
                metadata.span);
        },
        StatementView::Expression(e) => {
            lemma_expression_replayable(b, e);
        },
        StatementView::Return { metadata, value } => {
            match value {
                Some(val) => {
                    lemma_expression(b, val);
                    lemma_expression_replayable(b, val);
                    let (b1, v) = lower_expression(b, val).unwrap();
                    lemma_store_replayable(
                        b1,
                        LValue::ReturnPointer,
                        RValue::Use(v),
                        val.context().span,
                    );
                    lemma_terminate_replayable(
                        b1.store(LValue::ReturnPointer, RValue::Use(v), val.context().span),
                        TerminatorKind::Return,
                        metadata.span,
                    );
                },
                None => {
                    lemma_terminate_replayable(b, TerminatorKind::Return, metadata.span);
                },
            }
        },
        _ => {},
    }
}

/// Lowering a list of statements emits only what the traverser can replay.
pub proof fn lemma_statements_replayable(b: BuilderView, ss: Seq<Stmt>, i: int)
    requires
        b.wf(),
        replayable(b),
        lower_statements(b, ss, i) is Some,
    ensures
        replayable(lower_statements(b, ss, i).unwrap()),
    decreases ss, ss.len() - i,
{
    if 0 <= i < ss.len() {
        lemma_statement(b, ss[i]);
        lemma_statement_replayable(b, ss[i]);
        lemma_statements_replayable(lower_statement(b, ss[i]).unwrap(), ss, i + 1);
    }
}

/// The traverser can replay the graph of every routine that lowering has a
/// form for.
pub proof fn lemma_graph_is_replayable(r: RoutineDefView<ContextView>)
    requires
        lower_routine(r) is Some,
    ensures
        procedure_supported(lower_routine(r).unwrap()),
{
    let start = BuilderView {
        proc: ProcedureView::empty(r.ty, r.annotations.span).new_bb(),
        current: Some(BasicBlockId(0)),
    };
    assert forall|i: int| 0 <= i < count(start) implies {
        &&& forall|j: int|
            0 <= j < (#[trigger] block(start, i)).statements.len() ==> statement_supported(
                #[trigger] block(start, i).statements[j],
            )
        &&& block(start, i).terminator is Some ==> terminator_supported(
            block(start, i).terminator.unwrap(),
        )
    } by {}
    lemma_statements(start, r.body, 0);
    lemma_statements_replayable(start, r.body, 0);
    let b = lower_statements(start, r.body, 0).unwrap();
    lemma_terminate_replayable(b, TerminatorKind::Return, span_end_of(r.annotations.span));
    lemma_graph_is_complete(r);
    let done = lower_routine(r).unwrap();
    assert forall|i: int| 0 <= i < done.blocks.len() implies block_supported(
        #[trigger] done.blocks[i],
    ) by {
        let after = b.terminate(TerminatorKind::Return, span_end_of(r.annotations.span));
        assert(block(after, i) == done.blocks[i]);
    }
}

} // verus!
