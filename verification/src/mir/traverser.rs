//! Walks the control-flow graphs of a project and calls a
//! [`Transformer`] for everything it meets.
//!
//! For every procedure the traverser first creates all blocks, so that a
//! jump forwards finds its target, then allocates the variables of the user
//! in the entry block, and then replays every block: its statements in
//! order and its terminator.
use crate::mir::ir::{
    BasicBlock, BasicBlockId, BlockView, Constant, LValue, MirProject, Operand, Procedure,
    ProcedureView, RValue, Statement, StatementKind, TempId, Terminator, TerminatorKind, VarId,
};
use crate::mir::transformer::{events_of, Call, Event, Recorded, Transformer, TransformerError};
use vstd::prelude::*;

verus! {

/// Whether the traverser has a form for the location: a variable, a
/// temporary, or the place of the returned value.
pub open spec fn lvalue_supported(lv: LValue) -> bool {
    lv is Var || lv is Temp || lv is ReturnPointer
}

/// Whether the traverser has a form for the operand: a constant other than
/// the size of a type, or the value in a location that it has a form for.
pub open spec fn operand_supported(o: Operand) -> bool {
    match o {
        Operand::Constant(Constant::SizeOf(_)) => false,
        Operand::Constant(_) => true,
        Operand::LValue(lv) => lvalue_supported(lv),
    }
}

/// Whether the traverser has a form for the right-hand side: an operand, or
/// an operation on operands.
pub open spec fn rvalue_supported(rv: RValue) -> bool {
    match rv {
        RValue::Use(o) => operand_supported(o),
        RValue::BinOp(_, l, r) => operand_supported(l) && operand_supported(r),
        RValue::UnOp(_, o) => operand_supported(o),
        _ => false,
    }
}

/// Whether the traverser has a form for the statement.
pub open spec fn statement_supported(s: Statement) -> bool {
    match s.kind {
        StatementKind::Assign(lv, rv) => lvalue_supported(lv) && rvalue_supported(rv),
    }
}

/// The events of a statement: the operation, where it has one, and the
/// assignment.
pub open spec fn statement_events(s: Statement) -> Seq<Event> {
    match s.kind {
        StatementKind::Assign(_, RValue::BinOp(op, _, _)) => seq![
            Event::BinOp(op),
            Event::Assign(s.span),
        ],
        StatementKind::Assign(_, RValue::UnOp(op, _)) => seq![
            Event::UnOp(op),
            Event::Assign(s.span),
        ],
        _ => seq![Event::Assign(s.span)],
    }
}

/// The events of the first `upto` statements.
pub open spec fn statements_events(statements: Seq<Statement>, upto: int) -> Seq<Event>
    decreases upto,
{
    if upto <= 0 || upto > statements.len() {
        Seq::empty()
    } else {
        statements_events(statements, upto - 1) + statement_events(statements[upto - 1])
    }
}

/// Whether the traverser has a form for the terminator.
pub open spec fn terminator_supported(t: Terminator) -> bool {
    match t.kind {
        TerminatorKind::Return => true,
        TerminatorKind::GoTo { .. } => true,
        TerminatorKind::CondGoTo { cond, .. } => operand_supported(cond),
        TerminatorKind::CallFn { .. } => false,
    }
}

/// Whether the block can be replayed: it has a terminator, and the
/// traverser has a form for everything in it.
pub open spec fn block_supported(b: BlockView) -> bool {
    &&& b.terminator is Some
    &&& terminator_supported(b.terminator.unwrap())
    &&& forall|i: int| 0 <= i < b.statements.len()
        ==> statement_supported(#[trigger] b.statements[i])
}

pub open spec fn procedure_supported(p: ProcedureView) -> bool {
    forall|i: int| 0 <= i < p.blocks.len() ==> block_supported(#[trigger] p.blocks[i])
}

pub open spec fn project_supported(mir: Seq<ProcedureView>) -> bool {
    forall|i: int| 0 <= i < mir.len() ==> procedure_supported(#[trigger] mir[i])
}

/// The event of a terminator.
pub open spec fn terminator_event(t: Terminator) -> Event {
    match t.kind {
        TerminatorKind::Return => Event::Return,
        TerminatorKind::GoTo { target } => Event::GoTo(target),
        TerminatorKind::CondGoTo { tru, fls, .. } => Event::CondGoTo(tru, fls),
        TerminatorKind::CallFn { reentry, .. } => Event::GoTo(reentry.1),
    }
}

/// The events of replaying the block with the id `id`: the block is
/// selected, every statement is assigned, the terminator is emitted.
pub open spec fn block_events(id: int, b: BlockView) -> Seq<Event> {
    seq![Event::SetBb(BasicBlockId(id as usize))] + statements_events(
        b.statements,
        b.statements.len() as int,
    ) + seq![terminator_event(b.terminator.unwrap())]
}

/// The events of replaying the first `upto` blocks.
pub open spec fn blocks_events(blocks: Seq<BlockView>, upto: int) -> Seq<Event>
    decreases upto,
{
    if upto <= 0 || upto > blocks.len() {
        Seq::empty()
    } else {
        blocks_events(blocks, upto - 1) + block_events(upto - 1, blocks[upto - 1])
    }
}

/// The events of creating the blocks of a procedure.
pub open spec fn creation_events(p: ProcedureView) -> Seq<Event> {
    Seq::new(p.blocks.len(), |i: int| Event::CreateBb(BasicBlockId(i as usize)))
}

/// The events of allocating: the entry block is selected, then the
/// variables and then the temporaries are allocated in it.
pub open spec fn allocation_events(p: ProcedureView) -> Seq<Event> {
    seq![Event::SetBb(BasicBlockId(0))] + Seq::new(
        p.vars.len(),
        |i: int| Event::AllocVar(VarId(i as usize)),
    ) + Seq::new(p.temps.len(), |i: int| Event::AllocTemp(TempId(i as usize)))
}

/// The events of one procedure: all blocks are created, the variables and
/// temporaries are allocated, the blocks are replayed.
pub open spec fn procedure_events(p: ProcedureView) -> Seq<Event> {
    creation_events(p) + allocation_events(p) + blocks_events(p.blocks, p.blocks.len() as int)
}

/// The events of the first `upto` procedures of a project.
pub open spec fn project_events(mir: Seq<ProcedureView>, upto: int) -> Seq<Event>
    decreases upto,
{
    if upto <= 0 || upto > mir.len() {
        Seq::empty()
    } else {
        project_events(mir, upto - 1) + procedure_events(mir[upto - 1])
    }
}

/// Whether the events `after` are the events `before` and the first of the
/// events `all`: all of them where `done` holds, and not all of them where
/// it does not.  A traversal that the transformer refuses has made the
/// calls before the refused one, in their order, and no other.
pub open spec fn progressed(
    before: Seq<Event>,
    after: Seq<Event>,
    all: Seq<Event>,
    done: bool,
) -> bool {
    exists|k: int|
        0 <= k <= all.len() && after == before + #[trigger] all.take(k) && (done <==> k
            == all.len())
}

/// Whether the last of the calls is the call that would have made the
/// event at position `at` of the events `all`, refused by the transformer
/// with the error `e`.
pub open spec fn refused<L, V>(
    calls: Seq<Call<L, V>>,
    at: int,
    all: Seq<Event>,
    e: TransformerError,
) -> bool {
    calls.len() > 0 && 0 <= at < all.len() && calls.last() == Call::<L, V>::Refused(all[at], e)
}

/// The events `head` were made, and the call of the first of the events
/// `rest` was refused.
pub proof fn lemma_refused_here<L, V>(
    calls: Seq<Call<L, V>>,
    before: Seq<Event>,
    after: Seq<Event>,
    head: Seq<Event>,
    rest: Seq<Event>,
    e: TransformerError,
)
    requires
        after == before + head,
        rest.len() > 0,
        calls.len() > 0,
        calls.last() == Call::<L, V>::Refused(rest[0], e),
    ensures
        progressed(before, after, head + rest, false),
        refused(calls, after.len() - before.len(), head + rest, e),
{
    lemma_progressed_refused(before, after, head, rest);
}

/// A refusal within a part of the events is a refusal within all of them.
pub proof fn lemma_refused_within<L, V>(
    calls: Seq<Call<L, V>>,
    before: Seq<Event>,
    after: Seq<Event>,
    head: Seq<Event>,
    part: Seq<Event>,
    rest: Seq<Event>,
    e: TransformerError,
)
    requires
        progressed(before + head, after, part, false),
        refused(calls, after.len() - (before + head).len(), part, e),
    ensures
        progressed(before, after, head + part + rest, false),
        refused(calls, after.len() - before.len(), head + part + rest, e),
{
    lemma_progressed_within(before, after, head, part, rest);
    let k = after.len() - (before + head).len();
    assert((head + part + rest)[head.len() + k] == part[k]);
}

/// All events were made.
pub proof fn lemma_progressed_all(before: Seq<Event>, after: Seq<Event>, all: Seq<Event>)
    requires
        after == before + all,
    ensures
        progressed(before, after, all, true),
{
    assert(all.take(all.len() as int) =~= all);
}

/// The events `head` were made, and the first of the events `rest` was
/// refused.
pub proof fn lemma_progressed_refused(
    before: Seq<Event>,
    after: Seq<Event>,
    head: Seq<Event>,
    rest: Seq<Event>,
)
    requires
        after == before + head,
        rest.len() > 0,
    ensures
        progressed(before, after, head + rest, false),
{
    assert((head + rest).take(head.len() as int) =~= head);
}

/// A refusal within a part of the events is a refusal within all of them:
/// the events `head` were made, and of the events `part` those before the
/// refused one.
pub proof fn lemma_progressed_within(
    before: Seq<Event>,
    after: Seq<Event>,
    head: Seq<Event>,
    part: Seq<Event>,
    rest: Seq<Event>,
)
    requires
        progressed(before + head, after, part, false),
    ensures
        progressed(before, after, head + part + rest, false),
{
    let k = choose|k: int|
        0 <= k <= part.len() && after == (before + head) + #[trigger] part.take(k) && (false <==> k
            == part.len());
    assert((head + part + rest).take(head.len() + k) =~= head + part.take(k));
    assert(after =~= before + (head + part + rest).take(head.len() + k));
}

/// The events of the first blocks are the first events of more blocks.
pub proof fn lemma_blocks_events_split(blocks: Seq<BlockView>, i: int, n: int)
    requires
        0 <= i <= n <= blocks.len(),
    ensures
        blocks_events(blocks, n) == blocks_events(blocks, i) + blocks_events(blocks, n).skip(
            blocks_events(blocks, i).len() as int,
        ),
        blocks_events(blocks, i).len() <= blocks_events(blocks, n).len(),
    decreases n - i,
{
    if i < n {
        lemma_blocks_events_split(blocks, i, n - 1);
        let a = blocks_events(blocks, i);
        let b = blocks_events(blocks, n - 1);
        let c = blocks_events(blocks, n);
        assert(c =~= a + c.skip(a.len() as int));
    } else {
        let a = blocks_events(blocks, i);
        assert(a =~= a + a.skip(a.len() as int));
    }
}

/// The events of the first procedures are the first events of more
/// procedures.
pub proof fn lemma_project_events_split(mir: Seq<ProcedureView>, i: int, n: int)
    requires
        0 <= i <= n <= mir.len(),
    ensures
        project_events(mir, n) == project_events(mir, i) + project_events(mir, n).skip(
            project_events(mir, i).len() as int,
        ),
        project_events(mir, i).len() <= project_events(mir, n).len(),
    decreases n - i,
{
    if i < n {
        lemma_project_events_split(mir, i, n - 1);
        let a = project_events(mir, i);
        let c = project_events(mir, n);
        assert(c =~= a + c.skip(a.len() as int));
    } else {
        let a = project_events(mir, i);
        assert(a =~= a + a.skip(a.len() as int));
    }
}

/// Whether the calls `after` are the calls `before` and what came after
/// them.
pub open spec fn extends<L, V>(before: Seq<Call<L, V>>, after: Seq<Call<L, V>>) -> bool {
    before.len() <= after.len() && after.take(before.len() as int) == before
}

/// The calls of `after` that came after the calls `before`.
pub open spec fn added<L, V>(before: Seq<Call<L, V>>, after: Seq<Call<L, V>>) -> Seq<Call<L, V>> {
    after.skip(before.len() as int)
}

/// The call that asks for the location `lv` and is answered with `l`.
pub open spec fn location_call<L, V>(lv: LValue, l: L) -> Call<L, V> {
    match lv {
        LValue::Var(vid) => Call::<L, V>::Var(vid, l),
        LValue::Temp(tid) => Call::<L, V>::Temp(tid, l),
        _ => Call::<L, V>::ReturnPointer(l),
    }
}

/// The location that a call was answered with.
pub open spec fn location_of<L, V>(c: Call<L, V>) -> L {
    match c {
        Call::<L, V>::Var(_, l) => l,
        Call::<L, V>::Temp(_, l) => l,
        Call::<L, V>::ReturnPointer(l) => l,
        _ => arbitrary(),
    }
}

/// The value that a call was answered with.
pub open spec fn value_of<L, V>(c: Call<L, V>) -> V {
    match c {
        Call::<L, V>::Load(_, v) => v,
        Call::<L, V>::Constant(_, v) => v,
        Call::<L, V>::BinOp(_, _, _, v) => v,
        Call::<L, V>::UnOp(_, _, v) => v,
        _ => arbitrary(),
    }
}

/// The number of calls that an operand takes.
pub open spec fn operand_len(o: Operand) -> int {
    match o {
        Operand::Constant(_) => 1,
        Operand::LValue(_) => 2,
    }
}

/// Whether `calls` are the calls of the operand `o`, answered with `r`: a
/// constant is asked for; or a location is asked for, and then the value in
/// the location that the transformer answered with.
pub open spec fn operand_calls<L, V>(o: Operand, calls: Seq<Call<L, V>>, r: V) -> bool {
    match o {
        Operand::Constant(c) => calls == seq![Call::<L, V>::Constant(c, r)],
        Operand::LValue(lv) => calls == seq![
            location_call(lv, location_of(calls[0])),
            Call::<L, V>::Load(location_of(calls[0]), r),
        ],
    }
}

/// The number of calls that a right-hand side takes.
pub open spec fn rvalue_len(rv: RValue) -> int {
    match rv {
        RValue::Use(o) => operand_len(o),
        RValue::BinOp(_, l, r) => operand_len(l) + operand_len(r) + 1,
        RValue::UnOp(_, o) => operand_len(o) + 1,
        _ => 0,
    }
}

/// Whether `calls` are the calls of the right-hand side `rv`, answered
/// with `r`: the calls of its operands, from left to right, and the
/// operation on the values that the transformer answered with.
pub open spec fn rvalue_calls<L, V>(rv: RValue, calls: Seq<Call<L, V>>, r: V) -> bool {
    match rv {
        RValue::Use(o) => operand_calls(o, calls, r),
        RValue::BinOp(op, a, b) => {
            let n = operand_len(a);
            let m = n + operand_len(b);
            &&& calls.len() == m + 1
            &&& operand_calls(a, calls.subrange(0, n), value_of(calls[n - 1]))
            &&& operand_calls(b, calls.subrange(n, m), value_of(calls[m - 1]))
            &&& calls[m] == Call::<L, V>::BinOp(
                op,
                value_of(calls[n - 1]),
                value_of(calls[m - 1]),
                r,
            )
        },
        RValue::UnOp(op, a) => {
            let n = operand_len(a);
            &&& calls.len() == n + 1
            &&& operand_calls(a, calls.subrange(0, n), value_of(calls[n - 1]))
            &&& calls[n] == Call::<L, V>::UnOp(op, value_of(calls[n - 1]), r)
        },
        _ => false,
    }
}

/// The number of calls that a statement takes.
pub open spec fn statement_len(s: Statement) -> int {
    match s.kind {
        StatementKind::Assign(_, rv) => rvalue_len(rv) + 2,
    }
}

/// Whether `calls` are the calls of the statement `s`: the location is
/// asked for, then the value, and the value that the transformer answered
/// with is stored in the location that it answered with.
pub open spec fn statement_calls<L, V>(s: Statement, calls: Seq<Call<L, V>>) -> bool {
    match s.kind {
        StatementKind::Assign(lv, rv) => {
            let m = rvalue_len(rv);
            &&& calls.len() == m + 2
            &&& calls[0] == location_call::<L, V>(lv, location_of(calls[0]))
            &&& rvalue_calls(rv, calls.subrange(1, m + 1), value_of(calls[m]))
            &&& calls[m + 1] == Call::<L, V>::Assign(
                s.span,
                location_of(calls[0]),
                value_of(calls[m]),
            )
        },
    }
}

/// The number of calls that a terminator takes.
pub open spec fn terminator_len(t: Terminator) -> int {
    match t.kind {
        TerminatorKind::CondGoTo { cond, .. } => operand_len(cond) + 1,
        _ => 1,
    }
}

/// Whether `calls` are the calls of the terminator `t`: for a jump on a
/// condition, the condition is asked for first, and the jump is on the
/// value that the transformer answered with.
pub open spec fn terminator_calls<L, V>(t: Terminator, calls: Seq<Call<L, V>>) -> bool {
    match t.kind {
        TerminatorKind::Return => calls == seq![Call::<L, V>::Return],
        TerminatorKind::GoTo { target } => calls == seq![Call::<L, V>::GoTo(target)],
        TerminatorKind::CondGoTo { cond, tru, fls } => {
            let n = operand_len(cond);
            &&& calls.len() == n + 1
            &&& operand_calls(cond, calls.subrange(0, n), value_of(calls[n - 1]))
            &&& calls[n] == Call::<L, V>::CondGoTo(value_of(calls[n - 1]), tru, fls)
        },
        TerminatorKind::CallFn { .. } => false,
    }
}

/// The calls of an operand are as many as the operand takes, and the last
/// of them was answered with the value of the operand.
pub proof fn lemma_operand_calls_end<L, V>(o: Operand, calls: Seq<Call<L, V>>, r: V)
    requires
        operand_calls(o, calls, r),
    ensures
        calls.len() == operand_len(o),
        value_of(calls[operand_len(o) - 1]) == r,
{
}

/// The calls of a right-hand side are as many as it takes.
pub proof fn lemma_rvalue_calls_len<L, V>(rv: RValue, calls: Seq<Call<L, V>>, r: V)
    requires
        rvalue_calls(rv, calls, r),
    ensures
        calls.len() == rvalue_len(rv),
{
    match rv {
        RValue::Use(o) => lemma_operand_calls_end(o, calls, r),
        _ => {},
    }
}

/// The last call of a right-hand side was answered with its value.
pub proof fn lemma_rvalue_calls_end<L, V>(rv: RValue, calls: Seq<Call<L, V>>, r: V)
    requires
        rvalue_calls(rv, calls, r),
    ensures
        calls.len() == rvalue_len(rv),
        rvalue_len(rv) > 0,
        value_of(calls[rvalue_len(rv) - 1]) == r,
{
    match rv {
        RValue::Use(o) => lemma_operand_calls_end(o, calls, r),
        _ => {},
    }
}

/// The number of calls that the first `upto` statements take.
pub open spec fn statements_len(statements: Seq<Statement>, upto: int) -> int
    decreases upto,
{
    if upto <= 0 || upto > statements.len() {
        0
    } else {
        statements_len(statements, upto - 1) + statement_len(statements[upto - 1])
    }
}

/// Whether `calls` are the calls of the first `upto` statements, one
/// statement after the other.
pub open spec fn statements_calls<L, V>(
    statements: Seq<Statement>,
    upto: int,
    calls: Seq<Call<L, V>>,
) -> bool
    decreases upto,
{
    if upto <= 0 || upto > statements.len() {
        calls.len() == 0
    } else {
        let n = statements_len(statements, upto - 1);
        &&& calls.len() == n + statement_len(statements[upto - 1])
        &&& statements_calls(statements, upto - 1, calls.take(n))
        &&& statement_calls(statements[upto - 1], calls.skip(n))
    }
}

/// The number of calls that a block takes.
pub open spec fn block_len(b: BlockView) -> int {
    1 + statements_len(b.statements, b.statements.len() as int) + terminator_len(
        b.terminator.unwrap(),
    )
}

/// Whether `calls` are the calls of replaying the block with the id `id`:
/// the block is selected, then come the calls of its statements and the
/// calls of its terminator.
pub open spec fn block_calls<L, V>(id: int, b: BlockView, calls: Seq<Call<L, V>>) -> bool {
    let n = statements_len(b.statements, b.statements.len() as int);
    &&& calls.len() == block_len(b)
    &&& calls[0] == Call::<L, V>::SetBb(BasicBlockId(id as usize))
    &&& statements_calls(b.statements, b.statements.len() as int, calls.subrange(1, 1 + n))
    &&& terminator_calls(b.terminator.unwrap(), calls.skip(1 + n))
}

/// The number of calls that the first `upto` blocks take.
pub open spec fn blocks_len(blocks: Seq<BlockView>, upto: int) -> int
    decreases upto,
{
    if upto <= 0 || upto > blocks.len() {
        0
    } else {
        blocks_len(blocks, upto - 1) + block_len(blocks[upto - 1])
    }
}

/// Whether `calls` are the calls of replaying the first `upto` blocks, one
/// block after the other.
pub open spec fn blocks_calls<L, V>(
    blocks: Seq<BlockView>,
    upto: int,
    calls: Seq<Call<L, V>>,
) -> bool
    decreases upto,
{
    if upto <= 0 || upto > blocks.len() {
        calls.len() == 0
    } else {
        let n = blocks_len(blocks, upto - 1);
        &&& calls.len() == n + block_len(blocks[upto - 1])
        &&& blocks_calls(blocks, upto - 1, calls.take(n))
        &&& block_calls(upto - 1, blocks[upto - 1], calls.skip(n))
    }
}

/// The calls that create the blocks of a procedure.
pub open spec fn creation_calls<L, V>(p: ProcedureView) -> Seq<Call<L, V>> {
    Seq::new(p.blocks.len(), |i: int| Call::<L, V>::CreateBb(BasicBlockId(i as usize)))
}

/// The calls that allocate: the entry block is selected, then the
/// variables and then the temporaries are allocated in it.
pub open spec fn allocation_calls<L, V>(p: ProcedureView) -> Seq<Call<L, V>> {
    seq![Call::<L, V>::SetBb(BasicBlockId(0))] + Seq::new(
        p.vars.len(),
        |i: int| Call::<L, V>::AllocVar(VarId(i as usize)),
    ) + Seq::new(p.temps.len(), |i: int| Call::<L, V>::AllocTemp(TempId(i as usize)))
}

/// The number of calls that a procedure takes.
pub open spec fn procedure_len(p: ProcedureView) -> int {
    p.blocks.len() + 1 + p.vars.len() + p.temps.len() + blocks_len(p.blocks, p.blocks.len() as int)
}

/// Whether `calls` are the calls of one procedure: all blocks are created,
/// the variables and temporaries are allocated, the blocks are replayed.
pub open spec fn procedure_calls<L, V>(p: ProcedureView, calls: Seq<Call<L, V>>) -> bool {
    let setup = creation_calls::<L, V>(p) + allocation_calls::<L, V>(p);
    &&& calls.len() == procedure_len(p)
    &&& calls.take(setup.len() as int) == setup
    &&& blocks_calls(p.blocks, p.blocks.len() as int, calls.skip(setup.len() as int))
}

/// The number of calls that the first `upto` procedures take.
pub open spec fn project_len(mir: Seq<ProcedureView>, upto: int) -> int
    decreases upto,
{
    if upto <= 0 || upto > mir.len() {
        0
    } else {
        project_len(mir, upto - 1) + procedure_len(mir[upto - 1])
    }
}

/// Whether `calls` are the calls of the first `upto` procedures of a
/// project, one procedure after the other.
pub open spec fn project_calls<L, V>(
    mir: Seq<ProcedureView>,
    upto: int,
    calls: Seq<Call<L, V>>,
) -> bool
    decreases upto,
{
    if upto <= 0 || upto > mir.len() {
        calls.len() == 0
    } else {
        let n = project_len(mir, upto - 1);
        &&& calls.len() == n + procedure_len(mir[upto - 1])
        &&& project_calls(mir, upto - 1, calls.take(n))
        &&& procedure_calls(mir[upto - 1], calls.skip(n))
    }
}

/// Calls that came after calls that came after the first calls came after
/// the first calls, and are those of both steps.
pub proof fn lemma_added_twice<L, V>(a: Seq<Call<L, V>>, b: Seq<Call<L, V>>, c: Seq<Call<L, V>>)
    requires
        extends(a, b),
        extends(b, c),
    ensures
        extends(a, c),
        added(a, c) == added(a, b) + added(b, c),
{
    assert(c.take(a.len() as int) =~= b.take(a.len() as int));
    assert(added(a, c) =~= added(a, b) + added(b, c)) by {
        assert forall|k: int| 0 <= k < added(a, b).len() implies added(a, c)[k] == added(
            a,
            b,
        )[k] by {
            assert(c.take(b.len() as int)[a.len() + k] == b[a.len() + k]);
        }
    }
}

/// A call that is added to calls comes after them.
pub proof fn lemma_added_one<L, V>(a: Seq<Call<L, V>>, c: Call<L, V>)
    ensures
        extends(a, a.push(c)),
        added(a, a.push(c)) == seq![c],
        extends(a, a),
        added(a, a) == Seq::<Call<L, V>>::empty(),
{
    assert(a.push(c).take(a.len() as int) =~= a);
    assert(added(a, a.push(c)) =~= seq![c]);
    assert(a.take(a.len() as int) =~= a);
    assert(added(a, a) =~= Seq::<Call<L, V>>::empty());
}

/// The calls of statements are as many as the statements take.
pub proof fn lemma_statements_calls_len<L, V>(
    statements: Seq<Statement>,
    upto: int,
    calls: Seq<Call<L, V>>,
)
    requires
        statements_calls(statements, upto, calls),
    ensures
        calls.len() == statements_len(statements, upto),
{
}

/// The calls of a further statement, behind the calls of the statements
/// before it, are the calls of the statements with it.
pub proof fn lemma_statements_calls_push<L, V>(
    statements: Seq<Statement>,
    upto: int,
    before: Seq<Call<L, V>>,
    next: Seq<Call<L, V>>,
)
    requires
        0 <= upto < statements.len(),
        statements_calls(statements, upto, before),
        statement_calls(statements[upto], next),
    ensures
        statements_calls(statements, upto + 1, before + next),
{
    lemma_statements_calls_len(statements, upto, before);
    assert((before + next).take(before.len() as int) =~= before);
    assert((before + next).skip(before.len() as int) =~= next);
}

/// The calls of blocks are as many as the blocks take.
pub proof fn lemma_blocks_calls_len<L, V>(blocks: Seq<BlockView>, upto: int, calls: Seq<Call<L, V>>)
    requires
        blocks_calls(blocks, upto, calls),
    ensures
        calls.len() == blocks_len(blocks, upto),
{
}

/// The calls of a further block, behind the calls of the blocks before it,
/// are the calls of the blocks with it.
pub proof fn lemma_blocks_calls_push<L, V>(
    blocks: Seq<BlockView>,
    upto: int,
    before: Seq<Call<L, V>>,
    next: Seq<Call<L, V>>,
)
    requires
        0 <= upto < blocks.len(),
        blocks_calls(blocks, upto, before),
        block_calls(upto, blocks[upto], next),
    ensures
        blocks_calls(blocks, upto + 1, before + next),
{
    assert((before + next).take(before.len() as int) =~= before);
    assert((before + next).skip(before.len() as int) =~= next);
}

/// The calls of a further procedure, behind the calls of the procedures
/// before it, are the calls of the procedures with it.
pub proof fn lemma_project_calls_push<L, V>(
    mir: Seq<ProcedureView>,
    upto: int,
    before: Seq<Call<L, V>>,
    next: Seq<Call<L, V>>,
)
    requires
        0 <= upto < mir.len(),
        project_calls(mir, upto, before),
        procedure_calls(mir[upto], next),
    ensures
        project_calls(mir, upto + 1, before + next),
{
    assert((before + next).take(before.len() as int) =~= before);
    assert((before + next).skip(before.len() as int) =~= next);
}

fn check_lvalue(lv: &LValue) -> (r: bool)
    ensures
        r == lvalue_supported(*lv),
{
    match lv {
        LValue::Var(_) | LValue::Temp(_) | LValue::ReturnPointer => true,
        _ => false,
    }
}

fn check_operand(o: &Operand) -> (r: bool)
    ensures
        r == operand_supported(*o),
{
    match o {
        Operand::Constant(Constant::SizeOf(_)) => false,
        Operand::Constant(_) => true,
        Operand::LValue(lv) => check_lvalue(lv),
    }
}

fn check_statement(s: &Statement) -> (r: bool)
    ensures
        r == statement_supported(*s),
{
    match s.kind() {
        StatementKind::Assign(lv, rv) => check_lvalue(lv) && match rv {
            RValue::Use(o) => check_operand(o),
            RValue::BinOp(_, l, r) => check_operand(l) && check_operand(r),
            RValue::UnOp(_, o) => check_operand(o),
            _ => false,
        },
    }
}

fn check_block(b: &BasicBlock) -> (r: bool)
    ensures
        r == block_supported(b@),
{
    match b.get_term() {
        None => {
            return false;
        },
        Some(t) => {
            let ok = match t.kind() {
                TerminatorKind::Return => true,
                TerminatorKind::GoTo { .. } => true,
                TerminatorKind::CondGoTo { cond, .. } => check_operand(cond),
                TerminatorKind::CallFn { .. } => false,
            };
            if !ok {
                return false;
            }
        },
    }
    let mut i: usize = 0;
    while i < b.len()
        invariant
            0 <= i <= b@.statements.len(),
            forall|j: int| 0 <= j < i ==> statement_supported(#[trigger] b@.statements[j]),
        decreases b@.statements.len() - i,
    {
        if !check_statement(b.get_stm(i)) {
            return false;
        }
        i += 1;
    }
    true
}

/// Tells whether the traverser can replay the procedure.
pub fn is_supported_procedure(p: &Procedure) -> (r: bool)
    ensures
        r == procedure_supported(p@),
{
    let mut i: usize = 0;
    while i < p.bb_count()
        invariant
            0 <= i <= p@.blocks.len(),
            forall|j: int| 0 <= j < i ==> block_supported(#[trigger] p@.blocks[j]),
        decreases p@.blocks.len() - i,
    {
        if !check_block(p.get_bb(BasicBlockId::new(i))) {
            return false;
        }
        i += 1;
    }
    true
}

/// Tells whether the traverser can replay every procedure of the project.
pub fn is_supported(mir: &MirProject) -> (r: bool)
    ensures
        r == project_supported(mir@),
{
    let mut i: usize = 0;
    while i < mir.len()
        invariant
            0 <= i <= mir@.len(),
            forall|j: int| 0 <= j < i ==> procedure_supported(#[trigger] mir@[j]),
        decreases mir@.len() - i,
    {
        if !is_supported_procedure(mir.get_func(i)) {
            return false;
        }
        i += 1;
    }
    true
}

/// Drives a transformer over the graphs of a project.
///
/// `L` is the type by which the transformer represents a location, `V` the
/// type by which it represents a value, `T` the transformer.
pub struct Traverser<'a, L, V, T: Transformer<L, V>> {
    xfmr: Recorded<L, V, T>,
    mir: &'a MirProject,
    function: Option<&'a Procedure>,
}

impl<'a, L, V, T: Transformer<L, V>> Traverser<'a, L, V, T> {
    /// The calls that the traverser has made, oldest first, each with
    /// what it handed to the transformer and what the transformer answered.
    pub closed spec fn calls(&self) -> Seq<Call<L, V>> {
        self.xfmr.calls()
    }

    /// The calls that the traverser has made and that changed the
    /// transformer, oldest first.
    pub closed spec fn events(&self) -> Seq<Event> {
        self.xfmr.events()
    }

    /// The transformer.
    pub closed spec fn transformer(&self) -> T {
        self.xfmr.transformer()
    }

    /// The events are those of the calls.
    pub proof fn lemma_events_are_of_calls(&self)
        ensures
            self.events() == events_of(self.calls()),
    {
    }

    /// The project that is traversed.
    pub closed spec fn project(&self) -> Seq<ProcedureView> {
        self.mir@
    }

    pub fn new(mir: &'a MirProject, xfmr: T) -> (r: Self)
        ensures
            r.calls() == Seq::<Call<L, V>>::empty(),
            r.events() == Seq::<Event>::empty(),
            r.project() == mir@,
            r.transformer() == xfmr,
    {
        Traverser { xfmr: Recorded::new(xfmr), mir, function: None }
    }

    /// Hands the transformer back.
    pub fn into_transformer(self) -> (r: T)
        ensures
            r == self.transformer(),
    {
        self.xfmr.into_inner()
    }

    /// Replays every procedure of the project.  Stops at the first call
    /// that the transformer refuses and returns what it refused with.
    pub fn map(&mut self) -> (r: Result<(), TransformerError>)
        requires
            project_supported(old(self).project()),
        ensures
            final(self).project() == old(self).project(),
            old(self).project().len() == 0 ==> r is Ok,
            progressed(
                old(self).events(),
                final(self).events(),
                project_events(old(self).project(), old(self).project().len() as int),
                r is Ok,
            ),
            r matches Err(e) ==> refused(
                final(self).calls(),
                final(self).events().len() - old(self).events().len(),
                project_events(old(self).project(), old(self).project().len() as int),
                e,
            ),
            extends(old(self).calls(), final(self).calls()),
            r is Ok ==> final(self).events() == old(self).events() + project_events(
                old(self).project(),
                old(self).project().len() as int,
            ),
            r is Ok ==> project_calls(
                old(self).project(),
                old(self).project().len() as int,
                added(old(self).calls(), final(self).calls()),
            ),
    {
        let mut i: usize = 0;
        assert(self.events() =~= old(self).events() + project_events(self.project(), 0));
        proof {
            lemma_added_one(self.calls(), Call::<L, V>::Return);
        }
        while i < self.mir.len()
            invariant
                0 <= i <= self.project().len(),
                self.project() == old(self).project(),
                project_supported(self.project()),
                self.events() == old(self).events() + project_events(self.project(), i as int),
                extends(old(self).calls(), self.calls()),
                project_calls(self.project(), i as int, added(old(self).calls(), self.calls())),
            decreases self.project().len() - i,
        {
            let f = self.mir.get_func(i);
            self.function = Some(f);
            let ghost before = self.events();
            let ghost done = self.calls();
            match self.procedure(f) {
                Ok(()) => {},
                Err(e) => {
                    proof {
                        let mir = self.project();
                        let n = mir.len() as int;
                        lemma_added_twice(old(self).calls(), done, self.calls());
                        lemma_project_events_split(mir, i + 1, n);
                        let head = project_events(mir, i as int);
                        let part = procedure_events(mir[i as int]);
                        let rest = project_events(mir, n).skip(
                            project_events(mir, i + 1).len() as int,
                        );
                        assert(project_events(mir, n) =~= head + part + rest);
                        lemma_refused_within(
                            self.calls(),
                            old(self).events(),
                            self.events(),
                            head,
                            part,
                            rest,
                            e,
                        );
                    }
                    return Err(e);
                },
            }
            proof {
                lemma_added_twice(old(self).calls(), done, self.calls());
                lemma_project_calls_push(
                    self.project(),
                    i as int,
                    added(old(self).calls(), done),
                    added(done, self.calls()),
                );
            }
            assert(self.events() =~= old(self).events() + project_events(
                self.project(),
                i + 1,
            ));
            i += 1;
        }
        proof {
            lemma_progressed_all(
                old(self).events(),
                self.events(),
                project_events(self.project(), self.project().len() as int),
            );
        }
        Ok(())
    }

    /// Replays one procedure: creates its blocks, allocates its variables
    /// and temporaries, and replays its blocks.
    fn procedure(&mut self, f: &'a Procedure) -> (r: Result<(), TransformerError>)
        requires
            procedure_supported(f@),
        ensures
            final(self).project() == old(self).project(),
            progressed(old(self).events(), final(self).events(), procedure_events(f@), r is Ok),
            r matches Err(e) ==> refused(
                final(self).calls(),
                final(self).events().len() - old(self).events().len(),
                procedure_events(f@),
                e,
            ),
            extends(old(self).calls(), final(self).calls()),
            r is Ok ==> final(self).events() == old(self).events() + procedure_events(f@),
            r is Ok ==> procedure_calls(f@, added(old(self).calls(), final(self).calls())),
    {
        let ghost start = self.calls();
        let ghost first = self.events();
        let ghost creation = creation_events(f@);
        let ghost allocation = allocation_events(f@);
        let ghost replay = blocks_events(f@.blocks, f@.blocks.len() as int);
        match self.create_blocks(f) {
            Ok(()) => {},
            Err(e) => {
                proof {
                    assert(first + Seq::<Event>::empty() =~= first);
                    assert(procedure_events(f@) =~= Seq::<Event>::empty() + creation + (allocation
                        + replay));
                    lemma_refused_within(
                        self.calls(),
                        first,
                        self.events(),
                        Seq::empty(),
                        creation,
                        allocation + replay,
                        e,
                    );
                }
                return Err(e);
            },
        }
        let ghost created = self.calls();
        match self.allocate_local_vars(f) {
            Ok(()) => {},
            Err(e) => {
                proof {
                    lemma_added_twice(start, created, self.calls());
                    lemma_refused_within(
                        self.calls(),
                        first,
                        self.events(),
                        creation,
                        allocation,
                        replay,
                        e,
                    );
                }
                return Err(e);
            },
        }
        let ghost base = self.calls();
        let ghost setup = creation_calls::<L, V>(f@) + allocation_calls::<L, V>(f@);
        proof {
            lemma_added_twice(start, created, base);
            assert(base =~= start + setup);
            assert(self.events() =~= first + (creation + allocation));
        }
        match self.replay_blocks(f) {
            Ok(()) => {},
            Err(e) => {
                proof {
                    lemma_added_twice(start, base, self.calls());
                    assert(procedure_events(f@) =~= (creation + allocation) + replay
                        + Seq::<Event>::empty());
                    lemma_refused_within(
                        self.calls(),
                        first,
                        self.events(),
                        creation + allocation,
                        replay,
                        Seq::empty(),
                        e,
                    );
                }
                return Err(e);
            },
        }
        assert(self.events() =~= first + procedure_events(f@));
        proof {
            lemma_progressed_all(first, self.events(), procedure_events(f@));
            let calls = added(start, self.calls());
            assert(added(start, base) =~= setup);
            lemma_added_twice(start, base, self.calls());
            assert(calls.take(setup.len() as int) =~= setup);
            assert(calls.skip(setup.len() as int) =~= added(base, self.calls()));
            lemma_blocks_calls_len(f@.blocks, f@.blocks.len() as int, added(base, self.calls()));
        }
        Ok(())
    }

    /// Creates the blocks of a procedure, so that a jump finds its target.
    fn create_blocks(&mut self, f: &'a Procedure) -> (r: Result<(), TransformerError>)
        ensures
            final(self).project() == old(self).project(),
            progressed(old(self).events(), final(self).events(), creation_events(f@), r is Ok),
            r matches Err(e) ==> refused(
                final(self).calls(),
                final(self).events().len() - old(self).events().len(),
                creation_events(f@),
                e,
            ),
            extends(old(self).calls(), final(self).calls()),
            r is Ok ==> final(self).events() == old(self).events() + creation_events(f@),
            r is Ok ==> final(self).calls() == old(self).calls() + creation_calls::<L, V>(f@),
    {
        let mut i: usize = 0;
        let ghost created = creation_events(f@);
        assert(self.events() =~= old(self).events() + created.subrange(0, 0));
        assert(self.calls() =~= old(self).calls() + creation_calls::<L, V>(f@).subrange(0, 0));
        while i < f.bb_count()
            invariant
                0 <= i <= f@.blocks.len(),
                self.project() == old(self).project(),
                created == creation_events(f@),
                self.events() == old(self).events() + created.subrange(0, i as int),
                self.calls() == old(self).calls() + creation_calls::<L, V>(f@).subrange(
                    0,
                    i as int,
                ),
            decreases f@.blocks.len() - i,
        {
            match self.xfmr.create_bb(BasicBlockId::new(i)) {
                Ok(()) => {},
                Err(e) => {
                    proof {
                        let n = f@.blocks.len() as int;
                        let head = created.subrange(0, i as int);
                        let rest = created.subrange(i as int, n);
                        assert(created =~= head + rest);
                        lemma_refused_here(
                            self.calls(),
                            old(self).events(),
                            self.events(),
                            head,
                            rest,
                            e,
                        );
                        assert(self.calls().take(old(self).calls().len() as int) =~= old(
                            self,
                        ).calls());
                    }
                    return Err(e);
                },
            }
            assert(self.events() =~= old(self).events() + created.subrange(0, i + 1));
            assert(self.calls() =~= old(self).calls() + creation_calls::<L, V>(f@).subrange(
                0,
                i + 1,
            ));
            i += 1;
        }
        proof {
            assert(created.subrange(0, f@.blocks.len() as int) =~= created);
            assert(creation_calls::<L, V>(f@).subrange(0, f@.blocks.len() as int)
                =~= creation_calls::<L, V>(f@));
            lemma_progressed_all(old(self).events(), self.events(), created);
            assert(self.calls().take(old(self).calls().len() as int) =~= old(self).calls());
        }
        Ok(())
    }

    /// Replays the blocks of a procedure, in their order.
    fn replay_blocks(&mut self, f: &'a Procedure) -> (r: Result<(), TransformerError>)
        requires
            procedure_supported(f@),
        ensures
            final(self).project() == old(self).project(),
            progressed(
                old(self).events(),
                final(self).events(),
                blocks_events(f@.blocks, f@.blocks.len() as int),
                r is Ok,
            ),
            r matches Err(e) ==> refused(
                final(self).calls(),
                final(self).events().len() - old(self).events().len(),
                blocks_events(f@.blocks, f@.blocks.len() as int),
                e,
            ),
            extends(old(self).calls(), final(self).calls()),
            r is Ok ==> final(self).events() == old(self).events() + blocks_events(
                f@.blocks,
                f@.blocks.len() as int,
            ),
            r is Ok ==> blocks_calls(
                f@.blocks,
                f@.blocks.len() as int,
                added(old(self).calls(), final(self).calls()),
            ),
    {
        let ghost prefix = self.events();
        let ghost base = self.calls();
        let mut id: usize = 0;
        assert(self.events() =~= prefix + blocks_events(f@.blocks, 0));
        proof {
            lemma_added_one(base, Call::<L, V>::Return);
        }
        while id < f.bb_count()
            invariant
                0 <= id <= f@.blocks.len(),
                self.project() == old(self).project(),
                procedure_supported(f@),
                prefix == old(self).events(),
                base == old(self).calls(),
                self.events() == prefix + blocks_events(f@.blocks, id as int),
                extends(base, self.calls()),
                blocks_calls(f@.blocks, id as int, added(base, self.calls())),
            decreases f@.blocks.len() - id,
        {
            let ghost done = self.calls();
            match self.basic_block(BasicBlockId::new(id), f.get_bb(BasicBlockId::new(id))) {
                Ok(()) => {},
                Err(e) => {
                    proof {
                        let n = f@.blocks.len() as int;
                        lemma_added_twice(base, done, self.calls());
                        lemma_blocks_events_split(f@.blocks, id + 1, n);
                        let head = blocks_events(f@.blocks, id as int);
                        let part = block_events(id as int, f@.blocks[id as int]);
                        let rest = blocks_events(f@.blocks, n).skip(
                            blocks_events(f@.blocks, id + 1).len() as int,
                        );
                        assert(blocks_events(f@.blocks, n) =~= head + part + rest);
                        lemma_refused_within(
                            self.calls(),
                            prefix,
                            self.events(),
                            head,
                            part,
                            rest,
                            e,
                        );
                    }
                    return Err(e);
                },
            }
            assert(self.events() =~= prefix + blocks_events(f@.blocks, id + 1));
            proof {
                lemma_added_twice(base, done, self.calls());
                lemma_blocks_calls_push(
                    f@.blocks,
                    id as int,
                    added(base, done),
                    added(done, self.calls()),
                );
            }
            id += 1;
        }
        proof {
            lemma_progressed_all(
                prefix,
                self.events(),
                blocks_events(f@.blocks, f@.blocks.len() as int),
            );
        }
        Ok(())
    }

    /// Allocates the variables of the user and the temporaries in the entry
    /// block.
    fn allocate_local_vars(&mut self, f: &'a Procedure) -> (r: Result<(), TransformerError>)
        ensures
            final(self).project() == old(self).project(),
            progressed(old(self).events(), final(self).events(), allocation_events(f@), r is Ok),
            r matches Err(e) ==> refused(
                final(self).calls(),
                final(self).events().len() - old(self).events().len(),
                allocation_events(f@),
                e,
            ),
            extends(old(self).calls(), final(self).calls()),
            r is Ok ==> final(self).events() == old(self).events() + allocation_events(f@),
            r is Ok ==> final(self).calls() == old(self).calls() + allocation_calls::<L, V>(f@),
    {
        match self.xfmr.set_bb(BasicBlockId::entry()) {
            Ok(()) => {},
            Err(e) => {
                proof {
                    assert(Seq::<Event>::empty() + allocation_events(f@) =~= allocation_events(f@));
                    assert(self.events() =~= old(self).events() + Seq::<Event>::empty());
                    lemma_refused_here(
                        self.calls(),
                        old(self).events(),
                        self.events(),
                        Seq::empty(),
                        allocation_events(f@),
                        e,
                    );
                    lemma_added_one(
                        old(self).calls(),
                        Call::<L, V>::Refused(Event::SetBb(BasicBlockId(0)), e),
                    );
                }
                return Err(e);
            },
        }
        let ghost prefix = self.events();
        let ghost vars = Seq::new(f@.vars.len(), |i: int| Event::AllocVar(VarId(i as usize)));
        let ghost selected = self.calls();
        let ghost var_calls = Seq::new(
            f@.vars.len(),
            |i: int| Call::<L, V>::AllocVar(VarId(i as usize)),
        );
        let mut i: usize = 0;
        assert(self.events() =~= prefix + vars.subrange(0, 0));
        assert(self.calls() =~= selected + var_calls.subrange(0, 0));
        while i < f.var_count()
            invariant
                0 <= i <= f@.vars.len(),
                self.project() == old(self).project(),
                vars == Seq::new(f@.vars.len(), |i: int| Event::AllocVar(VarId(i as usize))),
                self.events() == prefix + vars.subrange(0, i as int),
                var_calls == Seq::new(
                    f@.vars.len(),
                    |i: int| Call::<L, V>::AllocVar(VarId(i as usize)),
                ),
                self.calls() == selected + var_calls.subrange(0, i as int),
                prefix == old(self).events().push(Event::SetBb(BasicBlockId(0))),
                selected == old(self).calls().push(Call::<L, V>::SetBb(BasicBlockId(0))),
            decreases f@.vars.len() - i,
        {
            let id = VarId::new(i);
            match self.xfmr.alloc_var(id, f.get_var(id)) {
                Ok(()) => {},
                Err(e) => {
                    proof {
                        let n = f@.vars.len() as int;
                        let first = seq![Event::SetBb(BasicBlockId(0))];
                        let head = first + vars.subrange(0, i as int);
                        let rest = vars.subrange(i as int, n) + Seq::new(
                            f@.temps.len(),
                            |i: int| Event::AllocTemp(TempId(i as usize)),
                        );
                        assert(allocation_events(f@) =~= head + rest);
                        assert(self.events() =~= old(self).events() + head);
                        lemma_refused_here(
                            self.calls(),
                            old(self).events(),
                            self.events(),
                            head,
                            rest,
                            e,
                        );
                        assert(self.calls().take(old(self).calls().len() as int) =~= old(
                            self,
                        ).calls());
                    }
                    return Err(e);
                },
            }
            assert(self.events() =~= prefix + vars.subrange(0, i + 1));
            assert(self.calls() =~= selected + var_calls.subrange(0, i + 1));
            i += 1;
        }
        assert(vars.subrange(0, f@.vars.len() as int) =~= vars);
        assert(var_calls.subrange(0, f@.vars.len() as int) =~= var_calls);
        let ghost middle = self.events();
        let ghost temps = Seq::new(f@.temps.len(), |i: int| Event::AllocTemp(TempId(i as usize)));
        let ghost allocated = self.calls();
        proof {
            assert(allocated.take(old(self).calls().len() as int) =~= old(self).calls());
            assert(middle =~= old(self).events().push(Event::SetBb(BasicBlockId(0))) + vars);
        }
        let ghost temp_calls = Seq::new(
            f@.temps.len(),
            |i: int| Call::<L, V>::AllocTemp(TempId(i as usize)),
        );
        let mut t: usize = 0;
        assert(self.events() =~= middle + temps.subrange(0, 0));
        assert(self.calls() =~= allocated + temp_calls.subrange(0, 0));
        while t < f.temp_count()
            invariant
                0 <= t <= f@.temps.len(),
                self.project() == old(self).project(),
                temps == Seq::new(f@.temps.len(), |i: int| Event::AllocTemp(TempId(i as usize))),
                self.events() == middle + temps.subrange(0, t as int),
                temp_calls == Seq::new(
                    f@.temps.len(),
                    |i: int| Call::<L, V>::AllocTemp(TempId(i as usize)),
                ),
                self.calls() == allocated + temp_calls.subrange(0, t as int),
                vars == Seq::new(f@.vars.len(), |i: int| Event::AllocVar(VarId(i as usize))),
                middle == old(self).events().push(Event::SetBb(BasicBlockId(0))) + vars,
                extends(old(self).calls(), allocated),
            decreases f@.temps.len() - t,
        {
            let id = TempId::new(t);
            match self.xfmr.alloc_temp(id, f.get_temp(id)) {
                Ok(()) => {},
                Err(e) => {
                    proof {
                        let n = f@.temps.len() as int;
                        let first = seq![Event::SetBb(BasicBlockId(0))];
                        let head = first + vars + temps.subrange(0, t as int);
                        let rest = temps.subrange(t as int, n);
                        assert(allocation_events(f@) =~= head + rest);
                        assert(self.events() =~= old(self).events() + head);
                        lemma_refused_here(
                            self.calls(),
                            old(self).events(),
                            self.events(),
                            head,
                            rest,
                            e,
                        );
                        assert(self.calls().take(old(self).calls().len() as int) =~= old(
                            self,
                        ).calls());
                    }
                    return Err(e);
                },
            }
            assert(self.events() =~= middle + temps.subrange(0, t + 1));
            assert(self.calls() =~= allocated + temp_calls.subrange(0, t + 1));
            t += 1;
        }
        assert(temps.subrange(0, f@.temps.len() as int) =~= temps);
        assert(temp_calls.subrange(0, f@.temps.len() as int) =~= temp_calls);
        assert(self.events() =~= old(self).events() + allocation_events(f@));
        assert(self.calls() =~= old(self).calls() + allocation_calls::<L, V>(f@));
        proof {
            lemma_progressed_all(old(self).events(), self.events(), allocation_events(f@));
            assert(self.calls().take(old(self).calls().len() as int) =~= old(self).calls());
        }
        Ok(())
    }

    /// Replays a block: selects it, assigns every statement, and emits the
    /// terminator.
    pub fn basic_block(&mut self, id: BasicBlockId, bb: &BasicBlock) -> (r: Result<
        (),
        TransformerError,
    >)
        requires
            block_supported(bb@),
        ensures
            final(self).project() == old(self).project(),
            progressed(
                old(self).events(),
                final(self).events(),
                block_events(id.0 as int, bb@),
                r is Ok,
            ),
            r matches Err(e) ==> refused(
                final(self).calls(),
                final(self).events().len() - old(self).events().len(),
                block_events(id.0 as int, bb@),
                e,
            ),
            extends(old(self).calls(), final(self).calls()),
            r is Ok ==> final(self).events() == old(self).events() + block_events(
                id.0 as int,
                bb@,
            ),
            r is Ok ==> block_calls(
                id.0 as int,
                bb@,
                added(old(self).calls(), final(self).calls()),
            ),
    {
        match self.xfmr.set_bb(id) {
            Ok(()) => {},
            Err(e) => {
                proof {
                    let all = block_events(id.0 as int, bb@);
                    assert(Seq::<Event>::empty() + all =~= all);
                    assert(self.events() =~= old(self).events() + Seq::<Event>::empty());
                    lemma_refused_here(
                        self.calls(),
                        old(self).events(),
                        self.events(),
                        Seq::empty(),
                        all,
                        e,
                    );
                    lemma_added_one(old(self).calls(), Call::<L, V>::Refused(Event::SetBb(id), e));
                }
                return Err(e);
            },
        }
        let ghost prefix = self.events();
        let ghost selected = self.calls();
        let mut i: usize = 0;
        assert(self.events() =~= prefix + statements_events(bb@.statements, 0));
        proof {
            lemma_added_one(selected, Call::<L, V>::Return);
        }
        while i < bb.len()
            invariant
                0 <= i <= bb@.statements.len(),
                self.project() == old(self).project(),
                block_supported(bb@),
                self.events() == prefix + statements_events(bb@.statements, i as int),
                selected == old(self).calls().push(Call::<L, V>::SetBb(id)),
                extends(selected, self.calls()),
                statements_calls(bb@.statements, i as int, added(selected, self.calls())),
            decreases bb@.statements.len() - i,
        {
            let ghost before = self.events();
            let ghost done = self.calls();
            self.statement(bb.get_stm(i));
            assert(self.events() =~= prefix + statements_events(bb@.statements, i + 1));
            proof {
                lemma_added_twice(selected, done, self.calls());
                lemma_statements_calls_push(
                    bb@.statements,
                    i as int,
                    added(selected, done),
                    added(done, self.calls()),
                );
            }
            i += 1;
        }
        let ghost stated = self.calls();
        match bb.get_term() {
            Some(t) => match t.kind() {
                TerminatorKind::Return => {
                    self.xfmr.term_return();
                    proof {
                        lemma_added_one(stated, Call::<L, V>::Return);
                    }
                },
                TerminatorKind::GoTo { target } => {
                    self.xfmr.term_goto(*target);
                    proof {
                        lemma_added_one(stated, Call::<L, V>::GoTo(*target));
                    }
                },
                TerminatorKind::CondGoTo { cond, tru, fls } => {
                    let ghost asked = *cond;
                    let cond = self.operand(cond);
                    let ghost valued = self.calls();
                    self.xfmr.term_cond_goto(cond, *tru, *fls);
                    proof {
                        let n = operand_len(asked);
                        lemma_operand_calls_end(asked, added(stated, valued), cond);
                        lemma_added_one(valued, Call::<L, V>::CondGoTo(cond, *tru, *fls));
                        lemma_added_twice(stated, valued, self.calls());
                        assert(added(stated, self.calls()).subrange(0, n) =~= added(
                            stated,
                            valued,
                        ));
                    }
                },
                TerminatorKind::CallFn { .. } => {},
            },
            None => {},
        }
        assert(self.events() =~= old(self).events() + block_events(id.0 as int, bb@));
        proof {
            lemma_progressed_all(
                old(self).events(),
                self.events(),
                block_events(id.0 as int, bb@),
            );
            let start = old(self).calls();
            let calls = added(start, self.calls());
            let n = statements_len(bb@.statements, bb@.statements.len() as int);
            lemma_statements_calls_len(
                bb@.statements,
                bb@.statements.len() as int,
                added(selected, stated),
            );
            lemma_added_one(start, Call::<L, V>::SetBb(id));
            lemma_added_twice(selected, stated, self.calls());
            lemma_added_twice(start, selected, self.calls());
            assert(calls.subrange(1, 1 + n) =~= added(selected, stated));
            assert(calls.skip(1 + n) =~= added(stated, self.calls()));
        }
        Ok(())
    }

    /// Hands a statement to the transformer: asks for the location and for
    /// the value, and stores the value that the transformer answered with in
    /// the location that it answered with.
    fn statement(&mut self, stm: &Statement)
        requires
            statement_supported(*stm),
        ensures
            final(self).project() == old(self).project(),
            final(self).events() == old(self).events() + statement_events(*stm),
            extends(old(self).calls(), final(self).calls()),
            statement_calls(*stm, added(old(self).calls(), final(self).calls())),
    {
        let span = stm.span();
        match stm.kind() {
            StatementKind::Assign(lv, rv) => {
                let ghost start = self.calls();
                let l = self.lvalue(lv);
                let ghost asked = self.calls();
                let v = self.rvalue(rv);
                let ghost valued = self.calls();
                self.xfmr.assign(span, l, v);
                proof {
                    let calls = added(start, self.calls());
                    let m = rvalue_len(*rv);
                    lemma_rvalue_calls_len(*rv, added(asked, valued), v);
                    assert(valued =~= asked + added(asked, valued));
                    assert(calls =~= seq![location_call::<L, V>(*lv, l)] + added(asked, valued)
                        + seq![Call::<L, V>::Assign(span, l, v)]);
                    assert(calls.subrange(1, m + 1) =~= added(asked, valued));
                    lemma_rvalue_calls_end(*rv, added(asked, valued), v);
                    assert(self.calls().take(start.len() as int) =~= start);
                }
            },
        }
        assert(self.events() =~= old(self).events() + statement_events(*stm));
    }

    /// The value of a right-hand side, as the transformer represents it:
    /// the answer to its operand, or the answer to the operation on the
    /// answers to its operands.
    fn rvalue(&mut self, rv: &RValue) -> (r: V)
        requires
            rvalue_supported(*rv),
        ensures
            final(self).project() == old(self).project(),
            final(self).events() == old(self).events() + (match *rv {
                RValue::BinOp(op, _, _) => seq![Event::BinOp(op)],
                RValue::UnOp(op, _) => seq![Event::UnOp(op)],
                _ => Seq::empty(),
            }),
            extends(old(self).calls(), final(self).calls()),
            rvalue_calls(*rv, added(old(self).calls(), final(self).calls()), r),
    {
        let ghost start = self.calls();
        let r = match rv {
            RValue::Use(o) => self.operand(o),
            RValue::BinOp(op, a, b) => {
                let va = self.operand(a);
                let ghost first = self.calls();
                let vb = self.operand(b);
                let ghost second = self.calls();
                let r = self.xfmr.bin_op(*op, va, vb);
                proof {
                    let calls = added(start, self.calls());
                    let n = operand_len(*a);
                    let m = n + operand_len(*b);
                    lemma_operand_calls_end(*a, added(start, first), va);
                    lemma_operand_calls_end(*b, added(first, second), vb);
                    assert(first =~= start + added(start, first));
                    assert(second =~= first + added(first, second));
                    assert(calls =~= added(start, first) + added(first, second) + seq![
                        Call::<L, V>::BinOp(*op, va, vb, r),
                    ]);
                    assert(calls.subrange(0, n) =~= added(start, first));
                    assert(calls.subrange(n, m) =~= added(first, second));
                    assert(self.calls().take(start.len() as int) =~= start);
                }
                r
            },
            RValue::UnOp(op, a) => {
                let va = self.operand(a);
                let ghost first = self.calls();
                let r = self.xfmr.un_op(*op, va);
                proof {
                    let calls = added(start, self.calls());
                    let n = operand_len(*a);
                    lemma_operand_calls_end(*a, added(start, first), va);
                    assert(first =~= start + added(start, first));
                    assert(calls =~= added(start, first) + seq![Call::<L, V>::UnOp(*op, va, r)]);
                    assert(calls.subrange(0, n) =~= added(start, first));
                    assert(self.calls().take(start.len() as int) =~= start);
                }
                r
            },
            _ => vstd::pervasive::unreached(),
        };
        assert(self.events() =~= old(self).events() + (match *rv {
            RValue::BinOp(op, _, _) => seq![Event::BinOp(op)],
            RValue::UnOp(op, _) => seq![Event::UnOp(op)],
            _ => Seq::empty(),
        }));
        r
    }

    /// The value of an operand, as the transformer represents it: the
    /// answer to the constant, or the answer to the value in the location
    /// that the transformer answered with.
    fn operand(&mut self, o: &Operand) -> (r: V)
        requires
            operand_supported(*o),
        ensures
            final(self).project() == old(self).project(),
            final(self).events() == old(self).events(),
            extends(old(self).calls(), final(self).calls()),
            operand_calls(*o, added(old(self).calls(), final(self).calls()), r),
    {
        let ghost start = self.calls();
        match o {
            Operand::Constant(c) => {
                let r = self.constant(*c);
                proof {
                    assert(added(start, self.calls()) =~= seq![Call::<L, V>::Constant(*c, r)]);
                    assert(self.calls().take(start.len() as int) =~= start);
                }
                r
            },
            Operand::LValue(lv) => {
                let l = self.lvalue(lv);
                let r = self.xfmr.load(l);
                proof {
                    assert(added(start, self.calls()) =~= seq![
                        location_call::<L, V>(*lv, l),
                        Call::<L, V>::Load(l, r),
                    ]);
                    assert(self.calls().take(start.len() as int) =~= start);
                }
                r
            },
        }
    }

    /// The value of a constant, as the transformer represents it: the
    /// transformer is asked for the constant, and its answer is returned.
    fn constant(&mut self, c: Constant) -> (r: V)
        requires
            !(c is SizeOf),
        ensures
            final(self).project() == old(self).project(),
            final(self).events() == old(self).events(),
            final(self).calls() == old(self).calls().push(Call::<L, V>::Constant(c, r)),
    {
        match c {
            Constant::Unit => self.xfmr.const_unit(),
            Constant::I8(i) => self.xfmr.const_i8(i),
            Constant::I16(i) => self.xfmr.const_i16(i),
            Constant::I32(i) => self.xfmr.const_i32(i),
            Constant::I64(i) => self.xfmr.const_i64(i),
            Constant::U8(i) => self.xfmr.const_u8(i),
            Constant::U16(i) => self.xfmr.const_u16(i),
            Constant::U32(i) => self.xfmr.const_u32(i),
            Constant::U64(i) => self.xfmr.const_u64(i),
            Constant::Bool(b) => self.xfmr.const_bool(b),
            Constant::StringLiteral(s) => self.xfmr.const_stringliteral(s),
            Constant::Null => self.xfmr.const_null(),
            Constant::SizeOf(_) => vstd::pervasive::unreached(),
        }
    }

    /// The location of a place of the graph, as the transformer represents
    /// it: the transformer is asked for the variable, the temporary or the
    /// place of the returned value, and its answer is returned.
    fn lvalue(&mut self, lv: &LValue) -> (r: L)
        requires
            lvalue_supported(*lv),
        ensures
            final(self).project() == old(self).project(),
            final(self).events() == old(self).events(),
            final(self).calls() == old(self).calls().push(location_call(*lv, r)),
    {
        match lv {
            LValue::Var(vid) => self.xfmr.var(*vid),
            LValue::Temp(tid) => self.xfmr.temp(*tid),
            LValue::ReturnPointer => self.xfmr.return_pointer(),
            _ => vstd::pervasive::unreached(),
        }
    }
}

} // verus!
