//! The seam between the control-flow graph and a code generator.
//!
//! A code generator implements [`Transformer`] for its own representation
//! of locations (`L`) and of values (`V`); the traverser of the graph calls
//! it for every block, variable, statement and terminator.  The graph never
//! depends on how a code generator represents a value.
use crate::ast::ty::Type;
use crate::mir::ir::{BasicBlockId, BinOp, Constant, TempId, UnOp, VarDecl, VarId};
use crate::stringtable::StringId;
use crate::source::span::Span;
use vstd::prelude::*;

verus! {

/// What a transformer can refuse.
#[derive(Clone, Copy, Debug, PartialEq, Eq, Structural)]
pub enum TransformerError {
    /// The block was created before.
    BasicBlockAlreadyCreated,
    /// No block with that id was created.
    BasicBlockNotFound,
    /// The variable was allocated before.
    VariableAlreadyAllocated,
    /// The temporary was allocated before.
    TemporaryAlreadyAllocated,
}

/// One call that changes a transformer.
#[derive(Clone, Copy, Debug, PartialEq, Eq, Structural)]
pub enum Event {
    CreateBb(BasicBlockId),
    SetBb(BasicBlockId),
    AllocVar(VarId),
    AllocTemp(TempId),
    /// The computation of a binary operation.
    BinOp(BinOp),
    /// The computation of a unary operation.
    UnOp(UnOp),
    /// An assignment that stands for the source text at the span.
    Assign(Span),
    Return,
    GoTo(BasicBlockId),
    CondGoTo(BasicBlockId, BasicBlockId),
}

/// What a code generator offers to the traverser.
pub trait Transformer<L, V> {
    /// Creates the block with the id `bb`, so that jumps can refer to it.
    fn create_bb(&mut self, bb: BasicBlockId) -> Result<(), TransformerError>;

    /// Makes `bb` the block that the following calls emit into.
    fn set_bb(&mut self, bb: BasicBlockId) -> Result<(), TransformerError>;

    /// Allocates the variable `id` in the current block.
    fn alloc_var(&mut self, id: VarId, decl: &VarDecl) -> Result<(), TransformerError>;

    /// Allocates the temporary `id`, of the type `ty`, in the current block.
    fn alloc_temp(&mut self, id: TempId, ty: &Type) -> Result<(), TransformerError>;

    /// Computes the binary operation `op` on `left` and `right` in the
    /// current block.
    fn bin_op(&mut self, op: BinOp, left: V, right: V) -> V;

    /// Computes the unary operation `op` on `operand` in the current block.
    fn un_op(&mut self, op: UnOp, operand: V) -> V;

    /// Ends the current block by returning to the caller.
    fn term_return(&mut self);

    /// Ends the current block by going to the block `target`.
    fn term_goto(&mut self, target: BasicBlockId);

    /// Ends the current block by going to `then_bb` where `cond` holds and
    /// to `else_bb` where it does not.
    fn term_cond_goto(&mut self, cond: V, then_bb: BasicBlockId, else_bb: BasicBlockId);

    /// Stores the value `v` in the location `l`.
    fn assign(&mut self, span: Span, l: L, v: V);

    /// The location of the variable `v`.
    fn var(&self, v: VarId) -> L;

    /// The location of the temporary `t`.
    fn temp(&self, t: TempId) -> L;

    /// The location that holds the value that the procedure returns.
    fn return_pointer(&self) -> L;

    /// The value that is read from the location `lv`.
    fn load(&self, lv: L) -> V;

    /// The value of the type `Unit`.
    fn const_unit(&self) -> V;

    fn const_i8(&self, i: i8) -> V;

    fn const_i16(&self, i: i16) -> V;

    fn const_i32(&self, i: i32) -> V;

    fn const_i64(&self, i: i64) -> V;

    fn const_u8(&self, i: u8) -> V;

    fn const_u16(&self, i: u16) -> V;

    fn const_u32(&self, i: u32) -> V;

    fn const_u64(&self, i: u64) -> V;

    fn const_bool(&self, b: bool) -> V;

    /// The value of the string literal with the given name.
    fn const_stringliteral(&self, s: StringId) -> V;

    /// The null pointer.
    fn const_null(&self) -> V;
}

/// One call to a transformer: what was handed to it and, for a call that
/// gives a location or a value, what the transformer answered.
pub ghost enum Call<L, V> {
    CreateBb(BasicBlockId),
    SetBb(BasicBlockId),
    AllocVar(VarId),
    AllocTemp(TempId),
    /// The location of a variable was asked for.
    Var(VarId, L),
    /// The location of a temporary was asked for.
    Temp(TempId, L),
    /// The location of the returned value was asked for.
    ReturnPointer(L),
    /// The value in a location was asked for.
    Load(L, V),
    /// The value of a constant was asked for.
    Constant(Constant, V),
    /// The operation on the two values gave the third.
    BinOp(BinOp, V, V, V),
    /// The operation on the first value gave the second.
    UnOp(UnOp, V, V),
    /// The value was stored in the location.
    Assign(Span, L, V),
    Return,
    GoTo(BasicBlockId),
    /// A jump on the value, to the first block where it holds.
    CondGoTo(V, BasicBlockId, BasicBlockId),
    /// The call that would have made the event was refused by the
    /// transformer with the error.
    Refused(Event, TransformerError),
}

/// The event of a call, for a call that changes the transformer.
pub open spec fn event_of<L, V>(c: Call<L, V>) -> Option<Event> {
    match c {
        Call::CreateBb(bb) => Some(Event::CreateBb(bb)),
        Call::SetBb(bb) => Some(Event::SetBb(bb)),
        Call::AllocVar(id) => Some(Event::AllocVar(id)),
        Call::AllocTemp(id) => Some(Event::AllocTemp(id)),
        Call::BinOp(op, _, _, _) => Some(Event::BinOp(op)),
        Call::UnOp(op, _, _) => Some(Event::UnOp(op)),
        Call::Assign(span, _, _) => Some(Event::Assign(span)),
        Call::Return => Some(Event::Return),
        Call::GoTo(target) => Some(Event::GoTo(target)),
        Call::CondGoTo(_, then_bb, else_bb) => Some(Event::CondGoTo(then_bb, else_bb)),
        _ => None,
    }
}

/// The events of the calls that change the transformer, in order.
pub open spec fn events_of<L, V>(calls: Seq<Call<L, V>>) -> Seq<Event>
    decreases calls.len(),
{
    if calls.len() == 0 {
        Seq::empty()
    } else {
        match event_of(calls.last()) {
            Some(e) => events_of(calls.drop_last()).push(e),
            None => events_of(calls.drop_last()),
        }
    }
}

/// A call that changes the transformer adds its event, and no other call
/// adds one.
pub proof fn lemma_events_of_push<L, V>(calls: Seq<Call<L, V>>, c: Call<L, V>)
    ensures
        events_of(calls.push(c)) == (match event_of(c) {
            Some(e) => events_of(calls).push(e),
            None => events_of(calls),
        }),
{
    assert(calls.push(c).drop_last() =~= calls);
}

/// A transformer together with the record of the calls that were made to
/// it.  The transformer can be reached through the methods of this type
/// only, so the record is complete: every call is added with what was
/// handed to it and what the transformer answered, a call that it refused
/// with its error, and nothing else changes the record.
pub(crate) struct Recorded<L, V, T: Transformer<L, V>> {
    inner: T,
    log: Ghost<Seq<Call<L, V>>>,
}

impl<L, V, T: Transformer<L, V>> Recorded<L, V, T> {
    /// The calls so far, oldest first.
    pub(crate) closed spec fn calls(&self) -> Seq<Call<L, V>> {
        self.log@
    }

    /// The events of the calls so far that changed the transformer.
    pub(crate) open spec fn events(&self) -> Seq<Event> {
        events_of(self.calls())
    }

    /// The transformer.
    pub(crate) closed spec fn transformer(&self) -> T {
        self.inner
    }

    /// Starts an empty record for the transformer.
    pub(crate) fn new(inner: T) -> (r: Self)
        ensures
            r.calls() == Seq::<Call<L, V>>::empty(),
            r.events() == Seq::<Event>::empty(),
            r.transformer() == inner,
    {
        Recorded { inner, log: Ghost(Seq::empty()) }
    }

    /// Hands the transformer back.
    pub(crate) fn into_inner(self) -> (r: T)
        ensures
            r == self.transformer(),
    {
        self.inner
    }

    /// Adds a call to the record.
    fn record(&mut self, c: Ghost<Call<L, V>>)
        ensures
            final(self).calls() == old(self).calls().push(c@),
            final(self).events() == (match event_of(c@) {
                Some(e) => old(self).events().push(e),
                None => old(self).events(),
            }),
            final(self).transformer() == old(self).transformer(),
    {
        proof {
            lemma_events_of_push(self.log@, c@);
        }
        self.log = Ghost(self.log@.push(c@));
    }

    pub(crate) fn create_bb(&mut self, bb: BasicBlockId) -> (r: Result<(), TransformerError>)
        ensures
            match r {
                Ok(_) => final(self).calls() == old(self).calls().push(Call::CreateBb(bb))
                    && final(self).events() == old(self).events().push(Event::CreateBb(bb)),
                Err(e) => final(self).calls() == old(self).calls().push(
                    Call::Refused(Event::CreateBb(bb), e),
                ) && final(self).events() == old(self).events(),
            },
    {
        let r = self.inner.create_bb(bb);
        match r {
            Ok(_) => {
                self.record(Ghost(Call::CreateBb(bb)));
            },
            Err(e) => {
                self.record(Ghost(Call::Refused(Event::CreateBb(bb), e)));
            },
        }
        r
    }

    pub(crate) fn set_bb(&mut self, bb: BasicBlockId) -> (r: Result<(), TransformerError>)
        ensures
            match r {
                Ok(_) => final(self).calls() == old(self).calls().push(Call::SetBb(bb))
                    && final(self).events() == old(self).events().push(Event::SetBb(bb)),
                Err(e) => final(self).calls() == old(self).calls().push(
                    Call::Refused(Event::SetBb(bb), e),
                ) && final(self).events() == old(self).events(),
            },
    {
        let r = self.inner.set_bb(bb);
        match r {
            Ok(_) => {
                self.record(Ghost(Call::SetBb(bb)));
            },
            Err(e) => {
                self.record(Ghost(Call::Refused(Event::SetBb(bb), e)));
            },
        }
        r
    }

    pub(crate) fn alloc_var(&mut self, id: VarId, decl: &VarDecl) -> (r: Result<
        (),
        TransformerError,
    >)
        ensures
            match r {
                Ok(_) => final(self).calls() == old(self).calls().push(Call::AllocVar(id))
                    && final(self).events() == old(self).events().push(Event::AllocVar(id)),
                Err(e) => final(self).calls() == old(self).calls().push(
                    Call::Refused(Event::AllocVar(id), e),
                ) && final(self).events() == old(self).events(),
            },
    {
        let r = self.inner.alloc_var(id, decl);
        match r {
            Ok(_) => {
                self.record(Ghost(Call::AllocVar(id)));
            },
            Err(e) => {
                self.record(Ghost(Call::Refused(Event::AllocVar(id), e)));
            },
        }
        r
    }

    pub(crate) fn alloc_temp(&mut self, id: TempId, ty: &Type) -> (r: Result<(), TransformerError>)
        ensures
            match r {
                Ok(_) => final(self).calls() == old(self).calls().push(Call::AllocTemp(id))
                    && final(self).events() == old(self).events().push(Event::AllocTemp(id)),
                Err(e) => final(self).calls() == old(self).calls().push(
                    Call::Refused(Event::AllocTemp(id), e),
                ) && final(self).events() == old(self).events(),
            },
    {
        let r = self.inner.alloc_temp(id, ty);
        match r {
            Ok(_) => {
                self.record(Ghost(Call::AllocTemp(id)));
            },
            Err(e) => {
                self.record(Ghost(Call::Refused(Event::AllocTemp(id), e)));
            },
        }
        r
    }

    pub(crate) fn bin_op(&mut self, op: BinOp, left: V, right: V) -> (r: V)
        ensures
            final(self).calls() == old(self).calls().push(Call::BinOp(op, left, right, r)),
            final(self).events() == old(self).events().push(Event::BinOp(op)),
    {
        let ghost call = |r: V| Call::<L, V>::BinOp(op, left, right, r);
        let r = self.inner.bin_op(op, left, right);
        self.record(Ghost(call(r)));
        r
    }

    pub(crate) fn un_op(&mut self, op: UnOp, operand: V) -> (r: V)
        ensures
            final(self).calls() == old(self).calls().push(Call::UnOp(op, operand, r)),
            final(self).events() == old(self).events().push(Event::UnOp(op)),
    {
        let ghost call = |r: V| Call::<L, V>::UnOp(op, operand, r);
        let r = self.inner.un_op(op, operand);
        self.record(Ghost(call(r)));
        r
    }

    pub(crate) fn term_return(&mut self)
        ensures
            final(self).calls() == old(self).calls().push(Call::Return),
            final(self).events() == old(self).events().push(Event::Return),
    {
        self.inner.term_return();
        self.record(Ghost(Call::Return));
    }

    pub(crate) fn term_goto(&mut self, target: BasicBlockId)
        ensures
            final(self).calls() == old(self).calls().push(Call::GoTo(target)),
            final(self).events() == old(self).events().push(Event::GoTo(target)),
    {
        self.inner.term_goto(target);
        self.record(Ghost(Call::GoTo(target)));
    }

    pub(crate) fn term_cond_goto(&mut self, cond: V, then_bb: BasicBlockId, else_bb: BasicBlockId)
        ensures
            final(self).calls() == old(self).calls().push(Call::CondGoTo(cond, then_bb, else_bb)),
            final(self).events() == old(self).events().push(Event::CondGoTo(then_bb, else_bb)),
    {
        let ghost call = Call::<L, V>::CondGoTo(cond, then_bb, else_bb);
        self.inner.term_cond_goto(cond, then_bb, else_bb);
        self.record(Ghost(call));
    }

    pub(crate) fn assign(&mut self, span: Span, l: L, v: V)
        ensures
            final(self).calls() == old(self).calls().push(Call::Assign(span, l, v)),
            final(self).events() == old(self).events().push(Event::Assign(span)),
    {
        let ghost call = Call::<L, V>::Assign(span, l, v);
        self.inner.assign(span, l, v);
        self.record(Ghost(call));
    }

    pub(crate) fn var(&mut self, v: VarId) -> (r: L)
        ensures
            final(self).calls() == old(self).calls().push(Call::Var(v, r)),
            final(self).events() == old(self).events(),
    {
        let r = self.inner.var(v);
        self.record(Ghost(Call::Var(v, r)));
        r
    }

    pub(crate) fn temp(&mut self, t: TempId) -> (r: L)
        ensures
            final(self).calls() == old(self).calls().push(Call::Temp(t, r)),
            final(self).events() == old(self).events(),
    {
        let r = self.inner.temp(t);
        self.record(Ghost(Call::Temp(t, r)));
        r
    }

    pub(crate) fn return_pointer(&mut self) -> (r: L)
        ensures
            final(self).calls() == old(self).calls().push(Call::ReturnPointer(r)),
            final(self).events() == old(self).events(),
    {
        let r = self.inner.return_pointer();
        self.record(Ghost(Call::ReturnPointer(r)));
        r
    }

    pub(crate) fn load(&mut self, lv: L) -> (r: V)
        ensures
            final(self).calls() == old(self).calls().push(Call::Load(lv, r)),
            final(self).events() == old(self).events(),
    {
        let ghost call = |r: V| Call::<L, V>::Load(lv, r);
        let r = self.inner.load(lv);
        self.record(Ghost(call(r)));
        r
    }

    pub(crate) fn const_unit(&mut self) -> (r: V)
        ensures
            final(self).calls() == old(self).calls().push(Call::Constant(Constant::Unit, r)),
            final(self).events() == old(self).events(),
    {
        let r = self.inner.const_unit();
        self.record(Ghost(Call::Constant(Constant::Unit, r)));
        r
    }

    pub(crate) fn const_i8(&mut self, i: i8) -> (r: V)
        ensures
            final(self).calls() == old(self).calls().push(Call::Constant(Constant::I8(i), r)),
            final(self).events() == old(self).events(),
    {
        let r = self.inner.const_i8(i);
        self.record(Ghost(Call::Constant(Constant::I8(i), r)));
        r
    }

    pub(crate) fn const_i16(&mut self, i: i16) -> (r: V)
        ensures
            final(self).calls() == old(self).calls().push(Call::Constant(Constant::I16(i), r)),
            final(self).events() == old(self).events(),
    {
        let r = self.inner.const_i16(i);
        self.record(Ghost(Call::Constant(Constant::I16(i), r)));
        r
    }

    pub(crate) fn const_i32(&mut self, i: i32) -> (r: V)
        ensures
            final(self).calls() == old(self).calls().push(Call::Constant(Constant::I32(i), r)),
            final(self).events() == old(self).events(),
    {
        let r = self.inner.const_i32(i);
        self.record(Ghost(Call::Constant(Constant::I32(i), r)));
        r
    }

    pub(crate) fn const_i64(&mut self, i: i64) -> (r: V)
        ensures
            final(self).calls() == old(self).calls().push(Call::Constant(Constant::I64(i), r)),
            final(self).events() == old(self).events(),
    {
        let r = self.inner.const_i64(i);
        self.record(Ghost(Call::Constant(Constant::I64(i), r)));
        r
    }

    pub(crate) fn const_u8(&mut self, i: u8) -> (r: V)
        ensures
            final(self).calls() == old(self).calls().push(Call::Constant(Constant::U8(i), r)),
            final(self).events() == old(self).events(),
    {
        let r = self.inner.const_u8(i);
        self.record(Ghost(Call::Constant(Constant::U8(i), r)));
        r
    }

    pub(crate) fn const_u16(&mut self, i: u16) -> (r: V)
        ensures
            final(self).calls() == old(self).calls().push(Call::Constant(Constant::U16(i), r)),
            final(self).events() == old(self).events(),
    {
        let r = self.inner.const_u16(i);
        self.record(Ghost(Call::Constant(Constant::U16(i), r)));
        r
    }

    pub(crate) fn const_u32(&mut self, i: u32) -> (r: V)
        ensures
            final(self).calls() == old(self).calls().push(Call::Constant(Constant::U32(i), r)),
            final(self).events() == old(self).events(),
    {
        let r = self.inner.const_u32(i);
        self.record(Ghost(Call::Constant(Constant::U32(i), r)));
        r
    }

    pub(crate) fn const_u64(&mut self, i: u64) -> (r: V)
        ensures
            final(self).calls() == old(self).calls().push(Call::Constant(Constant::U64(i), r)),
            final(self).events() == old(self).events(),
    {
        let r = self.inner.const_u64(i);
        self.record(Ghost(Call::Constant(Constant::U64(i), r)));
        r
    }

    pub(crate) fn const_bool(&mut self, b: bool) -> (r: V)
        ensures
            final(self).calls() == old(self).calls().push(Call::Constant(Constant::Bool(b), r)),
            final(self).events() == old(self).events(),
    {
        let r = self.inner.const_bool(b);
        self.record(Ghost(Call::Constant(Constant::Bool(b), r)));
        r
    }

    pub(crate) fn const_stringliteral(&mut self, s: StringId) -> (r: V)
        ensures
            final(self).calls() == old(self).calls().push(
                Call::Constant(Constant::StringLiteral(s), r),
            ),
            final(self).events() == old(self).events(),
    {
        let r = self.inner.const_stringliteral(s);
        self.record(Ghost(Call::Constant(Constant::StringLiteral(s), r)));
        r
    }

    pub(crate) fn const_null(&mut self) -> (r: V)
        ensures
            final(self).calls() == old(self).calls().push(Call::Constant(Constant::Null, r)),
            final(self).events() == old(self).events(),
    {
        let r = self.inner.const_null();
        self.record(Ghost(Call::Constant(Constant::Null, r)));
        r
    }
}

} // verus!
