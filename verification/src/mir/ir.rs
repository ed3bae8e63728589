//! The data of the control-flow graph.
use crate::ast::ty::{Type, TypeView};
use crate::source::span::Span;
use crate::stringtable::StringId;
use vstd::prelude::*;

verus! {

/// Identifies a basic block of a procedure.  Blocks are numbered in the
/// order of their creation, from zero.
#[derive(Clone, Copy, Debug, PartialEq, Eq, Structural, Hash)]
pub struct BasicBlockId(pub usize);

/// Identifies a variable that the user declared.
#[derive(Clone, Copy, Debug, PartialEq, Eq, Structural, Hash)]
pub struct VarId(pub usize);

/// Identifies a temporary that the compiler introduced.
#[derive(Clone, Copy, Debug, PartialEq, Eq, Structural, Hash)]
pub struct TempId(pub usize);

/// Identifies a type in the type table of a procedure.
#[derive(Clone, Copy, Debug, PartialEq, Eq, Structural, Hash)]
pub struct TypeId(pub usize);

/// Identifies a lexical scope of a procedure.
#[derive(Clone, Copy, Debug, PartialEq, Eq, Structural, Hash)]
pub struct ScopeId(pub usize);

/// Identifies a static item.
#[derive(Clone, Copy, Debug, PartialEq, Eq, Structural, Hash)]
pub struct DefId(pub usize);

/// Identifies a field of a structure.
#[derive(Clone, Copy, Debug, PartialEq, Eq, Structural, Hash)]
pub struct FieldId(pub usize);

impl BasicBlockId {
    /// The block in which a procedure starts.
    pub fn entry() -> (r: BasicBlockId)
        ensures
            r == BasicBlockId(0),
    {
        BasicBlockId(0)
    }

    pub fn new(id: usize) -> (r: BasicBlockId)
        ensures
            r == BasicBlockId(id),
    {
        BasicBlockId(id)
    }

    pub fn index(&self) -> (r: usize)
        ensures
            r == self.0,
    {
        self.0
    }
}

impl VarId {
    pub fn new(id: usize) -> (r: VarId)
        ensures
            r == VarId(id),
    {
        VarId(id)
    }

    pub fn index(&self) -> (r: usize)
        ensures
            r == self.0,
    {
        self.0
    }
}

impl TempId {
    pub fn new(id: usize) -> (r: TempId)
        ensures
            r == TempId(id),
    {
        TempId(id)
    }

    pub fn index(&self) -> (r: usize)
        ensures
            r == self.0,
    {
        self.0
    }
}

impl ScopeId {
    pub fn new(id: usize) -> (r: ScopeId)
        ensures
            r == ScopeId(id),
    {
        ScopeId(id)
    }
}

/// A value that is known when the program is compiled.
#[derive(Clone, Copy, Debug, PartialEq, Eq, Structural)]
pub enum Constant {
    Unit,
    I8(i8),
    I16(i16),
    I32(i32),
    I64(i64),
    U8(u8),
    U16(u16),
    U32(u32),
    U64(u64),
    Bool(bool),
    StringLiteral(StringId),
    Null,
    SizeOf(TypeId),
}

/// How a part of a location is reached from the whole.
#[derive(Clone, Copy, Debug, PartialEq, Eq, Structural)]
pub enum Accessor {
    Index(u64),
    Field(FieldId),
}

/// A location that can be written to and read from.
#[derive(Debug, PartialEq, Eq)]
pub enum LValue {
    Static(DefId),
    Var(VarId),
    Temp(TempId),
    Access(Box<LValue>, Accessor),
    ReturnPointer,
}

impl Clone for LValue {
    fn clone(&self) -> (r: LValue)
        ensures
            r == *self,
        decreases self,
    {
        match self {
            LValue::Static(d) => LValue::Static(*d),
            LValue::Var(v) => LValue::Var(*v),
            LValue::Temp(t) => LValue::Temp(*t),
            LValue::Access(base, a) => LValue::Access(Box::new((**base).clone()), *a),
            LValue::ReturnPointer => LValue::ReturnPointer,
        }
    }
}

/// What an operation works on: a constant, or the value in a location.
#[derive(Debug, PartialEq, Eq)]
pub enum Operand {
    Constant(Constant),
    LValue(LValue),
}

impl Clone for Operand {
    fn clone(&self) -> (r: Operand)
        ensures
            r == *self,
    {
        match self {
            Operand::Constant(c) => Operand::Constant(*c),
            Operand::LValue(lv) => Operand::LValue(lv.clone()),
        }
    }
}

#[derive(Clone, Copy, Debug, PartialEq, Eq, Structural)]
pub enum BinOp {
    Add,
    Sub,
    Mul,
    Div,
    Eq,
    Ne,
    Le,
    Lt,
    Ge,
    Gt,
    And,
    Or,
}

#[derive(Clone, Copy, Debug, PartialEq, Eq, Structural)]
pub enum UnOp {
    Negate,
    Not,
}

/// The right-hand side of an assignment.
#[derive(Debug, PartialEq, Eq)]
pub enum RValue {
    Use(Operand),
    BinOp(BinOp, Operand, Operand),
    UnOp(UnOp, Operand),
    Cast(Operand, TypeId),
    AddressOf(LValue),
}

#[derive(Debug, PartialEq, Eq)]
pub enum StatementKind {
    Assign(LValue, RValue),
}

/// An assignment, with the span of the source text that it stands for.
#[derive(Debug, PartialEq)]
pub struct Statement {
    pub kind: StatementKind,
    pub span: Span,
}

impl Statement {
    pub fn new(kind: StatementKind, span: Span) -> (r: Statement)
        ensures
            r == (Statement { kind, span }),
    {
        Statement { kind, span }
    }

    pub fn kind(&self) -> (r: &StatementKind)
        ensures
            *r == self.kind,
    {
        &self.kind
    }

    pub fn span(&self) -> (r: Span)
        ensures
            r == self.span,
    {
        self.span
    }
}

/// How control leaves a basic block.
#[derive(Debug, PartialEq, Eq)]
pub enum TerminatorKind {
    /// Returns to the caller.
    Return,
    /// Goes on in the block `target`.
    GoTo { target: BasicBlockId },
    /// Goes on in `tru` where `cond` holds and in `fls` where it does not.
    CondGoTo { cond: Operand, tru: BasicBlockId, fls: BasicBlockId },
    /// Calls `func` and goes on in the block `reentry.1`, with the result
    /// of the call in `reentry.0`.
    CallFn { func: Operand, args: Vec<Operand>, reentry: (LValue, BasicBlockId) },
}

#[derive(Debug, PartialEq)]
pub struct Terminator {
    pub kind: TerminatorKind,
    pub span: Span,
}

impl Terminator {
    pub fn new(kind: TerminatorKind, span: Span) -> (r: Terminator)
        ensures
            r == (Terminator { kind, span }),
    {
        Terminator { kind, span }
    }

    pub fn kind(&self) -> (r: &TerminatorKind)
        ensures
            *r == self.kind,
    {
        &self.kind
    }

    pub fn span(&self) -> (r: Span)
        ensures
            r == self.span,
    {
        self.span
    }
}

/// A sequence of statements that is entered at its start only and is left
/// through its terminator only.
#[derive(Debug, PartialEq)]
pub struct BasicBlock {
    statements: Vec<Statement>,
    terminator: Option<Terminator>,
}

pub ghost struct BlockView {
    pub statements: Seq<Statement>,
    pub terminator: Option<Terminator>,
}

impl BlockView {
    /// The block without statements and without terminator.
    pub open spec fn empty() -> BlockView {
        BlockView { statements: Seq::empty(), terminator: None }
    }

    pub open spec fn add_stm(self, stm: Statement) -> BlockView {
        BlockView { statements: self.statements.push(stm), ..self }
    }

    pub open spec fn set_terminator(self, term: Terminator) -> BlockView {
        BlockView { terminator: Some(term), ..self }
    }
}

impl View for BasicBlock {
    type V = BlockView;

    closed spec fn view(&self) -> BlockView {
        BlockView { statements: self.statements@, terminator: self.terminator }
    }
}

impl BasicBlock {
    pub fn new() -> (r: BasicBlock)
        ensures
            r@ == BlockView::empty(),
    {
        BasicBlock { statements: Vec::new(), terminator: None }
    }

    /// Appends a statement to the block.
    pub fn add_stm(&mut self, stm: Statement)
        ensures
            final(self)@ == old(self)@.add_stm(stm),
    {
        self.statements.push(stm);
    }

    /// Sets the terminator of the block; a terminator that was set before
    /// is replaced.
    pub fn set_terminator(&mut self, term: Terminator)
        ensures
            final(self)@ == old(self)@.set_terminator(term),
    {
        self.terminator = Some(term);
    }

    /// The number of statements in the block.
    pub fn len(&self) -> (r: usize)
        ensures
            r == self@.statements.len(),
    {
        self.statements.len()
    }

    /// The statement at position `i`.
    pub fn get_stm(&self, i: usize) -> (r: &Statement)
        requires
            i < self@.statements.len(),
        ensures
            *r == self@.statements[i as int],
    {
        &self.statements[i]
    }

    /// The terminator of the block, once it was set.
    pub fn get_term(&self) -> (r: Option<&Terminator>)
        ensures
            r is Some <==> self@.terminator is Some,
            r is Some ==> *r.unwrap() == self@.terminator.unwrap(),
    {
        self.terminator.as_ref()
    }
}

/// The declaration of a variable of the user.
#[derive(Debug, PartialEq)]
pub struct VarDecl {
    name: StringId,
    mutable: bool,
    ty: Type,
    scope: ScopeId,
    span: Span,
}

pub ghost struct VarDeclView {
    pub name: StringId,
    pub mutable: bool,
    pub ty: TypeView,
    pub scope: ScopeId,
    pub span: Span,
}

impl View for VarDecl {
    type V = VarDeclView;

    closed spec fn view(&self) -> VarDeclView {
        VarDeclView {
            name: self.name,
            mutable: self.mutable,
            ty: self.ty@,
            scope: self.scope,
            span: self.span,
        }
    }
}

impl VarDecl {
    pub fn new(name: StringId, mutable: bool, ty: &Type, scope: ScopeId, span: Span) -> (r: VarDecl)
        ensures
            r@ == (VarDeclView { name, mutable, ty: ty@, scope, span }),
    {
        VarDecl { name, mutable, ty: ty.clone(), scope, span }
    }

    pub fn name(&self) -> (r: StringId)
        ensures
            r == self@.name,
    {
        self.name
    }

    pub fn is_mutable(&self) -> (r: bool)
        ensures
            r == self@.mutable,
    {
        self.mutable
    }

    pub fn ty(&self) -> (r: &Type)
        ensures
            r@ == self@.ty,
    {
        &self.ty
    }

    pub fn scope(&self) -> (r: ScopeId)
        ensures
            r == self@.scope,
    {
        self.scope
    }

    pub fn span(&self) -> (r: Span)
        ensures
            r == self@.span,
    {
        self.span
    }
}

/// The control-flow graph of one function or coroutine, with the
/// declarations of its variables and temporaries.
#[derive(Debug, PartialEq)]
pub struct Procedure {
    blocks: Vec<BasicBlock>,
    ret_ty: Type,
    vars: Vec<VarDecl>,
    temps: Vec<Type>,
    types: Vec<Type>,
    span: Span,
}

pub ghost struct ProcedureView {
    /// The blocks; the id of a block is its position.
    pub blocks: Seq<BlockView>,
    pub ret_ty: TypeView,
    /// The variables; the id of a variable is its position.
    pub vars: Seq<VarDeclView>,
    /// The types of the temporaries; the id of a temporary is its position.
    pub temps: Seq<TypeView>,
    /// The type table; the id of a type is its position.
    pub types: Seq<TypeView>,
    pub span: Span,
}

/// The position of the last variable called `name` among the first `upto`
/// variables: a later declaration shadows an earlier one.
pub open spec fn last_var(vars: Seq<VarDeclView>, name: StringId, upto: int) -> Option<VarId>
    decreases upto,
{
    if upto <= 0 || upto > vars.len() {
        None
    } else if vars[upto - 1].name == name {
        Some(VarId((upto - 1) as usize))
    } else {
        last_var(vars, name, upto - 1)
    }
}

impl ProcedureView {
    /// The procedure without blocks, variables and temporaries.
    pub open spec fn empty(ret_ty: TypeView, span: Span) -> ProcedureView {
        ProcedureView {
            blocks: Seq::empty(),
            ret_ty,
            vars: Seq::empty(),
            temps: Seq::empty(),
            types: Seq::empty(),
            span,
        }
    }

    pub open spec fn new_bb(self) -> ProcedureView {
        ProcedureView { blocks: self.blocks.push(BlockView::empty()), ..self }
    }

    pub open spec fn add_var(self, decl: VarDeclView) -> ProcedureView {
        ProcedureView { vars: self.vars.push(decl), ..self }
    }

    pub open spec fn add_temp(self, ty: TypeView) -> ProcedureView {
        ProcedureView { temps: self.temps.push(ty), ..self }
    }

    pub open spec fn add_type(self, ty: TypeView) -> ProcedureView {
        ProcedureView { types: self.types.push(ty), ..self }
    }

    /// The procedure after `stm` was appended to the block `bb`.
    pub open spec fn add_stm(self, bb: BasicBlockId, stm: Statement) -> ProcedureView {
        ProcedureView {
            blocks: self.blocks.update(bb.0 as int, self.blocks[bb.0 as int].add_stm(stm)),
            ..self
        }
    }

    /// The procedure after the terminator of the block `bb` was set.
    pub open spec fn set_terminator(self, bb: BasicBlockId, term: Terminator) -> ProcedureView {
        ProcedureView {
            blocks: self.blocks.update(
                bb.0 as int,
                self.blocks[bb.0 as int].set_terminator(term),
            ),
            ..self
        }
    }

    /// The variable that `name` stands for.
    pub open spec fn find_var(self, name: StringId) -> Option<VarId> {
        last_var(self.vars, name, self.vars.len() as int)
    }

    /// Whether every block has a terminator.
    pub open spec fn complete(self) -> bool {
        forall|i: int| 0 <= i < self.blocks.len() ==> (#[trigger] self.blocks[i]).terminator is Some
    }
}

impl View for Procedure {
    type V = ProcedureView;

    closed spec fn view(&self) -> ProcedureView {
        ProcedureView {
            blocks: Seq::new(self.blocks@.len(), |i: int| self.blocks@[i]@),
            ret_ty: self.ret_ty@,
            vars: Seq::new(self.vars@.len(), |i: int| self.vars@[i]@),
            temps: Seq::new(self.temps@.len(), |i: int| self.temps@[i]@),
            types: Seq::new(self.types@.len(), |i: int| self.types@[i]@),
            span: self.span,
        }
    }
}

impl Procedure {
    pub fn new(ret_ty: &Type, span: Span) -> (r: Procedure)
        ensures
            r@ == ProcedureView::empty(ret_ty@, span),
    {
        let r = Procedure {
            blocks: Vec::new(),
            ret_ty: ret_ty.clone(),
            vars: Vec::new(),
            temps: Vec::new(),
            types: Vec::new(),
            span,
        };
        assert(r@.blocks =~= Seq::empty());
        assert(r@.vars =~= Seq::empty());
        assert(r@.temps =~= Seq::empty());
        assert(r@.types =~= Seq::empty());
        r
    }

    pub fn set_span(&mut self, span: Span)
        ensures
            final(self)@ == (ProcedureView { span, ..old(self)@ }),
    {
        self.span = span;
    }

    pub fn set_ret_ty(&mut self, ty: &Type)
        ensures
            final(self)@ == (ProcedureView { ret_ty: ty@, ..old(self)@ }),
    {
        self.ret_ty = ty.clone();
    }

    pub fn span(&self) -> (r: Span)
        ensures
            r == self@.span,
    {
        self.span
    }

    pub fn ret_ty(&self) -> (r: &Type)
        ensures
            r@ == self@.ret_ty,
    {
        &self.ret_ty
    }

    /// Adds an empty block and returns its id.
    pub fn new_bb(&mut self) -> (r: BasicBlockId)
        ensures
            r == BasicBlockId(old(self)@.blocks.len() as usize),
            final(self)@ == old(self)@.new_bb(),
    {
        let id = BasicBlockId(self.blocks.len());
        self.blocks.push(BasicBlock::new());
        assert(self@.blocks =~= old(self)@.blocks.push(BlockView::empty()));
        id
    }

    /// The number of blocks.
    pub fn bb_count(&self) -> (r: usize)
        ensures
            r == self@.blocks.len(),
    {
        self.blocks.len()
    }

    /// The block with the given id.
    pub fn get_bb(&self, id: BasicBlockId) -> (r: &BasicBlock)
        requires
            id.0 < self@.blocks.len(),
        ensures
            r@ == self@.blocks[id.0 as int],
    {
        &self.blocks[id.0]
    }

    /// Appends a statement to the block with the given id.
    pub fn add_stm(&mut self, id: BasicBlockId, stm: Statement)
        requires
            id.0 < old(self)@.blocks.len(),
        ensures
            final(self)@ == old(self)@.add_stm(id, stm),
    {
        let mut bb = BasicBlock::new();
        core::mem::swap(&mut bb, &mut self.blocks[id.0]);
        bb.add_stm(stm);
        core::mem::swap(&mut bb, &mut self.blocks[id.0]);
        assert(self@.blocks =~= old(self)@.add_stm(id, stm).blocks);
        assert(self@.vars =~= old(self)@.vars);
        assert(self@.temps =~= old(self)@.temps);
        assert(self@.types =~= old(self)@.types);
    }

    /// Sets the terminator of the block with the given id.
    pub fn set_terminator(&mut self, id: BasicBlockId, term: Terminator)
        requires
            id.0 < old(self)@.blocks.len(),
        ensures
            final(self)@ == old(self)@.set_terminator(id, term),
    {
        let mut bb = BasicBlock::new();
        core::mem::swap(&mut bb, &mut self.blocks[id.0]);
        bb.set_terminator(term);
        core::mem::swap(&mut bb, &mut self.blocks[id.0]);
        assert(self@.blocks =~= old(self)@.set_terminator(id, term).blocks);
        assert(self@.vars =~= old(self)@.vars);
        assert(self@.temps =~= old(self)@.temps);
        assert(self@.types =~= old(self)@.types);
    }

    /// Declares a variable of the user and returns its id.
    pub fn add_var(&mut self, name: StringId, mutable: bool, ty: &Type, scope: ScopeId, span: Span)
        -> (r: VarId)
        ensures
            r == VarId(old(self)@.vars.len() as usize),
            final(self)@ == old(self)@.add_var(VarDeclView { name, mutable, ty: ty@, scope, span }),
    {
        let id = VarId(self.vars.len());
        self.vars.push(VarDecl::new(name, mutable, ty, scope, span));
        assert(self@.vars =~= old(self)@.vars.push(
            VarDeclView { name, mutable, ty: ty@, scope, span },
        ));
        assert(self@.blocks =~= old(self)@.blocks);
        assert(self@.temps =~= old(self)@.temps);
        assert(self@.types =~= old(self)@.types);
        id
    }

    /// Declares a temporary of the given type and returns its id.
    pub fn add_temp(&mut self, ty: &Type) -> (r: TempId)
        ensures
            r == TempId(old(self)@.temps.len() as usize),
            final(self)@ == old(self)@.add_temp(ty@),
    {
        let id = TempId(self.temps.len());
        self.temps.push(ty.clone());
        assert(self@.temps =~= old(self)@.temps.push(ty@));
        assert(self@.blocks =~= old(self)@.blocks);
        assert(self@.vars =~= old(self)@.vars);
        assert(self@.types =~= old(self)@.types);
        id
    }

    /// Enters a type into the type table and returns its id.
    pub fn add_type(&mut self, ty: &Type) -> (r: TypeId)
        ensures
            r == TypeId(old(self)@.types.len() as usize),
            final(self)@ == old(self)@.add_type(ty@),
    {
        let id = TypeId(self.types.len());
        self.types.push(ty.clone());
        assert(self@.types =~= old(self)@.types.push(ty@));
        assert(self@.blocks =~= old(self)@.blocks);
        assert(self@.vars =~= old(self)@.vars);
        assert(self@.temps =~= old(self)@.temps);
        id
    }

    /// The number of variables of the user.
    pub fn var_count(&self) -> (r: usize)
        ensures
            r == self@.vars.len(),
    {
        self.vars.len()
    }

    /// The declaration of the variable with the given id.
    pub fn get_var(&self, id: VarId) -> (r: &VarDecl)
        requires
            id.0 < self@.vars.len(),
        ensures
            r@ == self@.vars[id.0 as int],
    {
        &self.vars[id.0]
    }

    /// The number of temporaries.
    pub fn temp_count(&self) -> (r: usize)
        ensures
            r == self@.temps.len(),
    {
        self.temps.len()
    }

    /// The type of the temporary with the given id.
    pub fn get_temp(&self, id: TempId) -> (r: &Type)
        requires
            id.0 < self@.temps.len(),
        ensures
            r@ == self@.temps[id.0 as int],
    {
        &self.temps[id.0]
    }

    /// The variable that `name` stands for: the one that was declared last
    /// under that name.
    pub fn find_var(&self, name: StringId) -> (r: Option<VarId>)
        ensures
            r == self@.find_var(name),
            r is Some ==> r.unwrap().0 < self@.vars.len(),
    {
        let mut i: usize = self.vars.len();
        while i > 0
            invariant
                0 <= i <= self.vars.len(),
                self@.vars.len() == self.vars.len(),
                self@.find_var(name) == last_var(self@.vars, name, i as int),
            decreases i,
        {
            i -= 1;
            if self.vars[i].name == name {
                return Some(VarId(i));
            }
        }
        None
    }
}

/// The procedures of a project.
#[derive(Debug, PartialEq)]
pub struct MirProject {
    functions: Vec<Procedure>,
}

impl View for MirProject {
    type V = Seq<ProcedureView>;

    closed spec fn view(&self) -> Seq<ProcedureView> {
        Seq::new(self.functions@.len(), |i: int| self.functions@[i]@)
    }
}

impl MirProject {
    pub fn new() -> (r: MirProject)
        ensures
            r@ == Seq::<ProcedureView>::empty(),
    {
        let r = MirProject { functions: Vec::new() };
        assert(r@ =~= Seq::empty());
        r
    }

    /// Adds a procedure to the project.
    pub fn add_func(&mut self, func: Procedure)
        ensures
            final(self)@ == old(self)@.push(func@),
    {
        self.functions.push(func);
        assert(self@ =~= old(self)@.push(func@));
    }

    /// The number of procedures.
    pub fn len(&self) -> (r: usize)
        ensures
            r == self@.len(),
    {
        self.functions.len()
    }

    /// The procedure at position `i`.
    pub fn get_func(&self, i: usize) -> (r: &Procedure)
        requires
            i < self@.len(),
        ensures
            r@ == self@[i as int],
    {
        &self.functions[i]
    }
}

} // verus!
