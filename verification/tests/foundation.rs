use braid::ast::path::{Element, Path, PathError};
use braid::ast::ty::Type;
use braid::display::{CompilerDisplay, CompilerDisplayError};
use braid::mir::ir::{
    BasicBlockId, BinOp, Constant, LValue, MirProject, Operand, Procedure, RValue, Statement,
    StatementKind, TempId, Terminator, TerminatorKind, TypeId, UnOp, VarDecl, VarId,
};
use braid::mir::transformer::{Transformer, TransformerError};
use braid::mir::traverser::{is_supported, Traverser};
use braid::semantics::error::SemanticError;
use braid::semantics::symbol_table::{ScopeType, SymbolTable};
use braid::source::span::{Offset, Span};
use braid::stringtable::{StringId, StringTable, StringTableError};

fn span(low: u32, high: u32) -> Span {
    Span::new(Offset::new(low), Offset::new(high))
}

#[test]
fn spans_cover_and_intersect() {
    let a = span(2, 5);
    let b = span(4, 9);
    let c = span(5, 6);
    assert_eq!(a.low(), Offset::new(2));
    assert_eq!(a.high().as_u32(), 5);
    assert_eq!(Span::cover(a, b), span(2, 9));
    assert_eq!(Span::cover(b, a), span(2, 9));
    assert_eq!(Span::cover(a, c), span(2, 6));
    assert_eq!(a.intersection(b), Some(span(4, 5)));
    assert!(a.intersects(b));
    // A span ends before its upper bound: spans that only touch share
    // nothing.
    assert_eq!(a.intersection(c), None);
    assert!(!a.intersects(c));
    assert_eq!(Span::zero(), span(0, 0));
    assert!(!Span::zero().intersects(Span::zero()));
    assert_eq!(a.end_point(), span(5, 5));
    assert_eq!(Span::zero().end_point(), Span::zero());
}

#[test]
fn names_are_interned_once() {
    let mut table = StringTable::new();
    let a = table.insert("a".into());
    let b = table.insert("b".into());
    assert_eq!(a, StringId::new());
    assert_eq!(b.as_u32(), 1);
    assert_eq!(table.insert("a".into()), a);
    assert_eq!(table.len(), 2);
    assert_eq!(table.find(&"b".to_string()), Some(b));
    assert_eq!(table.find(&"c".to_string()), None);
    assert_eq!(table.get(b).unwrap(), "b");
    assert_eq!(table.get(StringId(2)), Err(StringTableError::NotFound));
    assert_eq!(a.fmt(&table), Ok("a".to_string()));
    assert_eq!(StringId(9).fmt(&table), Err(CompilerDisplayError::StringIdNotFound));
}

#[test]
fn paths_are_made_canonical() {
    let (a, b, c) = (Element::Id(StringId(0)), Element::Id(StringId(1)), Element::Id(StringId(2)));
    let root = Element::CanonicalRoot;
    let current = Path::from_elements(vec![root, a, b]);
    let to = |steps: Vec<Element>| Path::from_elements(steps).to_canonical(&current);

    assert_eq!(to(vec![c]), Ok(Path::from_elements(vec![root, a, b, c])));
    assert_eq!(to(vec![Element::Selph, c]), Ok(Path::from_elements(vec![root, a, b, c])));
    assert_eq!(to(vec![Element::Super, c]), Ok(Path::from_elements(vec![root, a, c])));
    assert_eq!(to(vec![Element::Super, Element::Super, c]), Ok(Path::from_elements(vec![root, c])));
    assert_eq!(
        to(vec![Element::Super, Element::Super, Element::Super, c]),
        Err(PathError::SubsedingRoot)
    );
    assert_eq!(to(vec![Element::FileRoot, c]), Ok(Path::from_elements(vec![root, c])));
    assert_eq!(to(vec![]), Ok(Path::from_elements(vec![root, a, b])));
    // A canonical path stays as it is, and canonicalizing twice changes
    // nothing.
    assert_eq!(to(vec![root, c]), Ok(Path::from_elements(vec![root, c])));
    let once = to(vec![Element::Super, c]).unwrap();
    let other = Path::from_elements(vec![root, c, c]);
    assert_eq!(once.to_canonical(&other), Ok(once.clone()));
    assert!(once.is_canonical());
    assert!(!Path::from_elements(vec![a]).is_canonical());
    assert!(!Path::new().is_canonical());

    let mut p: Path = vec![root, a].into();
    p.push(StringId(1));
    p.push_element(Element::Super);
    assert_eq!(p.len(), 4);
    assert_eq!(p.item(), None);
    assert_eq!(p.pop(), Some(Element::Super));
    assert_eq!(p.item(), Some(StringId(1)));
    assert_eq!(p.last(), Some(b));
    assert_eq!(p.get(0), Some(root));
    assert_eq!(p.get(3), None);
    assert_eq!(p.parent(), Path::from_elements(vec![root, a]));
    assert_eq!(Path::new().parent(), Path::new());
    assert_eq!(Path::new().pop(), None);
    assert!(p.same(&current));
    assert!(!p.same(&p.parent()));
    assert_eq!(SemanticError::from_path_error(PathError::SubsedingRoot), SemanticError::PathTooSuper);
}

#[test]
fn types_know_their_kind() {
    let fields = vec![(StringId(0), Type::I8), (StringId(1), Type::Bool), (StringId(0), Type::U8)];
    let s = Type::StructDef(fields.clone());
    assert_eq!(s.get_members(), Some(&fields));
    assert_eq!(s.get_member(StringId(0)), Some(&Type::I8));
    assert_eq!(s.get_member(StringId(1)), Some(&Type::Bool));
    assert_eq!(s.get_member(StringId(2)), None);
    assert_eq!(Type::Unit.get_members(), None);
    assert_eq!(Type::Unit.get_member(StringId(0)), None);
    let path = Path::from_elements(vec![Element::Id(StringId(4))]);
    assert_eq!(Type::Custom(path.clone()).get_path(), Some(&path));
    assert_eq!(s.get_path(), None);
    for (ty, signed, unsigned) in [
        (Type::U8, false, true),
        (Type::U16, false, true),
        (Type::U32, false, true),
        (Type::U64, false, true),
        (Type::I8, true, false),
        (Type::I16, true, false),
        (Type::I32, true, false),
        (Type::I64, true, false),
        (Type::Bool, false, false),
        (Type::StringLiteral, false, false),
        (Type::Unit, false, false),
        (Type::Unknown, false, false),
        (Type::Array(Box::new(Type::I8), 2), false, false),
        (Type::Coroutine(Box::new(Type::I8)), false, false),
    ] {
        assert_eq!(ty.is_signed_int(), signed);
        assert_eq!(ty.is_unsigned_int(), unsigned);
        assert_eq!(ty.is_integral(), signed || unsigned);
        assert!(ty.same(&ty.clone()));
        assert!(!ty.same(&s));
    }
    let f = Type::FunctionDef(vec![Type::I8, s.clone()], Box::new(Type::Unit));
    assert!(f.same(&f.clone()));
    assert!(!f.same(&Type::CoroutineDef(vec![Type::I8, s.clone()], Box::new(Type::Unit))));
    assert!(!f.same(&Type::FunctionDef(vec![Type::I8], Box::new(Type::Unit))));
    assert!(!Type::ExternDecl(vec![], true, Box::new(Type::Unit))
        .same(&Type::ExternDecl(vec![], false, Box::new(Type::Unit))));
    assert!(!Type::Array(Box::new(Type::I8), 2).same(&Type::Array(Box::new(Type::I8), 3)));
}

#[test]
fn a_table_declares_a_name_once() {
    let mut t = SymbolTable::new_module(StringId(5));
    assert_eq!(t.scope_type(), &ScopeType::Module { name: StringId(5) });
    assert!(t.scope_type().is_boundary());
    assert!(!SymbolTable::new().scope_type().is_boundary());
    assert_eq!(t.add(StringId(0), Type::I8, true, false), Ok(()));
    assert_eq!(
        t.add(StringId(0), Type::Bool, false, false),
        Err(SemanticError::AlreadyDeclared(StringId(0)))
    );
    assert_eq!(t.size(), 1);
    assert_eq!(t.table()[0].ty, Type::I8);
    assert!(t.get(StringId(0)).unwrap().mutable);
    assert!(t.get(StringId(1)).is_none());
    assert_eq!(t.clone(), t);
}

/// A transformer that writes down what it is asked to do.
struct Recorder {
    log: Vec<String>,
    refuse_var: Option<VarId>,
}

impl Transformer<String, String> for Recorder {
    fn create_bb(&mut self, bb: BasicBlockId) -> Result<(), TransformerError> {
        self.log.push(format!("create {}", bb.index()));
        Ok(())
    }

    fn set_bb(&mut self, bb: BasicBlockId) -> Result<(), TransformerError> {
        self.log.push(format!("set {}", bb.index()));
        Ok(())
    }

    fn alloc_var(&mut self, id: VarId, decl: &VarDecl) -> Result<(), TransformerError> {
        if self.refuse_var == Some(id) {
            return Err(TransformerError::VariableAlreadyAllocated);
        }
        self.log.push(format!("alloc {} {:?}", id.index(), decl.ty()));
        Ok(())
    }

    fn alloc_temp(&mut self, id: TempId, ty: &Type) -> Result<(), TransformerError> {
        self.log.push(format!("alloc t{} {:?}", id.index(), ty));
        Ok(())
    }

    fn bin_op(&mut self, op: BinOp, left: String, right: String) -> String {
        self.log.push(format!("{:?} {} {}", op, left, right));
        format!("({:?} {} {})", op, left, right)
    }

    fn un_op(&mut self, op: UnOp, operand: String) -> String {
        self.log.push(format!("{:?} {}", op, operand));
        format!("({:?} {})", op, operand)
    }

    fn term_return(&mut self) {
        self.log.push("return".to_string());
    }

    fn term_goto(&mut self, target: BasicBlockId) {
        self.log.push(format!("goto {}", target.index()));
    }

    fn term_cond_goto(&mut self, cond: String, then_bb: BasicBlockId, else_bb: BasicBlockId) {
        self.log.push(format!("if {} goto {} else {}", cond, then_bb.index(), else_bb.index()));
    }

    fn assign(&mut self, _span: Span, l: String, v: String) {
        self.log.push(format!("{} := {}", l, v));
    }

    fn var(&self, v: VarId) -> String {
        format!("v{}", v.index())
    }

    fn temp(&self, t: TempId) -> String {
        format!("t{}", t.index())
    }

    fn return_pointer(&self) -> String {
        "ret".to_string()
    }

    fn load(&self, lv: String) -> String {
        format!("load {}", lv)
    }

    fn const_unit(&self) -> String {
        "()".to_string()
    }

    fn const_i8(&self, i: i8) -> String {
        format!("{}i8", i)
    }

    fn const_i16(&self, i: i16) -> String {
        format!("{}i16", i)
    }

    fn const_i32(&self, i: i32) -> String {
        format!("{}i32", i)
    }

    fn const_i64(&self, i: i64) -> String {
        format!("{}", i)
    }

    fn const_u8(&self, i: u8) -> String {
        format!("{}u8", i)
    }

    fn const_u16(&self, i: u16) -> String {
        format!("{}u16", i)
    }

    fn const_u32(&self, i: u32) -> String {
        format!("{}u32", i)
    }

    fn const_u64(&self, i: u64) -> String {
        format!("{}u64", i)
    }

    fn const_bool(&self, b: bool) -> String {
        format!("{}", b)
    }

    fn const_stringliteral(&self, s: StringId) -> String {
        format!("s{}", s.as_u32())
    }

    fn const_null(&self) -> String {
        "null".to_string()
    }
}

fn assign_to(var: usize, value: Operand) -> Statement {
    Statement::new(
        StatementKind::Assign(LValue::Var(VarId::new(var)), RValue::Use(value)),
        Span::zero(),
    )
}

fn sample() -> Procedure {
    let mut p = Procedure::new(&Type::Unit, Span::zero());
    let b0 = p.new_bb();
    let b1 = p.new_bb();
    let b2 = p.new_bb();
    let x = p.add_var(StringId(0), false, &Type::I64, braid::mir::ir::ScopeId::new(0), Span::zero());
    let y = p.add_var(StringId(1), false, &Type::Bool, braid::mir::ir::ScopeId::new(0), Span::zero());
    p.add_stm(b0, assign_to(x.index(), Operand::Constant(Constant::I64(5))));
    p.add_stm(b0, assign_to(y.index(), Operand::Constant(Constant::Bool(true))));
    p.set_terminator(
        b0,
        Terminator::new(
            TerminatorKind::CondGoTo { cond: Operand::LValue(LValue::Var(y)), tru: b1, fls: b2 },
            Span::zero(),
        ),
    );
    p.add_stm(b1, assign_to(x.index(), Operand::LValue(LValue::Var(x))));
    p.set_terminator(b1, Terminator::new(TerminatorKind::GoTo { target: b2 }, Span::zero()));
    p.set_terminator(b2, Terminator::new(TerminatorKind::Return, Span::zero()));
    p
}

#[test]
fn the_traverser_replays_every_block() {
    let mut project = MirProject::new();
    project.add_func(sample());
    assert_eq!(project.len(), 1);
    assert!(is_supported(&project));
    let mut traverser = Traverser::new(&project, Recorder { log: vec![], refuse_var: None });
    assert_eq!(traverser.map(), Ok(()));
    let recorder = traverser.into_transformer();
    assert_eq!(
        recorder.log,
        vec![
            "create 0",
            "create 1",
            "create 2",
            "set 0",
            "alloc 0 I64",
            "alloc 1 Bool",
            "set 0",
            "v0 := 5",
            "v1 := true",
            "if load v1 goto 1 else 2",
            "set 1",
            "v0 := load v0",
            "goto 2",
            "set 2",
            "return",
        ]
    );

    // What the transformer refuses ends the traversal.
    let mut traverser =
        Traverser::new(&project, Recorder { log: vec![], refuse_var: Some(VarId::new(1)) });
    assert_eq!(traverser.map(), Err(TransformerError::VariableAlreadyAllocated));
    let recorder = traverser.into_transformer();
    assert_eq!(recorder.log.last().unwrap(), "alloc 0 I64");

    // A block without a terminator cannot be replayed.
    let mut open = MirProject::new();
    let mut p = Procedure::new(&Type::Unit, Span::zero());
    p.new_bb();
    open.add_func(p);
    assert!(!is_supported(&open));
    let mut stores_temp = MirProject::new();
    let mut p = sample();
    let t = p.add_temp(&Type::I64);
    p.add_stm(
        BasicBlockId::new(2),
        Statement::new(
            StatementKind::Assign(
                LValue::Temp(t),
                RValue::BinOp(
                    BinOp::Add,
                    Operand::Constant(Constant::U8(1)),
                    Operand::LValue(LValue::ReturnPointer),
                ),
            ),
            Span::zero(),
        ),
    );
    p.add_stm(
        BasicBlockId::new(2),
        Statement::new(
            StatementKind::Assign(
                LValue::ReturnPointer,
                RValue::UnOp(UnOp::Negate, Operand::LValue(LValue::Temp(t))),
            ),
            Span::zero(),
        ),
    );
    stores_temp.add_func(p);
    assert!(is_supported(&stores_temp));
    let mut traverser =
        Traverser::new(&stores_temp, Recorder { log: vec![], refuse_var: None });
    assert_eq!(traverser.map(), Ok(()));
    let log = traverser.into_transformer().log;
    assert_eq!(
        log[log.len() - 6..],
        [
            "set 2",
            "Add 1u8 load ret",
            "t0 := (Add 1u8 load ret)",
            "Negate load t0",
            "ret := (Negate load t0)",
            "return",
        ]
    );
    assert_eq!(log[6], "alloc t0 I64");

    // The size of a type has no form yet.
    let mut sized = MirProject::new();
    let mut p = sample();
    let id: TypeId = p.add_type(&Type::I64);
    p.add_stm(
        BasicBlockId::new(2),
        assign_to(0, Operand::Constant(Constant::SizeOf(id))),
    );
    sized.add_func(p);
    assert!(!is_supported(&sized));
    assert_eq!(stores_temp.get_func(0).get_bb(BasicBlockId::new(2)).len(), 2);
}
