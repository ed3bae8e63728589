//! The scopes of the code generator: for every symbol of a scope, its size
//! and its offset in the frame.
use crate::ast::path::{Element, Path};
use crate::ast::ty::{Type, TypeView};
use crate::text::same_text;
use vstd::prelude::*;

verus! {

/// How far the frame is filled.
#[derive(Debug, PartialEq)]
pub struct LayoutData {
    pub offset: i32,
}

impl LayoutData {
    pub fn new(offset: i32) -> (r: LayoutData)
        ensures
            r.offset == offset,
    {
        LayoutData { offset }
    }
}

/// The kind of a scope.
#[derive(Debug, PartialEq)]
pub enum Level {
    Block,
    Routine { next_label: i32, allocation: i32 },
    Module { name: String },
}

impl Level {
    /// The number of bytes that the frame of a routine takes.
    pub fn allocation(&self) -> (r: Option<i32>)
        ensures
            r == (match self {
                Level::Routine { allocation, .. } => Some(*allocation),
                _ => None,
            }),
    {
        match self {
            Level::Block | Level::Module { .. } => None,
            Level::Routine { allocation, .. } => Some(*allocation),
        }
    }
}

/// A symbol with its place in the frame.
#[derive(Debug, PartialEq)]
pub struct Symbol {
    pub name: String,
    pub size: i32,
    pub offset: i32,
}

impl Symbol {
    pub fn new(name: &str, size: i32, offset: i32) -> (r: Symbol)
        ensures
            r.name@ == name@,
            r.size == size,
            r.offset == offset,
    {
        Symbol { name: name.to_owned(), size, offset }
    }
}

#[derive(Debug, PartialEq)]
pub struct Scope {
    id: u32,
    line: u32,
    level: Level,
    ty: Type,
    symbols: Vec<Symbol>,
    canon_path: Path,
}

/// The position of the symbol that was inserted last under `name` among
/// the first `upto` symbols.
pub open spec fn last_symbol(symbols: Seq<Symbol>, name: Seq<char>, upto: int) -> Option<int>
    decreases upto,
{
    if upto <= 0 || upto > symbols.len() {
        None
    } else if symbols[upto - 1].name@ == name {
        Some(upto - 1)
    } else {
        last_symbol(symbols, name, upto - 1)
    }
}

/// How far the frame is filled after the first `upto` of the symbols were
/// put behind its first `start` bytes.
pub open spec fn filled(sizes: Seq<(String, i32)>, upto: int, start: int) -> int
    decreases upto,
{
    if upto <= 0 || upto > sizes.len() {
        start
    } else {
        filled(sizes, upto - 1, start) + sizes[upto - 1].1
    }
}

/// The offset that the symbol at position `k` gets: how far the frame is
/// filled with it.
pub open spec fn placed(sizes: Seq<(String, i32)>, k: int, start: int) -> int {
    filled(sizes, k + 1, start)
}

/// Whether the frame can hold the symbols behind its first `start` bytes:
/// no offset leaves the range of offsets.
pub open spec fn fits(sizes: Seq<(String, i32)>, start: int) -> bool {
    forall|k: int| 0 < k <= sizes.len()
        ==> i32::MIN <= #[trigger] filled(sizes, k, start) <= i32::MAX
}

/// The first symbols of a list fill the frame as they do in a list
/// that is cut off behind them.
pub proof fn lemma_filled_of_prefix(sizes: Seq<(String, i32)>, cut: int, upto: int, start: int)
    requires
        0 <= upto <= cut <= sizes.len(),
    ensures
        filled(sizes.take(cut), upto, start) == filled(sizes, upto, start),
    decreases upto,
{
    if upto > 0 {
        lemma_filled_of_prefix(sizes, cut, upto - 1, start);
    }
}

impl Scope {
    /// The symbols in the order of their insertion.  A symbol that is
    /// inserted under a name that is taken replaces the earlier one: the
    /// name stands for the symbol that was inserted last.
    pub closed spec fn symbols(&self) -> Seq<Symbol> {
        self.symbols@
    }

    pub closed spec fn spec_level(&self) -> Level {
        self.level
    }

    pub closed spec fn spec_id(&self) -> u32 {
        self.id
    }

    pub closed spec fn spec_line(&self) -> u32 {
        self.line
    }

    pub closed spec fn spec_ty(&self) -> TypeView {
        self.ty@
    }

    pub closed spec fn spec_canon_path(&self) -> Seq<Element> {
        self.canon_path@
    }

    /// The symbol that `name` stands for.
    pub open spec fn lookup(&self, name: Seq<char>) -> Option<Symbol> {
        match last_symbol(self.symbols(), name, self.symbols().len() as int) {
            Some(i) => Some(self.symbols()[i]),
            None => None,
        }
    }

    /// An empty scope of the given kind, without a place in the tree.
    pub fn new(level: Level) -> (r: Scope)
        ensures
            r.symbols() == Seq::<Symbol>::empty(),
            r.spec_level() == level,
            r.spec_id() == 0,
            r.spec_line() == 0,
            r.spec_ty() == TypeView::Unit,
            r.spec_canon_path() == Seq::<Element>::empty(),
    {
        Scope {
            id: 0,
            line: 0,
            level,
            ty: Type::Unit,
            symbols: Vec::new(),
            canon_path: Path::new(),
        }
    }

    /// An empty scope for the node with the given id, line, path and type.
    pub fn for_node(id: u32, line: u32, level: Level, canon_path: Path, ty: Type) -> (r: Scope)
        ensures
            r.symbols() == Seq::<Symbol>::empty(),
            r.spec_level() == level,
            r.spec_id() == id,
            r.spec_line() == line,
            r.spec_ty() == ty@,
            r.spec_canon_path() == canon_path@,
    {
        Scope { id, line, level, ty, symbols: Vec::new(), canon_path }
    }

    pub fn id(&self) -> (r: u32)
        ensures
            r == self.spec_id(),
    {
        self.id
    }

    pub fn level(&self) -> (r: &Level)
        ensures
            *r == self.spec_level(),
    {
        &self.level
    }

    /// The number of bytes that the frame of the routine takes, where the
    /// scope is that of a routine.
    pub fn local_allocation(&self) -> (r: Option<i32>)
        ensures
            r == (match self.spec_level() {
                Level::Routine { allocation, .. } => Some(allocation),
                _ => None,
            }),
    {
        self.level.allocation()
    }

    /// Puts a symbol of `size` bytes into the frame, after the first
    /// `offset` bytes, and returns how far the frame is filled then.
    pub fn insert(&mut self, name: &str, size: i32, offset: i32) -> (r: i32)
        requires
            i32::MIN <= offset + size <= i32::MAX,
        ensures
            r == offset + size,
            final(self).symbols().len() == old(self).symbols().len() + 1,
            final(self).symbols().drop_last() == old(self).symbols(),
            final(self).symbols().last().name@ == name@,
            final(self).symbols().last().size == size,
            final(self).symbols().last().offset == offset + size,
            final(self).lookup(name@) == Some(final(self).symbols().last()),
            final(self).spec_level() == old(self).spec_level(),
            final(self).spec_id() == old(self).spec_id(),
            final(self).spec_line() == old(self).spec_line(),
            final(self).spec_ty() == old(self).spec_ty(),
            final(self).spec_canon_path() == old(self).spec_canon_path(),
    {
        self.symbols.push(Symbol::new(name, size, offset + size));
        assert(self.symbols@.drop_last() =~= old(self).symbols@);
        offset + size
    }

    /// Whether the scope holds the symbols of `sizes`, in their order,
    /// behind the symbols `before`, the first of them behind the first
    /// `start` bytes of the frame.
    pub open spec fn holds(&self, before: Seq<Symbol>, sizes: Seq<(String, i32)>,
        start: int) -> bool {
        &&& self.symbols().len() == before.len() + sizes.len()
        &&& forall|k: int| 0 <= k < before.len() ==> self.symbols()[k] == before[k]
        &&& forall|k: int|
            0 <= k < sizes.len() ==> {
                let symbol = #[trigger] self.symbols()[before.len() + k];
                &&& symbol.name@ == sizes[k].0@
                &&& symbol.size == sizes[k].1
                &&& symbol.offset == placed(sizes, k, start)
            }
    }

    /// Puts the symbols into the frame, one behind the other, after the
    /// first `offset` bytes, and returns how far the frame is filled then.
    /// Nothing where an offset would leave the range of offsets.
    pub fn fill(&mut self, sizes: &Vec<(String, i32)>, offset: i32) -> (r: Option<i32>)
        ensures
            r is Some <==> fits(sizes@, offset as int),
            r is Some ==> r.unwrap() == filled(sizes@, sizes@.len() as int, offset as int)
                && final(self).holds(old(self).symbols(), sizes@, offset as int),
            final(self).spec_level() == old(self).spec_level(),
            final(self).spec_id() == old(self).spec_id(),
            final(self).spec_line() == old(self).spec_line(),
            final(self).spec_ty() == old(self).spec_ty(),
            final(self).spec_canon_path() == old(self).spec_canon_path(),
    {
        let mut at = offset;
        let mut i: usize = 0;
        while i < sizes.len()
            invariant
                i <= sizes@.len(),
                at == filled(sizes@, i as int, offset as int),
                forall|k: int|
                    0 < k <= i ==> i32::MIN <= #[trigger] filled(sizes@, k, offset as int)
                        <= i32::MAX,
                self.holds(old(self).symbols(), sizes@.take(i as int), offset as int),
                self.spec_level() == old(self).spec_level(),
                self.spec_id() == old(self).spec_id(),
                self.spec_line() == old(self).spec_line(),
                self.spec_ty() == old(self).spec_ty(),
                self.spec_canon_path() == old(self).spec_canon_path(),
            decreases sizes@.len() - i,
        {
            let size = sizes[i].1;
            if (size >= 0 && at > i32::MAX - size) || (size < 0 && at < i32::MIN - size) {
                assert(!(i32::MIN <= filled(sizes@, i + 1, offset as int) <= i32::MAX));
                return None;
            }
            let ghost before = self.symbols();
            at = self.insert(sizes[i].0.as_str(), size, at);
            proof {
                let now = self.symbols();
                assert(before == now.drop_last());
                assert forall|k: int| 0 <= k < i implies #[trigger] placed(
                    sizes@.take(i + 1),
                    k,
                    offset as int,
                ) == placed(sizes@.take(i as int), k, offset as int) by {
                    lemma_filled_of_prefix(sizes@, i + 1, k + 1, offset as int);
                    lemma_filled_of_prefix(sizes@, i as int, k + 1, offset as int);
                }
                lemma_filled_of_prefix(sizes@, i + 1, i + 1, offset as int);
                assert forall|k: int| 0 <= k < old(self).symbols().len() implies now[k] == old(
                    self,
                ).symbols()[k] by {
                    assert(now[k] == before[k]);
                }
                assert forall|k: int| 0 <= k < i + 1 implies ({
                    let symbol = #[trigger] now[old(self).symbols().len() + k];
                    &&& symbol.name@ == sizes@.take(i + 1)[k].0@
                    &&& symbol.size == sizes@.take(i + 1)[k].1
                    &&& symbol.offset == placed(sizes@.take(i + 1), k, offset as int)
                }) by {
                    if k < i {
                        assert(now[old(self).symbols().len() + k] == before[old(
                            self,
                        ).symbols().len() + k]);
                        assert(sizes@.take(i + 1)[k] == sizes@.take(i as int)[k]);
                    }
                }
            }
            i += 1;
        }
        assert(sizes@.take(sizes@.len() as int) =~= sizes@);
        Some(at)
    }

    /// The scope of a block with the given symbols, laid out behind what
    /// the frame holds already, and how far the frame is filled then.
    pub fn local_from(
        id: u32,
        line: u32,
        canon_path: Path,
        ty: Type,
        sizes: &Vec<(String, i32)>,
        current_layout: LayoutData,
    ) -> (r: Option<(Scope, LayoutData)>)
        ensures
            r is Some <==> fits(sizes@, current_layout.offset as int),
            r is Some ==> {
                let (scope, layout) = r.unwrap();
                &&& scope.holds(Seq::empty(), sizes@, current_layout.offset as int)
                &&& layout.offset == filled(
                    sizes@,
                    sizes@.len() as int,
                    current_layout.offset as int,
                )
                &&& scope.spec_level() == Level::Block
                &&& scope.spec_id() == id
                &&& scope.spec_line() == line
                &&& scope.spec_ty() == ty@
                &&& scope.spec_canon_path() == canon_path@
            },
    {
        let mut scope = Scope::for_node(id, line, Level::Block, canon_path, ty);
        match scope.fill(sizes, current_layout.offset) {
            Some(offset) => Some((scope, LayoutData::new(offset))),
            None => None,
        }
    }

    /// The scope of a routine with the given symbols, laid out behind the
    /// first `current_offset` bytes of the frame, and the number of bytes
    /// that the frame takes then, which the scope records.
    pub fn routine_from(
        id: u32,
        line: u32,
        canon_path: Path,
        ty: Type,
        sizes: &Vec<(String, i32)>,
        current_offset: i32,
    ) -> (r: Option<(Scope, i32)>)
        ensures
            r is Some <==> fits(sizes@, current_offset as int),
            r is Some ==> {
                let (scope, offset) = r.unwrap();
                &&& scope.holds(Seq::empty(), sizes@, current_offset as int)
                &&& offset == filled(sizes@, sizes@.len() as int, current_offset as int)
                &&& scope.spec_level() == (Level::Routine { next_label: 0, allocation: offset })
                &&& scope.spec_id() == id
                &&& scope.spec_line() == line
                &&& scope.spec_ty() == ty@
                &&& scope.spec_canon_path() == canon_path@
            },
    {
        let mut scope = Scope::for_node(
            id,
            line,
            Level::Routine { next_label: 0, allocation: 0 },
            canon_path,
            ty,
        );
        match scope.fill(sizes, current_offset) {
            Some(offset) => {
                scope.level = Level::Routine { next_label: 0, allocation: offset };
                Some((scope, offset))
            },
            None => None,
        }
    }

    /// The scope of the module `name` with the given symbols, laid out
    /// behind what the frame holds already, and how far the frame is filled
    /// then.
    pub fn module_from(
        id: u32,
        line: u32,
        name: &str,
        canon_path: Path,
        ty: Type,
        sizes: &Vec<(String, i32)>,
        current_layout: LayoutData,
    ) -> (r: Option<(Scope, LayoutData)>)
        ensures
            r is Some <==> fits(sizes@, current_layout.offset as int),
            r is Some ==> {
                let (scope, layout) = r.unwrap();
                &&& scope.holds(Seq::empty(), sizes@, current_layout.offset as int)
                &&& layout.offset == filled(
                    sizes@,
                    sizes@.len() as int,
                    current_layout.offset as int,
                )
                &&& scope.spec_level() is Module
                &&& scope.spec_level()->name@ == name@
                &&& scope.spec_id() == id
                &&& scope.spec_line() == line
                &&& scope.spec_ty() == ty@
                &&& scope.spec_canon_path() == canon_path@
            },
    {
        let mut scope = Scope::for_node(
            id,
            line,
            Level::Module { name: name.to_owned() },
            canon_path,
            ty,
        );
        match scope.fill(sizes, current_layout.offset) {
            Some(offset) => Some((scope, LayoutData::new(offset))),
            None => None,
        }
    }

    /// The symbol that `name` stands for.
    pub fn get(&self, name: &str) -> (r: Option<&Symbol>)
        ensures
            r is Some <==> self.lookup(name@) is Some,
            r is Some ==> *r.unwrap() == self.lookup(name@).unwrap(),
    {
        let mut i: usize = self.symbols.len();
        while i > 0
            invariant
                0 <= i <= self.symbols.len(),
                last_symbol(self.symbols(), name@, self.symbols().len() as int) == last_symbol(
                    self.symbols(),
                    name@,
                    i as int,
                ),
            decreases i,
        {
            i -= 1;
            if same_text(self.symbols[i].name.as_str(), name) {
                return Some(&self.symbols[i]);
            }
        }
        None
    }

    pub fn line(&self) -> (r: u32)
        ensures
            r == self.spec_line(),
    {
        self.line
    }

    pub fn ty(&self) -> (r: &Type)
        ensures
            r@ == self.spec_ty(),
    {
        &self.ty
    }

    pub fn canon_path(&self) -> (r: &Path)
        ensures
            r@ == self.spec_canon_path(),
    {
        &self.canon_path
    }
}

/// Inserting under other names does not change what a name stands for.
pub proof fn lemma_insert_keeps_others(symbols: Seq<Symbol>, added: Symbol, name: Seq<char>)
    requires
        added.name@ != name,
    ensures
        last_symbol(symbols.push(added), name, (symbols.len() + 1) as int) == last_symbol(
            symbols,
            name,
            symbols.len() as int,
        ),
{
    lemma_last_symbol_prefix(symbols, symbols.push(added), name, symbols.len() as int);
}

/// What a name stands for among the first symbols depends on those
/// symbols only.
pub proof fn lemma_last_symbol_prefix(a: Seq<Symbol>, b: Seq<Symbol>, name: Seq<char>, upto: int)
    requires
        0 <= upto <= a.len(),
        upto <= b.len(),
        forall|i: int| 0 <= i < upto ==> a[i] == b[i],
    ensures
        last_symbol(a, name, upto) == last_symbol(b, name, upto),
    decreases upto,
{
    if upto > 0 {
        lemma_last_symbol_prefix(a, b, name, upto - 1);
    }
}

} // verus!
