//! The pool of the string literals of a program.  Every literal is stored
//! once and has an id of its own.
use crate::memory::stack::CompilerNode;
use crate::text::same_text;
use vstd::prelude::*;

verus! {

#[derive(Debug, PartialEq)]
pub struct StringPool {
    pool: Vec<String>,
}

/// The pool after `s` was inserted: a string that is in the pool stays
/// where it is, a new one is put at the end.
pub open spec fn inserted(pool: Seq<Seq<char>>, s: Seq<char>) -> Seq<Seq<char>> {
    if pool.contains(s) {
        pool
    } else {
        pool.push(s)
    }
}

/// Whether no string occurs twice.
pub open spec fn distinct(pool: Seq<Seq<char>>) -> bool {
    forall|i: int, j: int| 0 <= i < j < pool.len() ==> pool[i] != pool[j]
}

/// Inserting keeps the strings of a pool distinct.
pub proof fn lemma_inserted_is_distinct(pool: Seq<Seq<char>>, s: Seq<char>)
    requires
        distinct(pool),
    ensures
        distinct(inserted(pool, s)),
        inserted(pool, s).contains(s),
{
    if pool.contains(s) {
    } else {
        assert(pool.push(s)[pool.len() as int] == s);
    }
}

/// Inserting a list of strings keeps the strings of a pool distinct.
pub proof fn lemma_inserted_all_is_distinct(pool: Seq<Seq<char>>, ss: Seq<Seq<char>>, i: int)
    requires
        distinct(pool),
    ensures
        distinct(inserted_all(pool, ss, i)),
    decreases ss.len() - i,
{
    if 0 <= i < ss.len() {
        lemma_inserted_is_distinct(pool, ss[i]);
        lemma_inserted_all_is_distinct(inserted(pool, ss[i]), ss, i + 1);
    }
}

/// The pool after the strings of `ss` from position `i` on were inserted.
pub open spec fn inserted_all(pool: Seq<Seq<char>>, ss: Seq<Seq<char>>, i: int) -> Seq<Seq<char>>
    decreases ss.len() - i,
{
    if i < 0 || i >= ss.len() {
        pool
    } else {
        inserted_all(inserted(pool, ss[i]), ss, i + 1)
    }
}

/// The string literals of a tree, in the order in which a walk meets them.
pub open spec fn literals(node: CompilerNode) -> Seq<Seq<char>>
    decreases node,
{
    match node {
        CompilerNode::StringLiteral(_, s) => seq![s@],
        CompilerNode::MemberAccess(_, src, _) => literals(*src),
        CompilerNode::UnaryOp(_, _, operand) => literals(*operand),
        CompilerNode::BinaryOp(_, _, l, r) => literals(*l) + literals(*r),
        CompilerNode::If(_, cond, tb, fb) => literals(*cond) + literals(*tb) + literals(*fb),
        CompilerNode::Mutate(_, _, e) => literals(*e),
        CompilerNode::Bind(_, _, _, _, e) => literals(*e),
        CompilerNode::Yield(_, e) => literals(*e),
        CompilerNode::Return(_, Some(e)) => literals(*e),
        CompilerNode::YieldReturn(_, Some(e)) => literals(*e),
        CompilerNode::RoutineCall(_, _, _, params) => literals_of(params@, 0),
        CompilerNode::StructExpression(_, _, fields) => literals_of_fields(fields@, 0),
        CompilerNode::ExpressionBlock(_, body) => literals_of(body@, 0),
        CompilerNode::RoutineDef(_, _, _, _, _, body) => literals_of(body@, 0),
        CompilerNode::Module { functions, coroutines, .. } => literals_of(functions@, 0)
            + literals_of(coroutines@, 0),
        _ => Seq::empty(),
    }
}

/// The string literals of the nodes from position `i` on.
pub open spec fn literals_of(nodes: Seq<CompilerNode>, i: int) -> Seq<Seq<char>>
    decreases nodes, nodes.len() - i,
{
    if i < 0 || i >= nodes.len() {
        Seq::empty()
    } else {
        literals(nodes[i]) + literals_of(nodes, i + 1)
    }
}

/// The string literals of the values of the fields from position `i` on.
pub open spec fn literals_of_fields(fields: Seq<(String, CompilerNode)>, i: int) -> Seq<Seq<char>>
    decreases fields, fields.len() - i,
{
    if i < 0 || i >= fields.len() {
        Seq::empty()
    } else {
        literals(fields[i].1) + literals_of_fields(fields, i + 1)
    }
}

impl View for StringPool {
    type V = Seq<Seq<char>>;

    closed spec fn view(&self) -> Seq<Seq<char>> {
        Seq::new(self.pool@.len(), |i: int| self.pool@[i]@)
    }
}

impl StringPool {
    /// No string occurs twice in the pool: a string has one id.  The empty
    /// pool is so, and inserting keeps it so.
    pub open spec fn wf(&self) -> bool {
        distinct(self@)
    }

    pub fn new() -> (r: StringPool)
        ensures
            r@ == Seq::<Seq<char>>::empty(),
            r.wf(),
    {
        let r = StringPool { pool: Vec::new() };
        assert(r@ =~= Seq::empty());
        r
    }

    /// The number of strings in the pool.
    pub fn len(&self) -> (r: usize)
        ensures
            r == self@.len(),
    {
        self.pool.len()
    }

    /// The strings of the pool, each with its id.
    pub fn iter(&self) -> (r: Vec<(&String, usize)>)
        ensures
            r@.len() == self@.len(),
            forall|i: int| 0 <= i < r@.len() ==> r@[i].0@ == self@[i] && r@[i].1 == i,
    {
        let mut out: Vec<(&String, usize)> = Vec::new();
        let mut i: usize = 0;
        while i < self.pool.len()
            invariant
                0 <= i <= self.pool.len(),
                out@.len() == i,
                forall|j: int| 0 <= j < i ==> out@[j].0@ == self@[j] && out@[j].1 == j,
            decreases self.pool.len() - i,
        {
            out.push((&self.pool[i], i));
            i += 1;
        }
        out
    }

    /// If the string is not in the pool, inserts it and gives it the next
    /// id.
    pub fn insert(&mut self, s: &str)
        ensures
            final(self)@ == inserted(old(self)@, s@),
            old(self).wf() ==> final(self).wf(),
    {
        proof {
            if self.wf() {
                lemma_inserted_is_distinct(self@, s@);
            }
        }
        if self.get(s).is_some() {
            return ;
        }
        self.pool.push(s.to_owned());
        assert(self@ =~= old(self)@.push(s@));
    }

    /// The id of the string, if it is in the pool: the position at which it
    /// occurs first.
    pub fn get(&self, s: &str) -> (r: Option<usize>)
        ensures
            r is Some <==> self@.contains(s@),
            r is Some ==> r.unwrap() < self@.len() && self@[r.unwrap() as int] == s@,
            r is Some ==> forall|j: int| 0 <= j < r.unwrap() ==> self@[j] != s@,
            r is Some && self.wf() ==> forall|j: int|
                0 <= j < self@.len() && j != r.unwrap() ==> self@[j] != s@,
    {
        let mut i: usize = 0;
        while i < self.pool.len()
            invariant
                0 <= i <= self.pool.len(),
                forall|j: int| 0 <= j < i ==> self@[j] != s@,
            decreases self.pool.len() - i,
        {
            if same_text(self.pool[i].as_str(), s) {
                assert(self@[i as int] == s@);
                return Some(i);
            }
            i += 1;
        }
        None
    }

    /// Walks the tree and inserts every string literal that it meets.
    pub fn extract_from(&mut self, ast: &CompilerNode)
        ensures
            final(self)@ == inserted_all(old(self)@, literals(*ast), 0),
            old(self).wf() ==> final(self).wf(),
        decreases ast,
    {
        proof {
            if self.wf() {
                lemma_inserted_all_is_distinct(self@, literals(*ast), 0);
            }
        }
        match ast {
            CompilerNode::StringLiteral(_, s) => {
                self.insert(s.as_str());
                assert(literals(*ast) =~= seq![s@]);
                assert(inserted_all(old(self)@, literals(*ast), 0) == inserted_all(
                    inserted(old(self)@, s@),
                    literals(*ast),
                    1,
                ));
            },
            CompilerNode::MemberAccess(_, src, _) => self.extract_from(src),
            CompilerNode::UnaryOp(_, _, operand) => self.extract_from(operand),
            CompilerNode::BinaryOp(_, _, l, r) => {
                self.extract_from(l);
                self.extract_from(r);
                proof {
                    lemma_inserted_all_concat(old(self)@, literals(**l), literals(**r));
                }
            },
            CompilerNode::If(_, cond, tb, fb) => {
                self.extract_from(cond);
                let ghost mid = self@;
                self.extract_from(tb);
                self.extract_from(fb);
                proof {
                    lemma_inserted_all_concat(mid, literals(**tb), literals(**fb));
                    lemma_inserted_all_concat(
                        old(self)@,
                        literals(**cond),
                        literals(**tb) + literals(**fb),
                    );
                    assert(literals(*ast) =~= literals(**cond) + (literals(**tb) + literals(
                        **fb,
                    )));
                }
            },
            CompilerNode::Mutate(_, _, e) => self.extract_from(e),
            CompilerNode::Bind(_, _, _, _, e) => self.extract_from(e),
            CompilerNode::Yield(_, e) => self.extract_from(e),
            CompilerNode::Return(_, Some(e)) => self.extract_from(e),
            CompilerNode::YieldReturn(_, Some(e)) => self.extract_from(e),
            CompilerNode::RoutineCall(_, _, _, params) => self.extract_from_all(params),
            CompilerNode::StructExpression(_, _, fields) => self.extract_from_fields(fields),
            CompilerNode::ExpressionBlock(_, body) => self.extract_from_all(body),
            CompilerNode::RoutineDef(_, _, _, _, _, body) => self.extract_from_all(body),
            CompilerNode::Module { functions, coroutines, .. } => {
                self.extract_from_all(functions);
                self.extract_from_all(coroutines);
                proof {
                    lemma_inserted_all_concat(
                        old(self)@,
                        literals_of(functions@, 0),
                        literals_of(coroutines@, 0),
                    );
                }
            },
            _ => {},
        }
    }

    /// Walks the values of the fields of a structure, one after the other.
    fn extract_from_fields(&mut self, fields: &Vec<(String, CompilerNode)>)
        ensures
            final(self)@ == inserted_all(old(self)@, literals_of_fields(fields@, 0), 0),
        decreases fields,
    {
        let mut i: usize = 0;
        while i < fields.len()
            invariant
                0 <= i <= fields.len(),
                inserted_all(old(self)@, literals_of_fields(fields@, 0), 0) == inserted_all(
                    self@,
                    literals_of_fields(fields@, i as int),
                    0,
                ),
            decreases fields.len() - i,
        {
            let ghost before = self@;
            self.extract_from(&fields[i].1);
            proof {
                lemma_inserted_all_concat(
                    before,
                    literals(fields@[i as int].1),
                    literals_of_fields(fields@, i + 1),
                );
            }
            i += 1;
        }
    }

    /// Walks the trees of a list, one after the other.
    fn extract_from_all(&mut self, nodes: &Vec<CompilerNode>)
        ensures
            final(self)@ == inserted_all(old(self)@, literals_of(nodes@, 0), 0),
        decreases nodes,
    {
        let mut i: usize = 0;
        while i < nodes.len()
            invariant
                0 <= i <= nodes.len(),
                inserted_all(old(self)@, literals_of(nodes@, 0), 0) == inserted_all(
                    self@,
                    literals_of(nodes@, i as int),
                    0,
                ),
            decreases nodes.len() - i,
        {
            let ghost before = self@;
            self.extract_from(&nodes[i]);
            proof {
                lemma_inserted_all_concat(
                    before,
                    literals(nodes@[i as int]),
                    literals_of(nodes@, i + 1),
                );
            }
            i += 1;
        }
    }
}

/// Inserting the strings of two lists, one list after the other, is
/// inserting the strings of the joined list.
pub proof fn lemma_inserted_all_concat(pool: Seq<Seq<char>>, a: Seq<Seq<char>>, b: Seq<Seq<char>>)
    ensures
        inserted_all(inserted_all(pool, a, 0), b, 0) == inserted_all(pool, a + b, 0),
{
    lemma_inserted_all_from(pool, a, b, 0);
}

proof fn lemma_inserted_all_from(pool: Seq<Seq<char>>, a: Seq<Seq<char>>, b: Seq<Seq<char>>, i: int)
    requires
        0 <= i <= a.len(),
    ensures
        inserted_all(inserted_all(pool, a, i), b, 0) == inserted_all(pool, a + b, i),
    decreases a.len() + b.len() - i,
{
    if i < a.len() {
        assert((a + b)[i] == a[i]);
        lemma_inserted_all_from(inserted(pool, a[i]), a, b, i + 1);
    } else {
        lemma_inserted_all_shift(pool, a, b, 0);
    }
}

proof fn lemma_inserted_all_shift(pool: Seq<Seq<char>>, a: Seq<Seq<char>>, b: Seq<Seq<char>>,
    j: int)
    requires
        0 <= j <= b.len(),
    ensures
        inserted_all(pool, b, j) == inserted_all(pool, a + b, a.len() + j),
    decreases b.len() - j,
{
    if j < b.len() {
        assert((a + b)[a.len() + j] == b[j]);
        lemma_inserted_all_shift(inserted(pool, b[j]), a, b, j + 1);
    }
}

} // verus!
