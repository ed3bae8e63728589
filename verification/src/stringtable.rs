//! Interned names.  Every identifier of a compilation unit is stored once in
//! a [`StringTable`] and referred to by its [`StringId`].
use vstd::prelude::*;

verus! {

/// Identifies one string of a [`StringTable`].
#[derive(Clone, Copy, Debug, PartialEq, Eq, Structural, Hash)]
pub struct StringId(pub u32);

impl StringId {
    /// The first id that a table hands out.
    pub fn new() -> (r: StringId)
        ensures
            r == StringId(0),
    {
        StringId(0)
    }

    /// The position that the id stands for.
    pub open spec fn index(self) -> int {
        self.0 as int
    }

    pub fn as_u32(&self) -> (r: u32)
        ensures
            r == self.index(),
    {
        self.0
    }
}

#[derive(Clone, Copy, Debug, PartialEq, Eq, Structural)]
pub enum StringTableError {
    NotFound,
}

/// Maps each distinct string to the id under which it was first inserted.
/// The id of a string is its position in the table.
#[derive(Debug)]
pub struct StringTable {
    table: Vec<String>,
}

impl View for StringTable {
    type V = Seq<Seq<char>>;

    closed spec fn view(&self) -> Seq<Seq<char>> {
        Seq::new(self.table@.len(), |i: int| self.table@[i]@)
    }
}

impl StringTable {
    /// No string occurs twice and every position is a valid id.
    pub open spec fn wf(&self) -> bool {
        &&& self@.len() <= u32::MAX
        &&& forall|i: int, j: int| 0 <= i < j < self@.len() ==> self@[i] != self@[j]
    }

    /// Whether `s` has an id in the table.
    pub open spec fn contains(&self, s: Seq<char>) -> bool {
        exists|i: int| 0 <= i < self@.len() && self@[i] == s
    }

    /// The id of `s`; meaningful where `contains(s)` holds.
    pub open spec fn id_of(&self, s: Seq<char>) -> int {
        choose|i: int| 0 <= i < self@.len() && self@[i] == s
    }

    pub fn new() -> (r: StringTable)
        ensures
            r@ == Seq::<Seq<char>>::empty(),
            r.wf(),
    {
        let r = StringTable { table: Vec::new() };
        assert(r@ =~= Seq::<Seq<char>>::empty());
        r
    }

    /// The number of distinct strings in the table.
    pub fn len(&self) -> (r: usize)
        ensures
            r == self@.len(),
    {
        self.table.len()
    }

    /// The id under which `s` is stored, if it is.
    pub fn find(&self, s: &String) -> (r: Option<StringId>)
        requires
            self.wf(),
        ensures
            r is Some <==> self.contains(s@),
            r is Some ==> 0 <= r.unwrap().index() < self@.len() && self@[r.unwrap().index()] == s@,
            r is Some ==> forall|j: int|
                0 <= j < self@.len() && j != r.unwrap().index() ==> self@[j] != s@,
    {
        let mut i: usize = 0;
        while i < self.table.len()
            invariant
                0 <= i <= self.table.len(),
                self.wf(),
                self@.len() == self.table@.len(),
                forall|j: int| 0 <= j < i ==> self@[j] != s@,
            decreases self.table.len() - i,
        {
            if self.table[i] == *s {
                assert(self@[i as int] == s@);
                return Some(StringId(i as u32));
            }
            i += 1;
        }
        None
    }

    /// Returns the id of `s`, storing it first if the table does not hold it
    /// yet.  Ids that were handed out before stay valid.  A table that holds
    /// `u32::MAX` strings takes no more, so `s` must be in it already.
    pub fn insert(&mut self, s: String) -> (r: StringId)
        requires
            old(self).wf(),
            old(self)@.len() < u32::MAX || old(self).contains(s@),
        ensures
            final(self).wf(),
            0 <= r.index() < final(self)@.len(),
            final(self)@[r.index()] == s@,
            old(self).contains(s@) ==> final(self)@ == old(self)@,
            !old(self).contains(s@) ==> final(self)@ == old(self)@.push(s@) && r.index()
                == old(self)@.len(),
    {
        match self.find(&s) {
            Some(id) => id,
            None => {
                let id = StringId(self.table.len() as u32);
                let ghost before = self@;
                self.table.push(s);
                assert(self@ =~= before.push(s@));
                id
            }
        }
    }

    /// The string stored under `id`.
    pub fn get(&self, id: StringId) -> (r: Result<&String, StringTableError>)
        ensures
            r is Ok <==> id.index() < self@.len(),
            r is Ok ==> r->Ok_0@ == self@[id.index()],
            r is Err ==> r->Err_0 == StringTableError::NotFound,
    {
        if (id.0 as usize) < self.table.len() {
            Ok(&self.table[id.0 as usize])
        } else {
            Err(StringTableError::NotFound)
        }
    }

    /// Two ids of one table that name the same string are the same id.
    pub proof fn lemma_ids_are_unique(&self, a: StringId, b: StringId)
        requires
            self.wf(),
            a.index() < self@.len(),
            b.index() < self@.len(),
            self@[a.index()] == self@[b.index()],
        ensures
            a == b,
    {
    }
}

} // verus!
