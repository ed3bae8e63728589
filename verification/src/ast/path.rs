//! Paths name modules and the items in them.  A path is either relative to
//! the module in which it is written, or canonical: rooted at
//! [`Element::CanonicalRoot`], the sentinel that stands for the root of the
//! whole project.
use crate::stringtable::StringId;
use vstd::prelude::*;

verus! {

/// One step of a path.
#[derive(Clone, Copy, Debug, PartialEq, Eq, Structural)]
pub enum Element {
    /// `root`: the root of the module tree, written by the user.
    FileRoot,
    /// The sentinel with which every canonical path starts.
    CanonicalRoot,
    /// `self`: the current module.
    Selph,
    /// `super`: the parent of the current module.
    Super,
    /// The name of a module or of an item.
    Id(StringId),
}

#[derive(Clone, Copy, Debug, PartialEq, Eq, Structural)]
pub enum PathError {
    /// The path climbs above the root of the project.
    SubsedingRoot,
}

#[derive(Debug, PartialEq)]
pub struct Path {
    path: Vec<Element>,
}

impl View for Path {
    type V = Seq<Element>;

    closed spec fn view(&self) -> Seq<Element> {
        self.path@
    }
}

/// A canonical path starts with the root sentinel.
pub open spec fn is_canonical(p: Seq<Element>) -> bool {
    p.len() > 0 && p[0] == Element::CanonicalRoot
}

/// Follows the steps of `p` from position `i` on, starting in the module
/// `at`: `self` stays, `super` climbs to the parent and fails at the root,
/// either root returns to the root of the project, a name descends.
pub open spec fn walk(at: Seq<Element>, p: Seq<Element>, i: int) -> Result<Seq<Element>, PathError>
    decreases p.len() - i,
{
    if i < 0 || i >= p.len() {
        Ok(at)
    } else {
        match p[i] {
            Element::Selph => walk(at, p, i + 1),
            Element::FileRoot | Element::CanonicalRoot => walk(
                seq![Element::CanonicalRoot],
                p,
                i + 1,
            ),
            Element::Super => if at.len() <= 1 {
                Err(PathError::SubsedingRoot)
            } else {
                walk(at.drop_last(), p, i + 1)
            },
            Element::Id(_) => walk(at.push(p[i]), p, i + 1),
        }
    }
}

/// The canonical form of `p` as seen from the module `current`: `p` itself
/// where it is canonical already, else the module reached by following `p`
/// from `current`.
pub open spec fn canonical(p: Seq<Element>, current: Seq<Element>) -> Result<
    Seq<Element>,
    PathError,
> {
    if is_canonical(p) {
        Ok(p)
    } else {
        walk(current, p, 0)
    }
}

/// The name at the end of `p`, if `p` ends in one.
pub open spec fn item_of(p: Seq<Element>) -> Option<StringId> {
    if p.len() > 0 {
        match p.last() {
            Element::Id(name) => Some(name),
            _ => None,
        }
    } else {
        None
    }
}

/// `p` without its last step.
pub open spec fn parent_of(p: Seq<Element>) -> Seq<Element> {
    if p.len() > 0 {
        p.drop_last()
    } else {
        p
    }
}

/// Walking from a canonical module never leaves the canonical paths.
pub proof fn lemma_walk_is_canonical(at: Seq<Element>, p: Seq<Element>, i: int)
    requires
        is_canonical(at),
    ensures
        walk(at, p, i) is Ok ==> is_canonical(walk(at, p, i)->Ok_0),
    decreases p.len() - i,
{
    if 0 <= i < p.len() {
        match p[i] {
            Element::Selph => lemma_walk_is_canonical(at, p, i + 1),
            Element::FileRoot | Element::CanonicalRoot => lemma_walk_is_canonical(
                seq![Element::CanonicalRoot],
                p,
                i + 1,
            ),
            Element::Super => if at.len() > 1 {
                lemma_walk_is_canonical(at.drop_last(), p, i + 1)
            },
            Element::Id(_) => lemma_walk_is_canonical(at.push(p[i]), p, i + 1),
        }
    }
}

/// Canonicalizing an already canonical path returns it unchanged, whatever
/// the current module is.
pub proof fn lemma_canonical_is_fixed(p: Seq<Element>, current: Seq<Element>)
    requires
        is_canonical(p),
    ensures
        canonical(p, current) == Ok::<Seq<Element>, PathError>(p),
{
}

/// The canonical form of a path, seen from a canonical module, is a
/// canonical path.
pub proof fn lemma_canonical_is_canonical(p: Seq<Element>, current: Seq<Element>)
    requires
        is_canonical(current),
    ensures
        canonical(p, current) is Ok ==> is_canonical(canonical(p, current)->Ok_0),
{
    lemma_walk_is_canonical(current, p, 0);
}

/// Canonicalization is idempotent: canonicalizing the canonical form of a
/// path again, from any module, changes nothing.
pub proof fn lemma_canonical_idempotent(
    p: Seq<Element>,
    current: Seq<Element>,
    other: Seq<Element>,
)
    requires
        is_canonical(current),
        canonical(p, current) is Ok,
    ensures
        canonical(canonical(p, current)->Ok_0, other) == canonical(p, current),
{
    lemma_canonical_is_canonical(p, current);
}

impl Clone for Path {
    fn clone(&self) -> (r: Path)
        ensures
            r@ == self@,
    {
        let mut path: Vec<Element> = Vec::new();
        let mut i: usize = 0;
        while i < self.path.len()
            invariant
                0 <= i <= self.path.len(),
                path@ == self.path@.subrange(0, i as int),
            decreases self.path.len() - i,
        {
            path.push(self.path[i]);
            assert(path@ =~= self.path@.subrange(0, i + 1));
            i += 1;
        }
        assert(path@ =~= self.path@);
        Path { path }
    }
}

impl Path {
    /// The empty path.
    pub fn new() -> (r: Path)
        ensures
            r@ == Seq::<Element>::empty(),
    {
        Path { path: Vec::new() }
    }

    /// The path made of the given steps.
    pub fn from_elements(path: Vec<Element>) -> (r: Path)
        ensures
            r@ == path@,
    {
        Path { path }
    }

    pub fn len(&self) -> (r: usize)
        ensures
            r == self@.len(),
    {
        self.path.len()
    }

    /// The step at position `i`.
    pub fn get(&self, i: usize) -> (r: Option<Element>)
        ensures
            r == (if i < self@.len() {
                Some(self@[i as int])
            } else {
                None
            }),
    {
        if i < self.path.len() {
            Some(self.path[i])
        } else {
            None
        }
    }

    /// The last step of the path.
    pub fn last(&self) -> (r: Option<Element>)
        ensures
            r == (if self@.len() > 0 {
                Some(self@.last())
            } else {
                None
            }),
    {
        if self.path.len() > 0 {
            Some(self.path[self.path.len() - 1])
        } else {
            None
        }
    }

    /// Descends by one name.
    pub fn push(&mut self, step: StringId)
        ensures
            final(self)@ == old(self)@.push(Element::Id(step)),
    {
        self.path.push(Element::Id(step));
    }

    /// Appends one step of any kind.
    pub fn push_element(&mut self, step: Element)
        ensures
            final(self)@ == old(self)@.push(step),
    {
        self.path.push(step);
    }

    /// Removes the last step and returns it.
    pub fn pop(&mut self) -> (r: Option<Element>)
        ensures
            old(self)@.len() > 0 ==> r == Some(old(self)@.last()) && final(self)@
                == old(self)@.drop_last(),
            old(self)@.len() == 0 ==> r is None && final(self)@ == old(self)@,
    {
        self.path.pop()
    }

    /// The name of the item that the path leads to.
    pub fn item(&self) -> (r: Option<StringId>)
        ensures
            r == item_of(self@),
    {
        match self.last() {
            Some(Element::Id(name)) => Some(name),
            _ => None,
        }
    }

    /// The path to the module that holds the item.
    pub fn parent(&self) -> (r: Path)
        ensures
            r@ == parent_of(self@),
    {
        let mut p = self.clone();
        p.path.pop();
        p
    }

    pub fn is_canonical(&self) -> (r: bool)
        ensures
            r == is_canonical(self@),
    {
        self.path.len() > 0 && self.path[0] == Element::CanonicalRoot
    }

    /// Whether the two paths have the same steps.
    pub fn same(&self, other: &Path) -> (r: bool)
        ensures
            r == (self@ == other@),
    {
        if self.path.len() != other.path.len() {
            return false;
        }
        let mut i: usize = 0;
        while i < self.path.len()
            invariant
                0 <= i <= self.path.len(),
                self.path.len() == other.path.len(),
                forall|j: int| 0 <= j < i ==> self.path@[j] == other.path@[j],
            decreases self.path.len() - i,
        {
            if self.path[i] != other.path[i] {
                return false;
            }
            i += 1;
        }
        assert(self@ =~= other@);
        true
    }

    /// Converts the path to its canonical form, as seen from the module
    /// `current_path`.  A canonical path is returned as it is.  A path that
    /// climbs above the root of the project has no canonical form.
    pub fn to_canonical(&self, current_path: &Path) -> (r: Result<Path, PathError>)
        requires
            is_canonical(current_path@),
        ensures
            match r {
                Ok(p) => canonical(self@, current_path@) == Ok::<Seq<Element>, PathError>(p@)
                    && is_canonical(p@),
                Err(e) => canonical(self@, current_path@) == Err::<Seq<Element>, PathError>(e),
            },
    {
        if self.is_canonical() {
            return Ok(self.clone());
        }
        let mut merged = current_path.clone();
        let mut i: usize = 0;
        while i < self.path.len()
            invariant
                0 <= i <= self.path.len(),
                is_canonical(merged@),
                !is_canonical(self@),
                walk(current_path@, self@, 0) == walk(merged@, self@, i as int),
            decreases self.path.len() - i,
        {
            match self.path[i] {
                Element::Selph => {},
                Element::FileRoot | Element::CanonicalRoot => {
                    let mut root: Vec<Element> = Vec::new();
                    root.push(Element::CanonicalRoot);
                    assert(root@ =~= seq![Element::CanonicalRoot]);
                    merged = Path { path: root };
                },
                Element::Super => {
                    if merged.path.len() <= 1 {
                        return Err(PathError::SubsedingRoot);
                    }
                    merged.path.pop();
                },
                Element::Id(_) => {
                    merged.path.push(self.path[i]);
                },
            }
            i += 1;
        }
        Ok(merged)
    }
}

impl From<Vec<Element>> for Path {
    fn from(path: Vec<Element>) -> (r: Path) {
        Path { path }
    }
}

impl vstd::std_specs::convert::FromSpecImpl<Vec<Element>> for Path {
    open spec fn obeys_from_spec() -> bool {
        true
    }

    closed spec fn from_spec(path: Vec<Element>) -> Path {
        Path { path }
    }
}

} // verus!
