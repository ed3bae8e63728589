//! The types that a value of the language can have, and the signatures of
//! routines, structures and external functions.
use crate::ast::path::{Element, Path};
use crate::stringtable::StringId;
use vstd::prelude::*;

verus! {

/// Whether an external function takes further arguments after the declared
/// ones.
pub type HasVarArgs = bool;

/// The type of a value, or the signature of an item.  `Unknown` stands for a
/// type that the resolver has not determined yet.
#[derive(Debug, PartialEq)]
pub enum Type {
    U8,
    U16,
    U32,
    U64,
    I8,
    I16,
    I32,
    I64,
    Bool,
    StringLiteral,
    Array(Box<Type>, usize),
    Unit,
    Custom(Path),
    StructDef(Vec<(StringId, Type)>),
    FunctionDef(Vec<Type>, Box<Type>),
    CoroutineDef(Vec<Type>, Box<Type>),
    Coroutine(Box<Type>),
    ExternDecl(Vec<Type>, HasVarArgs, Box<Type>),
    Unknown,
}

/// A [`Type`] as a mathematical value.
pub ghost enum TypeView {
    U8,
    U16,
    U32,
    U64,
    I8,
    I16,
    I32,
    I64,
    Bool,
    StringLiteral,
    Array(Box<TypeView>, nat),
    Unit,
    Custom(Seq<Element>),
    StructDef(Seq<(StringId, TypeView)>),
    FunctionDef(Seq<TypeView>, Box<TypeView>),
    CoroutineDef(Seq<TypeView>, Box<TypeView>),
    Coroutine(Box<TypeView>),
    ExternDecl(Seq<TypeView>, bool, Box<TypeView>),
    Unknown,
}

pub open spec fn type_view(t: Type) -> TypeView
    decreases t,
{
    match t {
        Type::U8 => TypeView::U8,
        Type::U16 => TypeView::U16,
        Type::U32 => TypeView::U32,
        Type::U64 => TypeView::U64,
        Type::I8 => TypeView::I8,
        Type::I16 => TypeView::I16,
        Type::I32 => TypeView::I32,
        Type::I64 => TypeView::I64,
        Type::Bool => TypeView::Bool,
        Type::StringLiteral => TypeView::StringLiteral,
        Type::Array(el, len) => TypeView::Array(Box::new(type_view(*el)), len as nat),
        Type::Unit => TypeView::Unit,
        Type::Custom(path) => TypeView::Custom(path@),
        Type::StructDef(fields) => TypeView::StructDef(fields_view(fields)),
        Type::FunctionDef(params, ret) => TypeView::FunctionDef(
            types_view(params),
            Box::new(type_view(*ret)),
        ),
        Type::CoroutineDef(params, ret) => TypeView::CoroutineDef(
            types_view(params),
            Box::new(type_view(*ret)),
        ),
        Type::Coroutine(ret) => TypeView::Coroutine(Box::new(type_view(*ret))),
        Type::ExternDecl(params, has_varargs, ret) => TypeView::ExternDecl(
            types_view(params),
            has_varargs,
            Box::new(type_view(*ret)),
        ),
        Type::Unknown => TypeView::Unknown,
    }
}

/// The views of a list of types, in order.
pub open spec fn types_view(ts: Vec<Type>) -> Seq<TypeView>
    decreases ts,
{
    Seq::new(
        ts@.len(),
        |i: int|
            if 0 <= i < ts@.len() {
                type_view(ts@[i])
            } else {
                arbitrary()
            },
    )
}

/// The views of a list of named fields, in order.
pub open spec fn fields_view(fs: Vec<(StringId, Type)>) -> Seq<(StringId, TypeView)>
    decreases fs,
{
    Seq::new(
        fs@.len(),
        |i: int|
            if 0 <= i < fs@.len() {
                (fs@[i].0, type_view(fs@[i].1))
            } else {
                arbitrary()
            },
    )
}

impl View for Type {
    type V = TypeView;

    open spec fn view(&self) -> TypeView {
        type_view(*self)
    }
}

impl TypeView {
    pub open spec fn is_integral(self) -> bool {
        self.is_unsigned_int() || self.is_signed_int()
    }

    pub open spec fn is_unsigned_int(self) -> bool {
        self is U8 || self is U16 || self is U32 || self is U64
    }

    pub open spec fn is_signed_int(self) -> bool {
        self is I8 || self is I16 || self is I32 || self is I64
    }

    /// The fields of a structure definition.
    pub open spec fn members(self) -> Option<Seq<(StringId, TypeView)>> {
        match self {
            TypeView::StructDef(fields) => Some(fields),
            _ => None,
        }
    }

    /// The type of the first field called `member`, in a structure
    /// definition that has one.
    pub open spec fn member(self, member: StringId) -> Option<TypeView> {
        match self {
            TypeView::StructDef(fields) => field_named(fields, member, 0),
            _ => None,
        }
    }
}

/// The type of the first field called `member` at or after position `i`.
pub open spec fn field_named(fields: Seq<(StringId, TypeView)>, member: StringId, i: int) -> Option<
    TypeView,
>
    decreases fields.len() - i,
{
    if i < 0 || i >= fields.len() {
        None
    } else if fields[i].0 == member {
        Some(fields[i].1)
    } else {
        field_named(fields, member, i + 1)
    }
}

/// Copies a list of types.
pub fn clone_types(ts: &Vec<Type>) -> (r: Vec<Type>)
    ensures
        types_view(r) == types_view(*ts),
    decreases ts,
{
    let mut out: Vec<Type> = Vec::new();
    let mut i: usize = 0;
    while i < ts.len()
        invariant
            0 <= i <= ts.len(),
            out.len() == i,
            forall|j: int| 0 <= j < i ==> out@[j]@ == ts@[j]@,
        decreases ts.len() - i,
    {
        let t = ts[i].clone();
        out.push(t);
        i += 1;
    }
    assert(types_view(out) =~= types_view(*ts));
    out
}

/// Copies a list of named fields.
pub fn clone_fields(fs: &Vec<(StringId, Type)>) -> (r: Vec<(StringId, Type)>)
    ensures
        fields_view(r) == fields_view(*fs),
    decreases fs,
{
    let mut out: Vec<(StringId, Type)> = Vec::new();
    let mut i: usize = 0;
    while i < fs.len()
        invariant
            0 <= i <= fs.len(),
            out.len() == i,
            forall|j: int| 0 <= j < i ==> out@[j].0 == fs@[j].0 && out@[j].1@ == fs@[j].1@,
        decreases fs.len() - i,
    {
        let t = fs[i].1.clone();
        out.push((fs[i].0, t));
        i += 1;
    }
    assert(fields_view(out) =~= fields_view(*fs));
    out
}

impl Clone for Type {
    fn clone(&self) -> (r: Type)
        ensures
            r@ == self@,
        decreases self,
    {
        match self {
            Type::U8 => Type::U8,
            Type::U16 => Type::U16,
            Type::U32 => Type::U32,
            Type::U64 => Type::U64,
            Type::I8 => Type::I8,
            Type::I16 => Type::I16,
            Type::I32 => Type::I32,
            Type::I64 => Type::I64,
            Type::Bool => Type::Bool,
            Type::StringLiteral => Type::StringLiteral,
            Type::Array(el, len) => Type::Array(Box::new((**el).clone()), *len),
            Type::Unit => Type::Unit,
            Type::Custom(path) => Type::Custom(path.clone()),
            Type::StructDef(fields) => Type::StructDef(clone_fields(fields)),
            Type::FunctionDef(params, ret) => Type::FunctionDef(
                clone_types(params),
                Box::new((**ret).clone()),
            ),
            Type::CoroutineDef(params, ret) => Type::CoroutineDef(
                clone_types(params),
                Box::new((**ret).clone()),
            ),
            Type::Coroutine(ret) => Type::Coroutine(Box::new((**ret).clone())),
            Type::ExternDecl(params, has_varargs, ret) => Type::ExternDecl(
                clone_types(params),
                *has_varargs,
                Box::new((**ret).clone()),
            ),
            Type::Unknown => Type::Unknown,
        }
    }
}

/// Whether the two lists hold the same types in the same order.
pub fn same_types(a: &Vec<Type>, b: &Vec<Type>) -> (r: bool)
    ensures
        r == (types_view(*a) == types_view(*b)),
    decreases a,
{
    if a.len() != b.len() {
        assert(types_view(*a).len() != types_view(*b).len());
        return false;
    }
    let mut i: usize = 0;
    while i < a.len()
        invariant
            0 <= i <= a.len(),
            a.len() == b.len(),
            forall|j: int| 0 <= j < i ==> a@[j]@ == b@[j]@,
        decreases a.len() - i,
    {
        if !a[i].same(&b[i]) {
            assert(types_view(*a)[i as int] != types_view(*b)[i as int]);
            return false;
        }
        i += 1;
    }
    assert(types_view(*a) =~= types_view(*b));
    true
}

/// Whether the two lists hold the same fields in the same order.
pub fn same_fields(a: &Vec<(StringId, Type)>, b: &Vec<(StringId, Type)>) -> (r: bool)
    ensures
        r == (fields_view(*a) == fields_view(*b)),
    decreases a,
{
    if a.len() != b.len() {
        assert(fields_view(*a).len() != fields_view(*b).len());
        return false;
    }
    let mut i: usize = 0;
    while i < a.len()
        invariant
            0 <= i <= a.len(),
            a.len() == b.len(),
            forall|j: int| 0 <= j < i ==> a@[j].0 == b@[j].0 && a@[j].1@ == b@[j].1@,
        decreases a.len() - i,
    {
        if a[i].0 != b[i].0 || !a[i].1.same(&b[i].1) {
            assert(fields_view(*a)[i as int] != fields_view(*b)[i as int]);
            return false;
        }
        i += 1;
    }
    assert(fields_view(*a) =~= fields_view(*b));
    true
}

impl Type {
    /// Whether the two types are the same type.
    pub fn same(&self, other: &Type) -> (r: bool)
        ensures
            r == (self@ == other@),
        decreases self,
    {
        match (self, other) {
            (Type::U8, Type::U8) => true,
            (Type::U16, Type::U16) => true,
            (Type::U32, Type::U32) => true,
            (Type::U64, Type::U64) => true,
            (Type::I8, Type::I8) => true,
            (Type::I16, Type::I16) => true,
            (Type::I32, Type::I32) => true,
            (Type::I64, Type::I64) => true,
            (Type::Bool, Type::Bool) => true,
            (Type::StringLiteral, Type::StringLiteral) => true,
            (Type::Array(a, n), Type::Array(b, m)) => *n == *m && a.same(b),
            (Type::Unit, Type::Unit) => true,
            (Type::Custom(a), Type::Custom(b)) => a.same(b),
            (Type::StructDef(a), Type::StructDef(b)) => same_fields(a, b),
            (Type::FunctionDef(ap, ar), Type::FunctionDef(bp, br)) => same_types(ap, bp)
                && ar.same(br),
            (Type::CoroutineDef(ap, ar), Type::CoroutineDef(bp, br)) => same_types(ap, bp)
                && ar.same(br),
            (Type::Coroutine(a), Type::Coroutine(b)) => a.same(b),
            (Type::ExternDecl(ap, av, ar), Type::ExternDecl(bp, bv, br)) => same_types(ap, bp)
                && *av == *bv && ar.same(br),
            (Type::Unknown, Type::Unknown) => true,
            _ => false,
        }
    }

    /// The path of a named type.
    pub fn get_path(&self) -> (r: Option<&Path>)
        ensures
            r is Some <==> self@ is Custom,
            r is Some ==> r.unwrap()@ == self@->Custom_0,
    {
        match self {
            Type::Custom(path) => Some(path),
            _ => None,
        }
    }

    /// The fields of a structure definition.
    pub fn get_members(&self) -> (r: Option<&Vec<(StringId, Type)>>)
        ensures
            r is Some <==> self@.members() is Some,
            r is Some ==> Some(fields_view(*r.unwrap())) == self@.members(),
    {
        match self {
            Type::StructDef(members) => Some(members),
            _ => None,
        }
    }

    /// The type of the field called `member` of a structure definition.
    pub fn get_member(&self, member: StringId) -> (r: Option<&Type>)
        ensures
            r is Some <==> self@.member(member) is Some,
            r is Some ==> Some(r.unwrap()@) == self@.member(member),
    {
        match self {
            Type::StructDef(members) => {
                let mut i: usize = 0;
                while i < members.len()
                    invariant
                        0 <= i <= members.len(),
                        self@.member(member) == field_named(
                            fields_view(*members),
                            member,
                            i as int,
                        ),
                    decreases members.len() - i,
                {
                    if members[i].0 == member {
                        return Some(&members[i].1);
                    }
                    i += 1;
                }
                None
            },
            _ => None,
        }
    }

    pub fn is_integral(&self) -> (r: bool)
        ensures
            r == self@.is_integral(),
    {
        self.is_unsigned_int() || self.is_signed_int()
    }

    pub fn is_unsigned_int(&self) -> (r: bool)
        ensures
            r == self@.is_unsigned_int(),
    {
        match self {
            Type::U8 | Type::U16 | Type::U32 | Type::U64 => true,
            _ => false,
        }
    }

    pub fn is_signed_int(&self) -> (r: bool)
        ensures
            r == self@.is_signed_int(),
    {
        match self {
            Type::I8 | Type::I16 | Type::I32 | Type::I64 => true,
            _ => false,
        }
    }
}

} // verus!
