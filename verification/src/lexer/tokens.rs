//! Tokens: the words of the source text, each with the place where it was
//! read.
use crate::stringtable::StringId;
use vstd::prelude::*;

verus! {

/// The name of a primitive type.
#[derive(Clone, Copy, Debug, PartialEq, Eq, Structural)]
pub enum Primitive {
    U8,
    U16,
    U32,
    U64,
    I8,
    I16,
    I32,
    I64,
    Bool,
    StringLiteral,
}

/// A word of the language.
#[derive(Clone, Copy, Debug, PartialEq, Eq, Structural)]
pub enum Lex {
    U8(u8),
    U16(u16),
    U32(u32),
    U64(u64),
    I8(i8),
    I16(i16),
    I32(i32),
    I64(i64),
    Bool(bool),
    Identifier(StringId),
    StringLiteral(StringId),
    Primitive(Primitive),
    Mul,
    Div,
    Add,
    Minus,
    Not,
    BAnd,
    BOr,
    Gr,
    GrEq,
    Ls,
    LsEq,
    Eq,
    NEq,
    Assign,
    Semicolon,
    Comma,
    Colon,
    PathSeparator,
    /// `project`: the root of the whole project.
    PathProjectRoot,
    /// `root`: the root of the module tree.
    PathFileRoot,
    /// `self`: the current module.
    PathSelf,
    /// `super`: the parent of the current module.
    PathSuper,
    MemberAccess,
    LParen,
    RParen,
    LBrace,
    RBrace,
    LBracket,
    RBracket,
    LArrow,
    VarArgs,
    Let,
    Mut,
    Return,
    Yield,
    YieldReturn,
    FunctionDef,
    CoroutineDef,
    ModuleDef,
    Struct,
    Extern,
    Init,
    If,
    Else,
    While,
}

impl Lex {
    /// Whether the two words are of one kind: the same word, or two
    /// literals of one type, or two identifiers.
    pub open spec fn same_kind(self, other: Lex) -> bool {
        match (self, other) {
            (Lex::U8(_), Lex::U8(_)) => true,
            (Lex::U16(_), Lex::U16(_)) => true,
            (Lex::U32(_), Lex::U32(_)) => true,
            (Lex::U64(_), Lex::U64(_)) => true,
            (Lex::I8(_), Lex::I8(_)) => true,
            (Lex::I16(_), Lex::I16(_)) => true,
            (Lex::I32(_), Lex::I32(_)) => true,
            (Lex::I64(_), Lex::I64(_)) => true,
            (Lex::Bool(_), Lex::Bool(_)) => true,
            (Lex::Identifier(_), Lex::Identifier(_)) => true,
            (Lex::StringLiteral(_), Lex::StringLiteral(_)) => true,
            _ => self == other,
        }
    }
}

/// A word with the line and the offset at which it starts.
#[derive(Clone, Copy, Debug, PartialEq, Eq, Structural)]
pub struct Token {
    pub l: u32,
    pub o: u32,
    pub s: Lex,
}

impl Token {
    pub fn new(l: u32, o: u32, s: Lex) -> (r: Token)
        ensures
            r == (Token { l, o, s }),
    {
        Token { l, o, s }
    }

    /// Whether the word of the token is of the kind of `a`.  The value of a
    /// literal and the name of an identifier do not matter.
    pub fn token_eq(&self, a: &Lex) -> (r: bool)
        ensures
            r == self.s.same_kind(*a),
    {
        match (self.s, *a) {
            (Lex::U8(_), Lex::U8(_)) => true,
            (Lex::U16(_), Lex::U16(_)) => true,
            (Lex::U32(_), Lex::U32(_)) => true,
            (Lex::U64(_), Lex::U64(_)) => true,
            (Lex::I8(_), Lex::I8(_)) => true,
            (Lex::I16(_), Lex::I16(_)) => true,
            (Lex::I32(_), Lex::I32(_)) => true,
            (Lex::I64(_), Lex::I64(_)) => true,
            (Lex::Bool(_), Lex::Bool(_)) => true,
            (Lex::Identifier(_), Lex::Identifier(_)) => true,
            (Lex::StringLiteral(_), Lex::StringLiteral(_)) => true,
            (s, a) => s == a,
        }
    }
}

} // verus!
