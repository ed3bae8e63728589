//! The words of the language as texts.
use crate::display::text::{decimal, decimal_text, signed, signed_text, then};
use crate::display::types::{name, name_text};
use crate::display::CompilerDisplayError;
use crate::lexer::tokens::{Lex, Primitive, Token};
use crate::stringtable::StringTable;
use vstd::prelude::*;

verus! {

/// The name of a primitive type.
pub open spec fn primitive_text(p: Primitive) -> Seq<char> {
    match p {
        Primitive::U8 => "u8"@,
        Primitive::U16 => "u16"@,
        Primitive::U32 => "u32"@,
        Primitive::U64 => "u64"@,
        Primitive::I8 => "i8"@,
        Primitive::I16 => "i16"@,
        Primitive::I32 => "i32"@,
        Primitive::I64 => "i64"@,
        Primitive::Bool => "bool"@,
        Primitive::StringLiteral => "string"@,
    }
}

/// The text of a word that stands for itself.
pub open spec fn word_text(lex: Lex) -> Seq<char> {
    match lex {
        Lex::Primitive(p) => primitive_text(p),
        Lex::Bool(true) => "literal true"@,
        Lex::Bool(false) => "literal false"@,
        Lex::Mul => "*"@,
        Lex::Div => "/"@,
        Lex::Add => "+"@,
        Lex::Minus => "-"@,
        Lex::Not => "!"@,
        Lex::BAnd => "&&"@,
        Lex::BOr => "||"@,
        Lex::Gr => ">"@,
        Lex::GrEq => ">="@,
        Lex::Ls => "<"@,
        Lex::LsEq => "<="@,
        Lex::Eq => "=="@,
        Lex::NEq => "!="@,
        Lex::Assign => ":="@,
        Lex::Semicolon => ";"@,
        Lex::Comma => ","@,
        Lex::Colon => ":"@,
        Lex::PathSeparator => "::"@,
        Lex::PathProjectRoot => "project"@,
        Lex::PathFileRoot => "root"@,
        Lex::PathSelf => "self"@,
        Lex::PathSuper => "super"@,
        Lex::MemberAccess => "."@,
        Lex::LParen => "("@,
        Lex::RParen => ")"@,
        Lex::LBrace => "{"@,
        Lex::RBrace => "}"@,
        Lex::LBracket => "["@,
        Lex::RBracket => "]"@,
        Lex::LArrow => "->"@,
        Lex::VarArgs => "..."@,
        Lex::Let => "let"@,
        Lex::Mut => "mut"@,
        Lex::Return => "return"@,
        Lex::Yield => "yield"@,
        Lex::YieldReturn => "yret"@,
        Lex::FunctionDef => "fn"@,
        Lex::CoroutineDef => "co"@,
        Lex::ModuleDef => "mod"@,
        Lex::Struct => "struct"@,
        Lex::Extern => "extern"@,
        Lex::Init => "init"@,
        Lex::If => "if"@,
        Lex::Else => "else"@,
        Lex::While => "while"@,
        _ => Seq::empty(),
    }
}

/// The text of a word: a keyword or a sign as it is written, a number
/// after the word `literal`, a name after the word `identifier`.
pub open spec fn lex_text(lex: Lex, names: Seq<Seq<char>>) -> Option<Seq<char>> {
    match lex {
        Lex::U8(v) => Some("literal "@ + decimal_text(v as nat)),
        Lex::U16(v) => Some("literal "@ + decimal_text(v as nat)),
        Lex::U32(v) => Some("literal "@ + decimal_text(v as nat)),
        Lex::U64(v) => Some("literal "@ + decimal_text(v as nat)),
        Lex::I8(v) => Some("literal "@ + signed_text(v as int)),
        Lex::I16(v) => Some("literal "@ + signed_text(v as int)),
        Lex::I32(v) => Some("literal "@ + signed_text(v as int)),
        Lex::I64(v) => Some("literal "@ + signed_text(v as int)),
        Lex::Identifier(id) => then(Some("identifier "@), name_text(id, names)),
        Lex::StringLiteral(id) => then(then(Some("literal \""@), name_text(id, names)), Some("\""@)),
        _ => Some(word_text(lex)),
    }
}

/// The text of a word, or of the end of the text.
pub open spec fn optional_lex_text(lex: Option<Lex>, names: Seq<Seq<char>>) -> Option<Seq<char>> {
    match lex {
        Some(lex) => lex_text(lex, names),
        None => Some("EOF"@),
    }
}

/// The text of a token, or of the end of the text.
pub open spec fn optional_token_text(t: Option<Token>, names: Seq<Seq<char>>) -> Option<
    Seq<char>,
> {
    match t {
        Some(t) => lex_text(t.s, names),
        None => Some("EOF"@),
    }
}

fn primitive(p: Primitive) -> (r: &'static str)
    ensures
        r@ == primitive_text(p),
{
    match p {
        Primitive::U8 => "u8",
        Primitive::U16 => "u16",
        Primitive::U32 => "u32",
        Primitive::U64 => "u64",
        Primitive::I8 => "i8",
        Primitive::I16 => "i16",
        Primitive::I32 => "i32",
        Primitive::I64 => "i64",
        Primitive::Bool => "bool",
        Primitive::StringLiteral => "string",
    }
}

fn word(lex: Lex) -> (r: &'static str)
    ensures
        r@ == word_text(lex),
{
    match lex {
        Lex::Primitive(p) => primitive(p),
        Lex::Bool(true) => "literal true",
        Lex::Bool(false) => "literal false",
        Lex::Mul => "*",
        Lex::Div => "/",
        Lex::Add => "+",
        Lex::Minus => "-",
        Lex::Not => "!",
        Lex::BAnd => "&&",
        Lex::BOr => "||",
        Lex::Gr => ">",
        Lex::GrEq => ">=",
        Lex::Ls => "<",
        Lex::LsEq => "<=",
        Lex::Eq => "==",
        Lex::NEq => "!=",
        Lex::Assign => ":=",
        Lex::Semicolon => ";",
        Lex::Comma => ",",
        Lex::Colon => ":",
        Lex::PathSeparator => "::",
        Lex::PathProjectRoot => "project",
        Lex::PathFileRoot => "root",
        Lex::PathSelf => "self",
        Lex::PathSuper => "super",
        Lex::MemberAccess => ".",
        Lex::LParen => "(",
        Lex::RParen => ")",
        Lex::LBrace => "{",
        Lex::RBrace => "}",
        Lex::LBracket => "[",
        Lex::RBracket => "]",
        Lex::LArrow => "->",
        Lex::VarArgs => "...",
        Lex::Let => "let",
        Lex::Mut => "mut",
        Lex::Return => "return",
        Lex::Yield => "yield",
        Lex::YieldReturn => "yret",
        Lex::FunctionDef => "fn",
        Lex::CoroutineDef => "co",
        Lex::ModuleDef => "mod",
        Lex::Struct => "struct",
        Lex::Extern => "extern",
        Lex::Init => "init",
        Lex::If => "if",
        Lex::Else => "else",
        Lex::While => "while",
        _ => {
            proof {
                reveal_strlit("");
                assert(""@ =~= Seq::<char>::empty());
            }
            ""
        },
    }
}

/// The text `literal` and the number.
fn literal(digits: String) -> (r: String)
    ensures
        r@ == "literal "@ + digits@,
{
    let mut out = String::from_str("literal ");
    out.append(digits.as_str());
    out
}

/// The text of a word.
pub fn write_lex(lex: Lex, st: &StringTable) -> (r: Result<String, CompilerDisplayError>)
    ensures
        match r {
            Ok(s) => lex_text(lex, st@) == Some(s@),
            Err(e) => lex_text(lex, st@) is None && e == CompilerDisplayError::StringIdNotFound,
        },
{
    match lex {
        Lex::U8(v) => Ok(literal(decimal(v as u64))),
        Lex::U16(v) => Ok(literal(decimal(v as u64))),
        Lex::U32(v) => Ok(literal(decimal(v as u64))),
        Lex::U64(v) => Ok(literal(decimal(v))),
        Lex::I8(v) => Ok(literal(signed(v as i64))),
        Lex::I16(v) => Ok(literal(signed(v as i64))),
        Lex::I32(v) => Ok(literal(signed(v as i64))),
        Lex::I64(v) => Ok(literal(signed(v))),
        Lex::Identifier(id) => {
            let mut out = String::from_str("identifier ");
            let s = name(id, st)?;
            out.append(s.as_str());
            Ok(out)
        },
        Lex::StringLiteral(id) => {
            let mut out = String::from_str("literal \"");
            let s = name(id, st)?;
            out.append(s.as_str());
            out.append("\"");
            Ok(out)
        },
        _ => Ok(String::from_str(word(lex))),
    }
}

/// The text of a word, or of the end of the text.
pub fn write_optional_lex(lex: Option<Lex>, st: &StringTable) -> (r: Result<
    String,
    CompilerDisplayError,
>)
    ensures
        match r {
            Ok(s) => optional_lex_text(lex, st@) == Some(s@),
            Err(e) => optional_lex_text(lex, st@) is None && e
                == CompilerDisplayError::StringIdNotFound,
        },
{
    match lex {
        Some(lex) => write_lex(lex, st),
        None => Ok(String::from_str("EOF")),
    }
}

/// The text of a token, or of the end of the text.
pub fn write_optional_token(t: Option<Token>, st: &StringTable) -> (r: Result<
    String,
    CompilerDisplayError,
>)
    ensures
        match r {
            Ok(s) => optional_token_text(t, st@) == Some(s@),
            Err(e) => optional_token_text(t, st@) is None && e
                == CompilerDisplayError::StringIdNotFound,
        },
{
    match t {
        Some(t) => write_lex(t.s, st),
        None => Ok(String::from_str("EOF")),
    }
}

} // verus!
