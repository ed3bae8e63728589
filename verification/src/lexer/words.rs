//! The words of the language, as functions of the characters of a text.
use crate::lexer::error::LexerError;
use crate::lexer::tokens::{Lex, Primitive, Token};
use crate::semantics::error::CompilerErrorView;
use crate::source::span::Span;
use crate::stringtable::StringId;
use vstd::prelude::*;

verus! {

/// A lexer error with the place in the text that caused it.
pub type LexFailure = CompilerErrorView<LexerError>;

/// The tokens of a text, and the names that they refer to.
pub ghost struct Scan {
    pub tokens: Seq<Token>,
    pub names: Seq<Seq<char>>,
}

pub open spec fn is_space(c: char) -> bool {
    c == ' ' || c == '\t' || c == '\r' || c == '\n'
}

pub open spec fn is_digit(c: char) -> bool {
    '0' <= c <= '9'
}

pub open spec fn is_letter(c: char) -> bool {
    'a' <= c <= 'z' || 'A' <= c <= 'Z' || c == '_'
}

/// The number that a digit stands for.
pub open spec fn digit(c: char) -> nat {
    (c as u32 - '0' as u32) as nat
}

/// The end of the digits that start at the position.
pub open spec fn digits_end(text: Seq<char>, pos: int) -> int
    decreases text.len() - pos,
{
    if 0 <= pos < text.len() && is_digit(text[pos]) {
        digits_end(text, pos + 1)
    } else {
        pos
    }
}

/// The end of the letters and digits that start at the position.
pub open spec fn word_end(text: Seq<char>, pos: int) -> int
    decreases text.len() - pos,
{
    if 0 <= pos < text.len() && (is_letter(text[pos]) || is_digit(text[pos])) {
        word_end(text, pos + 1)
    } else {
        pos
    }
}

/// The end of the line that holds the position.
pub open spec fn line_end(text: Seq<char>, pos: int) -> int
    decreases text.len() - pos,
{
    if 0 <= pos < text.len() && text[pos] != '\n' {
        line_end(text, pos + 1)
    } else {
        pos
    }
}

/// The number that the digits from `from` up to `to` stand for.
pub open spec fn value(text: Seq<char>, from: int, to: int) -> nat
    decreases to - from,
{
    if to <= from || to > text.len() || from < 0 {
        0
    } else {
        value(text, from, to - 1) * 10 + digit(text[to - 1])
    }
}

/// The literal of a number and of the name of its type, where the number
/// fits the type.  A number without a type is an `i64`.
pub open spec fn typed(v: nat, suffix: Seq<char>) -> Result<Lex, LexerError> {
    if suffix.len() == 0 || suffix == "i64"@ {
        if v <= i64::MAX {
            Ok(Lex::I64(v as i64))
        } else {
            Err(LexerError::InvalidInteger)
        }
    } else if suffix == "i32"@ {
        if v <= i32::MAX {
            Ok(Lex::I32(v as i32))
        } else {
            Err(LexerError::InvalidInteger)
        }
    } else if suffix == "i16"@ {
        if v <= i16::MAX {
            Ok(Lex::I16(v as i16))
        } else {
            Err(LexerError::InvalidInteger)
        }
    } else if suffix == "i8"@ {
        if v <= i8::MAX {
            Ok(Lex::I8(v as i8))
        } else {
            Err(LexerError::InvalidInteger)
        }
    } else if suffix == "u64"@ {
        if v <= u64::MAX {
            Ok(Lex::U64(v as u64))
        } else {
            Err(LexerError::InvalidInteger)
        }
    } else if suffix == "u32"@ {
        if v <= u32::MAX {
            Ok(Lex::U32(v as u32))
        } else {
            Err(LexerError::InvalidInteger)
        }
    } else if suffix == "u16"@ {
        if v <= u16::MAX {
            Ok(Lex::U16(v as u16))
        } else {
            Err(LexerError::InvalidInteger)
        }
    } else if suffix == "u8"@ {
        if v <= u8::MAX {
            Ok(Lex::U8(v as u8))
        } else {
            Err(LexerError::InvalidInteger)
        }
    } else {
        Err(LexerError::InvalidInteger)
    }
}

/// The end of the number that starts at the position: of its digits and
/// of the name of its type.
pub open spec fn number_end(text: Seq<char>, pos: int) -> int {
    word_end(text, digits_end(text, pos))
}

/// The number that starts at the position: digits, and the name of a
/// type directly behind them.
pub open spec fn number(text: Seq<char>, pos: int) -> Result<Lex, LexerError> {
    let d = digits_end(text, pos);
    typed(value(text, pos, d), text.subrange(d, number_end(text, pos)))
}

/// The word that the letters stand for, if they are no name.
pub open spec fn keyword(word: Seq<char>) -> Option<Lex> {
    if word == "fn"@ {
        Some(Lex::FunctionDef)
    } else if word == "co"@ {
        Some(Lex::CoroutineDef)
    } else if word == "mod"@ {
        Some(Lex::ModuleDef)
    } else if word == "struct"@ {
        Some(Lex::Struct)
    } else if word == "extern"@ {
        Some(Lex::Extern)
    } else if word == "let"@ {
        Some(Lex::Let)
    } else if word == "mut"@ {
        Some(Lex::Mut)
    } else if word == "return"@ {
        Some(Lex::Return)
    } else if word == "yield"@ {
        Some(Lex::Yield)
    } else if word == "yret"@ {
        Some(Lex::YieldReturn)
    } else if word == "init"@ {
        Some(Lex::Init)
    } else if word == "if"@ {
        Some(Lex::If)
    } else if word == "else"@ {
        Some(Lex::Else)
    } else if word == "while"@ {
        Some(Lex::While)
    } else if word == "true"@ {
        Some(Lex::Bool(true))
    } else if word == "false"@ {
        Some(Lex::Bool(false))
    } else if word == "project"@ {
        Some(Lex::PathProjectRoot)
    } else if word == "root"@ {
        Some(Lex::PathFileRoot)
    } else if word == "self"@ {
        Some(Lex::PathSelf)
    } else if word == "super"@ {
        Some(Lex::PathSuper)
    } else if word == "u8"@ {
        Some(Lex::Primitive(Primitive::U8))
    } else if word == "u16"@ {
        Some(Lex::Primitive(Primitive::U16))
    } else if word == "u32"@ {
        Some(Lex::Primitive(Primitive::U32))
    } else if word == "u64"@ {
        Some(Lex::Primitive(Primitive::U64))
    } else if word == "i8"@ {
        Some(Lex::Primitive(Primitive::I8))
    } else if word == "i16"@ {
        Some(Lex::Primitive(Primitive::I16))
    } else if word == "i32"@ {
        Some(Lex::Primitive(Primitive::I32))
    } else if word == "i64"@ {
        Some(Lex::Primitive(Primitive::I64))
    } else if word == "bool"@ {
        Some(Lex::Primitive(Primitive::Bool))
    } else if word == "string"@ {
        Some(Lex::Primitive(Primitive::StringLiteral))
    } else {
        None
    }
}

/// The character that follows a backslash in a string literal stands for
/// this character.
pub open spec fn escaped(c: char) -> Option<char> {
    if c == 'n' {
        Some('\n')
    } else if c == 't' {
        Some('\t')
    } else if c == '"' {
        Some('"')
    } else if c == '\\' {
        Some('\\')
    } else {
        None
    }
}

/// The rest of a string literal, from the position on: its characters,
/// appended to `done`, and the position after the quote that ends it.  The
/// literal ends on the line on which it starts.
pub open spec fn literal(text: Seq<char>, pos: int, done: Seq<char>) -> Result<
    (Seq<char>, int),
    LexerError,
>
    decreases text.len() - pos,
{
    if pos < 0 || pos >= text.len() || text[pos] == '\n' {
        Err(LexerError::StringDoesNotEnd)
    } else if text[pos] == '"' {
        Ok((done, pos + 1))
    } else if text[pos] == '\\' {
        if pos + 1 >= text.len() {
            Err(LexerError::StringDoesNotEnd)
        } else {
            match escaped(text[pos + 1]) {
                Some(c) => literal(text, pos + 2, done.push(c)),
                None => Err(LexerError::InvalidEscape),
            }
        }
    } else {
        literal(text, pos + 1, done.push(text[pos]))
    }
}

/// The character at the position, if the text reaches that far.
pub open spec fn at(text: Seq<char>, pos: int) -> Option<char> {
    if 0 <= pos < text.len() {
        Some(text[pos])
    } else {
        None
    }
}

/// The operator or the punctuation that starts at the position, and the
/// number of its characters.
pub open spec fn symbol(text: Seq<char>, pos: int) -> Option<(Lex, int)> {
    let next = at(text, pos + 1);
    match at(text, pos) {
        None => None,
        Some(c) => if c == '.' {
            if next == Some('.') && at(text, pos + 2) == Some('.') {
                Some((Lex::VarArgs, 3))
            } else {
                Some((Lex::MemberAccess, 1))
            }
        } else if c == ':' {
            if next == Some('=') {
                Some((Lex::Assign, 2))
            } else if next == Some(':') {
                Some((Lex::PathSeparator, 2))
            } else {
                Some((Lex::Colon, 1))
            }
        } else if c == '-' {
            if next == Some('>') {
                Some((Lex::LArrow, 2))
            } else {
                Some((Lex::Minus, 1))
            }
        } else if c == '&' {
            if next == Some('&') {
                Some((Lex::BAnd, 2))
            } else {
                None
            }
        } else if c == '|' {
            if next == Some('|') {
                Some((Lex::BOr, 2))
            } else {
                None
            }
        } else if c == '=' {
            if next == Some('=') {
                Some((Lex::Eq, 2))
            } else {
                None
            }
        } else if c == '!' {
            if next == Some('=') {
                Some((Lex::NEq, 2))
            } else {
                Some((Lex::Not, 1))
            }
        } else if c == '<' {
            if next == Some('=') {
                Some((Lex::LsEq, 2))
            } else {
                Some((Lex::Ls, 1))
            }
        } else if c == '>' {
            if next == Some('=') {
                Some((Lex::GrEq, 2))
            } else {
                Some((Lex::Gr, 1))
            }
        } else if c == '+' {
            Some((Lex::Add, 1))
        } else if c == '*' {
            Some((Lex::Mul, 1))
        } else if c == '/' {
            Some((Lex::Div, 1))
        } else if c == ';' {
            Some((Lex::Semicolon, 1))
        } else if c == ',' {
            Some((Lex::Comma, 1))
        } else if c == '(' {
            Some((Lex::LParen, 1))
        } else if c == ')' {
            Some((Lex::RParen, 1))
        } else if c == '{' {
            Some((Lex::LBrace, 1))
        } else if c == '}' {
            Some((Lex::RBrace, 1))
        } else if c == '[' {
            Some((Lex::LBracket, 1))
        } else if c == ']' {
            Some((Lex::RBracket, 1))
        } else {
            None
        },
    }
}

/// Whether the names hold `s`.
pub open spec fn holds(names: Seq<Seq<char>>, s: Seq<char>) -> bool {
    exists|i: int| 0 <= i < names.len() && names[i] == s
}

/// The id of `s` among the names, and the names with `s`: a name that
/// the names hold keeps its id, and a new name comes last.  Nothing where
/// there is no id left for a new name.
pub open spec fn interned(names: Seq<Seq<char>>, s: Seq<char>) -> Option<
    (StringId, Seq<Seq<char>>),
> {
    if holds(names, s) {
        Some((StringId((choose|i: int| 0 <= i < names.len() && names[i] == s) as u32), names))
    } else if names.len() < u32::MAX {
        Some((StringId(names.len() as u32), names.push(s)))
    } else {
        None
    }
}

/// The error `e`, caused by the character at the position.
pub open spec fn failure(pos: int, e: LexerError) -> LexFailure {
    CompilerErrorView { span: Span::of(pos as nat, pos as nat), inner: e }
}

/// The token of the word `lex` that starts at the position, on the line.
pub open spec fn token(line: int, pos: int, lex: Lex) -> Token {
    Token { l: line as u32, o: pos as u32, s: lex }
}

pub proof fn lemma_digits_end(text: Seq<char>, pos: int)
    requires
        0 <= pos <= text.len(),
    ensures
        pos <= digits_end(text, pos) <= text.len(),
        forall|k: int| pos <= k < digits_end(text, pos) ==> is_digit(#[trigger] text[k]),
        digits_end(text, pos) < text.len() ==> !is_digit(text[digits_end(text, pos)]),
    decreases text.len() - pos,
{
    if pos < text.len() && is_digit(text[pos]) {
        lemma_digits_end(text, pos + 1);
    }
}

pub proof fn lemma_word_end(text: Seq<char>, pos: int)
    requires
        0 <= pos <= text.len(),
    ensures
        pos <= word_end(text, pos) <= text.len(),
    decreases text.len() - pos,
{
    if pos < text.len() && (is_letter(text[pos]) || is_digit(text[pos])) {
        lemma_word_end(text, pos + 1);
    }
}

pub proof fn lemma_line_end(text: Seq<char>, pos: int)
    requires
        0 <= pos <= text.len(),
    ensures
        pos <= line_end(text, pos) <= text.len(),
    decreases text.len() - pos,
{
    if pos < text.len() && text[pos] != '\n' {
        lemma_line_end(text, pos + 1);
    }
}

/// A string literal ends after the position at which its rest starts.
pub proof fn lemma_literal_end(text: Seq<char>, pos: int, done: Seq<char>)
    requires
        0 <= pos,
    ensures
        literal(text, pos, done) is Ok ==> pos < literal(text, pos, done)->Ok_0.1 <= text.len(),
    decreases text.len() - pos,
{
    if pos < 0 || pos >= text.len() || text[pos] == '\n' {
    } else if text[pos] == '"' {
    } else if text[pos] == '\\' {
        if pos + 1 < text.len() {
            match escaped(text[pos + 1]) {
                Some(c) => lemma_literal_end(text, pos + 2, done.push(c)),
                None => {},
            }
        }
    } else {
        lemma_literal_end(text, pos + 1, done.push(text[pos]));
    }
}

/// The tokens of the text from the position on, appended to `done`, and
/// the names with those of the text.  Spaces and line breaks separate
/// words, and `//` starts a comment that runs to the end of its line.
pub open spec fn scan(
    text: Seq<char>,
    pos: int,
    line: int,
    names: Seq<Seq<char>>,
    done: Seq<Token>,
) -> Result<Scan, LexFailure>
    decreases text.len() - pos,
    via scan_ends
{
    if pos < 0 || pos >= text.len() {
        Ok(Scan { tokens: done, names })
    } else {
        let c = text[pos];
        if c == '\n' {
            scan(text, pos + 1, line + 1, names, done)
        } else if is_space(c) {
            scan(text, pos + 1, line, names, done)
        } else if c == '/' && at(text, pos + 1) == Some('/') {
            scan(text, line_end(text, pos + 2), line, names, done)
        } else if is_digit(c) {
            match number(text, pos) {
                Ok(lex) => scan(
                    text,
                    number_end(text, pos),
                    line,
                    names,
                    done.push(token(line, pos, lex)),
                ),
                Err(e) => Err(failure(pos, e)),
            }
        } else if is_letter(c) {
            let end = word_end(text, pos);
            let word = text.subrange(pos, end);
            match keyword(word) {
                Some(lex) => scan(text, end, line, names, done.push(token(line, pos, lex))),
                None => match interned(names, word) {
                    Some((id, all)) => scan(
                        text,
                        end,
                        line,
                        all,
                        done.push(token(line, pos, Lex::Identifier(id))),
                    ),
                    None => Err(failure(pos, LexerError::TooManyNames)),
                },
            }
        } else if c == '"' {
            match literal(text, pos + 1, Seq::empty()) {
                Ok((s, end)) => match interned(names, s) {
                    Some((id, all)) => scan(
                        text,
                        end,
                        line,
                        all,
                        done.push(token(line, pos, Lex::StringLiteral(id))),
                    ),
                    None => Err(failure(pos, LexerError::TooManyNames)),
                },
                Err(e) => Err(failure(pos, e)),
            }
        } else {
            match symbol(text, pos) {
                Some((lex, width)) => scan(
                    text,
                    pos + width,
                    line,
                    names,
                    done.push(token(line, pos, lex)),
                ),
                None => Err(failure(pos, LexerError::UnexpectedCharacter(c))),
            }
        }
    }
}

#[via_fn]
proof fn scan_ends(text: Seq<char>, pos: int, line: int, names: Seq<Seq<char>>, done: Seq<Token>) {
    if 0 <= pos < text.len() {
        let c = text[pos];
        if c == '/' && at(text, pos + 1) == Some('/') {
            lemma_line_end(text, pos + 2);
        }
        if is_digit(c) {
            lemma_digits_end(text, pos + 1);
            lemma_word_end(text, digits_end(text, pos));
        }
        if is_letter(c) {
            lemma_word_end(text, pos + 1);
        }
        if c == '"' {
            lemma_literal_end(text, pos + 1, Seq::empty());
        }
    }
}

/// The tokens of a text, and the names with those of the text.  Lines
/// count from one, and offsets from zero.
pub open spec fn lexed(text: Seq<char>, names: Seq<Seq<char>>) -> Result<Scan, LexFailure> {
    if text.len() >= u32::MAX {
        Err(failure(0, LexerError::TextTooLong))
    } else {
        scan(text, 0, 1, names, Seq::empty())
    }
}

} // verus!
