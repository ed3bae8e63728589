//! The lexer: reads the characters of a text into tokens.
use crate::lexer::error::LexerError;
use crate::lexer::tokens::{Lex, Primitive, Token};
use crate::lexer::words::{
    at, digit, digits_end, escaped, failure, holds, interned, is_digit, keyword, lemma_digits_end,
    lemma_word_end, lexed, line_end, literal, number, number_end, scan, symbol, typed, value,
    word_end, LexFailure, Scan,
};
use crate::semantics::error::CompilerError;
use crate::source::span::{Offset, Span};
use crate::stringtable::{StringId, StringTable};
use vstd::prelude::*;

verus! {

/// The characters of a text, in order.
pub fn characters(text: &str) -> (r: Vec<char>)
    ensures
        r@ == text@,
{
    let n = text.unicode_len();
    let mut out: Vec<char> = Vec::new();
    let mut i: usize = 0;
    while i < n
        invariant
            n == text@.len(),
            i <= n,
            out@ == text@.take(i as int),
        decreases n - i,
    {
        out.push(text.get_char(i));
        assert(out@ =~= text@.take(i + 1));
        i += 1;
    }
    assert(text@.take(n as int) =~= text@);
    out
}

/// Whether the character at the position `i` is `c`.
fn is_at(chars: &Vec<char>, i: usize, c: char) -> (r: bool)
    ensures
        r == (at(chars@, i as int) == Some(c)),
{
    i < chars.len() && chars[i] == c
}

/// The end of the digits that start at the position.
fn end_of_digits(chars: &Vec<char>, pos: usize) -> (r: usize)
    requires
        pos <= chars.len(),
    ensures
        r == digits_end(chars@, pos as int),
        pos <= r <= chars.len(),
{
    let mut i = pos;
    while i < chars.len() && chars[i] >= '0' && chars[i] <= '9'
        invariant
            pos <= i <= chars.len(),
            digits_end(chars@, pos as int) == digits_end(chars@, i as int),
        decreases chars.len() - i,
    {
        i += 1;
    }
    i
}

/// The end of the letters and digits that start at the position.
fn end_of_word(chars: &Vec<char>, pos: usize) -> (r: usize)
    requires
        pos <= chars.len(),
    ensures
        r == word_end(chars@, pos as int),
        pos <= r <= chars.len(),
{
    let mut i = pos;
    while i < chars.len() && (chars[i] >= 'a' && chars[i] <= 'z' || chars[i] >= 'A' && chars[i]
        <= 'Z' || chars[i] == '_' || chars[i] >= '0' && chars[i] <= '9')
        invariant
            pos <= i <= chars.len(),
            word_end(chars@, pos as int) == word_end(chars@, i as int),
        decreases chars.len() - i,
    {
        i += 1;
    }
    i
}

/// The end of the line that holds the position.
fn end_of_line(chars: &Vec<char>, pos: usize) -> (r: usize)
    requires
        pos <= chars.len(),
    ensures
        r == line_end(chars@, pos as int),
        pos <= r <= chars.len(),
{
    let mut i = pos;
    while i < chars.len() && chars[i] != '\n'
        invariant
            pos <= i <= chars.len(),
            line_end(chars@, pos as int) == line_end(chars@, i as int),
        decreases chars.len() - i,
    {
        i += 1;
    }
    i
}

/// The characters from `from` up to `to`, as a string.
fn text_between(chars: &Vec<char>, from: usize, to: usize) -> (r: String)
    requires
        from <= to <= chars.len(),
    ensures
        r@ == chars@.subrange(from as int, to as int),
{
    let mut s = String::new();
    let mut i = from;
    while i < to
        invariant
            from <= i <= to <= chars.len(),
            s@ == chars@.subrange(from as int, i as int),
        decreases to - i,
    {
        s.push(chars[i]);
        assert(s@ =~= chars@.subrange(from as int, i + 1));
        i += 1;
    }
    s
}

/// Whether the characters from `from` up to `to` are those of `word`.
fn spells(chars: &Vec<char>, from: usize, to: usize, word: &str) -> (r: bool)
    requires
        from <= to <= chars.len(),
    ensures
        r == (chars@.subrange(from as int, to as int) == word@),
{
    let n = word.unicode_len();
    if to - from != n {
        return false;
    }
    let mut i: usize = 0;
    while i < n
        invariant
            from <= to <= chars.len(),
            n == to - from,
            n == word@.len(),
            i <= n,
            forall|k: int| 0 <= k < i ==> chars@[from + k] == word@[k],
        decreases n - i,
    {
        if chars[from + i] != word.get_char(i) {
            assert(chars@.subrange(from as int, to as int)[i as int] != word@[i as int]);
            return false;
        }
        i += 1;
    }
    assert(chars@.subrange(from as int, to as int) =~= word@);
    true
}

/// The word that the letters from `from` up to `to` stand for, if they are
/// no name.
fn word_of(chars: &Vec<char>, from: usize, to: usize) -> (r: Option<Lex>)
    requires
        from <= to <= chars.len(),
    ensures
        r == keyword(chars@.subrange(from as int, to as int)),
{
    if spells(chars, from, to, "fn") {
        Some(Lex::FunctionDef)
    } else if spells(chars, from, to, "co") {
        Some(Lex::CoroutineDef)
    } else if spells(chars, from, to, "mod") {
        Some(Lex::ModuleDef)
    } else if spells(chars, from, to, "struct") {
        Some(Lex::Struct)
    } else if spells(chars, from, to, "extern") {
        Some(Lex::Extern)
    } else if spells(chars, from, to, "let") {
        Some(Lex::Let)
    } else if spells(chars, from, to, "mut") {
        Some(Lex::Mut)
    } else if spells(chars, from, to, "return") {
        Some(Lex::Return)
    } else if spells(chars, from, to, "yield") {
        Some(Lex::Yield)
    } else if spells(chars, from, to, "yret") {
        Some(Lex::YieldReturn)
    } else if spells(chars, from, to, "init") {
        Some(Lex::Init)
    } else if spells(chars, from, to, "if") {
        Some(Lex::If)
    } else if spells(chars, from, to, "else") {
        Some(Lex::Else)
    } else if spells(chars, from, to, "while") {
        Some(Lex::While)
    } else if spells(chars, from, to, "true") {
        Some(Lex::Bool(true))
    } else if spells(chars, from, to, "false") {
        Some(Lex::Bool(false))
    } else if spells(chars, from, to, "project") {
        Some(Lex::PathProjectRoot)
    } else if spells(chars, from, to, "root") {
        Some(Lex::PathFileRoot)
    } else if spells(chars, from, to, "self") {
        Some(Lex::PathSelf)
    } else if spells(chars, from, to, "super") {
        Some(Lex::PathSuper)
    } else if spells(chars, from, to, "u8") {
        Some(Lex::Primitive(Primitive::U8))
    } else if spells(chars, from, to, "u16") {
        Some(Lex::Primitive(Primitive::U16))
    } else if spells(chars, from, to, "u32") {
        Some(Lex::Primitive(Primitive::U32))
    } else if spells(chars, from, to, "u64") {
        Some(Lex::Primitive(Primitive::U64))
    } else if spells(chars, from, to, "i8") {
        Some(Lex::Primitive(Primitive::I8))
    } else if spells(chars, from, to, "i16") {
        Some(Lex::Primitive(Primitive::I16))
    } else if spells(chars, from, to, "i32") {
        Some(Lex::Primitive(Primitive::I32))
    } else if spells(chars, from, to, "i64") {
        Some(Lex::Primitive(Primitive::I64))
    } else if spells(chars, from, to, "bool") {
        Some(Lex::Primitive(Primitive::Bool))
    } else if spells(chars, from, to, "string") {
        Some(Lex::Primitive(Primitive::StringLiteral))
    } else {
        None
    }
}

/// The literal of the number `v` and of the name of its type, which the
/// characters from `from` up to `to` spell.  Where `fits` is false, the
/// number is greater than `v` can hold.
fn literal_of(
    v: u64,
    fits: bool,
    number: Ghost<nat>,
    chars: &Vec<char>,
    from: usize,
    to: usize,
) -> (r: Result<Lex, LexerError>)
    requires
        from <= to <= chars.len(),
        fits ==> v == number@,
        !fits ==> number@ > u64::MAX,
    ensures
        r == typed(number@, chars@.subrange(from as int, to as int)),
{
    if from == to || spells(chars, from, to, "i64") {
        if fits && v <= 0x7fff_ffff_ffff_ffff {
            Ok(Lex::I64(v as i64))
        } else {
            Err(LexerError::InvalidInteger)
        }
    } else if spells(chars, from, to, "i32") {
        if fits && v <= 0x7fff_ffff {
            Ok(Lex::I32(v as i32))
        } else {
            Err(LexerError::InvalidInteger)
        }
    } else if spells(chars, from, to, "i16") {
        if fits && v <= 0x7fff {
            Ok(Lex::I16(v as i16))
        } else {
            Err(LexerError::InvalidInteger)
        }
    } else if spells(chars, from, to, "i8") {
        if fits && v <= 0x7f {
            Ok(Lex::I8(v as i8))
        } else {
            Err(LexerError::InvalidInteger)
        }
    } else if spells(chars, from, to, "u64") {
        if fits {
            Ok(Lex::U64(v))
        } else {
            Err(LexerError::InvalidInteger)
        }
    } else if spells(chars, from, to, "u32") {
        if fits && v <= 0xffff_ffff {
            Ok(Lex::U32(v as u32))
        } else {
            Err(LexerError::InvalidInteger)
        }
    } else if spells(chars, from, to, "u16") {
        if fits && v <= 0xffff {
            Ok(Lex::U16(v as u16))
        } else {
            Err(LexerError::InvalidInteger)
        }
    } else if spells(chars, from, to, "u8") {
        if fits && v <= 0xff {
            Ok(Lex::U8(v as u8))
        } else {
            Err(LexerError::InvalidInteger)
        }
    } else {
        Err(LexerError::InvalidInteger)
    }
}

/// Reads the number that starts at the position, and gives the position
/// after it.
fn read_number(chars: &Vec<char>, pos: usize) -> (r: (Result<Lex, LexerError>, usize))
    requires
        pos < chars.len(),
        is_digit(chars@[pos as int]),
    ensures
        r.0 == number(chars@, pos as int),
        r.1 == number_end(chars@, pos as int),
        pos < r.1 <= chars.len(),
{
    let d = end_of_digits(chars, pos);
    let end = end_of_word(chars, d);
    proof {
        lemma_digits_end(chars@, pos as int);
    }
    let mut v: u64 = 0;
    let mut fits = true;
    let mut i = pos;
    while i < d
        invariant
            pos <= i <= d <= chars.len(),
            forall|k: int| pos <= k < d ==> is_digit(#[trigger] chars@[k]),
            fits ==> v == value(chars@, pos as int, i as int),
            !fits ==> value(chars@, pos as int, i as int) > u64::MAX,
        decreases d - i,
    {
        let c = chars[i];
        assert(is_digit(chars@[i as int]));
        let n: u64 = (c as u32 - '0' as u32) as u64;
        assert(value(chars@, pos as int, i + 1) == value(chars@, pos as int, i as int) * 10
            + digit(c));
        if fits {
            if v > (u64::MAX - n) / 10 {
                fits = false;
            } else {
                v = v * 10 + n;
            }
        }
        i += 1;
    }
    (literal_of(v, fits, Ghost(value(chars@, pos as int, d as int)), chars, d, end), end)
}

/// Reads the rest of the string literal that starts before the position,
/// and gives its characters and the position after it.
fn read_literal(chars: &Vec<char>, pos: usize) -> (r: Result<(String, usize), LexerError>)
    requires
        pos <= chars.len(),
    ensures
        match r {
            Ok((s, end)) => literal(chars@, pos as int, Seq::empty()) == Ok::<
                (Seq<char>, int),
                LexerError,
            >((s@, end as int)) && pos < end <= chars.len(),
            Err(e) => literal(chars@, pos as int, Seq::empty()) == Err::<
                (Seq<char>, int),
                LexerError,
            >(e),
        },
{
    let mut s = String::new();
    let mut i = pos;
    loop
        invariant
            pos <= i <= chars.len(),
            literal(chars@, pos as int, Seq::empty()) == literal(chars@, i as int, s@),
        decreases chars.len() - i,
    {
        if i >= chars.len() || chars[i] == '\n' {
            return Err(LexerError::StringDoesNotEnd);
        }
        let c = chars[i];
        if c == '"' {
            return Ok((s, i + 1));
        }
        if c == '\\' {
            if i + 1 >= chars.len() {
                return Err(LexerError::StringDoesNotEnd);
            }
            let e = chars[i + 1];
            let escaped = if e == 'n' {
                '\n'
            } else if e == 't' {
                '\t'
            } else if e == '"' {
                '"'
            } else if e == '\\' {
                '\\'
            } else {
                return Err(LexerError::InvalidEscape);
            };
            s.push(escaped);
            i += 2;
        } else {
            s.push(c);
            i += 1;
        }
    }
}

/// Reads the operator or the punctuation that starts at the position, and
/// gives the number of its characters.
fn read_symbol(chars: &Vec<char>, pos: usize) -> (r: Option<(Lex, usize)>)
    requires
        pos < chars.len() < u32::MAX,
    ensures
        match r {
            Some((lex, width)) => symbol(chars@, pos as int) == Some((lex, width as int)) && 1
                <= width && pos + width <= chars.len(),
            None => symbol(chars@, pos as int) is None,
        },
{
    let c = chars[pos];
    if c == '.' {
        if is_at(chars, pos + 1, '.') && is_at(chars, pos + 2, '.') {
            Some((Lex::VarArgs, 3))
        } else {
            Some((Lex::MemberAccess, 1))
        }
    } else if c == ':' {
        if is_at(chars, pos + 1, '=') {
            Some((Lex::Assign, 2))
        } else if is_at(chars, pos + 1, ':') {
            Some((Lex::PathSeparator, 2))
        } else {
            Some((Lex::Colon, 1))
        }
    } else if c == '-' {
        if is_at(chars, pos + 1, '>') {
            Some((Lex::LArrow, 2))
        } else {
            Some((Lex::Minus, 1))
        }
    } else if c == '&' {
        if is_at(chars, pos + 1, '&') {
            Some((Lex::BAnd, 2))
        } else {
            None
        }
    } else if c == '|' {
        if is_at(chars, pos + 1, '|') {
            Some((Lex::BOr, 2))
        } else {
            None
        }
    } else if c == '=' {
        if is_at(chars, pos + 1, '=') {
            Some((Lex::Eq, 2))
        } else {
            None
        }
    } else if c == '!' {
        if is_at(chars, pos + 1, '=') {
            Some((Lex::NEq, 2))
        } else {
            Some((Lex::Not, 1))
        }
    } else if c == '<' {
        if is_at(chars, pos + 1, '=') {
            Some((Lex::LsEq, 2))
        } else {
            Some((Lex::Ls, 1))
        }
    } else if c == '>' {
        if is_at(chars, pos + 1, '=') {
            Some((Lex::GrEq, 2))
        } else {
            Some((Lex::Gr, 1))
        }
    } else if c == '+' {
        Some((Lex::Add, 1))
    } else if c == '*' {
        Some((Lex::Mul, 1))
    } else if c == '/' {
        Some((Lex::Div, 1))
    } else if c == ';' {
        Some((Lex::Semicolon, 1))
    } else if c == ',' {
        Some((Lex::Comma, 1))
    } else if c == '(' {
        Some((Lex::LParen, 1))
    } else if c == ')' {
        Some((Lex::RParen, 1))
    } else if c == '{' {
        Some((Lex::LBrace, 1))
    } else if c == '}' {
        Some((Lex::RBrace, 1))
    } else if c == '[' {
        Some((Lex::LBracket, 1))
    } else if c == ']' {
        Some((Lex::RBracket, 1))
    } else {
        None
    }
}

/// Stores the name in the table, unless the table is full, and gives its
/// id.
fn intern(table: &mut StringTable, s: String) -> (r: Option<StringId>)
    requires
        old(table).wf(),
    ensures
        final(table).wf(),
        old(table)@.is_prefix_of(final(table)@),
        match r {
            Some(id) => interned(old(table)@, s@) == Some((id, final(table)@)),
            None => interned(old(table)@, s@) is None && final(table)@ == old(table)@,
        },
{
    if table.len() >= 0xffff_ffff && table.find(&s).is_none() {
        return None;
    }
    let ghost before = table@;
    let id = table.insert(s);
    proof {
        if holds(before, s@) {
            let i = choose|i: int| 0 <= i < before.len() && before[i] == s@;
            assert(i == id.index());
        }
    }
    Some(id)
}

/// The error `e`, caused by the character at the position.
fn fail(pos: usize, e: LexerError) -> (r: CompilerError<LexerError>)
    requires
        pos < u32::MAX,
    ensures
        r@ == failure(pos as int, e),
{
    let at = Offset::new(pos as u32);
    CompilerError::new(Span::new(at, at), e)
}

/// Reads the text into tokens, and stores the names and the string
/// literals of the text in the table.  The names that the table held keep
/// their ids.
pub fn tokenize(text: &str, table: &mut StringTable) -> (r: Result<
    Vec<Token>,
    CompilerError<LexerError>,
>)
    requires
        old(table).wf(),
    ensures
        final(table).wf(),
        old(table)@.is_prefix_of(final(table)@),
        match r {
            Ok(tokens) => lexed(text@, old(table)@) == Ok::<Scan, LexFailure>(
                Scan { tokens: tokens@, names: final(table)@ },
            ),
            Err(e) => lexed(text@, old(table)@) == Err::<Scan, LexFailure>(e@),
        },
{
    let chars = characters(text);
    if chars.len() >= 0xffff_ffff {
        return Err(fail(0, LexerError::TextTooLong));
    }
    let mut tokens: Vec<Token> = Vec::new();
    let mut line: u32 = 1;
    let mut i: usize = 0;
    while i < chars.len()
        invariant
            chars@ == text@,
            i <= chars.len() < u32::MAX,
            1 <= line <= i + 1,
            table.wf(),
            old(table)@.is_prefix_of(table@),
            scan(text@, 0, 1, old(table)@, Seq::empty()) == scan(
                text@,
                i as int,
                line as int,
                table@,
                tokens@,
            ),
        decreases chars.len() - i,
    {
        let c = chars[i];
        let start = i;
        if c == '\n' {
            line += 1;
            i += 1;
        } else if c == ' ' || c == '\t' || c == '\r' {
            i += 1;
        } else if c == '/' && is_at(&chars, i + 1, '/') {
            i = end_of_line(&chars, i + 2);
        } else if c >= '0' && c <= '9' {
            let (lex, end) = read_number(&chars, i);
            match lex {
                Ok(lex) => {
                    tokens.push(Token::new(line, start as u32, lex));
                    i = end;
                },
                Err(e) => {
                    return Err(fail(start, e));
                },
            }
        } else if c >= 'a' && c <= 'z' || c >= 'A' && c <= 'Z' || c == '_' {
            let end = end_of_word(&chars, i);
            proof {
                lemma_word_end(chars@, i + 1);
            }
            let lex = match word_of(&chars, i, end) {
                Some(lex) => lex,
                None => match intern(table, text_between(&chars, i, end)) {
                    Some(id) => Lex::Identifier(id),
                    None => {
                        return Err(fail(start, LexerError::TooManyNames));
                    },
                },
            };
            tokens.push(Token::new(line, start as u32, lex));
            i = end;
        } else if c == '"' {
            match read_literal(&chars, i + 1) {
                Ok((s, end)) => match intern(table, s) {
                    Some(id) => {
                        tokens.push(Token::new(line, start as u32, Lex::StringLiteral(id)));
                        i = end;
                    },
                    None => {
                        return Err(fail(start, LexerError::TooManyNames));
                    },
                },
                Err(e) => {
                    return Err(fail(start, e));
                },
            }
        } else {
            match read_symbol(&chars, i) {
                Some((lex, width)) => {
                    tokens.push(Token::new(line, start as u32, lex));
                    i += width;
                },
                None => {
                    return Err(fail(start, LexerError::UnexpectedCharacter(c)));
                },
            }
        }
    }
    Ok(tokens)
}

} // verus!
