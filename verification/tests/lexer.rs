use braid::lexer::error::LexerError;
use braid::lexer::lexer::{characters, tokenize};
use braid::lexer::tokens::{Lex, Primitive, Token};
use braid::stringtable::{StringId, StringTable};

fn words(text: &str) -> Result<Vec<Lex>, LexerError> {
    let mut table = StringTable::new();
    match tokenize(text, &mut table) {
        Ok(tokens) => Ok(tokens.iter().map(|t| t.s).collect()),
        Err(e) => Err(*e.inner()),
    }
}

#[test]
fn a_text_has_its_characters() {
    assert_eq!(characters(""), Vec::<char>::new());
    assert_eq!(characters("a b"), vec!['a', ' ', 'b']);
    assert_eq!(characters("é→x"), vec!['é', '→', 'x']);
}

#[test]
fn keywords_are_words_of_their_own() {
    assert_eq!(
        words("fn co mod struct extern let mut return yield yret init if else while"),
        Ok(vec![
            Lex::FunctionDef,
            Lex::CoroutineDef,
            Lex::ModuleDef,
            Lex::Struct,
            Lex::Extern,
            Lex::Let,
            Lex::Mut,
            Lex::Return,
            Lex::Yield,
            Lex::YieldReturn,
            Lex::Init,
            Lex::If,
            Lex::Else,
            Lex::While,
        ])
    );
    assert_eq!(
        words("true false project root self super"),
        Ok(vec![
            Lex::Bool(true),
            Lex::Bool(false),
            Lex::PathProjectRoot,
            Lex::PathFileRoot,
            Lex::PathSelf,
            Lex::PathSuper,
        ])
    );
    assert_eq!(
        words("u8 u16 u32 u64 i8 i16 i32 i64 bool string"),
        Ok(vec![
            Lex::Primitive(Primitive::U8),
            Lex::Primitive(Primitive::U16),
            Lex::Primitive(Primitive::U32),
            Lex::Primitive(Primitive::U64),
            Lex::Primitive(Primitive::I8),
            Lex::Primitive(Primitive::I16),
            Lex::Primitive(Primitive::I32),
            Lex::Primitive(Primitive::I64),
            Lex::Primitive(Primitive::Bool),
            Lex::Primitive(Primitive::StringLiteral),
        ])
    );
}

#[test]
fn operators_take_the_longest_match() {
    assert_eq!(
        words("* / + - ! && || > >= < <= == != := ; , : :: . ( ) { } [ ] -> ..."),
        Ok(vec![
            Lex::Mul,
            Lex::Div,
            Lex::Add,
            Lex::Minus,
            Lex::Not,
            Lex::BAnd,
            Lex::BOr,
            Lex::Gr,
            Lex::GrEq,
            Lex::Ls,
            Lex::LsEq,
            Lex::Eq,
            Lex::NEq,
            Lex::Assign,
            Lex::Semicolon,
            Lex::Comma,
            Lex::Colon,
            Lex::PathSeparator,
            Lex::MemberAccess,
            Lex::LParen,
            Lex::RParen,
            Lex::LBrace,
            Lex::RBrace,
            Lex::LBracket,
            Lex::RBracket,
            Lex::LArrow,
            Lex::VarArgs,
        ])
    );
    assert_eq!(words("a..b"), Ok(vec![
        Lex::Identifier(StringId(0)),
        Lex::MemberAccess,
        Lex::MemberAccess,
        Lex::Identifier(StringId(1)),
    ]));
    assert_eq!(words("x:=-1"), Ok(vec![
        Lex::Identifier(StringId(0)),
        Lex::Assign,
        Lex::Minus,
        Lex::I64(1),
    ]));
}

#[test]
fn characters_without_a_meaning_are_refused() {
    assert_eq!(words("a & b"), Err(LexerError::UnexpectedCharacter('&')));
    assert_eq!(words("a | b"), Err(LexerError::UnexpectedCharacter('|')));
    assert_eq!(words("a = b"), Err(LexerError::UnexpectedCharacter('=')));
    assert_eq!(words("a # b"), Err(LexerError::UnexpectedCharacter('#')));
    assert_eq!(words("é"), Err(LexerError::UnexpectedCharacter('é')));
    let mut table = StringTable::new();
    let e = tokenize("ab\n  $", &mut table).unwrap_err();
    assert_eq!((e.span().low().0, e.span().high().0), (5, 5));
}

#[test]
fn numbers_have_a_type() {
    assert_eq!(words("0 5 05 9223372036854775807"), Ok(vec![
        Lex::I64(0),
        Lex::I64(5),
        Lex::I64(5),
        Lex::I64(i64::MAX),
    ]));
    assert_eq!(
        words("255u8 65535u16 4294967295u32 18446744073709551615u64"),
        Ok(vec![Lex::U8(255), Lex::U16(65535), Lex::U32(u32::MAX), Lex::U64(u64::MAX)])
    );
    assert_eq!(
        words("127i8 32767i16 2147483647i32 7i64"),
        Ok(vec![Lex::I8(127), Lex::I16(32767), Lex::I32(i32::MAX), Lex::I64(7)])
    );
}

#[test]
fn numbers_fit_their_type() {
    for text in [
        "9223372036854775808",
        "256u8",
        "65536u16",
        "4294967296u32",
        "18446744073709551616u64",
        "99999999999999999999999999",
        "128i8",
        "32768i16",
        "2147483648i32",
        "9223372036854775808i64",
        "5x",
        "5u7",
        "5_",
    ] {
        assert_eq!(words(text), Err(LexerError::InvalidInteger), "{}", text);
    }
}

#[test]
fn names_are_stored_once() {
    let mut table = StringTable::new();
    let tokens = tokenize("abc _x1 abc Abc \"abc\" \"\"", &mut table).unwrap();
    assert_eq!(
        tokens,
        vec![
            Token::new(1, 0, Lex::Identifier(StringId(0))),
            Token::new(1, 4, Lex::Identifier(StringId(1))),
            Token::new(1, 8, Lex::Identifier(StringId(0))),
            Token::new(1, 12, Lex::Identifier(StringId(2))),
            Token::new(1, 16, Lex::StringLiteral(StringId(0))),
            Token::new(1, 22, Lex::StringLiteral(StringId(3))),
        ]
    );
    assert_eq!(table.len(), 4);
    assert_eq!(table.get(StringId(1)).unwrap(), "_x1");
    assert_eq!(table.get(StringId(3)).unwrap(), "");
}

#[test]
fn names_keep_the_ids_they_had() {
    let mut table = StringTable::new();
    let main = table.insert("main".into());
    let tokens = tokenize("fn main", &mut table).unwrap();
    assert_eq!(tokens[1].s, Lex::Identifier(main));
    assert_eq!(table.len(), 1);
}

#[test]
fn string_literals_end_on_their_line() {
    let mut table = StringTable::new();
    let tokens = tokenize("\"a\\tb\\nc\\\\d\\\"e // f\"", &mut table).unwrap();
    assert_eq!(tokens.len(), 1);
    assert_eq!(table.get(StringId(0)).unwrap(), "a\tb\nc\\d\"e // f");
    assert_eq!(words("\"abc"), Err(LexerError::StringDoesNotEnd));
    assert_eq!(words("\"abc\ndef\""), Err(LexerError::StringDoesNotEnd));
    assert_eq!(words("\"abc\\"), Err(LexerError::StringDoesNotEnd));
    assert_eq!(words("\"a\\qb\""), Err(LexerError::InvalidEscape));
}

#[test]
fn comments_run_to_the_end_of_the_line() {
    let mut table = StringTable::new();
    let tokens = tokenize("a // b c\n// d\n\te / f //", &mut table).unwrap();
    assert_eq!(
        tokens,
        vec![
            Token::new(1, 0, Lex::Identifier(StringId(0))),
            Token::new(3, 15, Lex::Identifier(StringId(1))),
            Token::new(3, 17, Lex::Div),
            Token::new(3, 19, Lex::Identifier(StringId(2))),
        ]
    );
}

#[test]
fn an_empty_text_has_no_tokens() {
    assert_eq!(words(""), Ok(vec![]));
    assert_eq!(words(" \t\r\n"), Ok(vec![]));
}
