use braid::lexer::tokens::{Lex, Token};
use braid::parser::error::ParserError;
use braid::parser::tokenstream::TokenStream;
use braid::source::span::{Offset, Span};
use braid::stringtable::StringId;

/// Splits a line of parentheses, numbers and operators into tokens.
fn tokenize(text: &str) -> Vec<Token> {
    let mut tokens = vec![];
    let chars: Vec<char> = text.chars().collect();
    let mut i = 0;
    while i < chars.len() {
        let c = chars[i];
        let start = i as u32;
        if c.is_ascii_digit() {
            let mut v: i64 = 0;
            while i < chars.len() && chars[i].is_ascii_digit() {
                v = v * 10 + chars[i].to_digit(10).unwrap() as i64;
                i += 1;
            }
            tokens.push(Token { l: 1, o: start, s: Lex::I64(v) });
            continue;
        }
        let lex = match c {
            '(' => Some(Lex::LParen),
            ')' => Some(Lex::RParen),
            '+' => Some(Lex::Add),
            '*' => Some(Lex::Mul),
            _ => None,
        };
        if let Some(s) = lex {
            tokens.push(Token { l: 1, o: start, s });
        }
        i += 1;
    }
    tokens
}

#[test]
fn test_peek() {
    let text = "(2 + 4) * 3";
    let tokens: Vec<Token> = tokenize(text);

    let ts = TokenStream::new(&tokens);
    let p = ts.peek().unwrap();
    assert_eq!(
        *p,
        Token {
            l: 1,
            o: 0,
            s: Lex::LParen
        }
    );
}

#[test]
fn test_peek_empty() {
    let tokens = vec![];
    let ts = TokenStream::new(&tokens);
    let p = ts.peek();
    assert_eq!(p, None);
}

#[test]
fn test_peek_at() {
    let text = "(2 + 4) * 3";
    let tokens: Vec<Token> = tokenize(text);

    let ts = TokenStream::new(&tokens);
    let p = ts.peek_at(0).unwrap();
    assert_eq!(
        *p,
        Token {
            l: 1,
            o: 0,
            s: Lex::LParen
        }
    );

    let p = ts.peek_at(1).unwrap();
    assert_eq!(
        *p,
        Token {
            l: 1,
            o: 1,
            s: Lex::I64(2)
        }
    );

    let p = ts.peek_at(8);
    assert_eq!(p, None);
}

#[test]
fn test_next() {
    let text = "(2 + 4) * 3";
    let tokens: Vec<Token> = tokenize(text);

    let mut ts = TokenStream::new(&tokens);
    let p = ts.next().unwrap();
    assert_eq!(
        p,
        Token {
            l: 1,
            o: 0,
            s: Lex::LParen
        }
    );

    let p = ts.next().unwrap();
    assert_eq!(
        p,
        Token {
            l: 1,
            o: 1,
            s: Lex::I64(2)
        }
    );

    let p = ts.next().unwrap();
    assert_eq!(
        p,
        Token {
            l: 1,
            o: 3,
            s: Lex::Add
        }
    );

    let p = ts.next().unwrap();
    assert_eq!(
        p,
        Token {
            l: 1,
            o: 5,
            s: Lex::I64(4)
        }
    );

    let p = ts.next().unwrap();
    assert_eq!(
        p,
        Token {
            l: 1,
            o: 6,
            s: Lex::RParen
        }
    );

    let p = ts.next().unwrap();
    assert_eq!(
        p,
        Token {
            l: 1,
            o: 8,
            s: Lex::Mul
        }
    );

    let p = ts.next().unwrap();
    assert_eq!(
        p,
        Token {
            l: 1,
            o: 10,
            s: Lex::I64(3)
        }
    );

    let p = ts.next();
    assert_eq!(p, None);
}

#[test]
fn test_next_if() {
    let text = "(2 + 4) * 3";
    let tokens: Vec<Token> = tokenize(text);

    let mut ts = TokenStream::new(&tokens);
    let p = ts.next_if(&Lex::LParen).unwrap();
    assert_eq!(
        p,
        Token {
            l: 1,
            o: 0,
            s: Lex::LParen
        }
    );

    let p = ts.peek().unwrap();
    assert_eq!(
        *p,
        Token {
            l: 1,
            o: 1,
            s: Lex::I64(2)
        }
    );

    let p = ts.next_if(&Lex::LParen);
    assert_eq!(p, None);

    let p = ts.peek().unwrap();
    assert_eq!(
        *p,
        Token {
            l: 1,
            o: 1,
            s: Lex::I64(2)
        }
    );
}

#[test]
fn test_next_ifn() {
    let text = "(2 + 4) * 3";
    let tokens: Vec<Token> = tokenize(text);

    let mut ts = TokenStream::new(&tokens);
    let p = ts.next_ifn(vec![Lex::LParen, Lex::I64(0)]).unwrap();
    assert_eq!(
        *p,
        vec![
            Token {
                l: 1,
                o: 0,
                s: Lex::LParen
            },
            Token {
                l: 1,
                o: 1,
                s: Lex::I64(2)
            }
        ]
    );

    let p = ts.peek().unwrap();
    assert_eq!(
        *p,
        Token {
            l: 1,
            o: 3,
            s: Lex::Add
        }
    );
}

#[test]
fn test_if_one_of() {
    let text = "(2 + 4) * 3";
    let tokens: Vec<Token> = tokenize(text);

    let ts = TokenStream::new(&tokens);
    let p = ts.test_if_one_of(vec![Lex::LParen, Lex::I64(0)]);
    assert_eq!(p, true);

    let p = ts.test_if_one_of(vec![Lex::RParen, Lex::I64(0)]);
    assert_eq!(p, false);
}

#[test]
fn test_next_if_on_of() {
    let text = "(2 + 4) * 3";
    let tokens: Vec<Token> = tokenize(text);

    let mut ts = TokenStream::new(&tokens);
    let p = ts.next_if_one_of(vec![Lex::LParen, Lex::I64(0)]).unwrap();
    assert_eq!(
        p,
        Token {
            l: 1,
            o: 0,
            s: Lex::LParen
        }
    );
    let p = ts.peek().unwrap();
    assert_eq!(
        *p,
        Token {
            l: 1,
            o: 1,
            s: Lex::I64(2)
        }
    );

    let p = ts.next_if_one_of(vec![Lex::LParen, Lex::I64(0)]).unwrap();
    assert_eq!(
        p,
        Token {
            l: 1,
            o: 1,
            s: Lex::I64(2)
        }
    );
    let p = ts.peek().unwrap();
    assert_eq!(
        *p,
        Token {
            l: 1,
            o: 3,
            s: Lex::Add
        }
    );

    let p = ts.next_if_one_of(vec![Lex::LParen, Lex::I64(0)]).is_none();
    assert_eq!(p, true);
    let p = ts.peek().unwrap();
    assert_eq!(
        *p,
        Token {
            l: 1,
            o: 3,
            s: Lex::Add
        }
    );
}

#[test]
fn next_must_be_reports_what_it_found() {
    let tokens = tokenize("(2");
    let mut ts = TokenStream::new(&tokens);
    assert_eq!(ts.next_must_be(&Lex::LParen).unwrap(), Token::new(1, 0, Lex::LParen));
    let err = ts.next_must_be(&Lex::RParen).unwrap_err();
    assert_eq!(err.span(), Span::new(Offset::new(1), Offset::new(1)));
    assert_eq!(*err.inner(), ParserError::ExpectedButFound(Lex::RParen, Some(Lex::I64(2))));
    assert_eq!(ts.index(), 1);
    assert!(ts.next_must_be(&Lex::I64(0)).is_ok());
    let (span, inner) = ts.next_must_be(&Lex::RParen).unwrap_err().take();
    assert_eq!(span, Span::zero());
    assert_eq!(inner, ParserError::EOF);
}

#[test]
fn identifiers_and_positions() {
    let name = StringId(7);
    let tokens = vec![Token::new(3, 0, Lex::Identifier(name)), Token::new(3, 2, Lex::Colon)];
    let mut ts = TokenStream::new(&tokens);
    assert!(ts.test_ifn(vec![Lex::Identifier(StringId::new()), Lex::Colon]));
    assert!(!ts.test_ifn(vec![Lex::Identifier(StringId::new()), Lex::Comma]));
    assert!(!ts.test_ifn(vec![Lex::Identifier(StringId::new()), Lex::Colon, Lex::Colon]));
    assert!(ts.test_ifn(vec![]));
    assert_eq!(ts.next_if_id(), Some((3, name)));
    assert_eq!(ts.next_if_id(), None);
    assert!(ts.test_if(&Lex::Colon));
    assert!(ts.next_ifn(vec![Lex::Colon, Lex::Colon]).is_none());
    assert_eq!(ts.index(), 1);
    ts.set_index(5);
    assert_eq!(ts.peek(), None);
    assert_eq!(ts.peek_at(0), None);
    assert_eq!(ts.next(), None);
    assert_eq!(ts.next_ifn(vec![]), Some(vec![]));
    ts.set_index(0);
    assert!(ts.test_if(&Lex::Identifier(StringId::new())));
}
