//! A cursor over the tokens of a compilation unit.
use crate::lexer::tokens::{Lex, Token};
use crate::parser::error::ParserError;
use crate::semantics::error::{CompilerError, CompilerErrorView};
use crate::source::span::{Offset, Span};
use crate::stringtable::StringId;
use vstd::prelude::*;

verus! {

pub struct TokenStream<'a> {
    tokens: &'a Vec<Token>,
    index: usize,
}

/// Whether the tokens of `tokens` from position `at` on are of the kinds
/// that `test` lists, one for one.
pub open spec fn matches_all(tokens: Seq<Token>, at: int, test: Seq<Lex>) -> bool {
    forall|i: int|
        0 <= i < test.len() ==> at + i < tokens.len() && (#[trigger] tokens[at + i]).s.same_kind(
            test[i],
        )
}

/// Whether `token` is of one of the kinds that `set` lists.
pub open spec fn matches_one(token: Token, set: Seq<Lex>) -> bool {
    exists|i: int| 0 <= i < set.len() && token.s.same_kind(#[trigger] set[i])
}

impl<'a> TokenStream<'a> {
    /// The tokens that the stream runs over.
    pub closed spec fn tokens(&self) -> Seq<Token> {
        self.tokens@
    }

    /// The position of the token that is read next.
    pub closed spec fn position(&self) -> int {
        self.index as int
    }

    /// The token that is read next, if the stream has not ended.
    pub open spec fn current(&self) -> Option<Token> {
        if 0 <= self.position() < self.tokens().len() {
            Some(self.tokens()[self.position()])
        } else {
            None
        }
    }

    /// Whether the token that is read next is of the kind of `test`.
    pub open spec fn at_kind(&self, test: Lex) -> bool {
        self.current() is Some && self.current().unwrap().s.same_kind(test)
    }

    pub fn new(tokens: &'a Vec<Token>) -> (r: TokenStream<'a>)
        ensures
            r.tokens() == tokens@,
            r.position() == 0,
    {
        TokenStream { tokens, index: 0 }
    }

    /// The number of tokens that the stream runs over.
    pub fn len(&self) -> (r: usize)
        ensures
            r == self.tokens().len(),
    {
        self.tokens.len()
    }

    /// The token at the position `i`, counted from the first token.
    pub fn get(&self, i: usize) -> (r: Option<Token>)
        ensures
            r == (if i < self.tokens().len() {
                Some(self.tokens()[i as int])
            } else {
                None
            }),
    {
        if i < self.tokens.len() {
            Some(self.tokens[i])
        } else {
            None
        }
    }

    pub fn index(&self) -> (r: usize)
        ensures
            r == self.position(),
    {
        self.index
    }

    pub fn set_index(&mut self, i: usize)
        ensures
            final(self).tokens() == old(self).tokens(),
            final(self).position() == i,
    {
        self.index = i;
    }

    /// Reads the next token and moves past it.
    pub fn next(&mut self) -> (r: Option<Token>)
        ensures
            final(self).tokens() == old(self).tokens(),
            r == old(self).current(),
            final(self).position() == (if r is Some {
                old(self).position() + 1
            } else {
                old(self).position()
            }),
    {
        if self.index >= self.tokens.len() {
            None
        } else {
            self.index += 1;
            Some(self.tokens[self.index - 1])
        }
    }

    /// Reads the next token if it is of the kind of `test`.
    pub fn next_if(&mut self, test: &Lex) -> (r: Option<Token>)
        ensures
            final(self).tokens() == old(self).tokens(),
            r == (if old(self).at_kind(*test) {
                old(self).current()
            } else {
                None
            }),
            final(self).position() == (if r is Some {
                old(self).position() + 1
            } else {
                old(self).position()
            }),
    {
        if self.test_if(test) {
            self.next()
        } else {
            None
        }
    }

    /// Reads the next token if it is an identifier and returns its line and
    /// its name.
    pub fn next_if_id(&mut self) -> (r: Option<(u32, StringId)>)
        ensures
            final(self).tokens() == old(self).tokens(),
            r == (match old(self).current() {
                Some(Token { l, s: Lex::Identifier(id), .. }) => Some((l, id)),
                _ => None,
            }),
            final(self).position() == (if r is Some {
                old(self).position() + 1
            } else {
                old(self).position()
            }),
    {
        match self.next_if(&Lex::Identifier(StringId::new())) {
            Some(Token { l, s: Lex::Identifier(id), .. }) => Some((l, id)),
            Some(_) => None,
            None => None,
        }
    }

    /// Reads the next token, which must be of the kind of `test`.  Fails
    /// with `EOF` at the end of the stream and with `ExpectedButFound` at a
    /// token of another kind; the stream then stays where it is.
    pub fn next_must_be(&mut self, test: &Lex) -> (r: Result<Token, CompilerError<ParserError>>)
        ensures
            final(self).tokens() == old(self).tokens(),
            match r {
                Ok(t) => old(self).at_kind(*test) && Some(t) == old(self).current()
                    && final(self).position() == old(self).position() + 1,
                Err(e) => !old(self).at_kind(*test) && final(self).position()
                    == old(self).position() && e@ == (match old(self).current() {
                    None => CompilerErrorView { span: Span::of(0, 0), inner: ParserError::EOF },
                    Some(t) => CompilerErrorView {
                        span: Span::of(t.o as nat, t.o as nat),
                        inner: ParserError::ExpectedButFound(*test, Some(t.s)),
                    },
                }),
            },
    {
        let (at, found) = match self.peek() {
            Some(t) => (t.o, t.s),
            None => {
                return Err(CompilerError::new(Span::zero(), ParserError::EOF));
            },
        };
        match self.next_if(test) {
            Some(t) => Ok(t),
            None => Err(
                CompilerError::new(
                    Span::new(Offset::new(at), Offset::new(at)),
                    ParserError::ExpectedButFound(*test, Some(found)),
                ),
            ),
        }
    }

    /// Reads as many tokens as `test` lists kinds, if the next tokens are of
    /// these kinds, one for one.
    pub fn next_ifn(&mut self, test: Vec<Lex>) -> (r: Option<Vec<Token>>)
        ensures
            final(self).tokens() == old(self).tokens(),
            r is Some <==> matches_all(old(self).tokens(), old(self).position(), test@),
            r is Some ==> r.unwrap()@.len() == test@.len() && final(self).position()
                == old(self).position() + test@.len(),
            r is Some ==> forall|i: int|
                0 <= i < test@.len() ==> r.unwrap()@[i]
                    == old(self).tokens()[old(self).position() + i],
            r is None ==> final(self).position() == old(self).position(),
    {
        let n = test.len();
        if self.test_ifn(test) {
            let mut v: Vec<Token> = Vec::new();
            if n == 0 {
                return Some(v);
            }
            assert(self.position() + (n - 1) < self.tokens().len() && self.tokens()[self.position()
                + (n - 1)].s.same_kind(test@[n - 1]));
            assert(self.tokens@.len() == self.tokens.len());
            let end = self.index + n;
            let mut i: usize = self.index;
            assert(v@ =~= self.tokens@.subrange(self.index as int, i as int));
            while i < end
                invariant
                    self.index <= i <= end <= self.tokens.len(),
                    v@ == self.tokens@.subrange(self.index as int, i as int),
                decreases end - i,
            {
                v.push(self.tokens[i]);
                assert(v@ =~= self.tokens@.subrange(self.index as int, i + 1));
                i += 1;
            }
            self.index = end;
            Some(v)
        } else {
            None
        }
    }

    /// Reads the next token if it is of one of the kinds that `set` lists.
    pub fn next_if_one_of(&mut self, set: Vec<Lex>) -> (r: Option<Token>)
        ensures
            final(self).tokens() == old(self).tokens(),
            r == (if old(self).current() is Some && matches_one(
                old(self).current().unwrap(),
                set@,
            ) {
                old(self).current()
            } else {
                None
            }),
            final(self).position() == (if r is Some {
                old(self).position() + 1
            } else {
                old(self).position()
            }),
    {
        if self.test_if_one_of(set) {
            self.next()
        } else {
            None
        }
    }

    /// The next token, which stays unread.
    pub fn peek(&self) -> (r: Option<&Token>)
        ensures
            r is Some <==> self.current() is Some,
            r is Some ==> Some(*r.unwrap()) == self.current(),
    {
        if self.index < self.tokens.len() {
            Some(&self.tokens[self.index])
        } else {
            None
        }
    }

    /// The token `i` places after the next one, which stays unread.
    pub fn peek_at(&self, i: usize) -> (r: Option<&Token>)
        ensures
            r is Some <==> 0 <= self.position() + i < self.tokens().len(),
            r is Some ==> *r.unwrap() == self.tokens()[self.position() + i],
    {
        if self.index < self.tokens.len() && i < self.tokens.len() - self.index {
            Some(&self.tokens[self.index + i])
        } else {
            None
        }
    }

    /// Whether the next token is of the kind of `test`.
    pub fn test_if(&self, test: &Lex) -> (r: bool)
        ensures
            r == self.at_kind(*test),
    {
        match self.peek() {
            None => false,
            Some(t) => t.token_eq(test),
        }
    }

    /// Whether the next tokens are of the kinds that `test` lists, one for
    /// one.
    pub fn test_ifn(&self, test: Vec<Lex>) -> (r: bool)
        ensures
            r == matches_all(self.tokens(), self.position(), test@),
    {
        let mut i: usize = 0;
        while i < test.len()
            invariant
                0 <= i <= test.len(),
                forall|j: int|
                    0 <= j < i ==> self.index + j < self.tokens@.len() && (
                    #[trigger] self.tokens@[self.index + j]).s.same_kind(test@[j]),
            decreases test.len() - i,
        {
            match self.peek_at(i) {
                None => {
                    assert(!(self.index + i < self.tokens@.len()));
                    return false;
                },
                Some(token) => {
                    if !token.token_eq(&test[i]) {
                        assert(!self.tokens@[self.index + i].s.same_kind(test@[i as int]));
                        return false;
                    }
                },
            }
            i += 1;
        }
        true
    }

    /// Whether the next token is of one of the kinds that `set` lists.
    pub fn test_if_one_of(&self, set: Vec<Lex>) -> (r: bool)
        ensures
            r == (self.current() is Some && matches_one(self.current().unwrap(), set@)),
    {
        match self.peek() {
            None => false,
            Some(t) => {
                let mut i: usize = 0;
                while i < set.len()
                    invariant
                        0 <= i <= set.len(),
                        self.current() == Some(*t),
                        forall|j: int| 0 <= j < i ==> !t.s.same_kind(#[trigger] set@[j]),
                    decreases set.len() - i,
                {
                    if t.token_eq(&set[i]) {
                        assert(t.s.same_kind(set@[i as int]));
                        return true;
                    }
                    i += 1;
                }
                false
            },
        }
    }
}

} // verus!
