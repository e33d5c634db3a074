//! A cursor over a lexed token stream.

use vstd::prelude::*;

use crate::assembler::token::{Position, Token};

verus! {

/// What a token cursor yields: a token, the end-of-file marker's position,
/// or the position past the last token when the stream is exhausted.
#[derive(Clone, Debug)]
pub enum Next<T> {
    Token(T),
    EndOfFile { position: Position },
    EndOfStream { position: Position },
}

impl<T: Clone> Next<&T> {
    /// Clone the referenced token out of the cursor's answer.
    pub fn cloned(&self) -> (r: Next<T>)
        ensures
            (*self is Token <==> r is Token),
            (self matches Next::EndOfFile { position } ==> (r matches Next::EndOfFile {
                position: q,
            } && q == *position)),
            (self matches Next::EndOfStream { position } ==> (r matches Next::EndOfStream {
                position: q,
            } && q == *position)),
    {
        match self {
            Next::Token(token) => Next::Token((*token).clone()),
            Next::EndOfFile { position } => Next::EndOfFile { position: *position },
            Next::EndOfStream { position } => Next::EndOfStream { position: *position },
        }
    }
}

/// A cursor over a borrowed token slice. The final `EndOfFile` token is
/// reported as `Next::EndOfFile`; walking past the end of the slice yields
/// `Next::EndOfStream` at the last seen end-of-file position.
pub struct TokenProvider<'a> {
    previous_valid_token: Token,
    tokens: &'a [Token],
    idx: usize,
    last_line: u32,
    last_column: u32,
}

impl<'a> TokenProvider<'a> {
    /// The token stream.
    pub closed spec fn spec_tokens(&self) -> Seq<Token> {
        self.tokens@
    }

    /// How many tokens have been consumed.
    pub closed spec fn spec_idx(&self) -> int {
        self.idx as int
    }

    /// The cursor is within the stream.
    pub open spec fn wf(&self) -> bool {
        self.spec_idx() <= self.spec_tokens().len()
    }

    /// The most recent consumed token that was not an end-of-file marker.
    pub closed spec fn spec_previous_valid(&self) -> Token {
        self.previous_valid_token
    }

    /// A well-formed cursor sits within its stream.
    pub proof fn wf_facts(&self)
        requires
            self.wf(),
        ensures
            0 <= self.spec_idx() <= self.spec_tokens().len(),
    {
    }

    /// Open a cursor at the start of a token stream.
    pub fn new(tokens: &'a [Token]) -> (r: TokenProvider<'a>)
        ensures
            r.wf(),
            r.spec_tokens() == tokens@,
            r.spec_idx() == 0,
            r.spec_previous_valid() == (Token::EndOfFile {
                position: Position { line: 0, column: 0 },
            }),
    {
        TokenProvider {
            previous_valid_token: Token::EndOfFile { position: Position { line: 0, column: 0 } },
            tokens,
            idx: 0,
            last_line: 0,
            last_column: 0,
        }
    }

    /// Look at the next token without consuming it.
    pub fn peek(&mut self) -> (r: Next<&Token>)
        requires
            old(self).wf(),
        ensures
            final(self).wf(),
            final(self).spec_tokens() == old(self).spec_tokens(),
            final(self).spec_idx() == old(self).spec_idx(),
            final(self).spec_previous_valid() == old(self).spec_previous_valid(),
            ({
                let s = old(self).spec_tokens();
                let i = old(self).spec_idx();
                if i < s.len() {
                    match s[i] {
                        Token::EndOfFile { position } => r == (Next::EndOfFile::<&Token> {
                            position,
                        }),
                        _ => r matches Next::Token(t) && *t == s[i],
                    }
                } else {
                    r is EndOfStream
                }
            }),
    {
        if self.idx < self.tokens.len() {
            let token = &self.tokens[self.idx];
            match token {
                Token::EndOfFile { position } => {
                    self.last_line = position.line;
                    self.last_column = position.column;
                    Next::EndOfFile { position: *position }
                },
                t => Next::Token(t),
            }
        } else {
            Next::EndOfStream { position: Position::new(self.last_line, self.last_column) }
        }
    }

    /// The most recent consumed token that was not an end-of-file marker.
    pub fn previous_valid(&self) -> (r: &Token)
        ensures
            *r == self.spec_previous_valid(),
    {
        &self.previous_valid_token
    }

    /// Consume the next token. An ordinary token is remembered as the
    /// previous valid token.
    pub fn next(&mut self) -> (r: Next<&'a Token>)
        requires
            old(self).wf(),
        ensures
            final(self).wf(),
            final(self).spec_tokens() == old(self).spec_tokens(),
            ({
                let s = old(self).spec_tokens();
                let i = old(self).spec_idx();
                if i < s.len() {
                    &&& final(self).spec_idx() == i + 1
                    &&& match s[i] {
                        Token::EndOfFile { position } => r == (Next::EndOfFile::<&'a Token> {
                            position,
                        }) && final(self).spec_previous_valid() == old(
                            self,
                        ).spec_previous_valid(),
                        _ => r matches Next::Token(t) && *t == s[i],
                    }
                } else {
                    &&& final(self).spec_idx() == i
                    &&& r is EndOfStream
                    &&& final(self).spec_previous_valid() == old(self).spec_previous_valid()
                }
            }),
    {
        if self.idx < self.tokens.len() {
            let token = &self.tokens[self.idx];
            self.idx = self.idx + 1;
            match token {
                Token::EndOfFile { position } => Next::EndOfFile { position: *position },
                t => {
                    self.previous_valid_token = t.clone();
                    Next::Token(t)
                },
            }
        } else {
            Next::EndOfStream { position: Position::new(self.last_line, self.last_column) }
        }
    }
}

} // verus!
