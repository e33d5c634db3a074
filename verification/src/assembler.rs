//! The assembler front end: a lexer and recursive-descent parser for the
//! source language, with the token model and cursor utilities they share.
//! The emulator core itself only needs byte streams; this side turns text
//! into them.

pub mod keyword;
pub mod lexer;
pub mod literal;
pub mod parser;
pub mod symbol;
pub mod token;
pub mod util;

use vstd::prelude::*;

use crate::assembler::lexer::Lexer;
use crate::assembler::parser::{Parser, SyntaxTree};
use crate::assembler::token::Token;

verus! {

/// The front-end driver: owns the lexer and the parser and the host's
/// display switches.
pub struct Interpreter {
    lexer: Lexer,
    parser: Parser,
    show_tokens: bool,
    show_tree: bool,
}

impl Interpreter {
    /// Whether the next run should print its token stream.
    pub closed spec fn spec_show_tokens(&self) -> bool {
        self.show_tokens
    }

    /// Whether the next run should print its syntax tree.
    pub closed spec fn spec_show_tree(&self) -> bool {
        self.show_tree
    }

    /// Create a front end with both display switches off.
    pub fn new() -> (r: Interpreter)
        ensures
            !r.spec_show_tokens(),
            !r.spec_show_tree(),
    {
        let lexer = Lexer::new();
        let parser = Parser::new();
        Interpreter { lexer, parser, show_tokens: false, show_tree: false }
    }

    /// Whether the host should print the next run's token stream.
    pub fn wants_tokens(&self) -> (r: bool)
        ensures
            r == self.spec_show_tokens(),
    {
        self.show_tokens
    }

    /// Whether the host should print the next run's syntax tree.
    pub fn wants_tree(&self) -> (r: bool)
        ensures
            r == self.spec_show_tree(),
    {
        self.show_tree
    }

    /// Ask the next run to print its syntax tree.
    pub fn show_tree(&mut self)
        ensures
            final(self).spec_show_tree(),
            final(self).spec_show_tokens() == old(self).spec_show_tokens(),
    {
        self.show_tree = true;
    }

    /// Ask the next run to print its token stream.
    pub fn show_next_tokens(&mut self)
        ensures
            final(self).spec_show_tokens(),
            final(self).spec_show_tree() == old(self).spec_show_tree(),
    {
        self.show_tokens = true;
    }

    /// Lex and parse one source text. A host that honours the display
    /// switches reads them before this call; both reset afterwards.
    pub fn front_end(&mut self, source: &str) -> (r: (Vec<Token>, SyntaxTree))
        requires
            source@.len() < 0xFFFF_FFFF,
        ensures
            r.0@.len() >= 1,
            r.0@.last() is EndOfFile,
            r.1.eof is EndOfFile,
            !final(self).spec_show_tokens(),
            !final(self).spec_show_tree(),
    {
        let tokens = self.lexer.lex(source);
        let tree = self.parser.parse(tokens.as_slice());
        self.show_tokens = false;
        self.show_tree = false;
        (tokens, tree)
    }
}

} // verus!
