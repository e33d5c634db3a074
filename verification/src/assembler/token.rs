//! Tokens of the front-end grammar, with their source positions.

use vstd::prelude::*;
use vstd::string::StringExecFns;

use crate::assembler::keyword::Keyword;
use crate::assembler::literal::Literal;
use crate::assembler::symbol::Symbol;
use crate::assembler::util::text::str_eq;

verus! {

/// A line and column in the source text, both starting at the first line
/// and column 0.
#[derive(Clone, Copy, PartialEq, Eq, Structural, Debug)]
pub struct Position {
    pub line: u32,
    pub column: u32,
}

impl Position {
    /// Pack a line and column.
    pub fn new(line: u32, column: u32) -> (r: Position)
        ensures
            r == (Position { line, column }),
    {
        Position { line, column }
    }
}

/// A punctuation token and where it stood.
#[derive(Clone, PartialEq, Debug)]
pub struct SymbolToken {
    pub position: Position,
    pub symbol: Symbol,
}

/// A reserved-word token and where it stood.
#[derive(Clone, PartialEq, Debug)]
pub struct KeywordToken {
    pub position: Position,
    pub keyword: Keyword,
}

/// A literal token and where it stood.
#[derive(Clone, PartialEq, Debug)]
pub struct LiteralToken {
    pub position: Position,
    pub literal: Literal,
}

/// One token of the source stream.
#[derive(Clone, PartialEq, Debug)]
pub enum Token {
    Symbol(SymbolToken),
    Keyword(KeywordToken),
    Literal(LiteralToken),
    EndOfFile { position: Position },
    Invalid { position: Position },
}

impl Token {
    /// Where this token stood in the source.
    pub open spec fn spec_position(self) -> Position {
        match self {
            Token::Symbol(SymbolToken { position, .. }) => position,
            Token::Keyword(KeywordToken { position, .. }) => position,
            Token::Literal(LiteralToken { position, .. }) => position,
            Token::EndOfFile { position } => position,
            Token::Invalid { position } => position,
        }
    }

    /// Where this token stood in the source.
    pub fn position(&self) -> (r: Position)
        ensures
            r == self.spec_position(),
    {
        match self {
            Token::Symbol(SymbolToken { position, .. }) => *position,
            Token::Keyword(KeywordToken { position, .. }) => *position,
            Token::Literal(LiteralToken { position, .. }) => *position,
            Token::EndOfFile { position } => *position,
            Token::Invalid { position } => *position,
        }
    }

    /// The characters this token is written with; the end-of-file and
    /// invalid tokens print as fixed markers.
    pub open spec fn spec_lexeme(self) -> Seq<char> {
        match self {
            Token::Symbol(SymbolToken { symbol, .. }) => symbol.spec_lexeme(),
            Token::Keyword(KeywordToken { keyword, .. }) => keyword.spec_lexeme(),
            Token::Literal(LiteralToken { literal, .. }) => literal.spec_lexeme(),
            Token::EndOfFile { .. } => "[EOF]"@,
            Token::Invalid { .. } => "[INV]"@,
        }
    }

    /// The source text of this token.
    pub fn lexeme(&self) -> (r: String)
        ensures
            r@ == self.spec_lexeme(),
    {
        match self {
            Token::Symbol(SymbolToken { symbol, .. }) => symbol.lexeme(),
            Token::Keyword(KeywordToken { keyword, .. }) => keyword.lexeme(),
            Token::Literal(LiteralToken { literal, .. }) => literal.lexeme(),
            Token::EndOfFile { .. } => String::from_str("[EOF]"),
            Token::Invalid { .. } => String::from_str("[INV]"),
        }
    }

    /// The keyword token a word names, if the word is reserved.
    pub open spec fn spec_reserved_word(value: Seq<char>, position: Position) -> Option<Token> {
        if value == Keyword::If.spec_lexeme() {
            Some(Token::Keyword(KeywordToken { position, keyword: Keyword::If }))
        } else if value == Keyword::Else.spec_lexeme() {
            Some(Token::Keyword(KeywordToken { position, keyword: Keyword::Else }))
        } else if value == Keyword::For.spec_lexeme() {
            Some(Token::Keyword(KeywordToken { position, keyword: Keyword::For }))
        } else if value == Keyword::While.spec_lexeme() {
            Some(Token::Keyword(KeywordToken { position, keyword: Keyword::While }))
        } else if value == Keyword::Loop.spec_lexeme() {
            Some(Token::Keyword(KeywordToken { position, keyword: Keyword::Loop }))
        } else if value == Keyword::Return.spec_lexeme() {
            Some(Token::Keyword(KeywordToken { position, keyword: Keyword::Return }))
        } else if value == Keyword::SelfValue.spec_lexeme() {
            Some(Token::Keyword(KeywordToken { position, keyword: Keyword::SelfValue }))
        } else if value == Keyword::SelfType.spec_lexeme() {
            Some(Token::Keyword(KeywordToken { position, keyword: Keyword::SelfType }))
        } else if value == Keyword::Super.spec_lexeme() {
            Some(Token::Keyword(KeywordToken { position, keyword: Keyword::Super }))
        } else if value == Keyword::Import.spec_lexeme() {
            Some(Token::Keyword(KeywordToken { position, keyword: Keyword::Import }))
        } else if value == Keyword::Export.spec_lexeme() {
            Some(Token::Keyword(KeywordToken { position, keyword: Keyword::Export }))
        } else if value == Keyword::Public.spec_lexeme() {
            Some(Token::Keyword(KeywordToken { position, keyword: Keyword::Public }))
        } else if value == Keyword::Type.spec_lexeme() {
            Some(Token::Keyword(KeywordToken { position, keyword: Keyword::Type }))
        } else if value == Keyword::Impl.spec_lexeme() {
            Some(Token::Keyword(KeywordToken { position, keyword: Keyword::Impl }))
        } else if value == Keyword::As.spec_lexeme() {
            Some(Token::Keyword(KeywordToken { position, keyword: Keyword::As }))
        } else if value == Keyword::Trait.spec_lexeme() {
            Some(Token::Keyword(KeywordToken { position, keyword: Keyword::Trait }))
        } else if value == Keyword::True.spec_lexeme() {
            Some(Token::Keyword(KeywordToken { position, keyword: Keyword::True }))
        } else if value == Keyword::False.spec_lexeme() {
            Some(Token::Keyword(KeywordToken { position, keyword: Keyword::False }))
        } else {
            None
        }
    }

    /// Recognise a reserved word: `Some` of its keyword token exactly when
    /// the word is one of the reserved words, `None` otherwise.
    pub fn reserved_word(value: &str, position: Position) -> (r: Option<Token>)
        ensures
            r == Token::spec_reserved_word(value@, position),
    {
        if str_eq(value, "if") {
            return Some(Token::Keyword(KeywordToken { position, keyword: Keyword::If }));
        }
        if str_eq(value, "else") {
            return Some(Token::Keyword(KeywordToken { position, keyword: Keyword::Else }));
        }
        if str_eq(value, "for") {
            return Some(Token::Keyword(KeywordToken { position, keyword: Keyword::For }));
        }
        if str_eq(value, "while") {
            return Some(Token::Keyword(KeywordToken { position, keyword: Keyword::While }));
        }
        if str_eq(value, "loop") {
            return Some(Token::Keyword(KeywordToken { position, keyword: Keyword::Loop }));
        }
        if str_eq(value, "return") {
            return Some(Token::Keyword(KeywordToken { position, keyword: Keyword::Return }));
        }
        if str_eq(value, "self") {
            return Some(Token::Keyword(KeywordToken { position, keyword: Keyword::SelfValue }));
        }
        if str_eq(value, "Self") {
            return Some(Token::Keyword(KeywordToken { position, keyword: Keyword::SelfType }));
        }
        if str_eq(value, "super") {
            return Some(Token::Keyword(KeywordToken { position, keyword: Keyword::Super }));
        }
        if str_eq(value, "import") {
            return Some(Token::Keyword(KeywordToken { position, keyword: Keyword::Import }));
        }
        if str_eq(value, "export") {
            return Some(Token::Keyword(KeywordToken { position, keyword: Keyword::Export }));
        }
        if str_eq(value, "public") {
            return Some(Token::Keyword(KeywordToken { position, keyword: Keyword::Public }));
        }
        if str_eq(value, "type") {
            return Some(Token::Keyword(KeywordToken { position, keyword: Keyword::Type }));
        }
        if str_eq(value, "impl") {
            return Some(Token::Keyword(KeywordToken { position, keyword: Keyword::Impl }));
        }
        if str_eq(value, "as") {
            return Some(Token::Keyword(KeywordToken { position, keyword: Keyword::As }));
        }
        if str_eq(value, "trait") {
            return Some(Token::Keyword(KeywordToken { position, keyword: Keyword::Trait }));
        }
        if str_eq(value, "true") {
            return Some(Token::Keyword(KeywordToken { position, keyword: Keyword::True }));
        }
        if str_eq(value, "false") {
            return Some(Token::Keyword(KeywordToken { position, keyword: Keyword::False }));
        }
        None
    }
}

} // verus!
