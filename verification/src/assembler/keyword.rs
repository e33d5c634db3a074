//! The reserved words of the front-end grammar.

use vstd::prelude::*;
use vstd::string::StringExecFns;

verus! {

/// One reserved word.
#[derive(Clone, Copy, PartialEq, Eq, Structural, Debug)]
pub enum Keyword {
    If,
    Else,
    For,
    While,
    Loop,
    Return,
    SelfValue,
    SelfType,
    Super,
    Import,
    Export,
    Public,
    Type,
    Impl,
    As,
    Trait,
    True,
    False,
}

impl Keyword {
    /// The characters this keyword is written with.
    pub open spec fn spec_lexeme(self) -> Seq<char> {
        match self {
            Keyword::If => "if"@,
            Keyword::Else => "else"@,
            Keyword::For => "for"@,
            Keyword::While => "while"@,
            Keyword::Loop => "loop"@,
            Keyword::Return => "return"@,
            Keyword::SelfValue => "self"@,
            Keyword::SelfType => "Self"@,
            Keyword::Super => "super"@,
            Keyword::Import => "import"@,
            Keyword::Export => "export"@,
            Keyword::Public => "public"@,
            Keyword::Type => "type"@,
            Keyword::Impl => "impl"@,
            Keyword::As => "as"@,
            Keyword::Trait => "trait"@,
            Keyword::True => "true"@,
            Keyword::False => "false"@,
        }
    }

    /// The source text of this keyword.
    pub fn lexeme(&self) -> (r: String)
        ensures
            r@ == self.spec_lexeme(),
    {
        match self {
            Keyword::If => String::from_str("if"),
            Keyword::Else => String::from_str("else"),
            Keyword::For => String::from_str("for"),
            Keyword::While => String::from_str("while"),
            Keyword::Loop => String::from_str("loop"),
            Keyword::Return => String::from_str("return"),
            Keyword::SelfValue => String::from_str("self"),
            Keyword::SelfType => String::from_str("Self"),
            Keyword::Super => String::from_str("super"),
            Keyword::Import => String::from_str("import"),
            Keyword::Export => String::from_str("export"),
            Keyword::Public => String::from_str("public"),
            Keyword::Type => String::from_str("type"),
            Keyword::Impl => String::from_str("impl"),
            Keyword::As => String::from_str("as"),
            Keyword::Trait => String::from_str("trait"),
            Keyword::True => String::from_str("true"),
            Keyword::False => String::from_str("false"),
        }
    }
}

} // verus!
