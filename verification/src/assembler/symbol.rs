//! The punctuation tokens of the front-end grammar.

use vstd::prelude::*;
use vstd::string::StringExecFns;

verus! {

/// One punctuation symbol, one or two characters long.
#[derive(Clone, Copy, PartialEq, Eq, Structural, Debug)]
pub enum Symbol {
    Semicolon,
    Comma,
    Period,
    Colon,
    ExclamationPoint,
    ExclamationPointEquals,
    Equals,
    DoubleEquals,
    Plus,
    PlusEquals,
    Minus,
    MinusEquals,
    RightArrow,
    ForwardSlash,
    ForwardSlashEquals,
    Asterisk,
    AsteriskEquals,
    Caret,
    CaretEquals,
    Ampersand,
    DoubleAmpersand,
    AmpersandEquals,
    Pipe,
    DoublePipe,
    PipeEquals,
    LeftParenthesis,
    RightParenthesis,
    LeftCurlyBracket,
    RightCurlyBracket,
    LeftAngledBracket,
    LeftAngledBracketEquals,
    RightAngledBracket,
    RightAngledBracketEquals,
    LeftSquareBracket,
    RightSquareBracket,
    Apostrophe,
}

impl Symbol {
    /// The characters this symbol is written with.
    pub open spec fn spec_lexeme(self) -> Seq<char> {
        match self {
            Symbol::Semicolon => ";"@,
            Symbol::Comma => ","@,
            Symbol::Period => "."@,
            Symbol::Colon => ":"@,
            Symbol::ExclamationPoint => "!"@,
            Symbol::ExclamationPointEquals => "!="@,
            Symbol::Equals => "="@,
            Symbol::DoubleEquals => "=="@,
            Symbol::Plus => "+"@,
            Symbol::PlusEquals => "+="@,
            Symbol::Minus => "-"@,
            Symbol::MinusEquals => "-="@,
            Symbol::RightArrow => "->"@,
            Symbol::ForwardSlash => "/"@,
            Symbol::ForwardSlashEquals => "/="@,
            Symbol::Asterisk => "*"@,
            Symbol::AsteriskEquals => "*="@,
            Symbol::Caret => "^"@,
            Symbol::CaretEquals => "^="@,
            Symbol::Ampersand => "&"@,
            Symbol::DoubleAmpersand => "&&"@,
            Symbol::AmpersandEquals => "&="@,
            Symbol::Pipe => "|"@,
            Symbol::DoublePipe => "||"@,
            Symbol::PipeEquals => "|="@,
            Symbol::LeftParenthesis => "("@,
            Symbol::RightParenthesis => ")"@,
            Symbol::LeftCurlyBracket => "{"@,
            Symbol::RightCurlyBracket => "}"@,
            Symbol::LeftAngledBracket => "<"@,
            Symbol::LeftAngledBracketEquals => "<="@,
            Symbol::RightAngledBracket => ">"@,
            Symbol::RightAngledBracketEquals => ">="@,
            Symbol::LeftSquareBracket => "["@,
            Symbol::RightSquareBracket => "]"@,
            Symbol::Apostrophe => "'"@,
        }
    }

    /// The source text of this symbol.
    pub fn lexeme(&self) -> (r: String)
        ensures
            r@ == self.spec_lexeme(),
    {
        match self {
            Symbol::Semicolon => String::from_str(";"),
            Symbol::Comma => String::from_str(","),
            Symbol::Period => String::from_str("."),
            Symbol::Colon => String::from_str(":"),
            Symbol::ExclamationPoint => String::from_str("!"),
            Symbol::ExclamationPointEquals => String::from_str("!="),
            Symbol::Equals => String::from_str("="),
            Symbol::DoubleEquals => String::from_str("=="),
            Symbol::Plus => String::from_str("+"),
            Symbol::PlusEquals => String::from_str("+="),
            Symbol::Minus => String::from_str("-"),
            Symbol::MinusEquals => String::from_str("-="),
            Symbol::RightArrow => String::from_str("->"),
            Symbol::ForwardSlash => String::from_str("/"),
            Symbol::ForwardSlashEquals => String::from_str("/="),
            Symbol::Asterisk => String::from_str("*"),
            Symbol::AsteriskEquals => String::from_str("*="),
            Symbol::Caret => String::from_str("^"),
            Symbol::CaretEquals => String::from_str("^="),
            Symbol::Ampersand => String::from_str("&"),
            Symbol::DoubleAmpersand => String::from_str("&&"),
            Symbol::AmpersandEquals => String::from_str("&="),
            Symbol::Pipe => String::from_str("|"),
            Symbol::DoublePipe => String::from_str("||"),
            Symbol::PipeEquals => String::from_str("|="),
            Symbol::LeftParenthesis => String::from_str("("),
            Symbol::RightParenthesis => String::from_str(")"),
            Symbol::LeftCurlyBracket => String::from_str("{"),
            Symbol::RightCurlyBracket => String::from_str("}"),
            Symbol::LeftAngledBracket => String::from_str("<"),
            Symbol::LeftAngledBracketEquals => String::from_str("<="),
            Symbol::RightAngledBracket => String::from_str(">"),
            Symbol::RightAngledBracketEquals => String::from_str(">="),
            Symbol::LeftSquareBracket => String::from_str("["),
            Symbol::RightSquareBracket => String::from_str("]"),
            Symbol::Apostrophe => String::from_str("'"),
        }
    }
}

} // verus!
