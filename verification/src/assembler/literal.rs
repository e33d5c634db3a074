//! Literal tokens: mnemonics, identifiers, numbers, text, and the unit
//! value.

use vstd::prelude::*;
use vstd::string::StringExecFns;

use crate::assembler::util::text::{dec_string, i64_to_string};
use crate::instruction::OpCode;

verus! {

/// One literal as it appeared in the source.
#[derive(Clone, PartialEq, Debug)]
pub enum Literal {
    /// A 6502 mnemonic.
    OpCode { lexeme: OpCode },
    /// A name.
    Identifier { lexeme: String },
    /// A decimal number.
    Number { lexeme: i64 },
    /// A quoted string (without its quotes).
    Text { lexeme: String },
    /// The unit value, written `()`.
    Void,
}

/// A literal's payload, handed out by `Literal::value`.
#[derive(Clone, PartialEq, Debug)]
pub enum LiteralValue {
    OpCode(OpCode),
    Identifier(String),
    Number(i64),
    Text(String),
    Void,
}

impl Literal {
    /// The characters this literal is written with.
    pub open spec fn spec_lexeme(self) -> Seq<char> {
        match self {
            Literal::OpCode { lexeme } => lexeme.spec_name(),
            Literal::Identifier { lexeme } => lexeme@,
            Literal::Number { lexeme } => dec_string(lexeme as int),
            Literal::Text { lexeme } => lexeme@,
            Literal::Void => "()"@,
        }
    }

    /// The source text of this literal.
    pub fn lexeme(&self) -> (r: String)
        ensures
            r@ == self.spec_lexeme(),
    {
        match self {
            Literal::OpCode { lexeme } => String::from_str(lexeme.name()),
            Literal::Identifier { lexeme } => clone_string(lexeme),
            Literal::Number { lexeme } => i64_to_string(*lexeme),
            Literal::Text { lexeme } => clone_string(lexeme),
            Literal::Void => String::from_str("()"),
        }
    }

    /// The payload this literal carries.
    pub fn value(&self) -> (r: LiteralValue)
        ensures
            match *self {
                Literal::OpCode { lexeme } => r matches LiteralValue::OpCode(o) && o == lexeme,
                Literal::Identifier { lexeme } => r matches LiteralValue::Identifier(s) && s@
                    == lexeme@,
                Literal::Number { lexeme } => r matches LiteralValue::Number(n) && n == lexeme,
                Literal::Text { lexeme } => r matches LiteralValue::Text(s) && s@ == lexeme@,
                Literal::Void => r is Void,
            },
    {
        match self {
            Literal::OpCode { lexeme } => LiteralValue::OpCode(*lexeme),
            Literal::Identifier { lexeme } => LiteralValue::Identifier(clone_string(lexeme)),
            Literal::Number { lexeme } => LiteralValue::Number(*lexeme),
            Literal::Text { lexeme } => LiteralValue::Text(clone_string(lexeme)),
            Literal::Void => LiteralValue::Void,
        }
    }
}

/// Copy a string, keeping its characters.
pub fn clone_string(s: &String) -> (r: String)
    ensures
        r@ == s@,
{
    String::from_str(s.as_str())
}

} // verus!
