//! The lexer: source text to a token stream.
//!
//! `build_token` reads one token starting at the next significant
//! character; `token_at` pins down which token each character class yields
//! and how far the token reaches. `lex` drives it over a whole source text
//! and terminates the stream with an end-of-file token.

use vstd::prelude::*;

use crate::assembler::symbol::Symbol;
use crate::assembler::token::{LiteralToken, Position, SymbolToken, Token};
use crate::assembler::literal::Literal;
use crate::assembler::util::character_provider::CharacterProvider;
use crate::assembler::util::character_provider::{column_at, line_at, next_significant};
use crate::assembler::util::text::push_char;

verus! {

/// Whether a character can start an identifier: an ASCII letter or an
/// underscore.
pub open spec fn is_ident_start(c: char) -> bool {
    (97 <= c as u32 <= 122) || (65 <= c as u32 <= 90) || c == '_'
}

/// Whether a character is an ASCII decimal digit.
pub open spec fn is_digit(c: char) -> bool {
    48 <= c as u32 <= 57
}

/// Whether a character can continue an identifier.
pub open spec fn is_ident_char(c: char) -> bool {
    is_ident_start(c) || is_digit(c)
}

/// The index right after the identifier run starting at `i`.
pub open spec fn ident_end(s: Seq<char>, i: int) -> int
    recommends
        0 <= i <= s.len(),
    decreases s.len() - i,
{
    if i < 0 || i >= s.len() {
        s.len() as int
    } else if is_ident_char(s[i]) {
        ident_end(s, i + 1)
    } else {
        i
    }
}

/// The index right after the digit run starting at `i`.
pub open spec fn digit_end(s: Seq<char>, i: int) -> int
    recommends
        0 <= i <= s.len(),
    decreases s.len() - i,
{
    if i < 0 || i >= s.len() {
        s.len() as int
    } else if is_digit(s[i]) {
        digit_end(s, i + 1)
    } else {
        i
    }
}

/// The value of a digit string, most significant digit first.
pub open spec fn digits_val(s: Seq<char>) -> int
    decreases s.len(),
{
    if s.len() == 0 {
        0
    } else {
        digits_val(s.drop_last()) * 10 + (s.last() as u32 - 48)
    }
}

/// The index of the closing double quote at or after `i`, or the text's
/// end when the string literal is unterminated.
pub open spec fn quote_end(s: Seq<char>, i: int) -> int
    recommends
        0 <= i <= s.len(),
    decreases s.len() - i,
{
    if i < 0 || i >= s.len() {
        s.len() as int
    } else if s[i] == '"' {
        i
    } else {
        quote_end(s, i + 1)
    }
}

/// The symbol starting at index `i` and how many characters it spans, or
/// `None` when the character starts no symbol.
pub open spec fn symbol_at(s: Seq<char>, i: int) -> Option<(Symbol, int)> {
    let c = s[i];
    let eq = i + 1 < s.len() && s[i + 1] == '=';
    if c == ';' {
        Some((Symbol::Semicolon, 1int))
    } else if c == ',' {
        Some((Symbol::Comma, 1int))
    } else if c == '.' {
        Some((Symbol::Period, 1int))
    } else if c == ':' {
        Some((Symbol::Colon, 1int))
    } else if c == '!' {
        if eq {
            Some((Symbol::ExclamationPointEquals, 2int))
        } else {
            Some((Symbol::ExclamationPoint, 1int))
        }
    } else if c == '=' {
        if eq {
            Some((Symbol::DoubleEquals, 2int))
        } else {
            Some((Symbol::Equals, 1int))
        }
    } else if c == '+' {
        if eq {
            Some((Symbol::PlusEquals, 2int))
        } else {
            Some((Symbol::Plus, 1int))
        }
    } else if c == '-' {
        if i + 1 < s.len() && s[i + 1] == '>' {
            Some((Symbol::RightArrow, 2int))
        } else if eq {
            Some((Symbol::MinusEquals, 2int))
        } else {
            Some((Symbol::Minus, 1int))
        }
    } else if c == '/' {
        if eq {
            Some((Symbol::ForwardSlashEquals, 2int))
        } else {
            Some((Symbol::ForwardSlash, 1int))
        }
    } else if c == '*' {
        if eq {
            Some((Symbol::AsteriskEquals, 2int))
        } else {
            Some((Symbol::Asterisk, 1int))
        }
    } else if c == '^' {
        if eq {
            Some((Symbol::CaretEquals, 2int))
        } else {
            Some((Symbol::Caret, 1int))
        }
    } else if c == '&' {
        if i + 1 < s.len() && s[i + 1] == '&' {
            Some((Symbol::DoubleAmpersand, 2int))
        } else if eq {
            Some((Symbol::AmpersandEquals, 2int))
        } else {
            Some((Symbol::Ampersand, 1int))
        }
    } else if c == '|' {
        if i + 1 < s.len() && s[i + 1] == '|' {
            Some((Symbol::DoublePipe, 2int))
        } else if eq {
            Some((Symbol::PipeEquals, 2int))
        } else {
            Some((Symbol::Pipe, 1int))
        }
    } else if c == '(' {
        Some((Symbol::LeftParenthesis, 1int))
    } else if c == ')' {
        Some((Symbol::RightParenthesis, 1int))
    } else if c == '{' {
        Some((Symbol::LeftCurlyBracket, 1int))
    } else if c == '}' {
        Some((Symbol::RightCurlyBracket, 1int))
    } else if c == '<' {
        if eq {
            Some((Symbol::LeftAngledBracketEquals, 2int))
        } else {
            Some((Symbol::LeftAngledBracket, 1int))
        }
    } else if c == '>' {
        if eq {
            Some((Symbol::RightAngledBracketEquals, 2int))
        } else {
            Some((Symbol::RightAngledBracket, 1int))
        }
    } else if c == '[' {
        Some((Symbol::LeftSquareBracket, 1int))
    } else if c == ']' {
        Some((Symbol::RightSquareBracket, 1int))
    } else if c == '\'' {
        Some((Symbol::Apostrophe, 1int))
    } else {
        None
    }
}

/// What token the text yields starting at significant index `j`, and where
/// the token's characters end (`end`). The token's position fields are the
/// scanner's bookkeeping and are not constrained here.
pub open spec fn token_at(s: Seq<char>, j: int, t: Token, end: int) -> bool {
    let c = s[j];
    if is_ident_start(c) {
        let k = ident_end(s, j + 1);
        &&& end == k
        &&& match Token::spec_reserved_word(s.subrange(j, k), t.spec_position()) {
            Some(kw) => t == kw,
            None => t matches Token::Literal(LiteralToken {
                literal: Literal::Identifier { lexeme },
                ..
            }) && lexeme@ == s.subrange(j, k),
        }
    } else if is_digit(c) {
        let k = digit_end(s, j + 1);
        &&& end == k
        &&& if digits_val(s.subrange(j, k)) <= i64::MAX {
            t matches Token::Literal(LiteralToken { literal: Literal::Number { lexeme }, .. })
                && lexeme == digits_val(s.subrange(j, k))
        } else {
            t is Invalid
        }
    } else if c == '(' && j + 1 < s.len() && s[j + 1] == ')' {
        &&& end == j + 2
        &&& t matches Token::Literal(LiteralToken { literal: Literal::Void, .. })
    } else if c == '"' {
        let k = quote_end(s, j + 1);
        if k < s.len() {
            &&& end == k + 1
            &&& t matches Token::Literal(LiteralToken { literal: Literal::Text { lexeme }, .. })
                && lexeme@ == s.subrange(j + 1, k)
        } else {
            &&& end == s.len()
            &&& t is Invalid
        }
    } else {
        match symbol_at(s, j) {
            Some(info) => {
                &&& end == j + info.1
                &&& t matches Token::Symbol(SymbolToken { symbol, .. }) && symbol == info.0
            },
            None => {
                &&& end == j + 1
                &&& t is Invalid
            },
        }
    }
}

/// The lexer: turns one source text into a token stream.
pub struct Lexer {}

impl Lexer {
    /// Create a lexer.
    pub fn new() -> (r: Lexer) {
        Lexer {}
    }

    /// Lex a whole source text: the returned stream holds one token per
    /// lexeme (`build_token` fixes each), and ends with exactly one
    /// end-of-file token positioned at the end of the text.
    pub fn lex(&mut self, source: &str) -> (r: Vec<Token>)
        requires
            source@.len() < 0xFFFF_FFFF,
        ensures
            r@.len() >= 1,
            r@.last() == (Token::EndOfFile {
                position: Position {
                    line: line_at(source@, source@.len() as int) as u32,
                    column: column_at(source@, source@.len() as int) as u32,
                },
            }),
            forall|i: int| 0 <= i < r@.len() - 1 ==> !((#[trigger] r@[i]) is EndOfFile),
    {
        let mut characters = CharacterProvider::new(source);
        let mut tokens: Vec<Token> = Vec::new();
        loop
            invariant
                characters.wf(),
                characters.spec_chars() == source@,
                forall|i: int| 0 <= i < tokens@.len() ==> !((#[trigger] tokens@[i]) is EndOfFile),
            ensures
                characters.wf(),
                characters.spec_chars() == source@,
                characters.spec_idx() == source@.len(),
                forall|i: int| 0 <= i < tokens@.len() ==> !((#[trigger] tokens@[i]) is EndOfFile),
            decreases characters.spec_chars().len() - characters.spec_idx(),
        {
            match Self::build_token(&mut characters) {
                Some(token) => tokens.push(token),
                None => {
                    break ;
                },
            }
        }
        tokens.push(Token::EndOfFile { position: characters.current_position() });
        tokens
    }

    /// Read one token starting at the next significant character: `None`
    /// when only whitespace and comments remain, otherwise the token that
    /// `token_at` assigns to that character, with the cursor left right
    /// after the token's characters.
    fn build_token(characters: &mut CharacterProvider) -> (r: Option<Token>)
        requires
            old(characters).wf(),
        ensures
            final(characters).wf(),
            final(characters).spec_chars() == old(characters).spec_chars(),
            ({
                let s = old(characters).spec_chars();
                let j = next_significant(s, old(characters).spec_idx(), false);
                match r {
                    None => j == s.len() && final(characters).spec_idx() == s.len(),
                    Some(t) => {
                        &&& j < s.len()
                        &&& !(t is EndOfFile)
                        &&& old(characters).spec_idx() < final(characters).spec_idx() <= s.len()
                        &&& token_at(s, j, t, final(characters).spec_idx())
                    },
                }
            }),
    {
        let ghost s = old(characters).spec_chars();
        let ghost j = next_significant(s, old(characters).spec_idx(), false);
        proof {
            old(characters).wf_facts();
            crate::assembler::util::character_provider::lemma_next_significant_bounds(
                s,
                old(characters).spec_idx(),
                false,
            );
        }
        let next_character = match characters.next() {
            Some(c) => c,
            None => {
                return None;
            },
        };
        proof {
            assert(j < s.len());
            assert(s[j] == next_character);
            assert(characters.spec_idx() == j + 1);
        }
        let position = characters.current_position();
        if is_ident_start_char(next_character) {
            let start_column = characters.current_column();
            let mut lexeme = String::new();
            push_char(&mut lexeme, next_character);
            proof {
                assert(lexeme@ =~= s.subrange(j, j + 1));
            }
            loop
                invariant
                    characters.wf(),
                    characters.spec_chars() == s,
                    0 <= j < s.len(),
                    j + 1 <= characters.spec_idx() <= s.len(),
                    lexeme@ =~= s.subrange(j, characters.spec_idx()),
                    ident_end(s, characters.spec_idx()) == ident_end(s, j + 1),
                ensures
                    characters.wf(),
                    characters.spec_chars() == s,
                    j + 1 <= characters.spec_idx() <= s.len(),
                    lexeme@ == s.subrange(j, characters.spec_idx()),
                    characters.spec_idx() == ident_end(s, j + 1),
                decreases s.len() - characters.spec_idx(),
            {
                let more = match characters.peek() {
                    Some(c) => is_ident_continue_char(*c),
                    None => false,
                };
                if !more {
                    break ;
                }
                let c = characters.consume();
                push_char(&mut lexeme, c);
                proof {
                    assert(lexeme@ =~= s.subrange(j, characters.spec_idx()));
                }
            }
            let word_position = Position::new(characters.current_line(), start_column);
            match Token::reserved_word(lexeme.as_str(), word_position) {
                Some(reserved) => Some(reserved),
                None => Some(
                    Token::Literal(
                        LiteralToken {
                            position: word_position,
                            literal: Literal::Identifier { lexeme },
                        },
                    ),
                ),
            }
        } else if is_digit_char(next_character) {
            let start_column = characters.current_column();
            let first = next_character as u32 - 48;
            let mut value: Option<i64> = Some(first as i64);
            proof {
                assert(s.subrange(j, j + 1).drop_last() =~= Seq::<char>::empty());
                assert(s.subrange(j, j + 1).last() == s[j]);
                assert(digits_val(Seq::<char>::empty()) == 0);
                assert(digits_val(s.subrange(j, j + 1)) == s[j] as u32 - 48);
            }
            loop
                invariant
                    characters.wf(),
                    characters.spec_chars() == s,
                    0 <= j < s.len(),
                    is_digit(s[j]),
                    j + 1 <= characters.spec_idx() <= s.len(),
                    digit_end(s, characters.spec_idx()) == digit_end(s, j + 1),
                    forall|m: int| j <= m < characters.spec_idx() ==> is_digit(#[trigger] s[m]),
                    match value {
                        Some(v) => 0 <= v == digits_val(s.subrange(j, characters.spec_idx())),
                        None => digits_val(s.subrange(j, characters.spec_idx())) > i64::MAX,
                    },
                ensures
                    characters.wf(),
                    characters.spec_chars() == s,
                    j + 1 <= characters.spec_idx() <= s.len(),
                    characters.spec_idx() == digit_end(s, j + 1),
                    match value {
                        Some(v) => 0 <= v == digits_val(s.subrange(j, characters.spec_idx())),
                        None => digits_val(s.subrange(j, characters.spec_idx())) > i64::MAX,
                    },
                decreases s.len() - characters.spec_idx(),
            {
                let more = match characters.peek() {
                    Some(c) => is_digit_char(*c),
                    None => false,
                };
                if !more {
                    break ;
                }
                let c = characters.consume();
                let d = (c as u32 - 48) as i64;
                value = match value {
                    Some(v) => match v.checked_mul(10) {
                        Some(v10) => v10.checked_add(d),
                        None => None,
                    },
                    None => None,
                };
                proof {
                    let run = s.subrange(j, characters.spec_idx());
                    assert(run.drop_last() =~= s.subrange(j, characters.spec_idx() - 1));
                    lemma_digits_val_bounds(run);
                }
            }
            let number_position = Position::new(characters.current_line(), start_column);
            match value {
                Some(v) => Some(
                    Token::Literal(
                        LiteralToken {
                            position: number_position,
                            literal: Literal::Number { lexeme: v },
                        },
                    ),
                ),
                None => Some(Token::Invalid { position: characters.current_position() }),
            }
        } else if next_character == '"' {
            let start_column = characters.current_column();
            let mut lexeme = String::new();
            proof {
                assert(lexeme@ =~= s.subrange(j + 1, j + 1));
            }
            loop
                invariant
                    characters.wf(),
                    characters.spec_chars() == s,
                    s == old(characters).spec_chars(),
                    j == next_significant(s, old(characters).spec_idx(), false),
                    0 <= j < s.len(),
                    s[j] == '"',
                    old(characters).spec_idx() <= j,
                    j + 1 <= characters.spec_idx() <= s.len(),
                    lexeme@ =~= s.subrange(j + 1, characters.spec_idx()),
                    quote_end(s, characters.spec_idx()) == quote_end(s, j + 1),
                decreases s.len() - characters.spec_idx(),
            {
                match characters.peek() {
                    None => {
                        return Some(Token::Invalid { position: characters.current_position() });
                    },
                    Some(c) => {
                        if *c == '"' {
                            let _ = characters.consume();
                            return Some(
                                Token::Literal(
                                    LiteralToken {
                                        position: Position::new(
                                            characters.current_line(),
                                            start_column,
                                        ),
                                        literal: Literal::Text { lexeme },
                                    },
                                ),
                            );
                        }
                    },
                }
                let c = characters.consume();
                push_char(&mut lexeme, c);
                proof {
                    assert(lexeme@ =~= s.subrange(j + 1, characters.spec_idx()));
                }
            }
        } else if next_character == '(' && next_char_is(characters, ')') {
            Some(
                Token::Literal(LiteralToken { position, literal: Literal::Void }),
            )
        } else {
            Self::symbol_token(characters, next_character, position)
        }
    }

    /// Read the symbol token that `first` starts, consuming its second
    /// character when it has one; an unrecognised character yields an
    /// invalid token.
    fn symbol_token(characters: &mut CharacterProvider, first: char, position: Position) -> (r:
        Option<Token>)
        requires
            old(characters).wf(),
            !is_ident_start(first),
            !is_digit(first),
            first != '"',
            !(first == '(' && old(characters).spec_idx() < old(characters).spec_chars().len()
                && old(characters).spec_chars()[old(characters).spec_idx()] == ')'),
            old(characters).spec_idx() >= 1,
            old(characters).spec_chars()[old(characters).spec_idx() - 1] == first,
        ensures
            final(characters).wf(),
            final(characters).spec_chars() == old(characters).spec_chars(),
            ({
                let s = old(characters).spec_chars();
                let j = old(characters).spec_idx() - 1;
                &&& r matches Some(t)
                &&& !(t is EndOfFile)
                &&& j < final(characters).spec_idx() <= s.len()
                &&& token_at(s, j, t, final(characters).spec_idx())
            }),
    {
        proof {
            old(characters).wf_facts();
        }
        match first {
            ';' => return Some(Token::Symbol(SymbolToken { position, symbol: Symbol::Semicolon })),
            ',' => return Some(Token::Symbol(SymbolToken { position, symbol: Symbol::Comma })),
            '.' => return Some(Token::Symbol(SymbolToken { position, symbol: Symbol::Period })),
            ':' => return Some(Token::Symbol(SymbolToken { position, symbol: Symbol::Colon })),
            '!' => if next_char_is(characters, '=') {
                return Some(Token::Symbol(SymbolToken { position, symbol: Symbol::ExclamationPointEquals }));
            } else {
                return Some(Token::Symbol(SymbolToken { position, symbol: Symbol::ExclamationPoint }));
            },
            '=' => if next_char_is(characters, '=') {
                return Some(Token::Symbol(SymbolToken { position, symbol: Symbol::DoubleEquals }));
            } else {
                return Some(Token::Symbol(SymbolToken { position, symbol: Symbol::Equals }));
            },
            '+' => if next_char_is(characters, '=') {
                return Some(Token::Symbol(SymbolToken { position, symbol: Symbol::PlusEquals }));
            } else {
                return Some(Token::Symbol(SymbolToken { position, symbol: Symbol::Plus }));
            },
            '-' => if next_char_is(characters, '>') {
                return Some(Token::Symbol(SymbolToken { position, symbol: Symbol::RightArrow }));
            } else if next_char_is(characters, '=') {
                return Some(Token::Symbol(SymbolToken { position, symbol: Symbol::MinusEquals }));
            } else {
                return Some(Token::Symbol(SymbolToken { position, symbol: Symbol::Minus }));
            },
            '/' => if next_char_is(characters, '=') {
                return Some(Token::Symbol(SymbolToken { position, symbol: Symbol::ForwardSlashEquals }));
            } else {
                return Some(Token::Symbol(SymbolToken { position, symbol: Symbol::ForwardSlash }));
            },
            '*' => if next_char_is(characters, '=') {
                return Some(Token::Symbol(SymbolToken { position, symbol: Symbol::AsteriskEquals }));
            } else {
                return Some(Token::Symbol(SymbolToken { position, symbol: Symbol::Asterisk }));
            },
            '^' => if next_char_is(characters, '=') {
                return Some(Token::Symbol(SymbolToken { position, symbol: Symbol::CaretEquals }));
            } else {
                return Some(Token::Symbol(SymbolToken { position, symbol: Symbol::Caret }));
            },
            '&' => if next_char_is(characters, '&') {
                return Some(Token::Symbol(SymbolToken { position, symbol: Symbol::DoubleAmpersand }));
            } else if next_char_is(characters, '=') {
                return Some(Token::Symbol(SymbolToken { position, symbol: Symbol::AmpersandEquals }));
            } else {
                return Some(Token::Symbol(SymbolToken { position, symbol: Symbol::Ampersand }));
            },
            '|' => if next_char_is(characters, '|') {
                return Some(Token::Symbol(SymbolToken { position, symbol: Symbol::DoublePipe }));
            } else if next_char_is(characters, '=') {
                return Some(Token::Symbol(SymbolToken { position, symbol: Symbol::PipeEquals }));
            } else {
                return Some(Token::Symbol(SymbolToken { position, symbol: Symbol::Pipe }));
            },
            '(' => return Some(Token::Symbol(SymbolToken { position, symbol: Symbol::LeftParenthesis })),
            ')' => return Some(Token::Symbol(SymbolToken { position, symbol: Symbol::RightParenthesis })),
            '{' => return Some(Token::Symbol(SymbolToken { position, symbol: Symbol::LeftCurlyBracket })),
            '}' => return Some(Token::Symbol(SymbolToken { position, symbol: Symbol::RightCurlyBracket })),
            '<' => if next_char_is(characters, '=') {
                return Some(Token::Symbol(SymbolToken { position, symbol: Symbol::LeftAngledBracketEquals }));
            } else {
                return Some(Token::Symbol(SymbolToken { position, symbol: Symbol::LeftAngledBracket }));
            },
            '>' => if next_char_is(characters, '=') {
                return Some(Token::Symbol(SymbolToken { position, symbol: Symbol::RightAngledBracketEquals }));
            } else {
                return Some(Token::Symbol(SymbolToken { position, symbol: Symbol::RightAngledBracket }));
            },
            '[' => return Some(Token::Symbol(SymbolToken { position, symbol: Symbol::LeftSquareBracket })),
            ']' => return Some(Token::Symbol(SymbolToken { position, symbol: Symbol::RightSquareBracket })),
            '\'' => return Some(Token::Symbol(SymbolToken { position, symbol: Symbol::Apostrophe })),
            _ => {
                return Some(Token::Invalid { position });
            },
        }
    }
}

/// Whether a character can start an identifier.
fn is_ident_start_char(c: char) -> (r: bool)
    ensures
        r == is_ident_start(c),
{
    let u = c as u32;
    (97 <= u && u <= 122) || (65 <= u && u <= 90) || c == '_'
}

/// Whether a character can continue an identifier.
fn is_ident_continue_char(c: char) -> (r: bool)
    ensures
        r == is_ident_char(c),
{
    is_ident_start_char(c) || is_digit_char(c)
}

/// Whether a character is an ASCII decimal digit.
fn is_digit_char(c: char) -> (r: bool)
    ensures
        r == is_digit(c),
{
    let u = c as u32;
    48 <= u && u <= 57
}

/// Consume the next raw character exactly when it equals `character`.
fn next_char_is(characters: &mut CharacterProvider, character: char) -> (r: bool)
    requires
        old(characters).wf(),
    ensures
        final(characters).wf(),
        final(characters).spec_chars() == old(characters).spec_chars(),
        ({
            let s = old(characters).spec_chars();
            let i = old(characters).spec_idx();
            if i < s.len() && s[i] == character {
                r && final(characters).spec_idx() == i + 1
            } else {
                !r && final(characters).spec_idx() == i
            }
        }),
{
    let matches_next = match characters.peek() {
        Some(c) => *c == character,
        None => false,
    };
    if matches_next {
        let _ = characters.consume();
        true
    } else {
        false
    }
}

/// A digit string's value is non-negative, and appending digits never
/// shrinks it.
proof fn lemma_digits_val_bounds(s: Seq<char>)
    requires
        forall|m: int| 0 <= m < s.len() ==> is_digit(#[trigger] s[m]),
        s.len() > 0,
    ensures
        digits_val(s) >= digits_val(s.drop_last()) >= 0,
    decreases s.len(),
{
    if s.len() > 1 {
        lemma_digits_val_bounds(s.drop_last());
    }
}

} // verus!
